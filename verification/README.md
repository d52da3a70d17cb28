# juiz_core

The core of juiz, a framework of processes, containers, connections and
brokers, as a library verified with Verus.

- `src/` — the verified library:
  - `value` — JSON values (manifests, profiles, arguments) and their
    mathematical view; member lookup and merging.
  - `identifier` — identifiers `broker_type://broker/class/object::type`:
    building them, reading them from manifests, splitting them with the
    identifier pattern (through the `regex` crate).
  - `object` — object classes, object cores and the `JuizObject` trait.
  - `connection` — connection types and connection cores.
  - `plugin` — plugin file names and paths, and the plugin kinds.
  - `process` — processes: arguments, output, invocation, and the
    connections that feed their arguments and that their output feeds.
  - `core_broker` — the core broker's rack of processes and calls into it.
  - `python_container_factory` — the factory of Python containers and its
    manifest defaults.
  - `broker_factories_wrapper` — pairs of broker and broker proxy factories.
  - `crud` — the tables of CRUD operations and the reading of their
    parameters.
  - `broker_proxy` — the broker operations that CRUD calls reach, and the
    dispatch of a CRUD call to them.
  - `execution_context`, `listing`, `pairs`, `strings`, `error`.
- `tests/` — tests of the library on concrete values.
- `app/` — what stays outside the verified library: conversion from and to
  `serde_json`, opening plugin libraries, the local broker proxy's channels,
  the HTTP API documentation and the command-line subcommands.
