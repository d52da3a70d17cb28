use vstd::prelude::*;
use crate::connection::{ConnectionCore, connection_from_manifest, connection_manifest_error, connection_manifest_ok};
use crate::error::{JuizError, is_key_error};
use crate::identifier::{
    Identifier,
    KEY_TYPE_NAME,
    create_identifier_from_manifest,
    identifier_from_manifest,
    key_type_name,
    manifest_identifier,
};
use crate::object::{JuizObject, JuizObjectClass, JuizObjectCoreHolder, ObjectCore, core_object};
use crate::strings::{concat, str_eq, string_of};
use crate::value::{
    JsonView,
    Value,
    entries_view,
    json_get,
    json_obj,
    json_str,
    lemma_entries_view_dom,
    lemma_entries_view_last,
    obj_get,
    obj_get_obj,
    obj_get_str,
    value_view,
};

verus! {

/// An argument of a process: its name, its default value, the value bound
/// to it, if any, and the connections that feed it. Binding a value marks the
/// argument as updated.
#[derive(Debug, PartialEq)]
pub struct Inlet {
    pub name: String,
    pub default_value: Value,
    pub bound_value: Option<Value>,
    pub updated: bool,
    pub source_connections: Vec<ConnectionCore>,
}

/// The value that an argument hands to its process: the bound value, else the default.
pub open spec fn inlet_value(i: Inlet) -> JsonView {
    match i.bound_value {
        Some(v) => v@,
        None => i.default_value@,
    }
}

/// The profile of an argument: its name and its default value.
pub open spec fn inlet_profile(i: Inlet) -> JsonView {
    JsonView::Object(Map::empty().insert("name"@, JsonView::Str(i.name@)).insert("default"@, i.default_value@))
}

/// The profile of an output side: the recorded output, `null` where there is none.
pub open spec fn outlet_profile(o: Outlet) -> JsonView {
    JsonView::Object(
        Map::empty().insert(
            "memo"@,
            match o.memo {
                Some(v) => v@,
                None => JsonView::Null,
            },
        ),
    )
}

impl Inlet {
    /// The profile of the argument (see `inlet_profile`).
    pub fn profile_full(&self) -> (r: Result<Value, JuizError>)
        ensures
            r matches Ok(v) && v@ == inlet_profile(*self),
    {
        let mut entries: Vec<(String, Value)> = Vec::new();
        crate::value::entries_push(&mut entries, "name", crate::value::string_value(self.name.as_str()));
        crate::value::entries_push(&mut entries, "default", self.default_value.duplicate());
        Ok(Value::Object(entries))
    }

    /// An argument with a default value and nothing bound.
    pub fn new(name: &str, default_value: Value) -> (r: Inlet)
        ensures
            r.name@ == name@,
            r.default_value == default_value,
            r.bound_value is None,
            !r.updated,
            r.source_connections@.len() == 0,
    {
        Inlet { name: string_of(name), default_value, bound_value: None, updated: false, source_connections: Vec::new() }
    }

    pub fn name(&self) -> (r: &String)
        ensures
            *r == self.name,
    {
        &self.name
    }

    /// The value the argument hands to its process.
    pub fn collect_value(&self) -> (r: Value)
        ensures
            r@ == inlet_value(*self),
    {
        match &self.bound_value {
            Some(v) => v.duplicate(),
            None => self.default_value.duplicate(),
        }
    }

    pub fn is_updated(&self) -> (r: bool)
        ensures
            r == self.updated,
    {
        self.updated
    }

    /// Binds a value to the argument and marks it updated; hands back a copy
    /// of the value.
    pub fn bind(&mut self, value: Value) -> (r: Value)
        ensures
            r@ == value@,
            final(self).name == old(self).name,
            final(self).default_value == old(self).default_value,
            final(self).bound_value == Some(value),
            final(self).updated,
            final(self).source_connections == old(self).source_connections,
    {
        let copy = value.duplicate();
        self.bound_value = Some(value);
        self.updated = true;
        copy
    }

    /// Adds a connection that feeds the argument, after those it has.
    pub fn insert(&mut self, connection: ConnectionCore)
        ensures
            final(self).name == old(self).name,
            final(self).default_value == old(self).default_value,
            final(self).bound_value == old(self).bound_value,
            final(self).updated == old(self).updated,
            final(self).source_connections@ == old(self).source_connections@.push(connection),
    {
        self.source_connections.push(connection);
    }

    /// The connections that feed the argument, in the order they were made.
    pub fn source_connections(&self) -> (r: &Vec<ConnectionCore>)
        ensures
            *r == self.source_connections,
    {
        &self.source_connections
    }
}

/// The output side of a process: the last value it produced, if any, and the
/// connections it feeds.
#[derive(Debug, PartialEq)]
pub struct Outlet {
    pub memo: Option<Value>,
    pub destination_connections: Vec<ConnectionCore>,
}

impl Outlet {
    /// The profile of the output side (see `outlet_profile`).
    pub fn profile_full(&self) -> (r: Result<Value, JuizError>)
        ensures
            r matches Ok(v) && v@ == outlet_profile(*self),
    {
        let memo = match &self.memo {
            Some(v) => v.duplicate(),
            None => Value::Null,
        };
        let mut entries: Vec<(String, Value)> = Vec::new();
        crate::value::entries_push(&mut entries, "memo", memo);
        Ok(Value::Object(entries))
    }

    pub fn new() -> (r: Outlet)
        ensures
            r.memo is None,
            r.destination_connections@.len() == 0,
    {
        Outlet { memo: None, destination_connections: Vec::new() }
    }

    /// Records a produced value and hands back a copy of it.
    pub fn set_value(&mut self, value: Value) -> (r: Value)
        ensures
            r@ == value@,
            final(self).memo == Some(value),
            final(self).destination_connections == old(self).destination_connections,
    {
        let copy = value.duplicate();
        self.memo = Some(value);
        copy
    }

    /// Adds a connection that the output feeds (into the argument `arg_name`
    /// of its destination), after those it has.
    pub fn insert(&mut self, arg_name: String, connection: ConnectionCore)
        ensures
            final(self).memo == old(self).memo,
            final(self).destination_connections@ == old(self).destination_connections@.push(connection),
    {
        self.destination_connections.push(connection);
    }

    /// The connections that the output feeds, in the order they were made.
    pub fn destination_connections(&self) -> (r: &Vec<ConnectionCore>)
        ensures
            *r == self.destination_connections,
    {
        &self.destination_connections
    }
}

/// The arguments of a process, one per member of its manifest's `arguments`
/// object: named by the key, with the member's `default` as default value,
/// nothing bound, not updated, and no two with the same name.
pub open spec fn inlets_for(inlets: Seq<Inlet>, args: Map<Seq<char>, JsonView>) -> bool {
    &&& forall|i: int|
        0 <= i < inlets.len() ==> {
            &&& args.contains_key(#[trigger] inlets[i].name@)
            &&& json_get(args[inlets[i].name@], "default"@) == Some(inlets[i].default_value@)
            &&& inlets[i].bound_value is None
            &&& !inlets[i].updated
            &&& inlets[i].source_connections@.len() == 0
        }
    &&& forall|k: Seq<char>| #[trigger] args.contains_key(k) ==> exists|i: int| 0 <= i < inlets.len() && inlets[i].name@ == k
    &&& forall|i: int, j: int| 0 <= i < j < inlets.len() ==> inlets[i].name@ != inlets[j].name@
}

/// Every member of the manifest's `arguments` object has a `default` member.
pub open spec fn arguments_have_defaults(manifest: JsonView) -> bool {
    json_obj(manifest, "arguments"@) matches Some(args) ==> forall|k: Seq<char>| #[trigger] args.contains_key(k) ==> json_get(args[k], "default"@) is Some
}

/// Every argument has a default, where building a process gets as far as
/// reading the arguments: the manifest has a string type name and name.
pub open spec fn defaults_where_reached(manifest: JsonView) -> bool {
    json_str(manifest, key_type_name()) is Some && json_str(manifest, "name"@) is Some ==> arguments_have_defaults(manifest)
}

/// Whether an entry after `i` carries the same key as entry `i`.
fn key_recurs_later(entries: &Vec<(String, Value)>, i: usize) -> (r: bool)
    requires
        i < entries@.len(),
    ensures
        r == exists|l: int| i < l < entries@.len() && #[trigger] entries@[l].0@ == entries@[i as int].0@,
{
    let n: usize = entries.len();
    let mut l: usize = i + 1;
    while l < entries.len()
        invariant
            i < l <= entries@.len(),
            forall|m: int| i < m < l ==> #[trigger] entries@[m].0@ != entries@[i as int].0@,
        decreases entries@.len() - l,
    {
        if str_eq(entries[l].0.as_str(), entries[i].0.as_str()) {
            return true;
        }
        l = l + 1;
    }
    false
}

/// Entry `j` is the last to carry its key.
pub open spec fn last_of_key(s: Seq<(String, Value)>, j: int) -> bool {
    forall|l: int| j < l < s.len() ==> #[trigger] s[l].0@ != s[j].0@
}

/// The index of the last entry that carries the key, `-1` where none does.
pub open spec fn last_index(s: Seq<(String, Value)>, key: Seq<char>) -> int
    decreases s.len(),
{
    if s.len() == 0 {
        -1
    } else if s.last().0@ == key {
        s.len() - 1
    } else {
        last_index(s.drop_last(), key)
    }
}

proof fn lemma_last_index(s: Seq<(String, Value)>, j: int)
    requires
        0 <= j < s.len(),
        last_of_key(s, j),
    ensures
        last_index(s, s[j].0@) == j,
    decreases s.len(),
{
    if j < s.len() - 1 {
        let t = s.drop_last();
        assert(s.last().0@ != s[j].0@);
        assert forall|l: int| j < l < t.len() implies #[trigger] t[l].0@ != t[j].0@ by {
            assert(t[l] == s[l]);
        }
        lemma_last_index(t, j);
    }
}

/// The arguments come in the order of the entries that declare them, each
/// placed by the last entry that carries its name.
pub open spec fn inlets_in_entry_order(inlets: Seq<Inlet>, entries: Seq<(String, Value)>) -> bool {
    forall|x: int, y: int|
        0 <= x < y < inlets.len() ==> last_index(entries, #[trigger] inlets[x].name@) < last_index(
            entries,
            #[trigger] inlets[y].name@,
        )
}

/// The entries of a manifest's `arguments` object as they stand, empty where
/// there is no such object.
pub open spec fn argument_entries(manifest: Value) -> Seq<(String, Value)> {
    match crate::value::value_member(manifest, "arguments"@) {
        Some(Value::Object(a)) => a@,
        _ => Seq::empty(),
    }
}

proof fn lemma_last_occurrence(s: Seq<(String, Value)>, j: int)
    requires
        0 <= j < s.len(),
    ensures
        exists|m: int| j <= m < s.len() && s[m].0@ == s[j].0@ && last_of_key(s, m),
    decreases s.len() - j,
{
    if !last_of_key(s, j) {
        let l = choose|l: int| j < l < s.len() && #[trigger] s[l].0@ == s[j].0@;
        lemma_last_occurrence(s, l);
    } else {
        assert(s[j].0@ == s[j].0@);
    }
}

/// The argument comes from an entry before `i` that is the last to carry its key.
pub open spec fn from_last_entry(inlet: Inlet, entries: Seq<(String, Value)>, i: int) -> bool {
    exists|j: int| #![trigger entries[j]] 0 <= j < i && last_of_key(entries, j) && entries[j].0@ == inlet.name@
}

/// The argument is named by a member of `args` and has that member's default.
pub open spec fn inlet_fits(inlet: Inlet, args: Map<Seq<char>, JsonView>) -> bool {
    &&& args.contains_key(inlet.name@)
    &&& json_get(args[inlet.name@], "default"@) == Some(inlet.default_value@)
    &&& inlet.bound_value is None
    &&& !inlet.updated
    &&& inlet.source_connections@.len() == 0
}

/// Some argument carries the name.
pub open spec fn named_in(inlets: Seq<Inlet>, key: Seq<char>) -> bool {
    exists|x: int| #![trigger inlets[x]] 0 <= x < inlets.len() && inlets[x].name@ == key
}

/// The `arguments` object of a process manifest. Fails with
/// `ValueWithKeyNotFoundError` where there is no such member, and with
/// `ValueIsNotObjectError` where it is not an object.
pub fn argument_manifest(process_manifest: &Value) -> (r: Result<&Vec<(String, Value)>, JuizError>)
    ensures
        r is Ok <==> json_obj(process_manifest@, "arguments"@) is Some,
        r matches Ok(entries) ==> Some(entries_view(entries@)) == json_obj(process_manifest@, "arguments"@),
        r matches Ok(entries) ==> entries@ == argument_entries(*process_manifest),
        r matches Err(e) ==> (if json_get(process_manifest@, "arguments"@) is None {
            e matches JuizError::ValueWithKeyNotFoundError { key: k } && k@ == "arguments"@
        } else {
            e matches JuizError::ValueIsNotObjectError { key: k } && k@ == "arguments"@
        }),
{
    obj_get_obj(process_manifest, "arguments")
}

/// The arguments built from the entries before `i`: one for each entry that is
/// the last to carry its key.
#[verifier::opaque]
pub open spec fn inlets_so_far(
    inlets: Seq<Inlet>,
    entries: Seq<(String, Value)>,
    args: Map<Seq<char>, JsonView>,
    i: int,
) -> bool {
    &&& forall|x: int| 0 <= x < inlets.len() ==> from_last_entry(#[trigger] inlets[x], entries, i)
    &&& forall|x: int| 0 <= x < inlets.len() ==> inlet_fits(#[trigger] inlets[x], args)
    &&& forall|j: int| 0 <= j < i && #[trigger] last_of_key(entries, j) ==> named_in(inlets, entries[j].0@)
    &&& forall|x: int, y: int| 0 <= x < y < inlets.len() ==> inlets[x].name@ != inlets[y].name@
    &&& inlets_in_entry_order(inlets, entries)
}

proof fn lemma_inlets_start(entries: Seq<(String, Value)>, args: Map<Seq<char>, JsonView>)
    ensures
        inlets_so_far(Seq::empty(), entries, args, 0),
{
    reveal(inlets_so_far);
}

proof fn lemma_inlets_skip(inlets: Seq<Inlet>, entries: Seq<(String, Value)>, args: Map<Seq<char>, JsonView>, i: int)
    requires
        0 <= i < entries.len(),
        inlets_so_far(inlets, entries, args, i),
        !last_of_key(entries, i),
    ensures
        inlets_so_far(inlets, entries, args, i + 1),
{
    reveal(inlets_so_far);
    assert forall|x: int| 0 <= x < inlets.len() implies from_last_entry(#[trigger] inlets[x], entries, i + 1) by {
        assert(from_last_entry(inlets[x], entries, i));
        let j = choose|j: int| #![trigger entries[j]] 0 <= j < i && last_of_key(entries, j) && entries[j].0@ == inlets[x].name@;
        assert(entries[j].0@ == inlets[x].name@);
    }
}

proof fn lemma_inlets_push(
    inlets: Seq<Inlet>,
    entries: Seq<(String, Value)>,
    args: Map<Seq<char>, JsonView>,
    i: int,
    inlet: Inlet,
)
    requires
        0 <= i < entries.len(),
        inlets_so_far(inlets, entries, args, i),
        last_of_key(entries, i),
        inlet.name@ == entries[i].0@,
        inlet_fits(inlet, args),
    ensures
        inlets_so_far(inlets.push(inlet), entries, args, i + 1),
{
    reveal(inlets_so_far);
    let after = inlets.push(inlet);
    assert forall|x: int| 0 <= x < inlets.len() implies inlets[x].name@ != inlet.name@ by {
        assert(from_last_entry(inlets[x], entries, i));
        let j = choose|j: int| #![trigger entries[j]] 0 <= j < i && last_of_key(entries, j) && entries[j].0@ == inlets[x].name@;
        assert(entries[i].0@ != entries[j].0@);
    }
    assert forall|x: int| 0 <= x < after.len() implies from_last_entry(#[trigger] after[x], entries, i + 1) by {
        if x < inlets.len() {
            assert(after[x] == inlets[x]);
            assert(from_last_entry(inlets[x], entries, i));
            let j = choose|j: int| #![trigger entries[j]] 0 <= j < i && last_of_key(entries, j) && entries[j].0@ == inlets[x].name@;
            assert(entries[j].0@ == after[x].name@);
        } else {
            assert(entries[i].0@ == after[x].name@);
        }
    }
    assert forall|x: int| 0 <= x < after.len() implies inlet_fits(#[trigger] after[x], args) by {
        if x < inlets.len() {
            assert(after[x] == inlets[x]);
        }
    }
    assert forall|j: int| 0 <= j < i + 1 && #[trigger] last_of_key(entries, j) implies named_in(after, entries[j].0@) by {
        if j < i {
            assert(named_in(inlets, entries[j].0@));
            let x = choose|x: int| #![trigger inlets[x]] 0 <= x < inlets.len() && inlets[x].name@ == entries[j].0@;
            assert(after[x] == inlets[x]);
        } else {
            assert(after[inlets.len() as int].name@ == entries[j].0@);
        }
    }
    assert forall|x: int, y: int| 0 <= x < y < after.len() implies after[x].name@ != after[y].name@ by {
        assert(after[x] == inlets[x]);
        if y < inlets.len() {
            assert(after[y] == inlets[y]);
        }
    }
    lemma_last_index(entries, i);
    assert forall|x: int| 0 <= x < inlets.len() implies last_index(entries, #[trigger] inlets[x].name@) < i by {
        assert(from_last_entry(inlets[x], entries, i));
        let j = choose|j: int| #![trigger entries[j]] 0 <= j < i && last_of_key(entries, j) && entries[j].0@ == inlets[x].name@;
        lemma_last_index(entries, j);
    }
    assert forall|x: int, y: int|
        0 <= x < y < after.len() implies last_index(entries, #[trigger] after[x].name@) < last_index(
            entries,
            #[trigger] after[y].name@,
        ) by {
        assert(after[x] == inlets[x]);
        if y < inlets.len() {
            assert(after[y] == inlets[y]);
        } else {
            assert(last_index(entries, inlets[x].name@) < i);
        }
    }
}

proof fn lemma_inlets_end(inlets: Seq<Inlet>, entries: Seq<(String, Value)>, args: Map<Seq<char>, JsonView>)
    requires
        inlets_so_far(inlets, entries, args, entries.len() as int),
        args == entries_view(entries),
    ensures
        inlets_for(inlets, args),
        inlets_in_entry_order(inlets, entries),
{
    reveal(inlets_so_far);
    assert forall|i: int| 0 <= i < inlets.len() implies {
        &&& args.contains_key(#[trigger] inlets[i].name@)
        &&& json_get(args[inlets[i].name@], "default"@) == Some(inlets[i].default_value@)
        &&& inlets[i].bound_value is None
        &&& !inlets[i].updated
        &&& inlets[i].source_connections@.len() == 0
    } by {
        assert(inlet_fits(inlets[i], args));
    }
    assert forall|k: Seq<char>| #[trigger] args.contains_key(k) implies exists|x: int|
        0 <= x < inlets.len() && inlets[x].name@ == k by {
        lemma_entries_view_dom(entries, k);
        let j = choose|j: int| 0 <= j < entries.len() && #[trigger] entries[j].0@ == k;
        lemma_last_occurrence(entries, j);
        let m = choose|m: int| j <= m < entries.len() && entries[m].0@ == entries[j].0@ && last_of_key(entries, m);
        assert(named_in(inlets, entries[m].0@));
        let x = choose|x: int| #![trigger inlets[x]] 0 <= x < inlets.len() && inlets[x].name@ == entries[m].0@;
        assert(inlets[x].name@ == k);
    }
}

/// The arguments that a manifest declares (see `inlets_for`). Fails with the
/// error of reading `arguments` where that is not an object member.
fn create_inlets(manifest: &Value) -> (r: Result<Vec<Inlet>, JuizError>)
    requires
        arguments_have_defaults(manifest@),
    ensures
        r is Ok <==> json_obj(manifest@, "arguments"@) is Some,
        r matches Ok(inlets) ==> inlets_for(inlets@, json_obj(manifest@, "arguments"@)->0),
        r matches Ok(inlets) ==> inlets_in_entry_order(inlets@, argument_entries(*manifest)),
        r matches Err(e) ==> (if json_get(manifest@, "arguments"@) is None {
            e matches JuizError::ValueWithKeyNotFoundError { key: k } && k@ == "arguments"@
        } else {
            e matches JuizError::ValueIsNotObjectError { key: k } && k@ == "arguments"@
        }),
{
    let entries = match argument_manifest(manifest) {
        Ok(es) => es,
        Err(e) => return Err(e),
    };
    let ghost args = entries_view(entries@);
    let n: usize = entries.len();
    let mut inlets: Vec<Inlet> = Vec::new();
    let mut i: usize = 0;
    proof {
        lemma_inlets_start(entries@, args);
    }
    while i < n
        invariant
            n == entries@.len(),
            i <= n,
            args == entries_view(entries@),
            args == json_obj(manifest@, "arguments"@)->0,
            arguments_have_defaults(manifest@),
            json_obj(manifest@, "arguments"@) is Some,
            inlets_so_far(inlets@, entries@, args, i as int),
        decreases n - i,
    {
        if !key_recurs_later(entries, i) {
            let ghost key = entries@[i as int].0@;
            proof {
                lemma_entries_view_last(entries@, i as int, key);
            }
            let default_value = match obj_get(&entries[i].1, "default") {
                Some(d) => d.duplicate(),
                None => {
                    proof {
                        assert(false);
                    }
                    Value::Null
                },
            };
            let inlet = Inlet::new(entries[i].0.as_str(), default_value);
            proof {
                lemma_inlets_push(inlets@, entries@, args, i as int, inlet);
            }
            inlets.push(inlet);
        } else {
            proof {
                lemma_inlets_skip(inlets@, entries@, args, i as int);
            }
        }
        i = i + 1;
    }
    proof {
        lemma_inlets_end(inlets@, entries@, args);
    }
    Ok(inlets)
}

/// The arguments handed to a process function: each argument's name with its value.
pub open spec fn collected(args: Seq<(String, Value)>, inlets: Seq<Inlet>) -> bool {
    &&& args.len() == inlets.len()
    &&& forall|i: int|
        0 <= i < inlets.len() ==> (#[trigger] args[i]).0@ == inlets[i].name@ && args[i].1@ == inlet_value(inlets[i])
}

/// As `collected`, with `value` handed for the argument `arg_name` in place of its own.
pub open spec fn collected_except(
    args: Seq<(String, Value)>,
    inlets: Seq<Inlet>,
    arg_name: Seq<char>,
    value: JsonView,
) -> bool {
    &&& args.len() == inlets.len()
    &&& forall|i: int|
        0 <= i < inlets.len() ==> (#[trigger] args[i]).0@ == inlets[i].name@ && args[i].1@ == (if inlets[i].name@
            == arg_name {
            value
        } else {
            inlet_value(inlets[i])
        })
}

/// Whether some argument other than `arg_name` has been updated.
pub open spec fn updated_except(inlets: Seq<Inlet>, arg_name: Seq<char>) -> bool {
    exists|i: int| 0 <= i < inlets.len() && (#[trigger] inlets[i]).name@ != arg_name && inlets[i].updated
}

/// Argument `i` is the first that carries the name.
pub open spec fn first_named(inlets: Seq<Inlet>, i: int, name: Seq<char>) -> bool {
    &&& 0 <= i < inlets.len()
    &&& inlets[i].name@ == name
    &&& forall|j: int| 0 <= j < i ==> (#[trigger] inlets[j]).name@ != name
}

/// The text that names an argument in the error for a missing one.
pub open spec fn inlet_target(name: Seq<char>) -> Seq<char> {
    "Process::Inlet("@ + name + ")"@
}

/// A process: a function of named arguments, with its manifest, identity,
/// arguments and last output.
pub struct ProcessImpl<F> {
    pub core: ObjectCore,
    pub manifest: Value,
    pub function: F,
    pub identifier: Identifier,
    pub outlet: Outlet,
    pub inlets: Vec<Inlet>,
}

/// A process built from a manifest: `class_name`, the manifest's type name and
/// name, the identifier the manifest gives, no output yet, and one argument
/// per member of `arguments`.
pub open spec fn process_from<F>(p: ProcessImpl<F>, class_name: JuizObjectClass, manifest: JsonView, function: F) -> bool {
    &&& core_object(p.core, class_name, json_str(manifest, key_type_name())->0, json_str(manifest, "name"@)->0)
    &&& p.manifest@ == manifest
    &&& p.function == function
    &&& Some(p.identifier@) == manifest_identifier("core"@, "core"@, "Process"@, manifest)
    &&& p.outlet.memo is None
    &&& p.outlet.destination_connections@.len() == 0
    &&& inlets_for(p.inlets@, json_obj(manifest, "arguments"@)->0)
    &&& inlets_in_entry_order(p.inlets@, argument_entries(p.manifest))
}

/// A manifest from which a process can be built: string type name and name,
/// and an object of arguments.
pub open spec fn process_manifest_ok(manifest: JsonView) -> bool {
    &&& json_str(manifest, key_type_name()) is Some
    &&& json_str(manifest, "name"@) is Some
    &&& json_obj(manifest, "arguments"@) is Some
}

/// The error of building a process from a manifest that lacks something: the
/// type name first, then the name, then the arguments.
pub open spec fn process_manifest_error(e: JuizError, manifest: JsonView) -> bool {
    if json_str(manifest, key_type_name()) is None {
        is_key_error(e, json_get(manifest, key_type_name()) is None, key_type_name())
    } else if json_str(manifest, "name"@) is None {
        is_key_error(e, json_get(manifest, "name"@) is None, "name"@)
    } else if json_get(manifest, "arguments"@) is None {
        e matches JuizError::ValueWithKeyNotFoundError { key: k } && k@ == "arguments"@
    } else {
        e matches JuizError::ValueIsNotObjectError { key: k } && k@ == "arguments"@
    }
}

impl<F: Fn(Vec<(String, Value)>) -> Result<Value, JuizError>> ProcessImpl<F> {
    /// A process of the class `class_name` built from a manifest and a function.
    pub fn new_with_class(class_name: JuizObjectClass, manif: Value, func: F) -> (r: Result<Self, JuizError>)
        requires
            defaults_where_reached(manif@),
        ensures
            r is Ok <==> process_manifest_ok(manif@),
            r matches Ok(p) ==> process_from(p, class_name, manif@, func),
            r matches Err(e) ==> process_manifest_error(e, manif@),
    {
        let manifest = manif;
        let typename = match obj_get_str(&manifest, KEY_TYPE_NAME) {
            Ok(s) => string_of(s),
            Err(e) => return Err(e),
        };
        let object_name = match obj_get_str(&manifest, "name") {
            Ok(s) => string_of(s),
            Err(e) => return Err(e),
        };
        let core = ObjectCore::create(class_name, typename.as_str(), object_name.as_str());
        let identifier = match create_identifier_from_manifest("Process", &manifest) {
            Ok(id) => id,
            Err(e) => return Err(e),
        };
        let inlets = match create_inlets(&manifest) {
            Ok(inlets) => inlets,
            Err(e) => return Err(e),
        };
        Ok(ProcessImpl { core, manifest, function: func, identifier, outlet: Outlet::new(), inlets })
    }

    /// A process of the class `Process("ProcessImpl")`.
    pub fn new(manif: Value, func: F) -> (r: Result<Self, JuizError>)
        requires
            defaults_where_reached(manif@),
        ensures
            r is Ok <==> process_manifest_ok(manif@),
            r matches Ok(p) ==> process_from(p, JuizObjectClass::Process("ProcessImpl"), manif@, func),
            r matches Err(e) ==> process_manifest_error(e, manif@),
    {
        Self::new_with_class(JuizObjectClass::Process("ProcessImpl"), manif, func)
    }

    /// As `new_with_class`.
    pub fn clousure_new_with_class_name(class_name: JuizObjectClass, manif: Value, func: F) -> (r: Result<Self, JuizError>)
        requires
            defaults_where_reached(manif@),
        ensures
            r is Ok <==> process_manifest_ok(manif@),
            r matches Ok(p) ==> process_from(p, class_name, manif@, func),
            r matches Err(e) ==> process_manifest_error(e, manif@),
    {
        let manifest = manif;
        let typename = match obj_get_str(&manifest, KEY_TYPE_NAME) {
            Ok(s) => string_of(s),
            Err(e) => return Err(e),
        };
        let object_name = match obj_get_str(&manifest, "name") {
            Ok(s) => string_of(s),
            Err(e) => return Err(e),
        };
        let core = ObjectCore::create(class_name, typename.as_str(), object_name.as_str());
        let identifier = match identifier_from_manifest("core", "core", "Process", &manifest) {
            Ok(id) => id,
            Err(e) => return Err(e),
        };
        let inlets = match create_inlets(&manifest) {
            Ok(inlets) => inlets,
            Err(e) => return Err(e),
        };
        Ok(ProcessImpl { core, function: func, identifier, outlet: Outlet::new(), inlets, manifest })
    }

    /// As `new`.
    pub fn _clousure_new(manif: Value, func: F) -> (r: Result<Self, JuizError>)
        requires
            defaults_where_reached(manif@),
        ensures
            r is Ok <==> process_manifest_ok(manif@),
            r matches Ok(p) ==> process_from(p, JuizObjectClass::Process("ProcessImpl"), manif@, func),
            r matches Err(e) ==> process_manifest_error(e, manif@),
    {
        Self::clousure_new_with_class_name(JuizObjectClass::Process("ProcessImpl"), manif, func)
    }

    /// The index of the argument named `name`, if there is one.
    fn inlet_index(&self, name: &str) -> (r: Option<usize>)
        ensures
            r matches Some(i) ==> first_named(self.inlets@, i as int, name@),
            r is None ==> forall|i: int| 0 <= i < self.inlets@.len() ==> (#[trigger] self.inlets@[i]).name@ != name@,
    {
        let mut i: usize = 0;
        while i < self.inlets.len()
            invariant
                i <= self.inlets@.len(),
                forall|j: int| 0 <= j < i ==> (#[trigger] self.inlets@[j]).name@ != name@,
            decreases self.inlets@.len() - i,
        {
            if str_eq(self.inlets[i].name.as_str(), name) {
                return Some(i);
            }
            i = i + 1;
        }
        None
    }

    /// The error for a missing argument named `name`.
    fn inlet_not_found(name: &str) -> (e: JuizError)
        ensures
            e matches JuizError::CanNotFindError { target } && target@ == inlet_target(name@),
    {
        JuizError::CanNotFindError { target: concat(concat(string_of("Process::Inlet("), name), ")") }
    }

    /// The argument named `name`. Fails with `CanNotFindError` where there is none.
    pub fn inlet(&self, name: &str) -> (r: Result<&Inlet, JuizError>)
        ensures
            r is Ok <==> exists|i: int| 0 <= i < self.inlets@.len() && (#[trigger] self.inlets@[i]).name@ == name@,
            r matches Ok(x) ==> x.name@ == name@ && exists|i: int| first_named(self.inlets@, i, name@) && #[trigger] self.inlets@[i] == *x,
            r matches Err(e) ==> e matches JuizError::CanNotFindError { target } && target@ == inlet_target(name@),
    {
        match self.inlet_index(name) {
            Some(i) => Ok(&self.inlets[i]),
            None => Err(Self::inlet_not_found(name)),
        }
    }

    /// The argument named `name`, to change. Fails with `CanNotFindError`
    /// where there is none, and then leaves the process as it was.
    pub fn inlet_mut(&mut self, name: &str) -> (r: Result<&mut Inlet, JuizError>)
        ensures
            r is Ok <==> exists|i: int| 0 <= i < old(self).inlets@.len() && (#[trigger] old(self).inlets@[i]).name@ == name@,
            r matches Ok(x) ==> {
                &&& x.name@ == name@
                &&& exists|i: int|
                    first_named(old(self).inlets@, i, name@) && *x == #[trigger] old(self).inlets@[i] && final(self).inlets@
                        == old(self).inlets@.update(i, *final(x))
                &&& final(self).core == old(self).core
                &&& final(self).manifest == old(self).manifest
                &&& final(self).function == old(self).function
                &&& final(self).identifier == old(self).identifier
                &&& final(self).outlet == old(self).outlet
            },
            r is Err ==> *final(self) == *old(self),
            r matches Err(e) ==> e matches JuizError::CanNotFindError { target } && target@ == inlet_target(name@),
    {
        match self.inlet_index(name) {
            Some(i) => Ok(&mut self.inlets[i]),
            None => Err(Self::inlet_not_found(name)),
        }
    }

    pub fn manifest(&self) -> (r: &Value)
        ensures
            *r == self.manifest,
    {
        &self.manifest
    }

    /// Each argument's name with the value it hands to the function.
    fn collect_values(&self) -> (r: Vec<(String, Value)>)
        ensures
            collected(r@, self.inlets@),
    {
        let mut out: Vec<(String, Value)> = Vec::new();
        let mut i: usize = 0;
        while i < self.inlets.len()
            invariant
                i <= self.inlets@.len(),
                collected(out@, self.inlets@.take(i as int)),
            decreases self.inlets@.len() - i,
        {
            let name = self.inlets[i].name.clone();
            let v = self.inlets[i].collect_value();
            out.push((name, v));
            i = i + 1;
        }
        proof {
            assert(self.inlets@.take(self.inlets@.len() as int) =~= self.inlets@);
        }
        out
    }

    /// As `collect_values`, with `arg_value` for the argument `arg_name`.
    fn collect_values_exclude(&self, arg_name: &str, arg_value: &Value) -> (r: Vec<(String, Value)>)
        ensures
            collected_except(r@, self.inlets@, arg_name@, arg_value@),
    {
        let mut out: Vec<(String, Value)> = Vec::new();
        let mut i: usize = 0;
        while i < self.inlets.len()
            invariant
                i <= self.inlets@.len(),
                collected_except(out@, self.inlets@.take(i as int), arg_name@, arg_value@),
            decreases self.inlets@.len() - i,
        {
            if str_eq(self.inlets[i].name.as_str(), arg_name) {
                out.push((string_of(arg_name), arg_value.duplicate()));
            } else {
                let name = self.inlets[i].name.clone();
                let v = self.inlets[i].collect_value();
                out.push((name, v));
            }
            i = i + 1;
        }
        proof {
            assert(self.inlets@.take(self.inlets@.len() as int) =~= self.inlets@);
        }
        out
    }

    /// Whether the process must run again: it has no output yet, or an
    /// argument other than `arg_name` has been updated.
    pub fn is_updated_exclude(&self, arg_name: &str) -> (r: Result<bool, JuizError>)
        ensures
            r == Ok::<bool, JuizError>(self.outlet.memo is None || updated_except(self.inlets@, arg_name@)),
    {
        if self.outlet.memo.is_none() {
            return Ok(true);
        }
        let mut i: usize = 0;
        while i < self.inlets.len()
            invariant
                i <= self.inlets@.len(),
                forall|j: int| 0 <= j < i ==> !((#[trigger] self.inlets@[j]).name@ != arg_name@ && self.inlets@[j].updated),
            decreases self.inlets@.len() - i,
        {
            if !str_eq(self.inlets[i].name.as_str(), arg_name) && self.inlets[i].is_updated() {
                return Ok(true);
            }
            i = i + 1;
        }
        Ok(false)
    }

    /// Whether the process must run again: it has no output yet, or an
    /// argument (other than one named by the empty text) has been updated.
    pub fn is_updated(&self) -> (r: Result<bool, JuizError>)
        ensures
            r == Ok::<bool, JuizError>(self.outlet.memo is None || updated_except(self.inlets@, Seq::empty())),
    {
        let empty = String::new();
        self.is_updated_exclude(empty.as_str())
    }

    /// Runs the function on the arguments.
    pub fn call(&self, args: Vec<(String, Value)>) -> (r: Result<Value, JuizError>)
        requires
            self.function.requires((args,)),
        ensures
            self.function.ensures((args,), r),
    {
        (self.function)(args)
    }

    /// The output of the process: where it must run again (see `is_updated`),
    /// the function's result on the collected arguments, which becomes the
    /// recorded output; else the recorded output. A failure of the function
    /// leaves the process as it was.
    pub fn invoke(&mut self) -> (r: Result<Value, JuizError>)
        requires
            forall|a: Vec<(String, Value)>| old(self).function.requires((a,)),
        ensures
            final(self).core == old(self).core,
            final(self).manifest == old(self).manifest,
            final(self).function == old(self).function,
            final(self).identifier == old(self).identifier,
            final(self).inlets == old(self).inlets,
            if old(self).outlet.memo is None || updated_except(old(self).inlets@, Seq::empty()) {
                exists|args: Vec<(String, Value)>, out: Result<Value, JuizError>| {
                    &&& collected(args@, old(self).inlets@)
                    &&& #[trigger] old(self).function.ensures((args,), out)
                    &&& match out {
                        Ok(v) => r matches Ok(x) && x@ == v@ && final(self).outlet.memo == Some(v),
                        Err(e) => r == Err::<Value, JuizError>(e) && final(self).outlet == old(self).outlet,
                    }
                }
            } else {
                &&& final(self).outlet == old(self).outlet
                &&& r matches Ok(x) && x@ == old(self).outlet.memo->0@
            },
    {
        let must_run = match self.is_updated() {
            Ok(b) => b,
            Err(e) => return Err(e),
        };
        if must_run {
            let args = self.collect_values();
            let out = self.call(args);
            match out {
                Ok(v) => Ok(self.outlet.set_value(v)),
                Err(e) => Err(e),
            }
        } else {
            match &self.outlet.memo {
                Some(v) => Ok(v.duplicate()),
                None => Ok(Value::Null),
            }
        }
    }

    /// As `invoke`, with `value` handed for the argument `arg_name`, and
    /// updates of that argument left out of the decision to run.
    pub fn invoke_exclude(&mut self, arg_name: &str, value: Value) -> (r: Result<Value, JuizError>)
        requires
            forall|a: Vec<(String, Value)>| old(self).function.requires((a,)),
        ensures
            final(self).core == old(self).core,
            final(self).manifest == old(self).manifest,
            final(self).function == old(self).function,
            final(self).identifier == old(self).identifier,
            final(self).inlets == old(self).inlets,
            if old(self).outlet.memo is None || updated_except(old(self).inlets@, arg_name@) {
                exists|args: Vec<(String, Value)>, out: Result<Value, JuizError>| {
                    &&& collected_except(args@, old(self).inlets@, arg_name@, value@)
                    &&& #[trigger] old(self).function.ensures((args,), out)
                    &&& match out {
                        Ok(v) => r matches Ok(x) && x@ == v@ && final(self).outlet.memo == Some(v),
                        Err(e) => r == Err::<Value, JuizError>(e) && final(self).outlet == old(self).outlet,
                    }
                }
            } else {
                &&& final(self).outlet == old(self).outlet
                &&& r matches Ok(x) && x@ == old(self).outlet.memo->0@
            },
    {
        let must_run = match self.is_updated_exclude(arg_name) {
            Ok(b) => b,
            Err(e) => return Err(e),
        };
        if must_run {
            let args = self.collect_values_exclude(arg_name, &value);
            let out = self.call(args);
            match out {
                Ok(v) => Ok(self.outlet.set_value(v)),
                Err(e) => Err(e),
            }
        } else {
            match &self.outlet.memo {
                Some(v) => Ok(v.duplicate()),
                None => Ok(Value::Null),
            }
        }
    }

    /// The recorded output, if any.
    pub fn get_output(&self) -> (r: Option<Value>)
        ensures
            match self.outlet.memo {
                Some(v) => r matches Some(x) && x@ == v@,
                None => r is None,
            },
    {
        match &self.outlet.memo {
            Some(v) => Some(v.duplicate()),
            None => None,
        }
    }

    /// Binds `value` to the argument `arg_name` and marks it updated; hands
    /// back a copy of the value. Fails with `CanNotFindError` where there is
    /// no such argument, and then leaves the process as it was.
    pub fn bind(&mut self, arg_name: &str, value: Value) -> (r: Result<Value, JuizError>)
        ensures
            r is Ok <==> exists|i: int| 0 <= i < old(self).inlets@.len() && (#[trigger] old(self).inlets@[i]).name@ == arg_name@,
            r matches Ok(x) ==> {
                &&& x@ == value@
                &&& exists|i: int|
                    first_named(old(self).inlets@, i, arg_name@) && final(self).inlets@ == old(self).inlets@.update(
                        i,
                        Inlet {
                            name: #[trigger] old(self).inlets@[i].name,
                            default_value: old(self).inlets@[i].default_value,
                            bound_value: Some(value),
                            updated: true,
                            source_connections: old(self).inlets@[i].source_connections,
                        },
                    )
                &&& final(self).outlet == old(self).outlet
                &&& final(self).core == old(self).core
            },
            r matches Err(e) ==> (*final(self) == *old(self) && (e matches JuizError::CanNotFindError { target }
                && target@ == inlet_target(arg_name@))),
    {
        match self.inlet_mut(arg_name) {
            Ok(inlet) => Ok(inlet.bind(value)),
            Err(e) => Err(e),
        }
    }

    /// Records that the process `source_identifier` now feeds the argument
    /// `connecting_arg`: that argument gains, after the connections it has, a
    /// `SourceConnectionImpl` connection from the source to this process, made
    /// from the manifest, which is handed back. Fails with `CanNotFindError`
    /// where there is no such argument, else with the manifest's error (see
    /// `connection_manifest_error`), and then leaves the process as it was.
    pub fn notify_connected_from(
        &mut self,
        source_identifier: Identifier,
        connecting_arg: &str,
        connection_manifest: Value,
    ) -> (r: Result<Value, JuizError>)
        ensures
            r is Ok <==> (named_in(old(self).inlets@, connecting_arg@) && connection_manifest_ok(connection_manifest@)),
            r matches Ok(v) ==> {
                &&& v == connection_manifest
                &&& exists|i: int, c: ConnectionCore|
                    first_named(old(self).inlets@, i, connecting_arg@) && connection_from_manifest(
                        c,
                        "SourceConnectionImpl",
                        source_identifier@,
                        old(self).core.identifier@,
                        connecting_arg@,
                        connection_manifest@,
                    ) && #[trigger] source_added(old(self).inlets@, final(self).inlets@, i, c)
                &&& final(self).core == old(self).core
                &&& final(self).manifest == old(self).manifest
                &&& final(self).function == old(self).function
                &&& final(self).identifier == old(self).identifier
                &&& final(self).outlet == old(self).outlet
            },
            r is Err ==> *final(self) == *old(self),
            r matches Err(e) ==> if !named_in(old(self).inlets@, connecting_arg@) {
                e matches JuizError::CanNotFindError { target } && target@ == inlet_target(connecting_arg@)
            } else {
                connection_manifest_error(e, connection_manifest@)
            },
    {
        let id = self.core.identifier.clone();
        let i = match self.inlet_index(connecting_arg) {
            Some(i) => i,
            None => return Err(Self::inlet_not_found(connecting_arg)),
        };
        let connection = match ConnectionCore::new(
            "SourceConnectionImpl",
            source_identifier,
            id,
            string_of(connecting_arg),
            &connection_manifest,
        ) {
            Ok(c) => c,
            Err(e) => return Err(e),
        };
        let ghost c = connection;
        let ghost before = self.inlets@;
        let mut inlet = self.inlets.remove(i);
        let ghost removed = self.inlets@;
        inlet.insert(connection);
        self.inlets.insert(i, inlet);
        proof {
            assert(removed =~= before.remove(i as int));
            assert forall|j: int| 0 <= j < before.len() && j != i implies #[trigger] self.inlets@[j] == before[j] by {
                if j < i {
                    assert(self.inlets@[j] == removed[j]);
                } else {
                    assert(self.inlets@[j] == removed[j - 1]);
                }
            }
            assert(source_added(before, self.inlets@, i as int, c));
        }
        Ok(connection_manifest)
    }

    /// Connects the output to the argument `arg_name` of the process
    /// `destination_identifier`: the output gains, after the connections it
    /// has, a `DestinationConnectionImpl` connection from this process to the
    /// destination, made from the manifest, which is handed back. Fails with
    /// the manifest's error (see `connection_manifest_error`), and then leaves
    /// the process as it was.
    pub fn try_connect_to(
        &mut self,
        destination_identifier: Identifier,
        arg_name: &str,
        connection_manifest: Value,
    ) -> (r: Result<Value, JuizError>)
        ensures
            r is Ok <==> connection_manifest_ok(connection_manifest@),
            r matches Ok(v) ==> {
                &&& v == connection_manifest
                &&& exists|c: ConnectionCore|
                    #[trigger] connection_from_manifest(
                        c,
                        "DestinationConnectionImpl",
                        old(self).core.identifier@,
                        destination_identifier@,
                        arg_name@,
                        connection_manifest@,
                    ) && final(self).outlet.destination_connections@ == old(self).outlet.destination_connections@.push(c)
                &&& final(self).outlet.memo == old(self).outlet.memo
                &&& final(self).inlets == old(self).inlets
                &&& final(self).core == old(self).core
                &&& final(self).manifest == old(self).manifest
                &&& final(self).function == old(self).function
                &&& final(self).identifier == old(self).identifier
            },
            r is Err ==> *final(self) == *old(self),
            r matches Err(e) ==> connection_manifest_error(e, connection_manifest@),
    {
        let id = self.core.identifier.clone();
        let connection = match ConnectionCore::new(
            "DestinationConnectionImpl",
            id,
            destination_identifier,
            string_of(arg_name),
            &connection_manifest,
        ) {
            Ok(c) => c,
            Err(e) => return Err(e),
        };
        let ghost c = connection;
        self.outlet.insert(string_of(arg_name), connection);
        proof {
            assert(connection_from_manifest(c, "DestinationConnectionImpl", old(self).core.identifier@, destination_identifier@, arg_name@, connection_manifest@));
        }
        Ok(connection_manifest)
    }

    /// The connections that feed the process: those of each argument, in the
    /// order of the arguments (see `inlet_sources`).
    pub fn source_connections(&self) -> (r: Result<Vec<&ConnectionCore>, JuizError>)
        ensures
            r matches Ok(v) && v@.len() == inlet_sources(self.inlets@).len() && forall|k: int|
                0 <= k < v@.len() ==> *(#[trigger] v@[k]) == inlet_sources(self.inlets@)[k],
    {
        let mut out: Vec<&ConnectionCore> = Vec::new();
        let mut i: usize = 0;
        while i < self.inlets.len()
            invariant
                i <= self.inlets@.len(),
                out@.len() == inlet_sources(self.inlets@.take(i as int)).len(),
                forall|k: int| 0 <= k < out@.len() ==> *(#[trigger] out@[k]) == inlet_sources(self.inlets@.take(i as int))[k],
            decreases self.inlets@.len() - i,
        {
            let ghost before = inlet_sources(self.inlets@.take(i as int));
            let connections = &self.inlets[i].source_connections;
            let mut j: usize = 0;
            while j < connections.len()
                invariant
                    i < self.inlets@.len(),
                    *connections == self.inlets@[i as int].source_connections,
                    j <= connections@.len(),
                    out@.len() == before.len() + j,
                    forall|k: int| 0 <= k < before.len() ==> *(#[trigger] out@[k]) == before[k],
                    forall|k: int| 0 <= k < j ==> *(#[trigger] out@[before.len() + k]) == connections@[k],
                decreases connections@.len() - j,
            {
                out.push(&connections[j]);
                j = j + 1;
            }
            proof {
                assert(self.inlets@.take(i + 1).drop_last() =~= self.inlets@.take(i as int));
                assert(self.inlets@.take(i + 1).last() == self.inlets@[i as int]);
                let after = inlet_sources(self.inlets@.take(i + 1));
                assert(after =~= before + connections@);
                assert forall|k: int| 0 <= k < out@.len() implies *(#[trigger] out@[k]) == after[k] by {
                    if k >= before.len() {
                        assert(*out@[before.len() + (k - before.len())] == connections@[k - before.len()]);
                    }
                }
            }
            i = i + 1;
        }
        proof {
            assert(self.inlets@.take(self.inlets@.len() as int) =~= self.inlets@);
        }
        Ok(out)
    }

    /// The connections that the output feeds, in the order they were made.
    pub fn destination_connections(&self) -> (r: Result<Vec<&ConnectionCore>, JuizError>)
        ensures
            r matches Ok(v) && v@.len() == self.outlet.destination_connections@.len() && forall|k: int|
                0 <= k < v@.len() ==> *(#[trigger] v@[k]) == self.outlet.destination_connections@[k],
    {
        let connections = self.outlet.destination_connections();
        let mut out: Vec<&ConnectionCore> = Vec::new();
        let mut j: usize = 0;
        while j < connections.len()
            invariant
                *connections == self.outlet.destination_connections,
                j <= connections@.len(),
                out@.len() == j,
                forall|k: int| 0 <= k < j ==> *(#[trigger] out@[k]) == connections@[k],
            decreases connections@.len() - j,
        {
            out.push(&connections[j]);
            j = j + 1;
        }
        Ok(out)
    }
}

/// The connections that feed the arguments, those of each argument in turn.
pub open spec fn inlet_sources(inlets: Seq<Inlet>) -> Seq<ConnectionCore>
    decreases inlets.len(),
{
    if inlets.len() == 0 {
        Seq::empty()
    } else {
        inlet_sources(inlets.drop_last()) + inlets.last().source_connections@
    }
}

/// A connection added to an argument of a process (as `notify_connected_from`
/// adds one) is listed among the process's sources, together with every
/// connection listed before, and the list grows by one.
pub proof fn law_added_source_is_listed(before: Seq<Inlet>, after: Seq<Inlet>, i: int, c: ConnectionCore)
    requires
        source_added(before, after, i, c),
    ensures
        inlet_sources(after).contains(c),
        inlet_sources(after).len() == inlet_sources(before).len() + 1,
        forall|x: ConnectionCore| inlet_sources(before).contains(x) ==> #[trigger] inlet_sources(after).contains(x),
    decreases before.len(),
{
    let n = before.len() - 1;
    let sb = inlet_sources(before);
    let sa = inlet_sources(after);
    if i == n {
        assert(after.drop_last() =~= before.drop_last()) by {
            assert forall|j: int| 0 <= j < n implies after.drop_last()[j] == before.drop_last()[j] by {
                assert(after[j] == before[j]);
            }
        }
        let head = inlet_sources(before.drop_last());
        assert(sb =~= head + before[n].source_connections@);
        assert(sa =~= head + before[n].source_connections@.push(c));
        assert(sa[sa.len() - 1] == c);
        assert forall|x: ConnectionCore| sb.contains(x) implies #[trigger] sa.contains(x) by {
            let k = choose|k: int| 0 <= k < sb.len() && sb[k] == x;
            assert(sa[k] == x);
        }
    } else {
        assert(after.last() == before.last());
        let bd = before.drop_last();
        let ad = after.drop_last();
        assert forall|j: int| 0 <= j < bd.len() && j != i implies #[trigger] ad[j] == bd[j] by {
            assert(after[j] == before[j]);
        }
        assert(source_added(bd, ad, i, c));
        law_added_source_is_listed(bd, ad, i, c);
        let hb = inlet_sources(bd);
        let ha = inlet_sources(ad);
        let tail = before.last().source_connections@;
        assert(sb =~= hb + tail);
        assert(sa =~= ha + tail);
        assert(ha.contains(c));
        let m = choose|m: int| 0 <= m < ha.len() && ha[m] == c;
        assert(sa[m] == c);
        assert forall|x: ConnectionCore| sb.contains(x) implies #[trigger] sa.contains(x) by {
            let k = choose|k: int| 0 <= k < sb.len() && sb[k] == x;
            if k < hb.len() {
                assert(hb[k] == x);
                assert(hb.contains(x));
                assert(ha.contains(x));
                let l = choose|l: int| 0 <= l < ha.len() && ha[l] == x;
                assert(sa[l] == x);
            } else {
                assert(sa[ha.len() + (k - hb.len())] == x);
            }
        }
    }
}

/// `after` is `before` with the connection `c` added, last, to the sources of
/// argument `i`, and nothing else changed.
pub open spec fn source_added(before: Seq<Inlet>, after: Seq<Inlet>, i: int, c: ConnectionCore) -> bool {
    &&& 0 <= i < before.len()
    &&& after.len() == before.len()
    &&& forall|j: int| 0 <= j < before.len() && j != i ==> #[trigger] after[j] == before[j]
    &&& after[i].name == before[i].name
    &&& after[i].default_value == before[i].default_value
    &&& after[i].bound_value == before[i].bound_value
    &&& after[i].updated == before[i].updated
    &&& after[i].source_connections@ == before[i].source_connections@.push(c)
}

/// Leaving out updates of the argument `arg_name`, a process must run again
/// where an argument with any other name has been updated.
pub proof fn law_other_update_forces_rerun(inlets: Seq<Inlet>, i: int, arg_name: Seq<char>)
    requires
        0 <= i < inlets.len(),
        inlets[i].updated,
        inlets[i].name@ != arg_name,
    ensures
        updated_except(inlets, arg_name),
{
}

/// Leaving out updates of the argument `arg_name`, a process need not run
/// again where only arguments named `arg_name` have been updated.
pub proof fn law_excluded_update_does_not_force_rerun(inlets: Seq<Inlet>, arg_name: Seq<char>)
    requires
        forall|i: int| 0 <= i < inlets.len() && (#[trigger] inlets[i]).updated ==> inlets[i].name@ == arg_name,
    ensures
        !updated_except(inlets, arg_name),
{
}

/// Binding a value to an argument makes the process run again when a value
/// is then pushed into any other argument (`invoke_exclude` with another
/// name).
pub proof fn law_bound_then_pushed_elsewhere_reruns(inlets: Seq<Inlet>, i: int, value: Value, arg_name: Seq<char>)
    requires
        0 <= i < inlets.len(),
        inlets[i].name@ != arg_name,
    ensures
        updated_except(
            inlets.update(
                i,
                Inlet {
                    name: inlets[i].name,
                    default_value: inlets[i].default_value,
                    bound_value: Some(value),
                    updated: true,
                    source_connections: inlets[i].source_connections,
                },
            ),
            arg_name,
        ),
{
    let after = inlets.update(
        i,
        Inlet {
            name: inlets[i].name,
            default_value: inlets[i].default_value,
            bound_value: Some(value),
            updated: true,
            source_connections: inlets[i].source_connections,
        },
    );
    assert(after[i].updated && after[i].name@ != arg_name);
}

/// The arguments handed to the function when a value `v` is pushed into the
/// argument `arg_name`: each argument's name, in order, with `v` for every
/// argument named `arg_name`, whatever was bound to it, and for the others
/// the bound value, or the default where none is bound.
pub proof fn law_pushed_value_reaches_function(
    args: Seq<(String, Value)>,
    inlets: Seq<Inlet>,
    arg_name: Seq<char>,
    v: JsonView,
)
    requires
        collected_except(args, inlets, arg_name, v),
    ensures
        args.len() == inlets.len(),
        forall|i: int| 0 <= i < inlets.len() ==> (#[trigger] args[i]).0@ == inlets[i].name@,
        forall|i: int| 0 <= i < inlets.len() && inlets[i].name@ == arg_name ==> (#[trigger] args[i]).1@ == v,
        forall|i: int|
            0 <= i < inlets.len() && inlets[i].name@ != arg_name ==> (#[trigger] args[i]).1@ == match inlets[i].bound_value {
                Some(b) => b@,
                None => inlets[i].default_value@,
            },
{
}

/// The arguments handed to the function by `invoke`: each argument's name, in
/// order, with its bound value, or its default where none is bound.
pub proof fn law_collected_values(args: Seq<(String, Value)>, inlets: Seq<Inlet>)
    requires
        collected(args, inlets),
    ensures
        args.len() == inlets.len(),
        forall|i: int|
            0 <= i < inlets.len() ==> (#[trigger] args[i]).0@ == inlets[i].name@ && args[i].1@ == match inlets[i].bound_value {
                Some(b) => b@,
                None => inlets[i].default_value@,
            },
{
}

/// A process that has an output and no updated argument does not run again:
/// `invoke` hands back the recorded output.
pub proof fn law_output_is_reused<F>(p: ProcessImpl<F>)
    requires
        p.outlet.memo is Some,
        forall|i: int| 0 <= i < p.inlets@.len() ==> !(#[trigger] p.inlets@[i]).updated,
    ensures
        !(p.outlet.memo is None || updated_except(p.inlets@, Seq::empty())),
{
}

/// Binding a value to an argument (with a nonempty name) makes the process run
/// again on the next `invoke`, and the function then gets the bound value for
/// that argument.
pub proof fn law_bound_value_reaches_function(inlets: Seq<Inlet>, i: int, value: Value, args: Seq<(String, Value)>)
    requires
        0 <= i < inlets.len(),
        inlets[i].name@.len() > 0,
        collected(
            args,
            inlets.update(
                i,
                Inlet {
                    name: inlets[i].name,
                    default_value: inlets[i].default_value,
                    bound_value: Some(value),
                    updated: true,
                    source_connections: inlets[i].source_connections,
                },
            ),
        ),
    ensures
        updated_except(
            inlets.update(
                i,
                Inlet {
                    name: inlets[i].name,
                    default_value: inlets[i].default_value,
                    bound_value: Some(value),
                    updated: true,
                    source_connections: inlets[i].source_connections,
                },
            ),
            Seq::empty(),
        ),
        args[i].0@ == inlets[i].name@,
        args[i].1@ == value@,
{
    let after = inlets.update(
        i,
        Inlet {
            name: inlets[i].name,
            default_value: inlets[i].default_value,
            bound_value: Some(value),
            updated: true,
            source_connections: inlets[i].source_connections,
        },
    );
    assert(after[i].name@ != Seq::<char>::empty());
    assert(after[i].updated);
}

impl<F> JuizObjectCoreHolder for ProcessImpl<F> {
    open spec fn spec_core(&self) -> ObjectCore {
        self.core
    }

    fn object_core(&self) -> (r: &ObjectCore) {
        &self.core
    }
}

/// The profiles of the arguments, in order.
pub open spec fn inlet_profiles(inlets: Seq<Inlet>) -> Seq<JsonView> {
    inlets.map_values(|i: Inlet| inlet_profile(i))
}

/// The profile of a process: that of its core, with the profiles of its
/// arguments in order (`inlets`), that of its output side (`outlet`), and the
/// manifest's `arguments` where the manifest has them.
pub open spec fn process_profile(core: ObjectCore, inlets: Seq<Inlet>, outlet: Outlet, manifest: JsonView) -> JsonView {
    let base = crate::object::object_profile(
        core.identifier@,
        crate::object::class_str(core.class_name),
        core.typename@,
        core.name@,
    )->Object_0.insert("inlets"@, JsonView::Array(inlet_profiles(inlets))).insert("outlet"@, outlet_profile(outlet));
    match json_get(manifest, "arguments"@) {
        Some(a) => JsonView::Object(base.insert("arguments"@, a)),
        None => JsonView::Object(base),
    }
}

impl<F> ProcessImpl<F> {
    /// The profiles of the arguments, in order.
    fn inlet_profiles(&self) -> (r: Vec<Value>)
        ensures
            crate::value::items_view(r@) == inlet_profiles(self.inlets@),
    {
        let mut out: Vec<Value> = Vec::new();
        let mut i: usize = 0;
        while i < self.inlets.len()
            invariant
                i <= self.inlets@.len(),
                crate::value::items_view(out@) == inlet_profiles(self.inlets@.take(i as int)),
            decreases self.inlets@.len() - i,
        {
            let p = match self.inlets[i].profile_full() {
                Ok(p) => p,
                Err(_) => {
                    proof {
                        assert(false);
                    }
                    Value::Null
                },
            };
            let ghost before = out@;
            out.push(p);
            proof {
                crate::value::lemma_items_view_push(before, p);
                assert(self.inlets@.take(i + 1) =~= self.inlets@.take(i as int).push(self.inlets@[i as int]));
                assert(inlet_profiles(self.inlets@.take(i + 1)) =~= inlet_profiles(self.inlets@.take(i as int)).push(
                    inlet_profile(self.inlets@[i as int]),
                ));
            }
            i = i + 1;
        }
        proof {
            assert(self.inlets@.take(self.inlets@.len() as int) =~= self.inlets@);
        }
        out
    }
}

impl<F> JuizObject for ProcessImpl<F> {
    fn profile_full(&self) -> (r: Result<Value, JuizError>)
        ensures
            r matches Ok(v) && v@ == process_profile(self.core, self.inlets@, self.outlet, self.manifest@),
    {
        let profile = crate::object::profile_value(
            self.core.identifier.as_str(),
            self.core.class_name.as_str(),
            self.core.typename.as_str(),
            self.core.name.as_str(),
        );
        let outlet = match self.outlet.profile_full() {
            Ok(p) => p,
            Err(e) => return Err(e),
        };
        match profile {
            Value::Object(mut entries) => {
                crate::value::entries_push(&mut entries, "inlets", Value::Array(self.inlet_profiles()));
                crate::value::entries_push(&mut entries, "outlet", outlet);
                match obj_get(&self.manifest, "arguments") {
                    Some(a) => {
                        crate::value::entries_push(&mut entries, "arguments", a.duplicate());
                    },
                    None => {},
                }
                Ok(Value::Object(entries))
            },
            _ => {
                proof {
                    assert(false);
                }
                Ok(Value::Null)
            },
        }
    }
}

} // verus!
