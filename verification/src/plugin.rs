use vstd::prelude::*;
use crate::error::{JuizError, is_key_error};
use crate::strings::{concat, str_eq, string_of};
use crate::value::{Value, json_get, json_str, obj_get_str};

verus! {

/// The platform whose shared-library file names a plugin follows.
#[derive(PartialEq, Eq, Structural, Clone, Copy, Debug)]
pub enum TargetOs {
    MacOs,
    Windows,
}

pub open spec fn spec_plugin_file_name(name: Seq<char>, os: TargetOs) -> Seq<char> {
    match os {
        TargetOs::MacOs => "lib"@ + name + ".dylib"@,
        TargetOs::Windows => name + ".dll"@,
    }
}

/// The file name of the shared library of the plugin `name`:
/// `lib<name>.dylib` on macOS, `<name>.dll` on Windows.
pub fn plugin_name_to_file_name(name: &str, os: TargetOs) -> (r: String)
    ensures
        r@ == spec_plugin_file_name(name@, os),
{
    match os {
        TargetOs::MacOs => concat(concat(string_of("lib"), name), ".dylib"),
        TargetOs::Windows => concat(string_of(name), ".dll"),
    }
}

/// The file name of the Python plugin `name`: `<name>.py`.
pub fn plugin_name_to_python_file_name(name: &str) -> (r: String)
    ensures
        r@ == name@ + ".py"@,
{
    concat(string_of(name), ".py")
}

/// A name holds none of the characters that separate path components or
/// mark a drive: `/`, `\` and `:`.
pub open spec fn plain_name_chars(name: Seq<char>) -> bool {
    forall|i: int| 0 <= i < name.len() ==> name[i] != '/' && name[i] != '\\' && name[i] != ':'
}

/// A relative file name: one or more characters, none of them `/`, `\` or `:`.
pub open spec fn plain_file_name(name: Seq<char>) -> bool {
    name.len() > 0 && plain_name_chars(name)
}

/// The directory does not start with a verbatim prefix `\\?\`.
pub open spec fn no_verbatim_prefix(dir: Seq<char>) -> bool {
    !(dir.len() >= 4 && dir[0] == '\\' && dir[1] == '\\' && dir[2] == '?' && dir[3] == '\\')
}

/// `path` is `dir` joined with `name` on some platform: `dir`, at most one
/// separator (`/` or `\`), then `name`; no separator where `dir` is empty or
/// already ends in `/`; one where `dir` ends in anything but `/`, `\` or `:`.
pub open spec fn joined_path(path: Seq<char>, dir: Seq<char>, name: Seq<char>) -> bool {
    &&& (path == dir + name || path == dir + seq!['/'] + name || path == dir + seq!['\\'] + name)
    &&& (dir.len() == 0 || dir.last() == '/') ==> path == dir + name
    &&& (dir.len() > 0 && dir.last() != '/' && dir.last() != '\\' && dir.last() != ':') ==> path != dir + name
}

/// Joins the directory `base` and the file name `name` with
/// `std::path::PathBuf::join` and hands back the text of the result. Claimed,
/// from the documentation of `PathBuf::push` on every platform: where `name`
/// is a relative file name (one or more characters, no `/`, `\` or `:`) and
/// `base` has no verbatim prefix, the result is `base`, at most one separator
/// (`/`, or `\` on Windows), then `name`; the separator is left out where
/// `base` is empty or ends in `/`, and put in where `base` ends in anything
/// but a separator or a drive's `:`. Which separator the platform uses, and
/// what joining gives for other names, is left unsaid.
#[verifier::external_body]
fn path_join(base: &str, name: &str) -> (r: String)
    ensures
        plain_file_name(name@) && no_verbatim_prefix(base@) ==> joined_path(r@, base@, name@),
{
    std::path::PathBuf::from(base).join(name).to_string_lossy().into_owned()
}

/// The path of the file `name` in the directory that `v`'s `path` member
/// names: that directory joined with `name` (see `joined_path`). Fails, with
/// the error of reading `path`, where `v` has no string member `path`.
pub fn concat_dirname(v: &Value, name: String) -> (r: Result<String, JuizError>)
    ensures
        r is Ok <==> json_str(v@, "path"@) is Some,
        r matches Ok(p) ==> (plain_file_name(name@) && no_verbatim_prefix(json_str(v@, "path"@)->0) ==> joined_path(
            p@,
            json_str(v@, "path"@)->0,
            name@,
        )),
        r matches Err(e) ==> is_key_error(e, json_get(v@, "path"@) is None, "path"@),
{
    match obj_get_str(v, "path") {
        Ok(dir) => Ok(path_join(dir, name.as_str())),
        Err(e) => Err(e),
    }
}

proof fn lemma_plugin_file_name_plain(name: Seq<char>, os: TargetOs)
    ensures
        plain_name_chars(name) ==> plain_file_name(spec_plugin_file_name(name, os)),
{
    reveal_strlit("lib");
    reveal_strlit(".dylib");
    reveal_strlit(".dll");
    if plain_name_chars(name) {
        let f = spec_plugin_file_name(name, os);
        match os {
            TargetOs::MacOs => {
                assert forall|i: int| 0 <= i < f.len() implies f[i] != '/' && f[i] != '\\' && f[i] != ':' by {
                    if i < 3 {
                        assert(f[i] == "lib"@[i]);
                    } else if i < 3 + name.len() {
                        assert(f[i] == name[i - 3]);
                    } else {
                        assert(f[i] == ".dylib"@[i - 3 - name.len()]);
                    }
                }
            },
            TargetOs::Windows => {
                assert forall|i: int| 0 <= i < f.len() implies f[i] != '/' && f[i] != '\\' && f[i] != ':' by {
                    if i < name.len() {
                        assert(f[i] == name[i]);
                    } else {
                        assert(f[i] == ".dll"@[i - name.len()]);
                    }
                }
            },
        }
    }
}

/// The path of the shared library of the plugin `name` in the directory `v`
/// names: the directory joined with `plugin_name_to_file_name(name, os)`.
fn plugin_path(name: &str, v: &Value, os: TargetOs) -> (r: Result<String, JuizError>)
    ensures
        r is Ok <==> json_str(v@, "path"@) is Some,
        r matches Ok(p) ==> (plain_name_chars(name@) && no_verbatim_prefix(json_str(v@, "path"@)->0) ==> joined_path(
            p@,
            json_str(v@, "path"@)->0,
            spec_plugin_file_name(name@, os),
        )),
        r matches Err(e) ==> is_key_error(e, json_get(v@, "path"@) is None, "path"@),
{
    let file_name = plugin_name_to_file_name(name, os);
    proof {
        lemma_plugin_file_name_plain(name@, os);
    }
    concat_dirname(v, file_name)
}

/// The path of the Python plugin `name` in the directory `v` names: like a
/// Rust plugin's, the directory joined with the plugin file name
/// `plugin_name_to_file_name(name, os)` (`.dylib` appended on macOS).
fn python_plugin_path(name: &str, v: &Value, os: TargetOs) -> (r: Result<String, JuizError>)
    ensures
        r is Ok <==> json_str(v@, "path"@) is Some,
        r matches Ok(p) ==> (plain_name_chars(name@) && no_verbatim_prefix(json_str(v@, "path"@)->0) ==> joined_path(
            p@,
            json_str(v@, "path"@)->0,
            spec_plugin_file_name(name@, os),
        )),
        r matches Err(e) ==> is_key_error(e, json_get(v@, "path"@) is None, "path"@),
{
    let file_name = plugin_name_to_file_name(name, os);
    proof {
        lemma_plugin_file_name_plain(name@, os);
    }
    concat_dirname(v, file_name)
}

/// The path of the C++ plugin `name` in the directory `v` names: like a Rust
/// plugin's, the directory joined with `plugin_name_to_file_name(name, os)`.
fn cpp_plugin_path(name: &str, v: &Value, os: TargetOs) -> (r: Result<String, JuizError>)
    ensures
        r is Ok <==> json_str(v@, "path"@) is Some,
        r matches Ok(p) ==> (plain_name_chars(name@) && no_verbatim_prefix(json_str(v@, "path"@)->0) ==> joined_path(
            p@,
            json_str(v@, "path"@)->0,
            spec_plugin_file_name(name@, os),
        )),
        r matches Err(e) ==> is_key_error(e, json_get(v@, "path"@) is None, "path"@),
{
    let file_name = plugin_name_to_file_name(name, os);
    proof {
        lemma_plugin_file_name_plain(name@, os);
    }
    concat_dirname(v, file_name)
}

/// A plugin written in Rust: a shared library at `path`.
#[derive(Debug, PartialEq)]
pub struct RustPlugin {
    pub path: String,
}

/// A plugin written in Python: a script at `path`.
#[derive(Debug, PartialEq)]
pub struct PythonPlugin {
    pub path: String,
}

/// A plugin written in C++: a shared library at `path`, whose manifest comes
/// from the symbol `manifest_entry_point`.
#[derive(Debug, PartialEq)]
pub struct CppPlugin {
    pub path: String,
    pub manifest_entry_point: String,
}

/// A plugin that provides factories of objects, by the language it is written in.
#[derive(Debug, PartialEq)]
pub enum JuizObjectPlugin {
    Rust(RustPlugin),
    Python(PythonPlugin),
    Cpp(CppPlugin),
}

/// The message of the error for a language that no plugin kind has.
pub open spec fn unknown_language_message(language: Seq<char>) -> Seq<char> {
    "In setup_container_factories() function, unknown language option ("@ + language + ") detected"@
}

/// The languages that plugins are written in.
pub enum PluginLanguage {
    Rust,
    Python,
    Cpp,
}

/// The language that a setting names: `rust`, `python` or `c++`.
pub open spec fn plugin_language(language: Seq<char>) -> Option<PluginLanguage> {
    if language == "rust"@ {
        Some(PluginLanguage::Rust)
    } else if language == "python"@ {
        Some(PluginLanguage::Python)
    } else if language == "c++"@ {
        Some(PluginLanguage::Cpp)
    } else {
        None
    }
}

impl JuizObjectPlugin {
    /// The plugin `name` written in `language` (`rust`, `python` or `c++`),
    /// kept in the directory that `v`'s `path` member names. Fails with
    /// `InvalidSettingError` for any other language, and with the error of
    /// reading `path` where `v` has no string member `path`.
    pub fn new(language: &str, name: &str, v: &Value, manifest_entry_point: &str, os: TargetOs) -> (r: Result<
        JuizObjectPlugin,
        JuizError,
    >)
        ensures
            r is Ok <==> (plugin_language(language@) is Some && json_str(v@, "path"@) is Some),
            r matches Ok(p) ==> match plugin_language(language@) {
                Some(PluginLanguage::Rust) => p is Rust,
                Some(PluginLanguage::Python) => p is Python,
                _ => p matches JuizObjectPlugin::Cpp(c) && c.manifest_entry_point@ == manifest_entry_point@,
            },
            r matches Ok(p) ==> (plain_name_chars(name@) && no_verbatim_prefix(json_str(v@, "path"@)->0) ==> match p {
                JuizObjectPlugin::Rust(rp) => joined_path(
                    rp.path@,
                    json_str(v@, "path"@)->0,
                    spec_plugin_file_name(name@, os),
                ),
                JuizObjectPlugin::Python(pp) => joined_path(
                    pp.path@,
                    json_str(v@, "path"@)->0,
                    spec_plugin_file_name(name@, os),
                ),
                JuizObjectPlugin::Cpp(cp) => joined_path(
                    cp.path@,
                    json_str(v@, "path"@)->0,
                    spec_plugin_file_name(name@, os),
                ),
            }),
            r matches Err(e) ==> (if plugin_language(language@) is None {
                e matches JuizError::InvalidSettingError { message } && message@ == unknown_language_message(
                    language@,
                )
            } else {
                is_key_error(e, json_get(v@, "path"@) is None, "path"@)
            }),
    {
        if str_eq(language, "rust") {
            match plugin_path(name, v, os) {
                Ok(path) => Ok(JuizObjectPlugin::Rust(RustPlugin { path })),
                Err(e) => Err(e),
            }
        } else if str_eq(language, "python") {
            match python_plugin_path(name, v, os) {
                Ok(path) => Ok(JuizObjectPlugin::Python(PythonPlugin { path })),
                Err(e) => Err(e),
            }
        } else if str_eq(language, "c++") {
            match cpp_plugin_path(name, v, os) {
                Ok(path) => Ok(
                    JuizObjectPlugin::Cpp(CppPlugin { path, manifest_entry_point: string_of(manifest_entry_point) }),
                ),
                Err(e) => Err(e),
            }
        } else {
            let message = concat(
                concat(string_of("In setup_container_factories() function, unknown language option ("), language),
                ") detected",
            );
            Err(JuizError::InvalidSettingError { message })
        }
    }
}

impl JuizObjectPlugin {
    /// The symbol whose function makes the plugin's container factory: the
    /// asked `symbol_name` for a Rust plugin; `container_factory` for Python
    /// and C++ plugins, whatever was asked.
    pub fn container_factory_symbol(&self, symbol_name: &str) -> (r: String)
        ensures
            match self {
                JuizObjectPlugin::Rust(_) => r@ == symbol_name@,
                _ => r@ == "container_factory"@,
            },
    {
        match self {
            JuizObjectPlugin::Rust(_) => string_of(symbol_name),
            _ => string_of("container_factory"),
        }
    }
}

/// A loaded plugin, which can describe itself.
pub trait Plugin {
    fn profile_full(&self) -> Result<Value, JuizError>;
}

} // verus!
