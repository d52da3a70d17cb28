use juiz_core::error::JuizError;
use juiz_core::plugin::{concat_dirname, plugin_name_to_file_name, plugin_name_to_python_file_name, JuizObjectPlugin, TargetOs};
use juiz_core::value::Value;

fn dir_value(path: &str) -> Value {
    Value::Object(vec![("path".to_string(), Value::String(path.to_string()))])
}

#[test]
fn plugin_file_names() {
    assert_eq!(plugin_name_to_file_name("increment", TargetOs::MacOs), "libincrement.dylib");
    assert_eq!(plugin_name_to_file_name("increment", TargetOs::Windows), "increment.dll");
    assert_eq!(plugin_name_to_python_file_name("increment"), "increment.py");
}

#[test]
fn concat_dirname_joins() {
    let p = concat_dirname(&dir_value("./target/debug"), "libx.dylib".to_string()).unwrap();
    assert_eq!(std::path::PathBuf::from(p), std::path::PathBuf::from("./target/debug").join("libx.dylib"));
    assert_eq!(
        concat_dirname(&Value::Object(vec![]), "x".to_string()),
        Err(JuizError::ValueWithKeyNotFoundError { key: "path".to_string() })
    );
}

#[test]
fn plugin_new_by_language() {
    let v = dir_value("plugins");
    match JuizObjectPlugin::new("rust", "inc", &v, "manifest", TargetOs::MacOs).unwrap() {
        JuizObjectPlugin::Rust(p) => assert!(p.path.ends_with("libinc.dylib")),
        other => panic!("{other:?}"),
    }
    match JuizObjectPlugin::new("python", "inc", &v, "manifest", TargetOs::MacOs).unwrap() {
        JuizObjectPlugin::Python(p) => assert!(p.path.ends_with("libinc.dylib")),
        other => panic!("{other:?}"),
    }
    match JuizObjectPlugin::new("python", "inc", &v, "manifest", TargetOs::Windows).unwrap() {
        JuizObjectPlugin::Python(p) => assert!(p.path.ends_with("inc.dll")),
        other => panic!("{other:?}"),
    }
    match JuizObjectPlugin::new("c++", "inc", &v, "manifest_entry", TargetOs::Windows).unwrap() {
        JuizObjectPlugin::Cpp(p) => {
            assert!(p.path.ends_with("inc.dll"));
            assert_eq!(p.manifest_entry_point, "manifest_entry");
        },
        other => panic!("{other:?}"),
    }
}

#[test]
fn plugin_new_errors() {
    let v = dir_value("plugins");
    assert_eq!(
        JuizObjectPlugin::new("java", "inc", &v, "m", TargetOs::MacOs),
        Err(JuizError::InvalidSettingError {
            message: "In setup_container_factories() function, unknown language option (java) detected".to_string()
        })
    );
    assert_eq!(
        JuizObjectPlugin::new("rust", "inc", &Value::Null, "m", TargetOs::MacOs),
        Err(JuizError::ValueWithKeyNotFoundError { key: "path".to_string() })
    );
}

#[test]
fn joined_paths_have_at_most_one_separator() {
    let p = concat_dirname(&dir_value("plugins/"), "x.py".to_string()).unwrap();
    assert_eq!(p, "plugins/x.py");
    let q = concat_dirname(&dir_value(""), "x.py".to_string()).unwrap();
    assert_eq!(q, "x.py");
    let r = concat_dirname(&dir_value("plugins"), "x.py".to_string()).unwrap();
    assert!(r == "plugins/x.py" || r == "plugins\\x.py");
}

#[test]
fn container_factory_symbol_by_language() {
    let v = dir_value("plugins");
    let rust = JuizObjectPlugin::new("rust", "inc", &v, "manifest", TargetOs::MacOs).unwrap();
    let python = JuizObjectPlugin::new("python", "inc", &v, "manifest", TargetOs::MacOs).unwrap();
    let cpp = JuizObjectPlugin::new("c++", "inc", &v, "manifest", TargetOs::MacOs).unwrap();
    assert_eq!(rust.container_factory_symbol("my_factory"), "my_factory");
    assert_eq!(python.container_factory_symbol("my_factory"), "container_factory");
    assert_eq!(cpp.container_factory_symbol("my_factory"), "container_factory");
}
