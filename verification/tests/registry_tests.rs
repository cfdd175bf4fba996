use botcore::PluginError;
use botcore::registry::PluginRegistry;
use botcore::registry::module_file_name;

#[test]
fn loading_twice_reports_already_loaded() {
    let mut reg = PluginRegistry::new();
    assert_eq!(reg.len(), 0);

    assert!(reg.begin_load("corey-hotline").is_ok());
    assert!(reg.finish_load("corey-hotline", Ok(())).is_ok());
    assert_eq!(reg.len(), 1);

    assert_eq!(reg.begin_load("corey-hotline"), Err(PluginError::AlreadyLoaded));
    assert_eq!(reg.finish_load("corey-hotline", Ok(())), Err(PluginError::AlreadyLoaded));
    assert_eq!(reg.len(), 1);
}

#[test]
fn distinct_references_load_in_order() {
    let mut reg = PluginRegistry::new();
    assert!(reg.finish_load("a", Ok(())).is_ok());
    assert!(reg.finish_load("b", Ok(())).is_ok());
    assert_eq!(reg.len(), 2);
    assert!(reg.is_loaded("a"));
    assert!(reg.is_loaded("b"));
    assert!(!reg.is_loaded("c"));
}

#[test]
fn module_file_names_follow_the_convention() {
    assert_eq!(module_file_name("corey-hotline"), "libcorey-hotline.dylib");
    assert_eq!(module_file_name(""), "lib.dylib");
}

#[test]
fn failed_open_leaves_registry_unchanged() {
    let mut reg = PluginRegistry::new();
    assert_eq!(
        reg.finish_load("missing", Err(PluginError::InvalidLibrary)),
        Err(PluginError::InvalidLibrary)
    );
    assert_eq!(reg.len(), 0);
    assert!(!reg.is_loaded("missing"));
}

#[test]
fn failed_constructor_leaves_registry_unchanged() {
    let mut reg = PluginRegistry::new();
    assert_eq!(
        reg.finish_load("broken", Err(PluginError::InvalidPluginConstructor)),
        Err(PluginError::InvalidPluginConstructor)
    );
    assert_eq!(reg.len(), 0);
    assert!(!reg.is_loaded("broken"));
}
