use hoptodesk_launch::import::{import_config, import_config_paths, ImportPlan};

#[test]
fn paths_of_the_two_files() {
    assert_eq!(
        import_config_paths("/home/u/HopToDesk.toml"),
        ("/home/u/HopToDesk.toml".to_string(), "/home/u/HopToDesk2.toml".to_string())
    );
    assert_eq!(import_config_paths("a.toml.toml").1, "a2.toml2.toml");
}

#[test]
fn a_path_without_toml_is_read_twice() {
    assert_eq!(import_config_paths("config.ini"), ("config.ini".to_string(), "config.ini".to_string()));
}

#[test]
fn an_empty_source_replaces_nothing() {
    let plan = import_config(true, 5, 1, 9, 7, 1);
    assert_eq!(plan, ImportPlan { store_config: false, store_config2: false });
}

#[test]
fn first_file() {
    assert!(import_config(false, 5, 1, 9, 0, 0).store_config);
    assert!(!import_config(false, 5, 5, 9, 0, 0).store_config);
    assert!(!import_config(false, 9, 1, 9, 0, 0).store_config);
    assert!(!import_config(false, -3, -2, 9, 0, 0).store_config);
    assert!(import_config(false, -1, -2, 9, 0, 0).store_config);
}

#[test]
fn second_file() {
    assert!(import_config(false, 0, 1, 9, 2, 1).store_config2);
    assert!(!import_config(false, 0, 1, 9, 1, 1).store_config2);
    assert!(!import_config(false, 0, 1, 9, 0, 1).store_config2);
}
