use zip_container::BufFile;
use zip_container::Definition;
use zip_container::ZipContainer;
use zip_container::ZipContainerTrait;

#[test]
fn tests_test_zip_data_not_set() {
    let zip_container = ZipContainer::default();
    let result = zip_container.zip_data();
    assert!(result.is_err());
    if let Err(e) = result {
        assert_eq!(e.to_string().ends_with("zip_data is not set"), true)
    }
}

#[test]
fn mod_test_zip_data_not_set() {
    let zip_container = ZipContainer::default();
    let result = zip_container.zip_data();
    assert!(result.is_err());
    if let Err(e) = result {
        assert_eq!(e.to_string().ends_with("zip_data is not set"), true)
    }
}

#[test]
fn tests_test_definition_path_not_set() {
    let zip_container = ZipContainer::default();
    let result = zip_container.definition_path();
    assert!(result.is_err());
    if let Err(e) = result {
        assert_eq!(e.to_string().ends_with("definition_path is not set"), true);
    }
}

#[test]
fn mod_test_definition_path_not_set() {
    let zip_container = ZipContainer::default();
    let result = zip_container.definition_path();
    assert!(result.is_err());
    if let Err(e) = result {
        assert_eq!(e.to_string().ends_with("definition_path is not set"), true);
    }
}

#[test]
fn tests_test_initialize_zip_container_with_valid_xml_definition_path() {
    let zip_path = String::from("test.zip");
    let definition_path = Some(String::from("definition.xml"));
    let zip_container = ZipContainer::new(zip_path.clone(), definition_path.clone());

    assert_eq!(zip_container.zip_path, Some(zip_path));
    assert_eq!(zip_container.definition_path, definition_path);
    assert!(matches!(zip_container.definition_content, Some(Definition::XML(_))));
}

#[test]
fn mod_test_initialize_zip_container_with_valid_xml_definition_path() {
    let zip_path = String::from("test.zip");
    let definition_path = Some(String::from("definition.xml"));
    let zip_container = ZipContainer::new(zip_path.clone(), definition_path.clone());

    assert_eq!(zip_container.zip_path, Some(zip_path));
    assert_eq!(zip_container.definition_path, definition_path);
    assert!(matches!(zip_container.definition_content, Some(Definition::XML(_))));
}

#[test]
fn tests_test_initialize_zip_container_with_default_values() {
    let zip_container = ZipContainer::default();

    assert!(zip_container.zip_data.is_none());
    assert!(zip_container.definition_path.is_none());
    assert!(zip_container.definition_content.is_none());
    assert!(zip_container.files.is_none());
    assert!(zip_container.zip_path.is_none());
}

#[test]
fn mod_test_initialize_zip_container_with_default_values() {
    let zip_container = ZipContainer::default();

    assert!(zip_container.zip_data.is_none());
    assert!(zip_container.definition_path.is_none());
    assert!(zip_container.definition_content.is_none());
    assert!(zip_container.files.is_none());
    assert!(zip_container.zip_path.is_none());
}

#[test]
fn tests_test_initialize_zip_container_with_valid_json_definition_path() {
    let zip_path = String::from("test.zip");
    let definition_path = Some(String::from("definition.json"));
    let zip_container = ZipContainer::new(zip_path.clone(), definition_path.clone());

    assert_eq!(zip_container.zip_path, Some(zip_path));
    assert_eq!(zip_container.definition_path, definition_path);
    assert!(matches!(zip_container.definition_content, Some(Definition::JSON(_))));
}

#[test]
fn mod_test_initialize_zip_container_with_valid_json_definition_path() {
    let zip_path = String::from("test.zip");
    let definition_path = Some(String::from("definition.json"));
    let zip_container = ZipContainer::new(zip_path.clone(), definition_path.clone());

    assert_eq!(zip_container.zip_path, Some(zip_path));
    assert_eq!(zip_container.definition_path, definition_path);
    assert!(matches!(zip_container.definition_content, Some(Definition::JSON(_))));
}

#[test]
fn tests_test_initialize_zip_container_with_unsupported_definition_path() {
    let zip_path = String::from("test.zip");
    let definition_path = Some(String::from("definition.unsupported"));
    let zip_container = ZipContainer::new(zip_path.clone(), definition_path.clone());

    assert_eq!(zip_container.zip_path, Some(zip_path));
    assert_eq!(zip_container.definition_path, definition_path);
    assert!(zip_container.definition_content.is_none());
}

#[test]
fn mod_test_initialize_zip_container_with_unsupported_definition_path() {
    let zip_path = String::from("test.zip");
    let definition_path = Some(String::from("definition.unsupported"));
    let zip_container = ZipContainer::new(zip_path.clone(), definition_path.clone());

    assert_eq!(zip_container.zip_path, Some(zip_path));
    assert_eq!(zip_container.definition_path, definition_path);
    assert!(zip_container.definition_content.is_none());
}

#[test]
fn tests_test_set_files_in_zip_container() {
    let mut zip_container = ZipContainer::default();
    let files = vec![
        BufFile {
            name: Some(String::from("file1.txt")),
            content: Some(vec![1, 2, 3]),
            file_id: Some(String::from("id1")),
            content_type: Some(String::from("text/plain")),
            path: Some(String::from("path/to/file1.txt")),
            size: Some(3),
        },
        BufFile {
            name: Some(String::from("file2.txt")),
            content: Some(vec![4, 5, 6]),
            file_id: Some(String::from("id2")),
            content_type: Some(String::from("text/plain")),
            path: Some(String::from("path/to/file2.txt")),
            size: Some(3),
        },
    ];

    zip_container.set_files(files.clone());

    assert_eq!(zip_container.files, Some(files));
}

#[test]
fn mod_test_set_files_in_zip_container() {
    let mut zip_container = ZipContainer::default();
    let files = vec![
        BufFile {
            name: Some(String::from("file1.txt")),
            content: Some(vec![1, 2, 3]),
            file_id: Some(String::from("id1")),
            content_type: Some(String::from("text/plain")),
            path: Some(String::from("path/to/file1.txt")),
            size: Some(3),
        },
        BufFile {
            name: Some(String::from("file2.txt")),
            content: Some(vec![4, 5, 6]),
            file_id: Some(String::from("id2")),
            content_type: Some(String::from("text/plain")),
            path: Some(String::from("path/to/file2.txt")),
            size: Some(3),
        },
    ];

    zip_container.set_files(files.clone());

    assert_eq!(zip_container.files, Some(files));
}

#[test]
fn tests_test_process_zip_container_with_valid_path() {
    let result = ZipContainer::new(
        "https://raw.githubusercontent.com/holg/gldf-rs/refs/heads/master/tests/data/test.gldf"
            .to_string(),
        Some("product.xml".to_string()),
    );
    assert_eq!(result.definition_path.unwrap(), "product.xml");
}

#[test]
fn mod_test_process_zip_container_with_valid_path() {
    let result = ZipContainer::new(
        "https://raw.githubusercontent.com/holg/gldf-rs/refs/heads/master/tests/data/test.gldf"
            .to_string(),
        Some("product.xml".to_string()),
    );
    assert_eq!(result.definition_path.unwrap(), "product.xml");
}

#[test]
fn tests_test_definition_as_ref() {
    let xml_definition = Definition::XML(String::from("xml content"));
    let json_definition = Definition::JSON(String::from("json content"));
    let yaml_definition = Definition::YAML(String::from("yaml content"));
    let toml_definition = Definition::TOML(String::from("toml content"));

    assert_eq!(xml_definition.as_ref(), "xml content");
    assert_eq!(json_definition.as_ref(), "json content");
    assert_eq!(yaml_definition.as_ref(), "yaml content");
    assert_eq!(toml_definition.as_ref(), "toml content");
}

#[test]
fn mod_test_definition_as_ref() {
    let xml_definition = Definition::XML(String::from("xml content"));
    let json_definition = Definition::JSON(String::from("json content"));
    let yaml_definition = Definition::YAML(String::from("yaml content"));
    let toml_definition = Definition::TOML(String::from("toml content"));

    assert_eq!(xml_definition.as_ref(), "xml content");
    assert_eq!(json_definition.as_ref(), "json content");
    assert_eq!(yaml_definition.as_ref(), "yaml content");
    assert_eq!(toml_definition.as_ref(), "toml content");
}

#[test]
fn test_infer_definition_other_formats() {
    assert!(matches!(Definition::infer("a.yaml"), Some(Definition::YAML(_))));
    assert!(matches!(Definition::infer("a.yml"), Some(Definition::YAML(_))));
    assert!(matches!(Definition::infer("a.toml"), Some(Definition::TOML(_))));
    assert!(matches!(Definition::infer("A.TOML"), Some(Definition::TOML(_))));
    assert!(matches!(Definition::infer("mixed.YaMl"), Some(Definition::YAML(_))));
    assert!(Definition::infer("no_extension").is_none());
    assert!(Definition::infer("").is_none());
}

#[test]
fn test_definition_default_is_empty_xml() {
    let d = Definition::default();
    assert!(matches!(d, Definition::XML(_)));
    assert_eq!(d.as_ref(), "");
}

#[test]
fn test_definition_extract_file_paths_is_empty() {
    let d = Definition::XML(String::from("<root><file>ldc/diffuse.ldt</file></root>"));
    assert!(d.extract_file_paths().is_empty());
}

#[test]
fn test_set_zip_data_and_definition_path() {
    let mut c = ZipContainer::new("test.zip".to_string(), None);
    assert!(c.zip_data.is_none());
    c.set_zip_data(Some(vec![1, 2, 3]));
    assert_eq!(c.zip_data, Some(vec![1, 2, 3]));
    c.set_definition_path(Some("definition.xml".to_string()));
    assert_eq!(c.definition_path.as_deref(), Some("definition.xml"));
    c.set_zip_data(None);
    assert!(c.zip_data.is_none());
}

#[test]
fn test_decimal_rendering() {
    assert_eq!(zip_container::text::u64_to_decimal(0), "0");
    assert_eq!(zip_container::text::u64_to_decimal(7), "7");
    assert_eq!(zip_container::text::u64_to_decimal(105), "105");
    assert_eq!(zip_container::text::u64_to_decimal(u64::MAX), "18446744073709551615");
}

#[test]
fn test_location_is_remote() {
    assert!(zip_container::text::location_is_remote("http://example.com/a.zip"));
    assert!(zip_container::text::location_is_remote("https://example.com/a.zip"));
    assert!(!zip_container::text::location_is_remote("tests/data/a.zip"));
    assert!(!zip_container::text::location_is_remote("/absolute/path.zip"));
    assert!(!zip_container::text::location_is_remote("ftp://example.com/a.zip"));
}
