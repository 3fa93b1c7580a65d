use std::io::Cursor;
use std::io::Write;

use zip_container::FileLoader;
use zip_container::UnifiedFileLoader;
use zip_container::ZipContainer;
use zip_container::ZipContainerError;
use zip_container::ZipContainerTrait;

fn build_archive(members: &[(&str, &[u8])]) -> Vec<u8> {
    let mut writer = zip::ZipWriter::new(Cursor::new(Vec::new()));
    for (name, content) in members {
        writer
            .start_file(*name, zip::write::SimpleFileOptions::default())
            .unwrap();
        writer.write_all(content).unwrap();
    }
    writer.finish().unwrap().into_inner()
}

fn build_stored_archive(members: &[(&str, &[u8])]) -> Vec<u8> {
    let mut writer = zip::ZipWriter::new(Cursor::new(Vec::new()));
    let options = zip::write::SimpleFileOptions::default()
        .compression_method(zip::CompressionMethod::Stored);
    for (name, content) in members {
        writer.start_file(*name, options).unwrap();
        writer.write_all(content).unwrap();
    }
    writer.finish().unwrap().into_inner()
}

fn container_with(data: Vec<u8>, definition_path: Option<&str>) -> ZipContainer {
    let mut c = ZipContainer::new("test.zip".to_string(), definition_path.map(String::from));
    c.set_zip_data(Some(data));
    c
}

#[test]
fn test_operations_without_zip_data() {
    let c = ZipContainer::default();
    assert!(matches!(c.zip_data(), Err(ZipContainerError::MissingValue { .. })));
    assert!(matches!(c.get_file_names(), Err(ZipContainerError::MissingValue { .. })));
    assert!(matches!(c.get_zip_files(), Err(ZipContainerError::MissingValue { .. })));
    assert!(matches!(c.extract_all(), Err(ZipContainerError::MissingValue { .. })));
    let loader = UnifiedFileLoader;
    assert!(matches!(
        c.load_file(&loader, "anything.txt"),
        Err(ZipContainerError::MissingValue { .. })
    ));
    let mut c = c;
    assert!(matches!(c.process_files(), Err(ZipContainerError::MissingValue { .. })));
    assert!(c.files.is_none());
}

#[test]
fn test_list_members_and_extract_all() {
    let data = build_archive(&[
        ("product.xml", b"<product/>".as_slice()),
        ("ldc/diffuse.ldt", b"LDT DATA".as_slice()),
    ]);
    let c = container_with(data, None);

    let names = c.get_file_names().unwrap();
    assert_eq!(names, vec!["product.xml".to_string(), "ldc/diffuse.ldt".to_string()]);

    let listed = c.get_zip_files().unwrap();
    assert_eq!(listed.len(), 2);
    assert_eq!(listed[0].name.as_deref(), Some("product.xml"));
    assert_eq!(listed[0].size, Some(10));
    assert_eq!(listed[0].file_id.as_deref(), Some("0"));
    assert!(listed[0].content.is_none());
    assert!(listed[0].path.is_some());
    assert_eq!(listed[0].path.as_deref(), Some("product.xml"));
    assert_eq!(listed[1].name.as_deref(), Some("ldc/diffuse.ldt"));
    assert_eq!(listed[1].size, Some(8));
    assert_eq!(listed[1].file_id.as_deref(), Some("1"));
    assert!(listed[1].content.is_none());
    assert_eq!(listed[1].path.as_deref(), Some("ldc/diffuse.ldt"));

    let materialized = c.extract_all().unwrap();
    assert_eq!(materialized.len(), 2);
    for record in &materialized {
        let content = record.content.as_ref().unwrap();
        assert_eq!(content.len() as u64, record.size.unwrap());
    }
    assert_eq!(materialized[0].content.as_deref(), Some(b"<product/>".as_slice()));
    assert_eq!(materialized[1].content.as_deref(), Some(b"LDT DATA".as_slice()));
}

#[test]
fn test_process_files_materializes_records() {
    let data = build_archive(&[("a.txt", b"alpha".as_slice()), ("b.txt", b"beta!".as_slice())]);
    let mut c = container_with(data, None);
    c.process_files().unwrap();
    let files = c.files.as_ref().unwrap();
    assert_eq!(files.len(), 2);
    assert_eq!(files[0].content.as_deref(), Some(b"alpha".as_slice()));
    assert_eq!(files[1].content.as_deref(), Some(b"beta!".as_slice()));
    // Calling it again replaces the list wholesale.
    c.process_files().unwrap();
    assert_eq!(c.files.as_ref().unwrap().len(), 2);
}

#[test]
fn test_load_file_archive_precedence() {
    // The second member's name is also a syntactically valid URL; the
    // archive member still wins, and no fetch is attempted (the injected
    // loader refuses every load).
    let data = build_archive(&[
        ("plain.txt", b"plain bytes".as_slice()),
        ("https://example.com/remote.txt", b"local copy".as_slice()),
    ]);
    let c = container_with(data, None);
    let loader = UnifiedFileLoader;

    assert_eq!(c.load_file(&loader, "plain.txt").unwrap(), b"plain bytes".to_vec());
    assert_eq!(
        c.load_file(&loader, "https://example.com/remote.txt").unwrap(),
        b"local copy".to_vec()
    );
}

#[test]
fn test_load_file_unresolved_missing_value() {
    let data = build_archive(&[("present.txt", b"x".as_slice())]);
    let c = container_with(data, None);
    let loader = UnifiedFileLoader;

    let err = c.load_file(&loader, "nowhere.txt").unwrap_err();
    assert!(matches!(err, ZipContainerError::MissingValue { .. }));
    assert!(err.to_string().ends_with("nowhere.txt"));
}

#[test]
fn test_load_file_from_zip_not_found_is_invalid_data() {
    let data = build_archive(&[("present.txt", b"x".as_slice())]);
    let c = container_with(data, None);
    let err = c.load_file_from_zip("absent.txt").unwrap_err();
    assert!(matches!(err, ZipContainerError::InvalidData { .. }));
}

#[test]
fn test_malformed_archive_is_invalid_data() {
    let c = container_with(vec![0x50, 0x4b, 0x00, 0x00, 0x01, 0x02], None);
    assert!(matches!(c.get_file_names(), Err(ZipContainerError::InvalidData { .. })));
    assert!(matches!(c.get_zip_files(), Err(ZipContainerError::InvalidData { .. })));
    assert!(matches!(c.extract_all(), Err(ZipContainerError::InvalidData { .. })));
}

#[test]
fn test_corrupt_member_contents_is_io_error() {
    // A stored member whose payload byte is flipped after writing: the
    // structure still parses, but reading the member fails its checksum.
    let mut data = build_stored_archive(&[("a.txt", b"alpha".as_slice())]);
    // The payload of the first member follows its local header: a fixed
    // 30 bytes plus the name.
    let payload_offset = 30 + "a.txt".len();
    data[payload_offset] ^= 0xff;
    let c = container_with(data, None);

    assert!(c.get_file_names().is_ok());
    let err = c.extract_all().unwrap_err();
    assert!(matches!(err, ZipContainerError::IOError { .. }));
}

#[test]
fn test_unsupported_loader_refuses() {
    let loader = UnifiedFileLoader;
    let err = loader.load("anything").unwrap_err();
    assert!(matches!(err, ZipContainerError::UnsupportedOperation { .. }));
}

#[test]
fn test_end_to_end_product_archive() {
    let xml_text = "<?xml version=\"1.0\"?><product>luminaire \u{00e9}clairage</product>";
    let data = build_archive(&[
        ("product.xml", xml_text.as_bytes()),
        ("ldc/diffuse.ldt", b"LDT PHOTOMETRY".as_slice()),
    ]);
    let c = container_with(data, Some("product.xml"));
    let loader = UnifiedFileLoader;

    let names = c.get_file_names().unwrap();
    assert_eq!(names, vec!["product.xml".to_string(), "ldc/diffuse.ldt".to_string()]);

    let definition = c.load_definition_file_str(&loader).unwrap();
    assert_eq!(definition, xml_text);

    let materialized = c.extract_all().unwrap();
    assert_eq!(materialized.len(), 2);
    assert!(materialized.iter().all(|f| f.content.is_some()));
}

#[test]
fn test_definition_invalid_utf8_is_text_decode_error() {
    let data = build_archive(&[("product.xml", [0xff, 0xfe, 0x00, 0x41].as_slice())]);
    let c = container_with(data, Some("product.xml"));
    let loader = UnifiedFileLoader;

    let err = c.load_definition_file_str(&loader).unwrap_err();
    assert!(matches!(err, ZipContainerError::TextDecodeError { .. }));
}

#[test]
fn test_definition_path_missing_for_definition_load() {
    let data = build_archive(&[("product.xml", b"<x/>".as_slice())]);
    let c = container_with(data, None);
    let loader = UnifiedFileLoader;
    let err = c.load_definition_file_str(&loader).unwrap_err();
    assert!(matches!(err, ZipContainerError::MissingValue { .. }));
    assert!(err.to_string().ends_with("definition_path is not set"));
}

#[test]
fn test_load_data_with_refusing_loader_degrades_to_absent() {
    let mut c = ZipContainer::new("test.zip".to_string(), Some("definition.xml".to_string()));
    let loader = UnifiedFileLoader;
    c.load_data_with(&loader);
    assert!(c.zip_data.is_none());
    assert_eq!(c.definition_path.as_deref(), Some("definition.xml"));
}

#[test]
fn test_load_zip_data_swallows_loader_failure() {
    let loader = UnifiedFileLoader;
    assert!(ZipContainer::load_zip_data(&loader, "test.zip").is_none());
}
