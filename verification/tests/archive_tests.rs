use std::io::Write;

use ops_tool::archive::normalize;
use ops_tool::error::Error;
use ops_tool::tool::BodyKind;

fn zip_with_one_entry(name: &str, contents: &[u8]) -> Vec<u8> {
    let cursor = std::io::Cursor::new(Vec::new());
    let mut writer = zip::write::ZipWriter::new(cursor);
    let options = zip::write::SimpleFileOptions::default()
        .compression_method(zip::CompressionMethod::Stored);
    writer.start_file(name, options).unwrap();
    writer.write_all(contents).unwrap();
    writer.finish().unwrap().into_inner()
}

fn empty_zip() -> Vec<u8> {
    let cursor = std::io::Cursor::new(Vec::new());
    let writer = zip::write::ZipWriter::new(cursor);
    writer.finish().unwrap().into_inner()
}

#[test]
fn raw_bytes_pass_through() {
    let data = b"a raw binary".to_vec();
    let out = normalize(data.clone(), BodyKind::Raw).unwrap();
    assert_eq!(out, data);
}

#[test]
fn zip_round_trip_matches_raw_path() {
    let payload = b"the binary payload".to_vec();
    let archive = zip_with_one_entry("terraform", &payload);
    assert_ne!(archive, payload);
    let via_zip = normalize(archive, BodyKind::Zip).unwrap();
    let via_raw = normalize(payload, BodyKind::Raw).unwrap();
    assert_eq!(via_zip, via_raw);
}

#[test]
fn deflated_zip_is_decompressed() {
    let payload = vec![7u8; 4096];
    let cursor = std::io::Cursor::new(Vec::new());
    let mut writer = zip::write::ZipWriter::new(cursor);
    let options = zip::write::SimpleFileOptions::default()
        .compression_method(zip::CompressionMethod::Deflated);
    writer.start_file("tool", options).unwrap();
    writer.write_all(&payload).unwrap();
    let archive = writer.finish().unwrap().into_inner();
    assert!(archive.len() < payload.len());
    let out = normalize(archive, BodyKind::Zip).unwrap();
    assert_eq!(out, payload);
}

#[test]
fn empty_archive_is_refused() {
    let archive = empty_zip();
    let r = normalize(archive, BodyKind::Zip);
    assert!(matches!(r, Err(Error::EmptyArchive)));
}

#[test]
fn garbage_zip_is_refused() {
    let r = normalize(b"not a zip at all".to_vec(), BodyKind::Zip);
    assert!(matches!(r, Err(Error::EmptyArchive)));
}
