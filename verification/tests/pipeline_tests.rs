use std::io::Write;

use ops_tool::disk::Disk;
use ops_tool::error::Error;
use ops_tool::orchestrator::{run_pipeline, FetchReply};
use ops_tool::store::{launcher_path, versioned_path};
use ops_tool::tool::Tool;

fn zip_of(contents: &[u8]) -> Vec<u8> {
    let cursor = std::io::Cursor::new(Vec::new());
    let mut writer = zip::write::ZipWriter::new(cursor);
    let options = zip::write::SimpleFileOptions::default()
        .compression_method(zip::CompressionMethod::Stored);
    writer.start_file("binary", options).unwrap();
    writer.write_all(contents).unwrap();
    writer.finish().unwrap().into_inner()
}

fn good_zip_reply(contents: &[u8]) -> FetchReply {
    let body = zip_of(contents);
    FetchReply {
        status: 200,
        content_length: Some(body.len().to_string()),
        content_type: Some("application/zip".to_string()),
        body,
    }
}

fn good_raw_reply(contents: &[u8]) -> FetchReply {
    FetchReply {
        status: 200,
        content_length: Some(contents.len().to_string()),
        content_type: Some("application/octet-stream".to_string()),
        body: contents.to_vec(),
    }
}

#[test]
fn terraform_end_to_end() {
    let mut disk = Disk::new();
    let payload = b"terraform binary bytes";
    let report = run_pipeline(
        &mut disk,
        "/b",
        Tool::Terraform,
        "1.5.0",
        "linux",
        "amd64",
        false,
        good_zip_reply(payload),
    )
    .unwrap();
    assert!(report.fetched);
    assert_eq!(
        report.url.as_deref(),
        Some("https://releases.hashicorp.com/terraform/1.5.0/terraform_1.5.0_linux_amd64.zip")
    );
    let path = versioned_path("/b", &Tool::Terraform, "1.5.0");
    assert_eq!(path, "/b/terraform-versions/terraform-1.5.0");
    let (bytes, executable) = disk.file_state(&path).unwrap();
    assert_eq!(bytes.as_slice(), payload);
    assert!(executable);
    let link = launcher_path("/b", &Tool::Terraform);
    assert_eq!(disk.link_target(&link).unwrap(), &path);
}

#[test]
fn second_run_is_idempotent() {
    let mut disk = Disk::new();
    let payload = b"kubectl bytes";
    let first = run_pipeline(
        &mut disk,
        "/b",
        Tool::Kubectl,
        "1.20.0",
        "linux",
        "amd64",
        false,
        good_raw_reply(payload),
    )
    .unwrap();
    assert!(first.fetched);
    let second = run_pipeline(
        &mut disk,
        "/b",
        Tool::Kubectl,
        "1.20.0",
        "linux",
        "amd64",
        false,
        FetchReply { status: 500, content_length: None, content_type: None, body: Vec::new() },
    )
    .unwrap();
    assert!(!second.fetched);
    assert!(second.url.is_none());
    let path = versioned_path("/b", &Tool::Kubectl, "1.20.0");
    let (bytes, executable) = disk.file_state(&path).unwrap();
    assert_eq!(bytes.as_slice(), payload);
    assert!(executable);
    let link = launcher_path("/b", &Tool::Kubectl);
    assert_eq!(disk.link_target(&link).unwrap(), &path);
}

#[test]
fn force_refetches_and_keeps_link() {
    let mut disk = Disk::new();
    run_pipeline(
        &mut disk,
        "/b",
        Tool::Kops,
        "1.20.0",
        "linux",
        "amd64",
        false,
        good_raw_reply(b"old build"),
    )
    .unwrap();
    let report = run_pipeline(
        &mut disk,
        "/b",
        Tool::Kops,
        "1.20.0",
        "linux",
        "amd64",
        true,
        good_raw_reply(b"new build"),
    )
    .unwrap();
    assert!(report.fetched);
    assert_eq!(
        report.url.as_deref(),
        Some("https://github.com/kubernetes/kops/releases/download/v1.20.0/kops-linux-amd64")
    );
    let path = versioned_path("/b", &Tool::Kops, "1.20.0");
    let (bytes, _) = disk.file_state(&path).unwrap();
    assert_eq!(bytes.as_slice(), b"new build");
    let link = launcher_path("/b", &Tool::Kops);
    assert_eq!(disk.link_target(&link).unwrap(), &path);
}

#[test]
fn switching_back_relinks_without_touching_other_version() {
    let mut disk = Disk::new();
    run_pipeline(
        &mut disk,
        "/b",
        Tool::Kops,
        "1.10.0",
        "linux",
        "amd64",
        false,
        good_raw_reply(b"build A"),
    )
    .unwrap();
    run_pipeline(
        &mut disk,
        "/b",
        Tool::Kops,
        "1.20.0",
        "linux",
        "amd64",
        false,
        good_raw_reply(b"build B"),
    )
    .unwrap();
    let report = run_pipeline(
        &mut disk,
        "/b",
        Tool::Kops,
        "1.10.0",
        "linux",
        "amd64",
        false,
        FetchReply { status: 404, content_length: None, content_type: None, body: Vec::new() },
    )
    .unwrap();
    assert!(!report.fetched);
    let path_a = versioned_path("/b", &Tool::Kops, "1.10.0");
    let path_b = versioned_path("/b", &Tool::Kops, "1.20.0");
    let link = launcher_path("/b", &Tool::Kops);
    assert_eq!(disk.link_target(&link).unwrap(), &path_a);
    let (bytes_b, executable_b) = disk.file_state(&path_b).unwrap();
    assert_eq!(bytes_b.as_slice(), b"build B");
    assert!(executable_b);
}

#[test]
fn fetch_errors_leave_disk_untouched() {
    let mut disk = Disk::new();
    let r = run_pipeline(
        &mut disk,
        "/b",
        Tool::Terraform,
        "9.9.9",
        "linux",
        "amd64",
        false,
        FetchReply { status: 404, content_length: None, content_type: None, body: Vec::new() },
    );
    assert!(matches!(r, Err(Error::VersionNotAvailable)));
    let path = versioned_path("/b", &Tool::Terraform, "9.9.9");
    assert!(!disk.contains(&path));
    assert!(!disk.contains(&launcher_path("/b", &Tool::Terraform)));

    let r = run_pipeline(
        &mut disk,
        "/b",
        Tool::Terraform,
        "9.9.9",
        "linux",
        "amd64",
        false,
        FetchReply {
            status: 200,
            content_length: None,
            content_type: Some("application/zip".to_string()),
            body: Vec::new(),
        },
    );
    assert!(matches!(r, Err(Error::MissingLength)));
    assert!(!disk.contains(&path));
}

#[test]
fn invalid_version_fails_before_any_io() {
    let mut disk = Disk::new();
    let r = run_pipeline(
        &mut disk,
        "/b",
        Tool::Terraform,
        "not-a-version",
        "linux",
        "amd64",
        true,
        good_raw_reply(b"x"),
    );
    assert!(matches!(r, Err(Error::InvalidVersion)));
    assert!(!disk.contains(&launcher_path("/b", &Tool::Terraform)));
}

#[test]
fn empty_archive_aborts_install() {
    let cursor = std::io::Cursor::new(Vec::new());
    let writer = zip::write::ZipWriter::new(cursor);
    let body = writer.finish().unwrap().into_inner();
    let mut disk = Disk::new();
    let r = run_pipeline(
        &mut disk,
        "/b",
        Tool::Terraform,
        "1.5.0",
        "linux",
        "amd64",
        false,
        FetchReply {
            status: 200,
            content_length: Some(body.len().to_string()),
            content_type: Some("application/zip".to_string()),
            body,
        },
    );
    assert!(matches!(r, Err(Error::EmptyArchive)));
    assert!(!disk.contains(&versioned_path("/b", &Tool::Terraform, "1.5.0")));
}
