use s3_simple_artifact_handler::archive::{FileEntry, Source};
use s3_simple_artifact_handler::error::{StoreError, TransferError};
use s3_simple_artifact_handler::transfer::{
    download_artifacts, finish_upload, resolve_object_key, upload_artifacts,
    DOWNLOAD_ARCHIVE_NAME, UPLOAD_ARCHIVE_NAME,
};

fn file(path: &str, content: &str) -> FileEntry {
    FileEntry {
        path: path.to_string(),
        source: Source::File { mode: 0o644, content: content.as_bytes().to_vec() },
    }
}

#[test]
fn supplied_key_is_kept() {
    assert_eq!(resolve_object_key(Some("test-1".to_string())), "test-1");
    assert_eq!(resolve_object_key(Some(String::new())), "");
}

#[test]
fn minted_key_is_a_unique_id() {
    let key = resolve_object_key(None);
    assert!(!key.is_empty());
    assert_eq!(key.len(), 36);
    for (i, c) in key.chars().enumerate() {
        if i == 8 || i == 13 || i == 18 || i == 23 {
            assert_eq!(c, '-');
        } else {
            assert!(c.is_ascii_digit() || ('a'..='f').contains(&c));
        }
    }
    assert_eq!(key.as_bytes()[14], b'4');
    assert!(b"89ab".contains(&key.as_bytes()[19]));
    let parsed = uuid::Uuid::parse_str(&key).unwrap();
    assert_eq!(parsed.get_version_num(), 4);
}

#[test]
fn minted_keys_differ() {
    assert_ne!(resolve_object_key(None), resolve_object_key(None));
}

#[test]
fn explicit_key_round_trip() {
    let entries = vec![file("a.txt", "hello"), file("sub/b.txt", "world")];
    let plan = upload_artifacts(&entries, Some("test-1".to_string())).unwrap();
    assert_eq!(plan.object, "test-1");
    assert_eq!(finish_upload(plan.object.clone(), Ok(()), true), Ok("test-1".to_string()));
    let files = download_artifacts(200, &plan.archive).unwrap();
    assert_eq!(files.len(), 2);
    assert_eq!(files[0].path, "a.txt");
    assert_eq!(files[0].content, b"hello".to_vec());
    assert_eq!(files[1].path, "sub/b.txt");
    assert_eq!(files[1].content, b"world".to_vec());
}

#[test]
fn upload_without_key_mints_one() {
    let plan = upload_artifacts(&vec![file("a.txt", "hello")], None).unwrap();
    assert_eq!(plan.object.len(), 36);
    assert!(uuid::Uuid::parse_str(&plan.object).is_ok());
}

#[test]
fn upload_of_unreadable_file_has_no_plan() {
    let entries = vec![FileEntry { path: "gone".to_string(), source: Source::Unreadable }];
    assert_eq!(upload_artifacts(&entries, None).err(), Some(TransferError::Io(0)));
}

#[test]
fn upload_reports_the_key_only_when_all_went_well() {
    let key = "k".to_string();
    assert_eq!(finish_upload(key.clone(), Ok(()), true), Ok("k".to_string()));
    assert_eq!(
        finish_upload(key.clone(), Err(StoreError::Status(403)), true),
        Err(TransferError::Store(StoreError::Status(403)))
    );
    assert_eq!(finish_upload(key.clone(), Ok(()), false), Err(TransferError::LocalFile));
    assert_eq!(
        finish_upload(key.clone(), Err(StoreError::MissingEtag), false),
        Err(TransferError::Store(StoreError::MissingEtag))
    );
    assert_eq!(
        finish_upload(key, Err(StoreError::Status(500)), false),
        Err(TransferError::Store(StoreError::Status(500)))
    );
}

#[test]
fn download_of_missing_object_fails_with_its_status() {
    let plan = upload_artifacts(&vec![file("a.txt", "hello")], None).unwrap();
    assert_eq!(
        download_artifacts(404, &plan.archive),
        Err(TransferError::Store(StoreError::Status(404)))
    );
    assert_eq!(
        download_artifacts(199, b"<Error/>"),
        Err(TransferError::Store(StoreError::Status(199)))
    );
    assert_eq!(
        download_artifacts(300, b""),
        Err(TransferError::Store(StoreError::Status(300)))
    );
}

#[test]
fn download_of_a_broken_archive_is_a_format_error() {
    assert_eq!(download_artifacts(200, b"<html>not an archive</html>"), Err(TransferError::Format));
    assert_eq!(download_artifacts(299, b""), Err(TransferError::Format));
}

#[test]
fn local_archive_names() {
    assert_eq!(UPLOAD_ARCHIVE_NAME, "export.tar.gz");
    assert_eq!(DOWNLOAD_ARCHIVE_NAME, "local_download.tar.gz");
}
