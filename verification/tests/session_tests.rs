use aliyundrive::error::TransferError;
use aliyundrive::metadata::{read_download_url, read_file_size, require_size, require_url};
use aliyundrive::session::{read_create_reply, text_or_empty};
use aliyundrive::upload::{CreateReply, PartTarget};

#[test]
fn file_size_is_read_from_the_metadata() {
    assert_eq!(read_file_size(r#"{"name":"a.bin","size":20971520}"#), Ok(20971520));
    assert_eq!(read_file_size(r#"{"size":0}"#), Ok(0));
    assert_eq!(read_file_size(r#"{"size":18446744073709551615}"#), Ok(u64::MAX));
}

#[test]
fn missing_size_is_a_resolution_failure() {
    assert_eq!(read_file_size(r#"{"name":"a.bin"}"#), Err(TransferError::SizeUnavailable));
    assert_eq!(read_file_size(r#"{"size":"12"}"#), Err(TransferError::SizeUnavailable));
    assert_eq!(read_file_size(r#"{"size":-1}"#), Err(TransferError::SizeUnavailable));
    assert_eq!(read_file_size(r#"{"size":1.5}"#), Err(TransferError::SizeUnavailable));
    assert_eq!(read_file_size(r#"[1,2]"#), Err(TransferError::SizeUnavailable));
    assert_eq!(read_file_size(r#"{"code":"NotFound.File"}"#), Err(TransferError::SizeUnavailable));
}

#[test]
fn metadata_that_is_no_json_is_malformed() {
    assert_eq!(read_file_size("size=12"), Err(TransferError::MalformedMetadata));
    assert_eq!(read_file_size(""), Err(TransferError::MalformedMetadata));
    assert_eq!(read_download_url("{"), Err(TransferError::MalformedMetadata));
}

#[test]
fn download_url_is_read_from_the_answer() {
    assert_eq!(
        read_download_url(r#"{"url":"https://cdn.example/f?x=1","expiration":"soon"}"#),
        Ok("https://cdn.example/f?x=1".to_string())
    );
}

#[test]
fn missing_url_is_a_resolution_failure() {
    assert_eq!(read_download_url(r#"{"expiration":"soon"}"#), Err(TransferError::UrlUnavailable));
    assert_eq!(read_download_url(r#"{"url":17}"#), Err(TransferError::UrlUnavailable));
    assert_eq!(read_download_url(r#"{"url":null}"#), Err(TransferError::UrlUnavailable));
}

#[test]
fn required_values() {
    assert_eq!(require_size(Some(7)), Ok(7));
    assert_eq!(require_size(None), Err(TransferError::SizeUnavailable));
    assert_eq!(require_url(Some("u".to_string())), Ok("u".to_string()));
    assert_eq!(require_url(None), Err(TransferError::UrlUnavailable));
    assert_eq!(text_or_empty(Some("x".to_string())), "x");
    assert_eq!(text_or_empty(None), "");
}

#[test]
fn session_reply_is_read_in_full() {
    let body = r#"{
        "file_id": "f-1",
        "upload_id": "u-1",
        "rapid_upload": false,
        "part_info_list": [
            {"part_number": 1, "upload_url": "https://up.example/1"},
            {"part_number": 2, "upload_url": "https://up.example/2"}
        ]
    }"#;
    assert_eq!(
        read_create_reply(body),
        Ok(CreateReply {
            code: None,
            file_id: "f-1".to_string(),
            upload_id: "u-1".to_string(),
            rapid_upload: false,
            parts: vec![
                PartTarget { upload_url: Some("https://up.example/1".to_string()), part_number: Some(1) },
                PartTarget { upload_url: Some("https://up.example/2".to_string()), part_number: Some(2) },
            ],
        })
    );
}

#[test]
fn session_reply_with_an_error_code() {
    let reply = read_create_reply(r#"{"code":"QuotaExhausted.Drive","message":"full"}"#).unwrap();
    assert_eq!(reply.code, Some("\"QuotaExhausted.Drive\"".to_string()));
    assert_eq!(reply.file_id, "");
    assert_eq!(reply.upload_id, "");
    assert!(!reply.rapid_upload);
    assert!(reply.parts.is_empty());
    let reply = read_create_reply(r#"{"code":null}"#).unwrap();
    assert_eq!(reply.code, Some("null".to_string()));
    let reply = read_create_reply(r#"{"code":{"a":[1,2]}}"#).unwrap();
    assert_eq!(reply.code, Some(r#"{"a":[1,2]}"#.to_string()));
}

#[test]
fn session_reply_with_rapid_upload() {
    let reply = read_create_reply(r#"{"file_id":"f","upload_id":"u","rapid_upload":true}"#).unwrap();
    assert!(reply.rapid_upload);
    assert!(reply.parts.is_empty());
    let reply = read_create_reply(r#"{"rapid_upload":"true"}"#).unwrap();
    assert!(!reply.rapid_upload);
    let reply = read_create_reply(r#"{"rapid_upload":1}"#).unwrap();
    assert!(!reply.rapid_upload);
}

#[test]
fn session_reply_with_odd_parts() {
    let reply = read_create_reply(
        r#"{"part_info_list":[{"upload_url":"u1"},{"part_number":2},{"part_number":"3","upload_url":3},7]}"#,
    )
    .unwrap();
    assert_eq!(
        reply.parts,
        vec![
            PartTarget { upload_url: Some("u1".to_string()), part_number: None },
            PartTarget { upload_url: None, part_number: Some(2) },
            PartTarget { upload_url: None, part_number: None },
            PartTarget { upload_url: None, part_number: None },
        ]
    );
    let reply = read_create_reply(r#"{"part_info_list":{"upload_url":"u1"}}"#).unwrap();
    assert!(reply.parts.is_empty());
}

#[test]
fn session_reply_that_is_no_object() {
    let reply = read_create_reply("[]").unwrap();
    assert_eq!(reply.code, None);
    assert!(reply.parts.is_empty());
}

#[test]
fn session_reply_that_is_no_json_is_malformed() {
    assert_eq!(read_create_reply("<html>"), Err(TransferError::MalformedSessionReply));
    assert_eq!(read_create_reply(r#"{"file_id":"#), Err(TransferError::MalformedSessionReply));
}
