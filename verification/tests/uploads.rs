use starriver::application::article_service::check_upload;
use starriver::application::blog_service::{attachment_url, upload_dir};
use starriver::base::error::Cause;
use starriver::base::file_service::{
    disallowed_message, fresh_storage_path, kinds_list, mismatch_message, recognise, remove_failure_message,
    storage_path, unrecognized_message, upload_file_name, ChunkVerdict, FileKind, TypeSniffer,
    INFER_MAGIC_BUF_MAX_LEN,
};
use starriver::base::file_utils::get_extension;

const PNG: [u8; 16] = [
    0x89, 0x50, 0x4E, 0x47, 0x0D, 0x0A, 0x1A, 0x0A, 0x00, 0x00, 0x00, 0x0D, 0x49, 0x48, 0x44, 0x52,
];

#[test]
fn get_extension_takes_last_suffix() {
    assert_eq!(get_extension("a.png"), "png");
    assert_eq!(get_extension("archive.tar.gz"), "gz");
    assert_eq!(get_extension("dir/photo.jpeg"), "jpeg");
}

#[test]
fn get_extension_without_suffix_is_empty() {
    assert_eq!(get_extension("README"), "");
    assert_eq!(get_extension(".hidden"), "");
    assert_eq!(get_extension(""), "");
    assert_eq!(get_extension("name."), "");
    assert_eq!(get_extension("v1.2/notes"), "");
}

#[test]
fn recognise_png_and_jpeg() {
    let png = recognise(&PNG);
    assert!(matches!(png, Some((FileKind::Image, "png"))));
    let jpg = recognise(&[0xFF, 0xD8, 0xFF, 0xAA]);
    assert!(matches!(jpg, Some((FileKind::Image, "jpg"))));
    assert!(recognise(&[]).is_none());
}

#[test]
fn upload_names_and_paths() {
    assert_eq!(upload_file_name(None), "unknown");
    assert_eq!(upload_file_name(Some("cat.png")), "cat.png");
    assert_eq!(storage_path("/data/uploads", "0190-ab", "png"), "/data/uploads/0190-ab.png");
    let a = fresh_storage_path("/data/uploads", "png");
    let b = fresh_storage_path("/data/uploads", "png");
    assert_ne!(a, b);
    let name = a.strip_prefix("/data/uploads/").unwrap().strip_suffix(".png").unwrap();
    let id = uuid::Uuid::parse_str(name).unwrap();
    assert_eq!(id.get_version_num(), 7);
    assert_eq!(id.to_string(), name);
    assert_eq!(upload_dir("static", "uploads"), "static/uploads");
    assert_eq!(attachment_url("uploads", "a.png"), "uploads/a.png");
}

#[test]
fn sniffer_accepts_matching_type() {
    let allowed = vec![FileKind::Image];
    let mut s = TypeSniffer::new();
    // A single byte is not enough to look for a type.
    assert!(matches!(s.on_chunk(&PNG[..1], &allowed, "png"), ChunkVerdict::Write));
    assert!(matches!(s.on_chunk(&PNG[1..], &allowed, "png"), ChunkVerdict::Write));
    // Once accepted, anything that follows is written.
    assert!(matches!(s.on_chunk(&[0u8; 10], &allowed, "png"), ChunkVerdict::Write));
}

#[test]
fn sniffer_refuses_other_kinds() {
    let allowed = vec![FileKind::Video, FileKind::Audio];
    let mut s = TypeSniffer::new();
    match s.on_chunk(&PNG, &allowed, "png") {
        ChunkVerdict::Disallowed(k) => assert_eq!(k, FileKind::Image),
        other => panic!("unexpected verdict {:?}", other),
    }
}

#[test]
fn sniffer_refuses_mismatched_extension() {
    let allowed = vec![FileKind::Image];
    let mut s = TypeSniffer::new();
    match s.on_chunk(&PNG, &allowed, "jpg") {
        ChunkVerdict::Mismatch(actual) => assert_eq!(actual, "png"),
        other => panic!("unexpected verdict {:?}", other),
    }
}

#[test]
fn sniffer_gives_up_after_full_buffer() {
    let allowed = vec![FileKind::Image];
    let mut s = TypeSniffer::new();
    let data = vec![b'x'; INFER_MAGIC_BUF_MAX_LEN - 1];
    assert!(matches!(s.on_chunk(&data, &allowed, "png"), ChunkVerdict::Write));
    assert!(matches!(s.on_chunk(b"xx", &allowed, "png"), ChunkVerdict::Unrecognized));
}

#[test]
fn upload_messages() {
    let kinds = vec![FileKind::Image, FileKind::Video];
    assert_eq!(kinds_list(&kinds), "[Image, Video]");
    assert_eq!(kinds_list(&vec![]), "[]");
    assert_eq!(
        disallowed_message(&kinds, FileKind::Audio),
        "disallowed file type, expected one of [Image, Video], actual Audio"
    );
    assert_eq!(
        mismatch_message("png", "jpg"),
        "file type mismatch, expected png, actual jpg"
    );
    assert_eq!(
        remove_failure_message("busy"),
        "failed to remove file after type mismatch: busy"
    );
    assert_eq!(unrecognized_message(), "cant't infer file type");
}

#[test]
fn check_upload_outcomes() {
    assert_eq!(check_upload(&PNG, "png").unwrap(), "png");
    let e = check_upload(&PNG, "gif").unwrap_err();
    assert_eq!(e.cause, Cause::ClientBadRequest);
    assert_eq!(e.message, "文件格式与文件名不匹配");
    let e = check_upload(b"plain words", "txt").unwrap_err();
    assert_eq!(e.cause, Cause::ClientBadRequest);
    assert_eq!(e.message, "错误的文件格式");
}
