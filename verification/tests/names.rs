use url_uploader::filename::{
    announced_extensions_of, body_length_of, disposition_name_of, extract_filename_from_response, header_value_of,
    is_video_file, is_video_name, is_video_type, last_segment_of, raw_name_of, segment_name_of, size_error_of,
    upload_name_of, ResponseHead, SizeError, MAX_UPLOAD,
};
use url_uploader::upload::plan_file;

fn head(disposition: Option<&str>, content_type: Option<&str>, path: &str) -> ResponseHead {
    ResponseHead {
        content_length: Some(10),
        content_disposition: disposition.map(|v| v.as_bytes().to_vec()),
        content_type: content_type.map(|v| v.as_bytes().to_vec()),
        path: path.to_string(),
    }
}

fn some(s: &str) -> Option<String> {
    Some(s.to_string())
}

#[test]
fn names_in_a_header() {
    assert_eq!(disposition_name_of("attachment; filename=\"a b.txt\""), some("a b.txt"));
    assert_eq!(disposition_name_of("attachment;filename=a.txt"), some("a.txt"));
    assert_eq!(disposition_name_of("filename=a.txt; filename=b.txt"), some("a.txt"));
    assert_eq!(disposition_name_of("attachment; filename=filename=x"), some("x"));
    assert_eq!(disposition_name_of("attachment; filename=\"\"\"x\""), some("x"));
    assert_eq!(disposition_name_of("attachment; filename="), some(""));
    assert_eq!(disposition_name_of("attachment; filename=\"a;b.txt\""), some("a"));
}

#[test]
fn headers_without_a_name() {
    assert_eq!(disposition_name_of("attachment"), None);
    assert_eq!(disposition_name_of(""), None);
    assert_eq!(disposition_name_of("attachment; FILENAME=a"), None);
    assert_eq!(disposition_name_of("attachment; filename*=UTF-8''a"), None);
}

#[test]
fn texts_of_headers() {
    assert_eq!(header_value_of(&None), None);
    assert_eq!(header_value_of(&Some(b"a\tb ~".to_vec())), some("a\tb ~"));
    assert_eq!(header_value_of(&Some(Vec::new())), some(""));
    assert_eq!(header_value_of(&Some(vec![97, 0xe9])), None);
    assert_eq!(header_value_of(&Some(vec![97, 127])), None);
    assert_eq!(header_value_of(&Some(vec![97, 10])), None);
}

#[test]
fn last_segments() {
    assert_eq!(last_segment_of("/a/b.txt"), some("b.txt"));
    assert_eq!(last_segment_of("/"), some(""));
    assert_eq!(last_segment_of("/a/"), some(""));
    assert_eq!(last_segment_of("/a"), some("a"));
    assert_eq!(last_segment_of("a/b"), None);
    assert_eq!(last_segment_of(""), None);
}

#[test]
fn extensions_of_segments() {
    let list = Some(vec!["mp4".to_string(), "m4v".to_string()]);
    assert_eq!(segment_name_of("a.b", &list), some("a.b"));
    assert_eq!(segment_name_of("a", &list), some("a.mp4"));
    assert_eq!(segment_name_of("", &list), some(".mp4"));
    assert_eq!(segment_name_of("a", &Some(Vec::new())), None);
    assert_eq!(segment_name_of("a", &None), None);
}

#[test]
fn extensions_of_media_types() {
    let list = announced_extensions_of(&head(None, Some("application/pdf; charset=x"), "/")).unwrap();
    assert_eq!(list[0], "pdf");
    assert_eq!(announced_extensions_of(&head(None, Some("application/unheard-of"), "/")), None);
    assert_eq!(announced_extensions_of(&head(None, Some("nonsense"), "/")), None);
    assert_eq!(announced_extensions_of(&head(None, None, "/")), None);
}

#[test]
fn raw_names() {
    assert_eq!(raw_name_of(&head(Some("x; filename=h.txt"), None, "/u.txt")), "h.txt");
    assert_eq!(raw_name_of(&head(Some("inline"), None, "/u.txt")), "u.txt");
    assert_eq!(raw_name_of(&head(None, Some("application/pdf"), "/doc")), "doc.pdf");
    assert_eq!(raw_name_of(&head(None, None, "/doc")), "file.bin");
    assert_eq!(raw_name_of(&head(None, Some("application/pdf"), "mail")), "file.bin");
}

#[test]
fn names_are_decoded_for_uploads() {
    assert_eq!(upload_name_of(&head(None, None, "/a%20b%2e.txt")), Ok("a b..txt".to_string()));
    assert_eq!(upload_name_of(&head(None, None, "/%E2%82%AC.txt")), Ok("\u{20AC}.txt".to_string()));
    assert_eq!(upload_name_of(&head(None, None, "/100%.txt")), Ok("100%.txt".to_string()));
    assert_eq!(upload_name_of(&head(None, None, "/a%2g.txt")), Ok("a%2g.txt".to_string()));
    assert_eq!(
        upload_name_of(&head(None, None, "/a%FF.txt")),
        Err("invalid utf-8 sequence of 1 bytes from index 1".to_string())
    );
    assert_eq!(upload_name_of(&head(None, None, "/plain.txt")), Ok("plain.txt".to_string()));
}

#[test]
fn names_are_not_decoded_for_batches() {
    assert_eq!(extract_filename_from_response(&head(None, None, "/a%20b")), some("a%20b"));
    assert_eq!(extract_filename_from_response(&head(Some("x; filename=\"h\""), None, "/u")), some("h"));
    assert_eq!(extract_filename_from_response(&head(None, Some("application/pdf"), "/doc")), some("doc"));
    assert_eq!(extract_filename_from_response(&head(None, None, "mail")), None);
}

#[test]
fn videos() {
    assert!(is_video_name("a.mp4"));
    assert!(!is_video_name("a.MP4"));
    assert!(is_video_file("A.MP4"));
    assert!(!is_video_file("mp4"));
    assert!(is_video_type(&head(None, Some("video/mp4; codecs=x"), "/")));
    assert!(!is_video_type(&head(None, Some("Video/mp4"), "/")));
    assert!(!is_video_type(&head(None, None, "/")));
}

#[test]
fn sizes() {
    assert_eq!(MAX_UPLOAD, 2 * 1024 * 1024 * 1024);
    assert_eq!(size_error_of(0), Some(SizeError::Empty));
    assert_eq!(size_error_of(1), None);
    assert_eq!(size_error_of(MAX_UPLOAD), None);
    assert_eq!(size_error_of(MAX_UPLOAD + 1), Some(SizeError::TooLarge));
    let mut unknown = head(None, None, "/");
    unknown.content_length = None;
    assert_eq!(body_length_of(&unknown), 0);
    assert_eq!(body_length_of(&head(None, None, "/")), 10);
    for length in [2_147_483_649, 4_294_967_296, 4_294_967_301, u64::MAX] {
        let mut large = head(None, None, "/");
        large.content_length = Some(length);
        assert_eq!(size_error_of(body_length_of(&large)), Some(SizeError::TooLarge));
    }
}

#[test]
fn plans() {
    let plan = plan_file(&head(None, Some("video/mp4"), "/clip%21.bin"));
    assert_eq!(plan.name, Ok("clip!.bin".to_string()));
    assert_eq!(plan.length, 10);
    assert!(plan.is_video);
    assert!(plan_file(&head(None, None, "/CLIP.Mp4")).is_video);
    assert!(!plan_file(&head(None, None, "/clip.txt")).is_video);
    let plan = plan_file(&head(None, Some("video/mp4"), "/%FF.mp4"));
    assert_eq!(plan.name, Err("invalid utf-8 sequence of 1 bytes from index 0".to_string()));
    assert!(!plan.is_video);
}
