use reqwest::header::HeaderMap;
use soar_dl::headers::{empty_headers, has_room, is_header_value};
use soar_dl::resume::{DownloadMeta, ResponseHead, ResumeSupport, Sidecar};

fn head(content_range: Option<&str>, content_length: Option<u64>) -> ResponseHead {
    ResponseHead {
        status: 206,
        etag: None,
        last_modified: None,
        content_range: content_range.map(|s| s.to_string()),
        content_length,
        content_disposition: None,
    }
}

fn text(s: &str) -> Option<String> {
    Some(s.to_string())
}

#[test]
fn part_paths() {
    let (part, meta) = ResumeSupport::get_part_paths("F.bin");
    assert_eq!(part, "F.bin.part");
    assert_eq!(meta, "F.bin.part.meta");
    let (part, meta) = ResumeSupport::get_part_paths("/tmp/a.tar.gz");
    assert_eq!(part, "/tmp/a.tar.gz.part");
    assert_eq!(meta, "/tmp/a.tar.gz.part.meta");
    let (part, meta) = ResumeSupport::get_part_paths("");
    assert_eq!(part, ".part");
    assert_eq!(meta, ".part.meta");
}

#[test]
fn sidecar_reading() {
    assert_eq!(ResumeSupport::read_metadata(Sidecar::Absent), (None, None));
    assert_eq!(ResumeSupport::read_metadata(Sidecar::Corrupt), (None, None));
    let meta = DownloadMeta { etag: text("x"), last_modified: None };
    assert_eq!(ResumeSupport::read_metadata(Sidecar::Loaded(meta)), (text("x"), None));
    let meta = ResumeSupport::write_metadata(text("e"), text("d"));
    assert_eq!(meta.etag, text("e"));
    assert_eq!(meta.last_modified, text("d"));
}

#[test]
fn restart_decision() {
    let none: Option<String> = None;
    assert!(ResumeSupport::should_restart_download(416, &none, &none, &none, &none));
    assert!(!ResumeSupport::should_restart_download(206, &none, &none, &none, &none));
    assert!(!ResumeSupport::should_restart_download(200, &text("a"), &none, &text("a"), &none));
    assert!(ResumeSupport::should_restart_download(200, &text("a"), &none, &text("b"), &none));
    assert!(!ResumeSupport::should_restart_download(200, &text("a"), &none, &none, &none));
    assert!(!ResumeSupport::should_restart_download(200, &none, &none, &text("b"), &none));
    assert!(ResumeSupport::should_restart_download(206, &none, &text("mon"), &none, &text("tue")));
    assert!(!ResumeSupport::should_restart_download(206, &none, &text("mon"), &none, &text("mon")));
    assert!(ResumeSupport::should_restart_download(
        206,
        &text("a"),
        &text("mon"),
        &text("a"),
        &text("tue")
    ));
    assert!(!ResumeSupport::should_restart_download(404, &text("a"), &none, &text("a"), &none));
}

#[test]
fn range_info_of_a_resumed_answer() {
    let h = head(Some("bytes 600-1023/1024"), Some(424));
    assert_eq!(ResumeSupport::extract_range_info(&h, 600), (false, 1024));
    assert_eq!(ResumeSupport::extract_range_info(&h, 0), (true, 1024));
    assert_eq!(ResumeSupport::extract_range_info(&h, 601), (true, 1024));
}

#[test]
fn range_info_without_content_range() {
    assert_eq!(ResumeSupport::extract_range_info(&head(None, Some(1024)), 0), (false, 1024));
    assert_eq!(ResumeSupport::extract_range_info(&head(None, Some(1024)), 600), (false, 1024));
    assert_eq!(ResumeSupport::extract_range_info(&head(None, None), 5), (false, 0));
}

#[test]
fn range_info_of_odd_values() {
    let h = head(Some("bytes 0-9/*"), Some(10));
    assert_eq!(ResumeSupport::extract_range_info(&h, 0), (false, 10));
    assert_eq!(ResumeSupport::extract_range_info(&h, 3), (true, 10));
    let h = head(Some("bytes */1024"), None);
    assert_eq!(ResumeSupport::extract_range_info(&h, 3), (false, 1024));
    let h = head(Some("garbage"), Some(7));
    assert_eq!(ResumeSupport::extract_range_info(&h, 3), (false, 7));
    let h = head(Some("  bytes   5-9/10  "), None);
    assert_eq!(ResumeSupport::extract_range_info(&h, 3), (true, 0));
    let h = head(Some("bytes 5-9/10"), None);
    assert_eq!(ResumeSupport::extract_range_info(&h, 5), (false, 10));
    let h = head(Some(""), None);
    assert_eq!(ResumeSupport::extract_range_info(&h, 5), (false, 0));
}

#[test]
fn resume_headers_for_a_fresh_download() {
    let mut headers = HeaderMap::new();
    ResumeSupport::prepare_resume_headers(&mut headers, 0, &text("x"), &text("d"));
    assert!(headers.is_empty());
}

#[test]
fn resume_headers_with_an_entity_tag() {
    let mut headers = HeaderMap::new();
    ResumeSupport::prepare_resume_headers(&mut headers, 600, &text("\"x\""), &text("Mon"));
    assert_eq!(headers.len(), 2);
    assert_eq!(headers.get("range").unwrap(), "bytes=600-");
    assert_eq!(headers.get("if-range").unwrap(), "\"x\"");
}

#[test]
fn resume_headers_with_a_date_only() {
    let mut headers = HeaderMap::new();
    ResumeSupport::prepare_resume_headers(&mut headers, 1, &None, &text("Mon, 01 Jan 2024"));
    assert_eq!(headers.get(reqwest::header::RANGE).unwrap(), "bytes=1-");
    assert_eq!(headers.get(reqwest::header::IF_RANGE).unwrap(), "Mon, 01 Jan 2024");
}

#[test]
fn resume_headers_keep_what_was_there() {
    let mut headers = HeaderMap::new();
    headers.insert("accept", "x/y".parse().unwrap());
    headers.insert("range", "bytes=1-2".parse().unwrap());
    ResumeSupport::prepare_resume_headers(&mut headers, u64::MAX, &None, &None);
    assert_eq!(headers.len(), 2);
    assert_eq!(headers.get("accept").unwrap(), "x/y");
    assert_eq!(headers.get("range").unwrap(), "bytes=18446744073709551615-");
    assert!(headers.get("if-range").is_none());
}

#[test]
fn header_values() {
    assert!(is_header_value(""));
    assert!(is_header_value("W/\"abc\""));
    assert!(is_header_value("tab\there"));
    assert!(is_header_value("gr\u{fc}n"));
    assert!(!is_header_value("line\nbreak"));
    assert!(!is_header_value("nul\u{0}"));
    assert!(!is_header_value("del\u{7f}"));
    for v in ["", "a b", "x\ry", "\u{1}", "\u{7f}", "ok\t", "\u{80}"] {
        assert_eq!(is_header_value(v), reqwest::header::HeaderValue::from_str(v).is_ok(), "{:?}", v);
    }
}

#[test]
fn room_in_a_header_map() {
    let mut headers = empty_headers();
    assert!(headers.is_empty());
    assert!(has_room(&headers, 0));
    assert!(has_room(&headers, 4096));
    assert!(!has_room(&headers, 4097));
    assert!(!has_room(&headers, usize::MAX));
    headers.insert("accept", "x".parse().unwrap());
    headers.append("accept", "y".parse().unwrap());
    headers.insert("range", "z".parse().unwrap());
    assert!(has_room(&headers, 4094));
    assert!(!has_room(&headers, 4095));
    if has_room(&headers, 2) {
        ResumeSupport::prepare_resume_headers(&mut headers, 9, &None, &None);
    }
    assert_eq!(headers.get("range").unwrap(), "bytes=9-");
    assert_eq!(headers.get_all("accept").iter().count(), 2);
}
