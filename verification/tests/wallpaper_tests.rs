use detbar::wallpaper::{
    embed_next, embed_retry_next, mime_for_extension, pick_workerw, range_start, require_window, response_header, to_u16,
    video_mime_type, EmbedAction, EmbedRetry,
};

#[test]
fn wide_strings_are_nul_terminated_utf16() {
    assert_eq!(to_u16("Progman"), "Progman".encode_utf16().chain(std::iter::once(0)).collect::<Vec<u16>>());
    assert_eq!(to_u16(""), vec![0]);
    assert_eq!(to_u16("a😀é"), vec![0x61, 0xD83D, 0xDE00, 0xE9, 0]);
    let s = "Chrome_WidgetWin_1 ğüş \u{10FFFF}";
    assert_eq!(to_u16(s), s.encode_utf16().chain(std::iter::once(0)).collect::<Vec<u16>>());
}

#[test]
fn window_handles() {
    assert_eq!(require_window(0), Err("gecersiz HWND".to_string()));
    assert_eq!(require_window(42), Ok(()));
}

#[test]
fn mime_types_by_extension() {
    assert_eq!(video_mime_type("C:\\v\\clip.webm"), "video/webm");
    assert_eq!(video_mime_type("clip.AVI"), "video/x-msvideo");
    assert_eq!(video_mime_type("a.b.MkV"), "video/x-matroska");
    assert_eq!(video_mime_type("x.mov"), "video/quicktime");
    assert_eq!(video_mime_type("x.mp4"), "video/mp4");
    assert_eq!(video_mime_type("noextension"), "video/mp4");
    assert_eq!(video_mime_type("mov"), "video/quicktime");
    assert_eq!(video_mime_type("trailing."), "video/mp4");
}

#[test]
fn range_starts() {
    assert_eq!(range_start("GET / HTTP/1.1\r\nRange: bytes=100-\r\n\r\n"), 100);
    assert_eq!(range_start("GET / HTTP/1.1\r\nRange: bytes=100-200\r\n\r\n"), 100);
    assert_eq!(range_start("GET / HTTP/1.1\r\nRange: bytes= 42 -\r\n"), 42);
    assert_eq!(range_start("Range: bytes=+7-"), 7);
    assert_eq!(range_start("Range: bytes=-500"), 0);
    assert_eq!(range_start("Range: bytes=abc-"), 0);
    assert_eq!(range_start("Range: bytes=99999999999999999999-"), 0);
    assert_eq!(range_start("Range: bytes=18446744073709551615-"), u64::MAX);
    assert_eq!(range_start("GET / HTTP/1.1\r\n\r\n"), 0);
    assert_eq!(range_start("Range: bytes=5Range: bytes=6-"), 5);
}

#[test]
fn full_response() {
    assert_eq!(
        response_header("GET / HTTP/1.1\r\n\r\n", 1000, "video/mp4"),
        "HTTP/1.1 200 OK\r\nContent-Type: video/mp4\r\nContent-Length: 1000\r\nAccept-Ranges: bytes\r\nConnection: close\r\n\r\n"
    );
}

#[test]
fn partial_response() {
    assert_eq!(
        response_header("GET / HTTP/1.1\r\nRange: bytes=100-\r\n\r\n", 1000, "video/webm"),
        "HTTP/1.1 206 Partial Content\r\nContent-Type: video/webm\r\nContent-Length: 900\r\nAccept-Ranges: bytes\r\nContent-Range: bytes 100-999/1000\r\nConnection: close\r\n\r\n"
    );
}

#[test]
fn range_past_the_end_and_empty_file() {
    assert_eq!(
        response_header("Range: bytes=2000-", 1000, "video/mp4"),
        "HTTP/1.1 206 Partial Content\r\nContent-Type: video/mp4\r\nContent-Length: 0\r\nAccept-Ranges: bytes\r\nContent-Range: bytes 2000-999/1000\r\nConnection: close\r\n\r\n"
    );
    assert_eq!(
        response_header("Range: bytes=-5", 0, "video/mp4"),
        "HTTP/1.1 206 Partial Content\r\nContent-Type: video/mp4\r\nContent-Length: 0\r\nAccept-Ranges: bytes\r\nContent-Range: bytes 0-0/0\r\nConnection: close\r\n\r\n"
    );
}

#[test]
fn workerw_with_desktop_view_is_picked() {
    assert_eq!(pick_workerw(&[]), None);
    assert_eq!(pick_workerw(&[(11, false), (12, false)]), None);
    assert_eq!(pick_workerw(&[(11, false), (12, true), (13, true)]), Some(12));
    assert_eq!(pick_workerw(&[(7, true)]), Some(7));
}

#[test]
fn embed_steps() {
    assert!(matches!(embed_next(0, 5, 0, None), EmbedAction::Fail(e) if e == "gecersiz HWND"));
    assert!(matches!(embed_next(0, 0, 0, Some(3)), EmbedAction::Fail(e) if e == "gecersiz HWND"));
    assert!(matches!(embed_next(9, 0, 0, None), EmbedAction::Fail(e) if e == "Progman bulunamadi"));
    assert!(matches!(embed_next(9, 5, 0, None), EmbedAction::SpawnAndSearch));
    assert!(matches!(embed_next(9, 5, 4, None), EmbedAction::SpawnAndSearch));
    assert!(matches!(embed_next(9, 5, 2, Some(77)), EmbedAction::Attach(77)));
    assert!(matches!(embed_next(9, 5, 5, Some(77)), EmbedAction::Attach(77)));
    assert!(matches!(embed_next(9, 5, 5, None), EmbedAction::Fail(e) if e == "WorkerW bulunamadi (5 deneme)"));
}

#[test]
fn embed_is_tried_three_times() {
    assert!(matches!(embed_retry_next(1, true), EmbedRetry::Done));
    assert!(matches!(embed_retry_next(3, true), EmbedRetry::Done));
    assert!(matches!(embed_retry_next(1, false), EmbedRetry::Retry));
    assert!(matches!(embed_retry_next(2, false), EmbedRetry::Retry));
    assert!(matches!(embed_retry_next(3, false), EmbedRetry::GiveUp));
}

#[test]
fn mime_types_for_lower_case_extensions() {
    assert_eq!(mime_for_extension("webm"), "video/webm");
    assert_eq!(mime_for_extension("mov"), "video/quicktime");
    assert_eq!(mime_for_extension("MOV"), "video/mp4");
    assert_eq!(mime_for_extension(""), "video/mp4");
}
