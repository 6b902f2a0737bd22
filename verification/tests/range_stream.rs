//! Behaviour of the byte-range parser, the response plan and the bounded
//! window against concrete requests.

use rossoflix_api::range::{
    content_range_value, parse_range, stream_plan, window_slice, WindowProgress,
};
use rossoflix_api::text::{dec_u64, parse_u64, str_eq, str_has_prefix, str_is_blank};

#[test]
fn parse_valid_closed_range() {
    assert_eq!(parse_range("500-599", 1000), Some((500, 599)));
}

#[test]
fn parse_valid_open_range_defaults_to_last_byte() {
    assert_eq!(parse_range("900-", 1000), Some((900, 999)));
}

#[test]
fn parse_without_dash_defaults_to_last_byte() {
    assert_eq!(parse_range("500", 1000), Some((500, 999)));
}

#[test]
fn parse_rejects_non_numeric_start() {
    assert_eq!(parse_range("abc-599", 1000), None);
    assert_eq!(parse_range("-599", 1000), None);
    assert_eq!(parse_range("", 1000), None);
}

#[test]
fn parse_rejects_non_numeric_end() {
    assert_eq!(parse_range("500-xyz", 1000), None);
}

#[test]
fn parse_rejects_start_after_end() {
    assert_eq!(parse_range("600-599", 1000), None);
}

#[test]
fn parse_rejects_end_at_or_past_size() {
    assert_eq!(parse_range("500-1000", 1000), None);
    assert_eq!(parse_range("500-1500", 1000), None);
    assert_eq!(parse_range("0-0", 0), None);
    assert_eq!(parse_range("0-", 0), None);
}

#[test]
fn parse_takes_first_dash_split_pair() {
    // A third segment is ignored: only the first two count.
    assert_eq!(parse_range("500-599-700", 1000), Some((500, 599)));
    // Multi-range syntax mis-parses on its second segment and is rejected.
    assert_eq!(parse_range("0-10,20-30", 1000), None);
}

#[test]
fn parse_rejects_numerals_over_u64() {
    assert_eq!(parse_range("18446744073709551616-", 1000), None);
    assert_eq!(parse_u64("18446744073709551616"), None);
    assert_eq!(parse_u64("18446744073709551615"), Some(u64::MAX));
}

#[test]
fn plan_without_header_is_full_file() {
    let p = stream_plan(1000, None);
    assert_eq!((p.status, p.start, p.length), (200, 0, 1000));
}

#[test]
fn plan_with_valid_range_is_partial() {
    let p = stream_plan(1000, Some("bytes=500-599"));
    assert_eq!((p.status, p.start, p.length), (206, 500, 100));
}

#[test]
fn plan_with_open_range_reaches_last_byte() {
    let p = stream_plan(1000, Some("bytes=900-"));
    assert_eq!((p.status, p.start, p.length), (206, 900, 100));
}

#[test]
fn plan_with_malformed_range_falls_back_to_full_file() {
    for h in ["bytes=abc", "bytes=600-599", "bytes=500-1000", "bytes=", "units=0-1", "0-99"] {
        let p = stream_plan(1000, Some(h));
        assert_eq!((p.status, p.start, p.length), (200, 0, 1000), "header {h:?}");
    }
}

#[test]
fn scenario_mid_file_window() {
    // A 1000-byte file asked for bytes 500-599: a 206 whose window is the
    // hundred bytes 500 through 599 and whose Content-Range names them.
    let bytes: Vec<u8> = (0..1000u64).map(|i| (i % 251) as u8).collect();
    let p = stream_plan(bytes.len() as u64, Some("bytes=500-599"));
    assert_eq!(p.status, 206);
    assert_eq!(p.length, 100);
    let body = window_slice(&bytes, p.start, p.length);
    assert_eq!(body.len(), 100);
    assert_eq!(&body[..], &bytes[500..600]);
    let header = content_range_value(p.start, p.start + p.length - 1, bytes.len() as u64);
    assert_eq!(header, "bytes 500-599/1000");
    assert_eq!(dec_u64(p.length), "100");
}

#[test]
fn scenario_tail_window() {
    // The open-ended request bytes=900- on a 1000-byte file: the last
    // hundred bytes.
    let bytes: Vec<u8> = (0..1000u64).map(|i| (i * 7 % 256) as u8).collect();
    let p = stream_plan(bytes.len() as u64, Some("bytes=900-"));
    assert_eq!(p.status, 206);
    let body = window_slice(&bytes, p.start, p.length);
    assert_eq!(body.len(), 100);
    assert_eq!(&body[..], &bytes[900..1000]);
    let header = content_range_value(p.start, p.start + p.length - 1, bytes.len() as u64);
    assert_eq!(header, "bytes 900-999/1000");
}

#[test]
fn window_progress_caps_emission() {
    // Reads of 64 bytes against a 100-byte window: 64, then 36, then 0.
    let mut w = WindowProgress::new(100);
    assert_eq!(w.advance(64), 64);
    assert_eq!(w.advance(64), 36);
    assert!(w.done());
    assert_eq!(w.advance(64), 0);
    assert_eq!(w.remaining(), 0);
}

#[test]
fn window_slice_whole_file() {
    let bytes = vec![1u8, 2, 3, 4, 5];
    assert_eq!(window_slice(&bytes, 0, 5), bytes);
    assert_eq!(window_slice(&bytes, 4, 1), vec![5]);
    assert_eq!(window_slice(&bytes, 2, 0), Vec::<u8>::new());
}

#[test]
fn decimal_formatting_exact() {
    assert_eq!(dec_u64(0), "0");
    assert_eq!(dec_u64(7), "7");
    assert_eq!(dec_u64(1000), "1000");
    assert_eq!(dec_u64(u64::MAX), "18446744073709551615");
}

#[test]
fn string_helpers() {
    assert!(str_eq("movie.mp4", "movie.mp4"));
    assert!(!str_eq("movie.mp4", "Movie.mp4"));
    assert!(!str_eq("movie", "movie.mp4"));
    assert!(str_has_prefix("bytes=0-1", "bytes="));
    assert!(!str_has_prefix("byte=0-1", "bytes="));
    assert!(str_is_blank("  \t\r\n"));
    assert!(str_is_blank(""));
    assert!(!str_is_blank(" a "));
}
