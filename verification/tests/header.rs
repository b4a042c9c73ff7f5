use episode_fetcher::decimal::parse_decimal;
use episode_fetcher::fetch::{judge_response, response_event, FetchEvent};
use episode_fetcher::error::EpisodeError;
use episode_fetcher::header::HeaderValueExt;
use reqwest::header::HeaderValue;

#[test]
fn header_text_of_a_number() {
    let value = HeaderValue::from_static("1000");
    assert_eq!(HeaderValueExt::to_string(&value), "1000");
}

#[test]
fn header_text_keeps_spaces_and_tabs() {
    let value = HeaderValue::from_bytes(b"nginx 1.2\t(x)").unwrap();
    assert_eq!(HeaderValueExt::to_string(&value), "nginx 1.2\t(x)");
}

#[test]
fn header_text_of_unreadable_bytes_is_empty() {
    let value = HeaderValue::from_bytes(b"caf\xe9").unwrap();
    assert_eq!(HeaderValueExt::to_string(&value), "");
    let value = HeaderValue::from_bytes(&[0x31, 0x80, 0x32]).unwrap();
    assert_eq!(HeaderValueExt::to_string(&value), "");
}

#[test]
fn header_text_of_empty_value_is_empty() {
    let value = HeaderValue::from_static("");
    assert_eq!(HeaderValueExt::to_string(&value), "");
}

#[test]
fn parse_decimal_reads_numerals() {
    assert_eq!(parse_decimal("0"), Some(0));
    assert_eq!(parse_decimal("1000"), Some(1000));
    assert_eq!(parse_decimal("007"), Some(7));
    assert_eq!(parse_decimal("+42"), Some(42));
    assert_eq!(parse_decimal("18446744073709551615"), Some(u64::MAX));
}

#[test]
fn parse_decimal_refuses_everything_else() {
    for text in ["", "+", "-1", "++1", "1+", " 1", "1 ", "1_000", "12a", "0x10", "1.5", "\u{663}", "1\u{e9}"] {
        assert_eq!(parse_decimal(text), None, "{:?}", text);
    }
}

#[test]
fn parse_decimal_refuses_numbers_beyond_64_bits() {
    assert_eq!(parse_decimal("18446744073709551616"), None);
    assert_eq!(parse_decimal("99999999999999999999999999"), None);
    assert_eq!(parse_decimal("000000000000000000000000018446744073709551615"), Some(u64::MAX));
}

#[test]
fn parse_decimal_agrees_with_std_on_samples() {
    for text in ["", "+", "+0", "-0", "5", "+5", "00", "18446744073709551615", "18446744073709551616", "12 ", "a"] {
        assert_eq!(parse_decimal(text), text.parse::<u64>().ok(), "{:?}", text);
    }
}

#[test]
fn judge_response_bad_request_comes_first() {
    assert_eq!(judge_response(400, Some("1000")), Err(EpisodeError::BadRequest));
    assert_eq!(judge_response(400, None), Err(EpisodeError::BadRequest));
}

#[test]
fn judge_response_needs_a_numeric_content_length() {
    assert_eq!(judge_response(200, Some("1000")), Ok(1000));
    assert_eq!(judge_response(404, Some("12")), Ok(12));
    assert_eq!(judge_response(200, None), Err(EpisodeError::MissingContentLength));
    assert_eq!(judge_response(200, Some("")), Err(EpisodeError::InvalidContentLength));
    assert_eq!(judge_response(200, Some("lots")), Err(EpisodeError::InvalidContentLength));
}

#[test]
fn response_event_carries_the_header_text() {
    let value = HeaderValue::from_static("1000");
    match response_event(200, Some(&value)) {
        FetchEvent::Response { status, content_length } => {
            assert_eq!(status, 200);
            assert_eq!(content_length, Some("1000".to_string()));
        }
        other => panic!("{:?}", other),
    }
    match response_event(400, None) {
        FetchEvent::Response { status, content_length } => {
            assert_eq!(status, 400);
            assert_eq!(content_length, None);
        }
        other => panic!("{:?}", other),
    }
    let unreadable = HeaderValue::from_bytes(&[0xff]).unwrap();
    match response_event(200, Some(&unreadable)) {
        FetchEvent::Response { content_length, .. } => assert_eq!(content_length, Some(String::new())),
        other => panic!("{:?}", other),
    }
}
