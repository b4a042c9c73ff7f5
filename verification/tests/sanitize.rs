use episode_fetcher::sanitize::sanitize;

#[test]
fn sanitize_removes_punctuation() {
    assert_eq!(sanitize("Goku's Rage! (Ep 1)"), "Gokus Rage Ep 1");
}

#[test]
fn sanitize_of_empty_is_empty() {
    assert_eq!(sanitize(""), "");
}

#[test]
fn sanitize_of_punctuation_only_is_empty() {
    assert_eq!(sanitize("!?.,;:-_()[]{}'\"/\\"), "");
}

#[test]
fn sanitize_is_idempotent_on_samples() {
    for raw in ["Goku's Rage! (Ep 1)", "", "a  b", "\u{e9}t\u{e9} 2024 \u{1f600}", "tab\there\nnewline"] {
        let once = sanitize(raw);
        assert_eq!(sanitize(&once), once);
    }
}

#[test]
fn sanitize_keeps_only_letters_digits_and_spaces() {
    let raw: String = (0u32..0x300).filter_map(char::from_u32).collect();
    let clean = sanitize(&raw);
    assert!(clean.chars().all(|c| c.is_ascii_alphanumeric() || c == ' '));
    let expected: String = raw.chars().filter(|c| c.is_ascii_alphanumeric() || *c == ' ').collect();
    assert_eq!(clean, expected);
}

#[test]
fn sanitize_keeps_order_and_repeated_spaces() {
    assert_eq!(sanitize("Z - a : 9  0"), "Z  a  9  0");
    assert_eq!(sanitize("t\u{e9}l\u{e9}"), "tl");
}
