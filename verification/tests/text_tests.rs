use codex_account_switcher::text::contains;
use codex_account_switcher::text::eq_ignore_ascii_case;
use codex_account_switcher::text::i64_to_decimal;
use codex_account_switcher::text::second_split_piece;
use codex_account_switcher::text::short_account;
use codex_account_switcher::text::split_once_after;
use codex_account_switcher::text::starts_with;
use codex_account_switcher::text::trim;
use codex_account_switcher::text::trim_end_set;
use codex_account_switcher::text::trim_set;
use codex_account_switcher::text::truncate_for_error;
use codex_account_switcher::text::CharSet;

#[test]
fn trim_removes_unicode_whitespace_at_both_ends() {
    assert_eq!(trim("  \t hello world \r\n"), "hello world");
    assert_eq!(trim("\u{3000}x\u{a0}"), "x");
    assert_eq!(trim("   "), "");
    assert_eq!(trim(""), "");
}

#[test]
fn trim_set_strips_repeated_quotes() {
    assert_eq!(trim_set("\"\"url\"", CharSet::Only('"')), "url");
    assert_eq!(trim_end_set("https://a.b///", CharSet::Only('/')), "https://a.b");
    assert_eq!(trim_end_set("///", CharSet::Only('/')), "");
}

#[test]
fn short_account_keeps_first_eight_characters() {
    assert_eq!(short_account("0123456789abcdef"), "01234567");
    assert_eq!(short_account("abc"), "abc");
    assert_eq!(short_account("éééééééééé"), "éééééééé");
}

#[test]
fn truncate_for_error_keeps_short_bodies() {
    assert_eq!(truncate_for_error("short body", 240), "short body");
    assert_eq!(truncate_for_error("abcdef", 6), "abcdef");
}

#[test]
fn truncate_for_error_cuts_long_bodies_at_a_byte_length() {
    assert_eq!(truncate_for_error("abcdefgh", 3), "abc...");
    // "é" is two bytes: a cut after four bytes keeps two of them.
    assert_eq!(truncate_for_error("éééé", 4), "éé...");
    let long = "x".repeat(300);
    let out = truncate_for_error(&long, 240);
    assert_eq!(out.len(), 243);
    assert!(out.ends_with("..."));
}

#[test]
fn decimal_text_of_i64() {
    assert_eq!(i64_to_decimal(0), "0");
    assert_eq!(i64_to_decimal(1_700_000_000), "1700000000");
    assert_eq!(i64_to_decimal(-42), "-42");
    assert_eq!(i64_to_decimal(i64::MIN), i64::MIN.to_string());
    assert_eq!(i64_to_decimal(i64::MAX), i64::MAX.to_string());
}

#[test]
fn ascii_case_is_ignored_only_for_ascii_letters() {
    assert!(eq_ignore_ascii_case("ChatGPT", "chatgpt"));
    assert!(eq_ignore_ascii_case("CHATGPT_AUTH_TOKENS", "chatgpt_auth_tokens"));
    assert!(!eq_ignore_ascii_case("chatgpt ", "chatgpt"));
    assert!(!eq_ignore_ascii_case("apikey", "chatgpt"));
    assert!(!eq_ignore_ascii_case("É", "é"));
}

#[test]
fn prefix_and_infix_search() {
    assert!(starts_with("chatgpt_base_url = x", "chatgpt_base_url"));
    assert!(!starts_with("chatgpt", "chatgpt_base_url"));
    assert!(contains("https://chatgpt.com/backend-api", "/backend-api"));
    assert!(!contains("https://example.com/api", "/backend-api"));
    assert!(contains("abc", ""));
}

#[test]
fn split_pieces() {
    assert_eq!(split_once_after("key = a=b", '='), Some(" a=b"));
    assert_eq!(split_once_after("key", '='), None);
    assert_eq!(second_split_piece("h.p.s", '.'), Some("p"));
    assert_eq!(second_split_piece("h.p", '.'), Some("p"));
    assert_eq!(second_split_piece("h..s", '.'), Some(""));
    assert_eq!(second_split_piece("nodots", '.'), None);
}
