use repo_compliance::escape::{escape_data, escape_property, group};
use repo_compliance::inspect::repo_short_name;
use repo_compliance::outcome::CheckResult;
use repo_compliance::text::{str_eq, str_lex_le, u16_to_dec};

#[test]
fn escape_data_replaces_percent_and_line_breaks() {
    assert_eq!(escape_data("a%b\r\nc"), "a%25b%0D%0Ac");
    assert_eq!(escape_data(""), "");
    assert_eq!(escape_data("plain"), "plain");
    assert_eq!(escape_data("%%"), "%25%25");
    // colon and comma pass through in data values
    assert_eq!(escape_data("a:b,c"), "a:b,c");
}

#[test]
fn escape_property_also_replaces_colon_and_comma() {
    assert_eq!(escape_property("a:b,c%"), "a%3Ab%2Cc%25");
    assert_eq!(escape_property("\r\n"), "%0D%0A");
    assert_eq!(escape_property("plain"), "plain");
}

#[test]
fn group_is_a_no_op() {
    group("anything");
}

#[test]
fn decimal_rendering_is_exact() {
    assert_eq!(u16_to_dec(0), "0");
    assert_eq!(u16_to_dec(7), "7");
    assert_eq!(u16_to_dec(404), "404");
    assert_eq!(u16_to_dec(100), "100");
    assert_eq!(u16_to_dec(65535), "65535");
}

#[test]
fn lexicographic_order_on_strings() {
    assert!(str_lex_le("alpha", "bravo"));
    assert!(!str_lex_le("bravo", "alpha"));
    assert!(str_lex_le("same", "same"));
    // a prefix comes before its extension
    assert!(str_lex_le("unit", "unit_x"));
    assert!(!str_lex_le("unit_x", "unit"));
    assert!(str_lex_le("", "anything"));
}

#[test]
fn string_equality_by_characters() {
    assert!(str_eq("abc", "abc"));
    assert!(!str_eq("abc", "abd"));
    assert!(!str_eq("abc", "ab"));
    assert!(str_eq("", ""));
}

#[test]
fn repo_short_name_strips_the_owner_prefix() {
    assert_eq!(repo_short_name("octo", "octo/repo").as_deref(), Some("repo"));
    assert_eq!(repo_short_name("octo", "other/repo"), None);
    assert_eq!(repo_short_name("octo", "octo"), None);
    assert_eq!(repo_short_name("octo", "octopus/repo"), None);
    assert_eq!(repo_short_name("", "/r").as_deref(), Some("r"));
}

#[test]
fn markdown_lines_carry_the_message() {
    assert_eq!(
        CheckResult::Pass("ok".to_owned()).into_markdown(),
        Some("\u{2705} ok\n".to_owned())
    );
    assert_eq!(
        CheckResult::Failure("bad".to_owned()).into_markdown(),
        Some("\u{274c} bad\n".to_owned())
    );
    assert_eq!(CheckResult::Ignore.into_markdown(), None);
}
