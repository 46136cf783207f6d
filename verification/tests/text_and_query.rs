use dbcore::query::build_count_query;
use dbcore::query::build_select_query;
use dbcore::query::build_where_clause;
use dbcore::query::normalize_filter;
use dbcore::query::page_offset;
use dbcore::text::i64_string;
use dbcore::text::lower_str;
use dbcore::text::parse_i64_str;
use dbcore::text::str_contains;
use dbcore::text::trim_str;
use dbcore::text::u64_string;
use dbcore::text::upper_str;
use dbcore::value::check_number_text;

#[test]
fn lowercase_and_uppercase_ascii() {
    assert_eq!(lower_str("PostgreSQL-15"), "postgresql-15");
    assert_eq!(upper_str("select *"), "SELECT *");
}

#[test]
fn trim_strips_whitespace() {
    assert_eq!(trim_str("  a b \t\n"), "a b");
    assert_eq!(trim_str("\r\n\t "), "");
    assert_eq!(trim_str("x"), "x");
}

#[test]
fn contains_finds_substring() {
    assert!(str_contains("Connection reset by peer (os error)", "reset by peer"));
    assert!(!str_contains("fine", "reset"));
    assert!(str_contains("abc", ""));
}

#[test]
fn integer_rendering() {
    assert_eq!(u64_string(0), "0");
    assert_eq!(u64_string(90210), "90210");
    assert_eq!(i64_string(-42), "-42");
    assert_eq!(i64_string(i64::MIN), "-9223372036854775808");
    assert_eq!(i64_string(i64::MAX), "9223372036854775807");
}

#[test]
fn integer_parsing() {
    assert_eq!(parse_i64_str("0"), Some(0));
    assert_eq!(parse_i64_str("+17"), Some(17));
    assert_eq!(parse_i64_str("-9223372036854775808"), Some(i64::MIN));
    assert_eq!(parse_i64_str("9223372036854775807"), Some(i64::MAX));
    assert_eq!(parse_i64_str("9223372036854775808"), None);
    assert_eq!(parse_i64_str(""), None);
    assert_eq!(parse_i64_str("-"), None);
    assert_eq!(parse_i64_str("12a"), None);
    assert_eq!(parse_i64_str("007"), Some(7));
}

#[test]
fn number_text_check() {
    assert!(check_number_text("-12.5e3"));
    assert!(!check_number_text(""));
    assert!(!check_number_text("12; DROP"));
}

#[test]
fn normalize_filter_replaces_smart_quotes() {
    assert_eq!(
        normalize_filter("name = \u{2018}a\u{2019} AND t = \u{201C}b\u{201D}"),
        "name = 'a' AND t = \"b\""
    );
}

#[test]
fn normalize_filter_unescapes_backslash_quote() {
    assert_eq!(normalize_filter("name = \\'x\\'"), "name = 'x'");
    assert_eq!(normalize_filter("plain"), "plain");
}

#[test]
fn where_clause_forms() {
    assert_eq!(build_where_clause(&None), "");
    assert_eq!(
        build_where_clause(&Some("age > 25".to_string())),
        " WHERE age > 25"
    );
}

#[test]
fn count_and_select_queries() {
    assert_eq!(
        build_count_query("\"t\"", " WHERE x = 1"),
        "SELECT COUNT(*) as count FROM \"t\" WHERE x = 1"
    );
    assert_eq!(
        build_select_query("\"t\"", "", 10, 20),
        "SELECT * FROM \"t\" LIMIT 10 OFFSET 20"
    );
}

#[test]
fn page_offset_is_one_indexed() {
    assert_eq!(page_offset(1, 50), Some(0));
    assert_eq!(page_offset(3, 25), Some(50));
    assert_eq!(page_offset(0, 50), None);
    assert_eq!(page_offset(2, -1), None);
    assert_eq!(page_offset(i64::MAX, i64::MAX), None);
}
