use deno_typescript::compiler::numbered_listing;
use deno_typescript::json::json_quote;
use deno_typescript::ops::asset_module_name_of;
use deno_typescript::text::{chars_of, replace_all_chars, split_lines};

fn string_of(cs: &[char]) -> String {
    cs.iter().collect()
}

fn split(s: &str) -> Vec<String> {
    split_lines(&chars_of(s)).iter().map(|l| string_of(l)).collect()
}

#[test]
fn split_lines_matches_std_lines() {
    for text in ["", "\n", "a", "a\n", "a\nb", "foo\nbar\n\r\nbaz\r", "x\r\ny\r\n", "\r", "\n\n", "a\r\r\nb"] {
        let expected: Vec<String> = text.lines().map(|l| l.to_string()).collect();
        assert_eq!(split(text), expected, "text {:?}", text);
    }
}

#[test]
fn split_lines_drops_carriage_return_only_before_line_feed() {
    assert_eq!(split("foo\nbar\n\r\nbaz\r"), vec!["foo", "bar", "", "baz\r"]);
}

#[test]
fn replace_all_replaces_every_occurrence_left_to_right() {
    let r = replace_all_chars(&chars_of("aaa-aa"), &chars_of("aa"), &chars_of("b"));
    assert_eq!(string_of(&r), "ba-b");
    let r = replace_all_chars(&chars_of("xyz"), &chars_of("q"), &chars_of("Q"));
    assert_eq!(string_of(&r), "xyz");
}

#[test]
fn asset_module_name_strips_every_prefix_occurrence() {
    assert_eq!(asset_module_name_of("$asset$/lib.es5.d.ts"), "lib.es5.d.ts");
    assert_eq!(asset_module_name_of("$asset$/a$asset$/b"), "ab");
}

#[test]
fn json_quote_escapes_like_serde_json() {
    assert_eq!(json_quote("plain"), "\"plain\"");
    assert_eq!(json_quote("a\"b\\c\nd\te\u{1}\u{8}\u{c}\r"), "\"a\\\"b\\\\c\\nd\\te\\u0001\\b\\f\\r\"");
    assert_eq!(json_quote("\u{1f}é/"), "\"\\u001fé/\"");
}

#[test]
fn numbered_listing_pads_numbers_to_three_columns() {
    let listing = numbered_listing("a\nb\r\n\nc\r");
    assert_eq!(listing, vec!["  1  a", "  2  b", "  3  ", "  4  c\r"]);
    let code: String = (0..120).map(|i| format!("l{}\n", i)).collect();
    let listing = numbered_listing(&code);
    assert_eq!(listing.len(), 120);
    for (i, line) in code.lines().enumerate() {
        assert_eq!(listing[i], format!("{:3}  {}", i + 1, line));
    }
    assert_eq!(listing[99], "100  l99");
}

#[test]
fn numbered_listing_of_empty_code_is_empty() {
    assert!(numbered_listing("").is_empty());
}

#[test]
fn lines_written_back_give_the_text() {
    for text in ["", "a", "a\n", "a\nb", "\n\n", "one\ntwo\n\nthree\n"] {
        let written: String = split(text).iter().map(|l| format!("{}\n", l)).collect();
        if text.is_empty() || text.ends_with('\n') {
            assert_eq!(written, text);
        } else {
            assert_eq!(written, format!("{}\n", text));
        }
    }
}
