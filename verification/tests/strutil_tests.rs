use mailgen::{escape_html, replace_all, str_eq, u32_to_string};

#[test]
fn replace_all_cases() {
    assert_eq!(replace_all("a{ACTION}b{ACTION}", "{ACTION}", "X"), "aXbX");
    assert_eq!(replace_all("no marker here", "{ACTION}", "X"), "no marker here");
    assert_eq!(replace_all("{ACTION}", "{ACTION}", ""), "");
    assert_eq!(replace_all("", "{ACTION}", "X"), "");
    assert_eq!(replace_all("aaa", "aa", "b"), "ba");
}

#[test]
fn escape_html_cases() {
    assert_eq!(escape_html("<a href=\"x\">&</a>"), "&lt;a href=&quot;x&quot;&gt;&amp;&lt;/a&gt;");
    assert_eq!(escape_html("plain text, unchanged."), "plain text, unchanged.");
    assert_eq!(escape_html(""), "");
}

#[test]
fn u32_to_string_cases() {
    assert_eq!(u32_to_string(0), "0");
    assert_eq!(u32_to_string(7), "7");
    assert_eq!(u32_to_string(50), "50");
    assert_eq!(u32_to_string(1234567890), "1234567890");
    assert_eq!(u32_to_string(u32::MAX), "4294967295");
}

#[test]
fn str_eq_cases() {
    assert!(str_eq("", ""));
    assert!(str_eq("abc", "abc"));
    assert!(!str_eq("abc", "abd"));
    assert!(!str_eq("abc", "abcd"));
    assert!(str_eq("héllo", "héllo"));
}
