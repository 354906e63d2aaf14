use feed2podcast::extract::{
    extract_body_text, extract_text, find_item_description, ExtractError,
};
use feed2podcast::text::{chars_to_string, remove_all, str_to_chars, trim_chars};

#[test]
fn script_content_is_removed() {
    let text = extract_text("<p>Hello <script>x</script>World</p>", &vec![]).unwrap();
    assert_eq!(text, "Hello World");
}

#[test]
fn style_content_is_removed() {
    let text = extract_text("<style>p { color: red }</style><p>Body</p>", &vec![]).unwrap();
    assert_eq!(text, "Body");
}

#[test]
fn caller_ignore_selector_is_applied() {
    let html = "<p>Keep <span class=\"ad\">Buy now</span></p>";
    let text = extract_text(html, &vec![String::from("span.ad")]).unwrap();
    assert_eq!(text, "Keep ");
}

#[test]
fn removal_is_substring_based() {
    // The ignored element's trimmed text is removed wherever it occurs in
    // the accumulated text, not only where the element stood.
    let html = "<p>dup <span class=\"x\">dup</span></p>";
    let text = extract_text(html, &vec![String::from("span.x")]).unwrap();
    assert_eq!(text, " ");
}

#[test]
fn invalid_ignore_selector_fails() {
    let r = extract_text("<p>Hi</p>", &vec![String::from(":::")]);
    assert_eq!(r, Err(ExtractError::InvalidSelector(String::from(":::"))));
}

#[test]
fn body_text_joins_matching_elements_with_newlines() {
    let html = "<div class=\"c\">A</div><div class=\"c\">   </div><div class=\"c\">B</div>";
    let text = extract_body_text(html, "div.c", &vec![]).unwrap();
    assert_eq!(text, "A\nB");
}

#[test]
fn body_text_applies_ignore_selectors() {
    let html = "<div class=\"c\">A <em>loud</em></div>";
    let text = extract_body_text(html, "div.c", &vec![String::from("em")]).unwrap();
    assert_eq!(text, "A ");
}

#[test]
fn body_text_rejects_invalid_body_selector() {
    let r = extract_body_text("<p>Hi</p>", ":::", &vec![]);
    assert_eq!(r, Err(ExtractError::InvalidSelector(String::from(":::"))));
}

#[test]
fn find_description_takes_first_match() {
    let guids = vec![
        Some(String::from("a")),
        Some(String::from("b")),
        Some(String::from("b")),
    ];
    let descs = vec![
        Some(String::from("first")),
        Some(String::from("second")),
        Some(String::from("third")),
    ];
    assert_eq!(
        find_item_description(&guids, &descs, "b"),
        Ok(String::from("second"))
    );
}

#[test]
fn find_description_not_found() {
    let guids = vec![Some(String::from("a")), None];
    let descs = vec![Some(String::from("d")), Some(String::from("e"))];
    assert_eq!(
        find_item_description(&guids, &descs, "zz"),
        Err(ExtractError::NotFound)
    );
}

#[test]
fn find_description_no_content() {
    let guids = vec![Some(String::from("a"))];
    let descs = vec![None];
    assert_eq!(
        find_item_description(&guids, &descs, "a"),
        Err(ExtractError::NoContent)
    );
}

#[test]
fn remove_all_scans_left_to_right() {
    let s = str_to_chars("aabcabc");
    let p = str_to_chars("abc");
    assert_eq!(chars_to_string(&remove_all(&s, &p)), "a");
}

#[test]
fn remove_all_empty_pattern_removes_nothing() {
    let s = str_to_chars("abc");
    let p = str_to_chars("");
    assert_eq!(chars_to_string(&remove_all(&s, &p)), "abc");
}

#[test]
fn trim_strips_unicode_whitespace() {
    let s = str_to_chars("\u{a0}\t hi there \n\u{3000}");
    assert_eq!(chars_to_string(&trim_chars(&s)), "hi there");
}

#[test]
fn trim_of_all_whitespace_is_empty() {
    let s = str_to_chars(" \t\r\n ");
    assert_eq!(chars_to_string(&trim_chars(&s)), "");
}
