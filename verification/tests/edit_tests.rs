use antex::edit::replace_unique;

#[test]
fn replaces_the_unique_occurrence() {
    assert_eq!(
        replace_unique("fn a() {}\nfn b() {}\n", "fn b", "fn c"),
        Ok("fn a() {}\nfn c() {}\n".to_string())
    );
}

#[test]
fn matches_across_line_ending_conventions_and_keeps_the_file_ending() {
    let source = "one\r\ntwo\r\nthree\r\n";
    assert_eq!(
        replace_unique(source, "two\nthree", "2\n3\r4"),
        Ok("one\r\n2\r\n3\r\n4\r\n".to_string())
    );
    assert_eq!(
        replace_unique("a\rb\rc", "b\r\n", "x\ny\n"),
        Ok("a\rx\ry\rc".to_string())
    );
}

#[test]
fn multibyte_text_around_the_match_is_kept() {
    assert_eq!(
        replace_unique("héllo wörld", "wörld", "мир"),
        Ok("héllo мир".to_string())
    );
}

#[test]
fn reports_empty_missing_and_ambiguous_originals() {
    assert_eq!(
        replace_unique("abc", "", "x"),
        Err("edit requires nonempty original text".to_string())
    );
    assert_eq!(
        replace_unique("abc", "d", "x"),
        Err("original text was not found".to_string())
    );
    assert_eq!(
        replace_unique("aXbXc", "X", "y"),
        Err("original text is ambiguous; include more context".to_string())
    );
    assert_eq!(
        replace_unique("aaa", "aa", "b"),
        Err("original text is ambiguous; include more context".to_string())
    );
}

#[test]
fn file_without_line_breaks_uses_newline() {
    assert_eq!(
        replace_unique("abc", "b", "1\r\n2"),
        Ok("a1\n2c".to_string())
    );
}

#[test]
fn a_replacement_keeps_the_bytes_around_its_match_and_the_file_line_ending() {
    assert_eq!(
        replace_unique("head\r\nold one\r\nold two\r\ntail", "old one\nold two", "new\nlines"),
        Ok("head\r\nnew\r\nlines\r\ntail".to_string())
    );
    assert_eq!(replace_unique("abc", "", "x"), Err("edit requires nonempty original text".to_string()));
    assert_eq!(replace_unique("abc", "z", "x"), Err("original text was not found".to_string()));
}
