use antex::clipboard::{clipboard_image_size, first_image_file};
use antex::clipboard::{image_path_from_words, parse_image_path, pasted_image_path};

#[test]
fn paths_accept_terminal_quoting_without_treating_prose_as_an_attachment() {
    for source in [
        "'/tmp/my image.png'",
        "/tmp/my\\ image.png",
        "file:///tmp/my%20image.png",
    ] {
        assert_eq!(
            pasted_image_path(source, Some("/home/me")),
            Some("/tmp/my image.png".to_string())
        );
    }
    assert_eq!(pasted_image_path("explain the image.png", Some("/home/me")), None);
    assert_eq!(pasted_image_path("hello", Some("/home/me")), None);
    assert_eq!(parse_image_path("'unterminated.png", Some("/home/me")), None);
}

#[test]
fn home_paths_resolve_under_the_home_directory() {
    assert_eq!(
        parse_image_path("  ~/shots/a.PNG \n", Some("/home/me")),
        Some("/home/me/shots/a.PNG".to_string())
    );
    assert_eq!(parse_image_path("~/a.png", Some("/home/me/")), Some("/home/me/a.png".to_string()));
    assert_eq!(parse_image_path("~/a.png", None), None);
    assert_eq!(
        pasted_image_path("~/a.PNG", Some("/home/me")),
        Some("/home/me/a.PNG".to_string())
    );
}

#[test]
fn multi_line_and_oversized_text_is_no_path() {
    assert_eq!(parse_image_path("a.png\nb.png", None), None);
    assert_eq!(parse_image_path(&format!("/{}", "a".repeat(4096)), None), None);
    assert_eq!(parse_image_path(&format!("/{}", "a".repeat(4095)), None).map(|p| p.len()), Some(4096));
}

#[test]
fn only_image_extensions_are_pasted() {
    for path in ["/x/a.png", "/x/a.JPG", "/x/a.jpeg", "/x/a.gif", "/x/a.WebP", "/x/b.tar.png"] {
        assert_eq!(pasted_image_path(path, None), Some(path.to_string()), "{path}");
    }
    for path in ["/x/a.txt", "/x/.png", "/x/png", "/x/a.png/..", "/"] {
        assert_eq!(pasted_image_path(path, None), None, "{path}");
    }
    assert_eq!(pasted_image_path("/x/a.png/.", None), Some("/x/a.png/.".to_string()));
}

#[test]
fn words_other_than_one_are_no_path() {
    assert_eq!(image_path_from_words(None, None), None);
    assert_eq!(image_path_from_words(Some(vec![]), None), None);
    assert_eq!(
        image_path_from_words(Some(vec!["a".to_string(), "b".to_string()]), None),
        None
    );
    assert_eq!(
        image_path_from_words(Some(vec!["~//abs.png".to_string()]), Some("/home/me")),
        Some("/abs.png".to_string())
    );
}

#[test]
fn the_first_image_among_sixteen_clipboard_files_is_attached() {
    let files: Vec<String> = ["/a/notes.txt", "/a/shot.PNG", "/a/photo.jpg"].iter().map(|s| s.to_string()).collect();
    assert_eq!(first_image_file(&files), Some(1));
    let none: Vec<String> = ["/a/notes.txt", "/a/.png", "/a/png"].iter().map(|s| s.to_string()).collect();
    assert_eq!(first_image_file(&none), None);
    let mut many: Vec<String> = (0..16).map(|i| format!("/a/{i}.txt")).collect();
    many.push("/a/late.gif".to_string());
    assert_eq!(first_image_file(&many), None);
    many[15] = "/a/in-time.webp".to_string();
    assert_eq!(first_image_file(&many), Some(15));
}

#[test]
fn clipboard_pixels_are_checked_before_they_are_pasted() {
    assert_eq!(clipboard_image_size(2, 3, 24), Ok((2, 3)));
    let refused = Err("Clipboard image exceeds supported dimensions or byte limits.".to_string());
    assert_eq!(clipboard_image_size(0, 3, 0), refused);
    assert_eq!(clipboard_image_size(8193, 1, 32772), refused);
    assert_eq!(clipboard_image_size(2, 3, 25), refused);
    assert_eq!(clipboard_image_size(8192, 8192, 268435456), refused);
    assert_eq!(clipboard_image_size(1 << 40, 1, 4), Err("Clipboard image is too wide.".to_string()));
    assert_eq!(clipboard_image_size(1, 1 << 40, 4), Err("Clipboard image is too tall.".to_string()));
}

#[test]
fn file_urls_give_their_local_path_and_other_hosts_give_none() {
    assert_eq!(parse_image_path("file:///tmp/a%20b.png", None), Some("/tmp/a b.png".to_string()));
    assert_eq!(
        image_path_from_words(Some(vec!["file://localhost/tmp/x.png".to_string()]), None),
        Some("/tmp/x.png".to_string())
    );
    assert_eq!(parse_image_path("file://example.com/tmp/x.png", None), None);
    assert_eq!(pasted_image_path("file:///tmp/notes.txt", None), None);
}
