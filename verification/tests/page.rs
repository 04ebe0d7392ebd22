use std::path::{Path, PathBuf};
use workshop_invites::page::{about, content_path, learn, markdown, page_title, volunteer, Page, TEMPLATE};

#[test]
fn page_title_puts_the_site_before_the_page() {
    assert_eq!(page_title("About"), "RustBridge - About");
}

#[test]
fn page_title_of_an_empty_name() {
    assert_eq!(page_title(""), "RustBridge - ");
}

#[test]
fn content_path_lies_under_data() {
    assert_eq!(content_path("about.md"), PathBuf::from("data").join("about.md"));
    assert_eq!(content_path("about.md").as_path(), Path::new("data/about.md"));
}

#[test]
fn content_path_is_neither_of_its_parts() {
    assert_ne!(content_path("learn.md"), PathBuf::from("data"));
    assert_ne!(content_path("learn.md"), PathBuf::from("learn.md"));
}

#[test]
fn markdown_renders_emphasis() {
    assert_eq!(markdown("Hello, **world**!"), "<p>Hello, <strong>world</strong>!</p>\n");
}

#[test]
fn markdown_renders_a_heading_and_a_list() {
    assert_eq!(
        markdown("# Learn\n\n- one\n- two\n"),
        "<h1>Learn</h1>\n<ul>\n<li>one</li>\n<li>two</li>\n</ul>\n"
    );
}

#[test]
fn markdown_of_nothing_is_nothing() {
    assert_eq!(markdown(""), "");
}

#[test]
fn template_is_the_main_page() {
    assert_eq!(TEMPLATE, "main_page/page");
}

#[test]
fn about_page_from_rendered_text() {
    assert_eq!(
        Page::about("<p>hi</p>\n".to_string()),
        Page {
            title: "RustBridge - About".to_string(),
            parent: "main_page/layout",
            sidebar: "main_page/workshops",
            content: "<p>hi</p>\n".to_string(),
            sidebar_content: None,
        }
    );
}

#[test]
fn learn_page_from_rendered_texts() {
    assert_eq!(
        Page::learn("<p>hi</p>\n".to_string(), "<p>links</p>\n".to_string()),
        Page {
            title: "RustBridge - Learn".to_string(),
            parent: "main_page/layout",
            sidebar: "main_page/sidebar",
            content: "<p>hi</p>\n".to_string(),
            sidebar_content: Some("<p>links</p>\n".to_string()),
        }
    );
}

#[test]
fn volunteer_page_from_rendered_texts() {
    assert_eq!(
        Page::volunteer("<p>hi</p>\n".to_string(), "<p>links</p>\n".to_string()),
        Page {
            title: "RustBridge - Volunteer".to_string(),
            parent: "main_page/layout",
            sidebar: "main_page/sidebar",
            content: "<p>hi</p>\n".to_string(),
            sidebar_content: Some("<p>links</p>\n".to_string()),
        }
    );
}

#[test]
fn about_renders_its_text() {
    assert_eq!(about("*hi*"), Page::about("<p><em>hi</em></p>\n".to_string()));
}

#[test]
fn learn_renders_both_texts() {
    assert_eq!(
        learn("*hi*", "[rust](https://www.rust-lang.org)"),
        Page::learn(
            "<p><em>hi</em></p>\n".to_string(),
            "<p><a href=\"https://www.rust-lang.org\">rust</a></p>\n".to_string()
        )
    );
}

#[test]
fn volunteer_renders_both_texts() {
    assert_eq!(
        volunteer("come", "`code`"),
        Page::volunteer("<p>come</p>\n".to_string(), "<p><code>code</code></p>\n".to_string())
    );
}
