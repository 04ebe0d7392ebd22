//! What the pages of the site share: their titles, where their texts lie, the
//! rendering of those texts, and what each page hands to its template.

use std::path::{Path, PathBuf};
use vstd::prelude::*;
use vstd::string::StringExecFns;

verus! {

/// `std::path::PathBuf`, which the library only hands on.
#[verifier::external_type_specification]
#[verifier::external_body]
pub struct ExPathBuf(PathBuf);

/// The path that `std::path::Path::join` makes of the path written `base` and
/// of `part`, by the path rules of the platform.
pub uninterp spec fn joined_path(base: Seq<char>, part: Seq<char>) -> PathBuf;

/// The HTML that `comrak::markdown_to_html` makes of a Markdown text under
/// comrak's default options.
pub uninterp spec fn rendered_html(markdown: Seq<char>) -> Seq<char>;

/// Calls `std::path::Path::join` on the path written `base`. Trusted: that the
/// result depends on the two texts alone.
#[verifier::external_body]
fn join_path(base: &str, part: &str) -> (joined: PathBuf)
    ensures
        joined == joined_path(base@, part@),
{
    Path::new(base).join(part)
}

/// Calls `comrak::markdown_to_html` with comrak's default options. Trusted:
/// that it returns for every text, and that the result depends on the text
/// alone.
#[verifier::external_body]
fn markdown_to_html(content: &str) -> (html: String)
    ensures
        html@ == rendered_html(content@),
{
    comrak::markdown_to_html(content, &comrak::Options::default())
}

/// The name of the site, as it opens every page title.
pub open spec fn title_prefix() -> Seq<char> {
    "RustBridge - "@
}

/// The template that every page is rendered with.
pub const TEMPLATE: &'static str = "main_page/page";

/// The title of a page: the site's name, a dash, and the page's own name.
pub fn page_title(current_page: &str) -> (title: String)
    ensures
        title@ == title_prefix() + current_page@,
{
    String::from_str("RustBridge - ").concat(current_page)
}

/// Where the text of a page lies: `file` under the directory `data`.
pub fn content_path(file: &str) -> (path: PathBuf)
    ensures
        path == joined_path("data"@, file@),
{
    join_path("data", file)
}

/// Renders the Markdown text of a page as HTML.
pub fn markdown(content: &str) -> (html: String)
    ensures
        html@ == rendered_html(content@),
{
    markdown_to_html(content)
}

/// What a page hands to its template.
#[derive(Debug, PartialEq, Eq)]
pub struct Page {
    /// The title of the page.
    pub title: String,
    /// The layout that the template extends.
    pub parent: &'static str,
    /// The partial that fills the sidebar.
    pub sidebar: &'static str,
    /// The body of the page, as HTML.
    pub content: String,
    /// The text of the sidebar, as HTML, on the pages whose sidebar has one.
    pub sidebar_content: Option<String>,
}

impl Page {
    /// Whether this is the page named `name`, with `sidebar` as its partial
    /// and `content` as its body.
    pub open spec fn is_page(self, name: Seq<char>, sidebar: &'static str, content: String) -> bool {
        &&& self.title@ == title_prefix() + name
        &&& self.parent == "main_page/layout"
        &&& self.sidebar == sidebar
        &&& self.content == content
    }

    /// The front page: the rendered text beside the list of workshops.
    pub fn about(content: String) -> (page: Page)
        ensures
            page.is_page("About"@, "main_page/workshops", content),
            page.sidebar_content is None,
    {
        Page {
            title: page_title("About"),
            parent: "main_page/layout",
            sidebar: "main_page/workshops",
            content,
            sidebar_content: None,
        }
    }

    /// The page on learning: the rendered text beside the rendered resources.
    pub fn learn(content: String, resources: String) -> (page: Page)
        ensures
            page.is_page("Learn"@, "main_page/sidebar", content),
            page.sidebar_content == Some(resources),
    {
        Page {
            title: page_title("Learn"),
            parent: "main_page/layout",
            sidebar: "main_page/sidebar",
            content,
            sidebar_content: Some(resources),
        }
    }

    /// The page on volunteering: the rendered text beside the rendered
    /// resources.
    pub fn volunteer(content: String, resources: String) -> (page: Page)
        ensures
            page.is_page("Volunteer"@, "main_page/sidebar", content),
            page.sidebar_content == Some(resources),
    {
        Page {
            title: page_title("Volunteer"),
            parent: "main_page/layout",
            sidebar: "main_page/sidebar",
            content,
            sidebar_content: Some(resources),
        }
    }
}

/// The front page, from the Markdown text of `about.md`.
pub fn about(text: &str) -> (page: Page)
    ensures
        page.title@ == title_prefix() + "About"@,
        page.parent == "main_page/layout",
        page.sidebar == "main_page/workshops",
        page.content@ == rendered_html(text@),
        page.sidebar_content is None,
{
    Page::about(markdown(text))
}

/// The page on learning, from the Markdown texts of `learn.md` and of
/// `resources.md`.
pub fn learn(text: &str, resources: &str) -> (page: Page)
    ensures
        page.title@ == title_prefix() + "Learn"@,
        page.parent == "main_page/layout",
        page.sidebar == "main_page/sidebar",
        page.content@ == rendered_html(text@),
        page.sidebar_content matches Some(html) && html@ == rendered_html(resources@),
{
    let content = markdown(text);
    let sidebar = markdown(resources);
    Page::learn(content, sidebar)
}

/// The page on volunteering, from the Markdown texts of `volunteer.md` and of
/// `resources.md`.
pub fn volunteer(text: &str, resources: &str) -> (page: Page)
    ensures
        page.title@ == title_prefix() + "Volunteer"@,
        page.parent == "main_page/layout",
        page.sidebar == "main_page/sidebar",
        page.content@ == rendered_html(text@),
        page.sidebar_content matches Some(html) && html@ == rendered_html(resources@),
{
    let content = markdown(text);
    let sidebar = markdown(resources);
    Page::volunteer(content, sidebar)
}

} // verus!
