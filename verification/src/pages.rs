//! The pages that are served beside the API: the index page and the
//! redirect to it.

use crate::errors::{
    STATUS_FORBIDDEN, STATUS_MOVED_PERMANENTLY, STATUS_OK, STATUS_SERVICE_UNAVAILABLE,
};
use crate::text::joined;
use vstd::prelude::*;

verus! {

/// A text in which every occurrence of a pattern, from the left and without
/// overlap, has been replaced by another text.
pub uninterp spec fn replaced(text: Seq<char>, pattern: Seq<char>, by: Seq<char>) -> Seq<char>;

/// `str::replace`: all matches of the pattern replaced. The result depends
/// on the three texts alone.
#[verifier::external_body]
fn replace_all(text: &str, pattern: &str, by: &str) -> (r: String)
    ensures
        r@ == replaced(text@, pattern@, by@),
{
    text.replace(pattern, by)
}

/// Where the index page comes from.
#[derive(Clone, Copy, Debug, PartialEq, Eq, Structural)]
pub enum IndexSource {
    /// Pages are not served.
    Forbidden,
    /// The page that is built in.
    BuiltIn,
    /// The file `index.html` of the static directory.
    File,
}

/// What reading the file of the index page gave.
#[derive(Debug, PartialEq, Eq)]
pub enum FileRead {
    Read(String),
    NotFound,
    Failed,
}

/// A page: its status and its body.
#[derive(Debug, PartialEq, Eq)]
pub struct Page {
    pub status: u16,
    pub body: String,
}

/// The answer to a request for the root: a status, where to go instead, and
/// a body.
#[derive(Debug, PartialEq, Eq)]
pub struct Redirect {
    pub status: u16,
    pub location: Option<String>,
    pub body: String,
}

/// Where the index page comes from: nowhere where pages are not served,
/// from the built-in page where no static directory is configured, and from
/// the static directory otherwise.
pub fn index_html_source(enabled: bool, static_directory: &str) -> (r: IndexSource)
    ensures
        r == if !enabled {
            IndexSource::Forbidden
        } else if static_directory@.len() == 0 {
            IndexSource::BuiltIn
        } else {
            IndexSource::File
        },
{
    if !enabled {
        IndexSource::Forbidden
    } else if static_directory.is_empty() {
        IndexSource::BuiltIn
    } else {
        IndexSource::File
    }
}

/// The base path that a page is told: `/` where none is configured.
pub open spec fn shown_base_path(base_path: Seq<char>) -> Seq<char> {
    if base_path.len() == 0 {
        "/"@
    } else {
        base_path
    }
}

/// A page with the base path and the title filled in.
pub open spec fn filled(template: Seq<char>, base_path: Seq<char>, title: Seq<char>) -> Seq<char> {
    replaced(
        replaced(template, "{{BASE_PATH}}"@, shown_base_path(base_path)),
        "{{TITLE}}"@,
        title,
    )
}

/// The status and the body of the index page. Where pages are not served
/// the page is forbidden. The built-in page is served where it is the
/// source and where the file is not there; a file that cannot be read makes
/// the page unavailable. A page that is served has the base path and the
/// title filled in.
pub open spec fn index_page(
    source: IndexSource,
    read: FileRead,
    built_in: Seq<char>,
    base_path: Seq<char>,
    title: Seq<char>,
) -> (int, Seq<char>) {
    match source {
        IndexSource::Forbidden => (403, "<html><body>Service Unavailable</body></html>"@),
        IndexSource::BuiltIn => (200, filled(built_in, base_path, title)),
        IndexSource::File => match read {
            FileRead::Read(data) => (200, filled(data@, base_path, title)),
            FileRead::NotFound => (200, filled(built_in, base_path, title)),
            FileRead::Failed => (503, "<html><body>Service Unavailable</body></html>"@),
        },
    }
}

/// Fills the base path and the title into a page.
pub fn fill(template: &str, base_path: &str, title: &str) -> (r: String)
    ensures
        r@ == filled(template@, base_path@, title@),
{
    let with_base = if !base_path.is_empty() {
        replace_all(template, "{{BASE_PATH}}", base_path)
    } else {
        replace_all(template, "{{BASE_PATH}}", "/")
    };
    replace_all(with_base.as_str(), "{{TITLE}}", title)
}

/// The index page, from where it comes from and from what reading the file
/// gave. `read` counts only where the file is the source.
pub fn maybe_read_index_html_file(
    source: IndexSource,
    read: &FileRead,
    built_in: &str,
    base_path: &str,
    title: &str,
) -> (r: Page)
    ensures
        (r.status as int, r.body@) == index_page(source, *read, built_in@, base_path@, title@),
{
    match source {
        IndexSource::Forbidden => Page {
            status: STATUS_FORBIDDEN,
            body: String::from_str("<html><body>Service Unavailable</body></html>"),
        },
        IndexSource::BuiltIn => Page { status: STATUS_OK, body: fill(built_in, base_path, title) },
        IndexSource::File => match read {
            FileRead::Read(data) => Page {
                status: STATUS_OK,
                body: fill(data.as_str(), base_path, title),
            },
            FileRead::NotFound => Page {
                status: STATUS_OK,
                body: fill(built_in, base_path, title),
            },
            FileRead::Failed => Page {
                status: STATUS_SERVICE_UNAVAILABLE,
                body: String::from_str("<html><body>Service Unavailable</body></html>"),
            },
        },
    }
}

/// The answer to a request for the root: where pages are served, the
/// permanent redirect to the index page below the base path, with an empty
/// body; where they are not, a page that says so, with status 403.
pub fn redirect_root_to_index_html(enabled: bool, base_path: &str) -> (r: Redirect)
    ensures
        enabled ==> r.status == 301 && (r.location matches Some(location) && location@
            == base_path@ + "static/index.html"@) && r.body@.len() == 0,
        !enabled ==> r.status == 403 && r.location is None && r.body@
            == "<html><body>Service Unavailable!</body></html>"@,
{
    if enabled {
        Redirect {
            status: STATUS_MOVED_PERMANENTLY,
            location: Some(joined(base_path, "static/index.html")),
            body: String::new(),
        }
    } else {
        Redirect {
            status: STATUS_FORBIDDEN,
            location: None,
            body: String::from_str("<html><body>Service Unavailable!</body></html>"),
        }
    }
}

} // verus!
