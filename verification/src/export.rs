//! HTML export: the current document's rendered body wrapped in a
//! self-contained page, titled after the document's file stem.

use vstd::prelude::*;
use crate::store::{AppState, StoreError};
use crate::text::push_str;

verus! {

/// The page up to the title.
pub const EXPORT_HEAD: &'static str = "<!doctype html>\n    <html lang=\"en\">\n    <head>\n    <meta charset=\"utf-8\">\n    <meta name=\"viewport\" content=\"width=device-width, initial-scale=1\">\n    <title>";

/// The page between the title and the body: the closing title tag and the
/// embedded stylesheet.
pub const EXPORT_STYLE: &'static str = "</title>\n    <style>\n      body { max-width: 780px; margin: 2rem auto; padding: 0 1.5rem;\n             font-family: system-ui, sans-serif; line-height: 1.65; color: #222; }\n      pre  { background: #f6f6f2; padding: .75em 1em; border-radius: 6px; overflow-x: auto; }\n      code { font-size: .92em; }\n      blockquote { border-left: 3px solid #ccc; margin: 0; padding-left: 1em; color: #555; }\n      table { border-collapse: collapse; } td, th { border: 1px solid #ddd; padding: .3em .7em; }\n    </style>\n    </head>\n    <body>\n    ";

/// The page after the body.
pub const EXPORT_TAIL: &'static str = "\n    </body>\n    </html>\n    ";

/// The title used when the document's path has no file stem.
pub const UNTITLED_EXPORT: &'static str = "bekoedit export";

/// What `Path::file_stem` gives for `path`: the file name without its final
/// extension, or nothing where the path has no file name.
pub uninterp spec fn path_file_stem(path: Seq<char>) -> Option<Seq<char>>;

/// `std::path::Path::file_stem` on `path`, converted to a `String`.
///
/// Claimed: the result is `path_file_stem` of the path, a function of the
/// path alone. How the stem is cut out of the path (components, a leading
/// dot, the final extension) is left unsaid.
#[verifier::external_body]
fn file_stem(path: &str) -> (stem: Option<String>)
    ensures
        match stem {
            Some(s) => path_file_stem(path@) == Some(s@),
            None => path_file_stem(path@) is None,
        },
{
    match std::path::Path::new(path).file_stem() {
        Some(n) => Some(n.to_string_lossy().into_owned()),
        None => None,
    }
}

/// The export title for a file stem: the stem itself, or the fallback title.
pub open spec fn export_title_spec(stem: Option<Seq<char>>) -> Seq<char> {
    match stem {
        Some(s) => s,
        None => UNTITLED_EXPORT@,
    }
}

/// The exported page: head, title, stylesheet, body, tail.
pub open spec fn export_document_spec(title: Seq<char>, body_html: Seq<char>) -> Seq<char> {
    EXPORT_HEAD@ + title + EXPORT_STYLE@ + body_html + EXPORT_TAIL@
}

/// The export title for a file stem.
pub fn export_title(stem: Option<String>) -> (title: String)
    ensures
        title@ == export_title_spec(match stem {
            Some(s) => Some(s@),
            None => None,
        }),
{
    match stem {
        Some(s) => s,
        None => UNTITLED_EXPORT.to_string(),
    }
}

/// The export title for a document stored at `path`.
pub fn title_of_path(path: &str) -> (title: String)
    ensures
        title@ == export_title_spec(path_file_stem(path@)),
{
    let stem = file_stem(path);
    export_title(stem)
}

/// The self-contained page for `body_html` under `title`.
pub fn export_document(title: &str, body_html: &str) -> (page: String)
    ensures
        page@ == export_document_spec(title@, body_html@),
{
    let mut page = String::new();
    push_str(&mut page, EXPORT_HEAD);
    push_str(&mut page, title);
    push_str(&mut page, EXPORT_STYLE);
    push_str(&mut page, body_html);
    push_str(&mut page, EXPORT_TAIL);
    assert(page@ =~= export_document_spec(title@, body_html@));
    page
}

impl AppState {
    /// The HTML export of the open document, for the caller to write where
    /// it chooses: `body_html` is the document's rendered preview. Fails with
    /// `NoDocument` when no document is open.
    pub fn export_html(&self, body_html: &str) -> (r: Result<String, StoreError>)
        ensures
            match self.session {
                None => r == Err::<String, StoreError>(StoreError::NoDocument),
                Some(session) => r matches Ok(page) && page@ == export_document_spec(
                    export_title_spec(path_file_stem(session.path@)),
                    body_html@,
                ),
            },
    {
        match &self.session {
            None => Err(StoreError::NoDocument),
            Some(session) => {
                let title = title_of_path(session.path.as_str());
                Ok(export_document(title.as_str(), body_html))
            },
        }
    }
}

} // verus!
