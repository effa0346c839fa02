//! Markdown pages: rendering them to HTML and where the result is written.

use vstd::prelude::*;
use vstd::string::StringExecFns;

use crate::builder::utils::{site_file_path, spec_dir_part, spec_file_name};

verus! {

/// The HTML that pulldown_cmark renders from the markdown `source` with
/// strikethrough enabled.
pub uninterp spec fn strikethrough_markdown_html(source: Seq<char>) -> Seq<char>;

/// Renders `source` with `pulldown_cmark::html::push_html` over
/// `pulldown_cmark::Parser::new_ext(source, options)`, where the options
/// enable strikethrough and nothing else, into an empty string. Claims only
/// that the result is a function of `source`, named
/// `strikethrough_markdown_html`; what that HTML is, is not stated.
#[verifier::external_body]
fn render_markdown(source: &str) -> (html: String)
    ensures
        html@ == strikethrough_markdown_html(source@),
{
    let mut options = pulldown_cmark::Options::empty();
    options.insert(pulldown_cmark::Options::ENABLE_STRIKETHROUGH);
    let mut html = String::new();
    pulldown_cmark::html::push_html(&mut html, pulldown_cmark::Parser::new_ext(source, options));
    html
}

/// The HTML of a markdown page, given its text as read from disk: empty
/// when the page could not be read.
pub fn parse_markdown(raw: Option<&str>) -> (html: String)
    ensures
        raw matches Some(r) ==> html@ == strikethrough_markdown_html(r@),
        raw is None ==> html@ == Seq::<char>::empty(),
{
    match raw {
        Some(r) => render_markdown(r),
        None => String::new(),
    }
}

/// The message of a page whose path is not valid Unicode.
pub open spec fn spec_unreadable_name_message() -> Seq<char> {
    "unable to parse file"@
}

/// Where the HTML of a markdown page goes, given the page's path (`None`
/// when the path is not valid Unicode, which is refused). The page keeps its
/// directories under the site directory, as `site_file_path` lays them out,
/// so that the site copies the layout of the sources one to one.
pub fn markdown_output(page: Option<&str>) -> (r: Result<String, String>)
    ensures
        page matches Some(p) ==> (r matches Ok(f) && f@ == "./_site/"@ + spec_dir_part(p@) + "/"@
            + spec_file_name(p@) + "."@ + "html"@),
        page is None ==> (r matches Err(e) && e@ == spec_unreadable_name_message()),
{
    match page {
        Some(p) => Ok(site_file_path(p, "html")),
        None => Err(String::from_str("unable to parse file")),
    }
}

} // verus!
