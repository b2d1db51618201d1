//! Markdown rendering: a pure conversion from a markdown source text to
//! HTML, delegated to the CommonMark renderer under a fixed extension
//! configuration, together with the read-outcome handling of the render
//! command.

use vstd::prelude::*;

verus! {

/// The HTML that the CommonMark renderer produces for a markdown source
/// under this library's fixed extension configuration: strikethrough,
/// tables, autolinking of bare URLs, task-list checkboxes, superscript,
/// footnotes and description lists enabled, everything else at its
/// default. A function of the source text alone.
pub uninterp spec fn html_of(source: Seq<char>) -> Seq<char>;

/// Relies on comrak::markdown_to_html: converts a markdown string to an
/// HTML string, deterministically in the source text once the options
/// are fixed, with no side effect.
#[verifier::external_body]
fn markdown_to_html_fixed(source: &str) -> (r: String)
    ensures
        r@ == html_of(source@),
{
    let mut options = comrak::Options::default();
    options.extension.strikethrough = true;
    options.extension.table = true;
    options.extension.autolink = true;
    options.extension.tasklist = true;
    options.extension.superscript = true;
    options.extension.footnotes = true;
    options.extension.description_lists = true;
    comrak::markdown_to_html(source, &options)
}

/// Renders the text read from a markdown file. `read` is the outcome of
/// reading the file in full: its contents, or the message of a failed
/// read (missing file, permission, encoding), which is propagated to
/// the caller unchanged. A failed read never yields HTML.
pub fn render_markdown(read: Result<String, String>) -> (r: Result<String, String>)
    ensures
        read matches Ok(source) ==> r matches Ok(html) && html@ == html_of(source@),
        read matches Err(e) ==> r == Err::<String, String>(e),
{
    match read {
        Ok(source) => Ok(markdown_to_html_fixed(source.as_str())),
        Err(e) => Err(e),
    }
}

/// Rendering is deterministic: two renderings of one and the same
/// source text are byte-identical, however often the call is repeated,
/// because the produced HTML is a function of the source alone.
pub proof fn lemma_render_deterministic(first: Seq<char>, second: Seq<char>, source: Seq<char>)
    requires
        first == html_of(source),
        second == html_of(source),
    ensures
        first == second,
{
}

} // verus!
