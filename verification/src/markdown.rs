//! Markdown rendering: CommonMark with the GitHub extensions through comrak,
//! code blocks highlighted through syntect, and the HTML cleaned by ammonia.
use vstd::prelude::*;
use crate::text::owned;

verus! {

/// What comrak's `markdown_to_html_with_plugins` returns for a text, with
/// the given extensions switched on, heading ids under the given prefix, and
/// code fences highlighted in the given syntect theme.
pub uninterp spec fn comrak_html(
    text: Seq<char>,
    table: bool,
    strikethrough: bool,
    tasklist: bool,
    autolink: bool,
    footnotes: bool,
    header_id_prefix: Option<Seq<char>>,
    theme: Seq<char>,
) -> Seq<char>;

/// What ammonia's default cleaner (`Builder::default().clean`) makes of a
/// piece of HTML.
pub uninterp spec fn ammonia_clean(html: Seq<char>) -> Seq<char>;

/// The options handed to comrak.
pub struct MarkdownOptions {
    pub table: bool,
    pub strikethrough: bool,
    pub tasklist: bool,
    pub autolink: bool,
    pub footnotes: bool,
    pub header_id_prefix: Option<String>,
    pub theme: String,
}

/// An optional string by its view.
pub open spec fn opt_text(o: Option<String>) -> Option<Seq<char>> {
    match o {
        Some(s) => Some(s@),
        None => None,
    }
}

/// The theme that rendered pages use; syntect ships it among its defaults.
pub open spec fn highlight_theme() -> Seq<char> {
    "base16-ocean.dark"@
}

/// The prefix of heading ids in rendered pages.
pub open spec fn heading_prefix() -> Seq<char> {
    "user-content-"@
}

/// The HTML of a Markdown text as pages show it: tables, strikethrough, task
/// lists, autolinks and footnotes on, heading ids prefixed `user-content-`,
/// code highlighted in `base16-ocean.dark`, then cleaned.
pub open spec fn rendered_markdown(text: Seq<char>) -> Seq<char> {
    ammonia_clean(
        comrak_html(text, true, true, true, true, true, Some(heading_prefix()), highlight_theme()),
    )
}

/// Renders Markdown to HTML with comrak (`markdown_to_html_with_plugins`),
/// code fences highlighted by comrak's syntect adapter. Claims that the
/// result is comrak's output for these arguments. The theme must be one that
/// syntect loads by default: another makes the adapter panic on the first
/// code fence.
#[verifier::external_body]
fn comrak_to_html(text: &str, options: &MarkdownOptions) -> (html: String)
    requires
        options.theme@ == highlight_theme(),
    ensures
        html@ == comrak_html(
            text@,
            options.table,
            options.strikethrough,
            options.tasklist,
            options.autolink,
            options.footnotes,
            opt_text(options.header_id_prefix),
            options.theme@,
        ),
{
    let mut o = comrak::Options::default();
    o.extension.table = options.table;
    o.extension.strikethrough = options.strikethrough;
    o.extension.tasklist = options.tasklist;
    o.extension.autolink = options.autolink;
    o.extension.footnotes = options.footnotes;
    o.extension.header_id_prefix = options.header_id_prefix.clone();
    let adapter = comrak::plugins::syntect::SyntectAdapter::new(Some(options.theme.as_str()));
    let mut plugins = comrak::options::Plugins::default();
    plugins.render.codefence_syntax_highlighter = Some(&adapter);
    comrak::markdown_to_html_with_plugins(text, &o, &plugins)
}

/// Cleans HTML with ammonia's default whitelist (`Builder::default().clean`).
/// Claims that the result is ammonia's output for this input.
#[verifier::external_body]
fn sanitize_html(html: &str) -> (clean: String)
    ensures
        clean@ == ammonia_clean(html@),
{
    ammonia::Builder::default().clean(html).to_string()
}

/// Renders a Markdown text to safe HTML.
pub fn render_markdown(text: &str) -> (html: String)
    ensures
        html@ == rendered_markdown(text@),
        html@ == ammonia_clean(
            comrak_html(text@, true, true, true, true, true, Some("user-content-"@), "base16-ocean.dark"@),
        ),
{
    let options = MarkdownOptions {
        table: true,
        strikethrough: true,
        tasklist: true,
        autolink: true,
        footnotes: true,
        header_id_prefix: Some(owned("user-content-")),
        theme: owned("base16-ocean.dark"),
    };
    proof {
        reveal_strlit("user-content-");
        reveal_strlit("base16-ocean.dark");
    }
    let raw = comrak_to_html(text, &options);
    sanitize_html(raw.as_str())
}

/// The HTML of an optional text: rendered where there is one.
pub open spec fn rendered_opt(text: Option<String>) -> Option<Seq<char>> {
    match text {
        Some(t) => Some(rendered_markdown(t@)),
        None => None,
    }
}

/// Renders an optional Markdown text (an issue's description, a wiki page's
/// content).
pub fn render_optional(text: &Option<String>) -> (html: Option<String>)
    ensures
        opt_text(html) == rendered_opt(*text),
{
    match text {
        Some(t) => Some(render_markdown(t.as_str())),
        None => None,
    }
}

/// What pages show for a Markdown text is ammonia's cleaning of comrak's
/// HTML with tables, strikethrough, task lists, autolinks and footnotes all
/// switched on, heading ids prefixed `user-content-`, and code highlighted
/// in syntect's `base16-ocean.dark` theme.
pub proof fn lemma_rendering_options(text: Seq<char>)
    ensures
        rendered_markdown(text) == ammonia_clean(
            comrak_html(text, true, true, true, true, true, Some("user-content-"@), "base16-ocean.dark"@),
        ),
{
}

} // verus!
