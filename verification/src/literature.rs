//! The HTML page of a literature work, from its markup.

use vstd::prelude::*;
use crate::text::{append_chars, from_chars, str_eq, to_chars};
use crate::types::deviation::{
    Markup, MarkupAttribute, MarkupDocumentContent, MarkupDocumentContentInner,
};

verus! {

/// Why a markup gives no page.
#[derive(Clone, Debug, PartialEq, Eq)]
pub enum RenderError {
    /// The version of the markup is not 1.
    UnsupportedVersion,
    /// The document is not of the kind `doc`.
    UnsupportedDocument,
    /// A paragraph has an attribute that is not known.
    UnknownAttribute(String),
    /// The value of an attribute is not a text.
    AttributeNotText(String),
    /// A paragraph is indented.
    Indentation,
    /// A paragraph has no content.
    MissingContent,
    /// A run of text has no text.
    MissingText,
    /// A run is of a kind that is not known.
    UnknownRun(String),
    /// A block is of a kind that is not known.
    UnknownBlock(String),
}

/// A `RenderError` with its texts as sequences.
pub enum RenderFailure {
    UnsupportedVersion,
    UnsupportedDocument,
    UnknownAttribute(Seq<char>),
    AttributeNotText(Seq<char>),
    Indentation,
    MissingContent,
    MissingText,
    UnknownRun(Seq<char>),
    UnknownBlock(Seq<char>),
}

impl View for RenderError {
    type V = RenderFailure;

    open spec fn view(&self) -> RenderFailure {
        match *self {
            RenderError::UnsupportedVersion => RenderFailure::UnsupportedVersion,
            RenderError::UnsupportedDocument => RenderFailure::UnsupportedDocument,
            RenderError::UnknownAttribute(key) => RenderFailure::UnknownAttribute(key@),
            RenderError::AttributeNotText(key) => RenderFailure::AttributeNotText(key@),
            RenderError::Indentation => RenderFailure::Indentation,
            RenderError::MissingContent => RenderFailure::MissingContent,
            RenderError::MissingText => RenderFailure::MissingText,
            RenderError::UnknownRun(kind) => RenderFailure::UnknownRun(kind@),
            RenderError::UnknownBlock(kind) => RenderFailure::UnknownBlock(kind@),
        }
    }
}

/// What one attribute of a paragraph adds to its style.
pub open spec fn attribute_style(attribute: MarkupAttribute) -> Result<Seq<char>, RenderFailure> {
    if attribute.key@ == "indentation"@ {
        match attribute.text {
            None => Err(RenderFailure::AttributeNotText(attribute.key@)),
            Some(value) => if value@.len() == 0 {
                Ok(seq![])
            } else {
                Err(RenderFailure::Indentation)
            },
        }
    } else if attribute.key@ == "textAlign"@ {
        match attribute.text {
            None => Err(RenderFailure::AttributeNotText(attribute.key@)),
            Some(value) => Ok("text-align:"@ + value@ + ";"@),
        }
    } else {
        Err(RenderFailure::UnknownAttribute(attribute.key@))
    }
}

/// The HTML of one run of text.
pub open spec fn run_html(run: MarkupDocumentContentInner) -> Result<Seq<char>, RenderFailure> {
    if run.kind@ == "text"@ {
        match run.text {
            Some(text) => Ok(text@ + " "@),
            None => Err(RenderFailure::MissingText),
        }
    } else if run.kind@ == "hardBreak"@ {
        Ok("<br><br>"@)
    } else {
        Err(RenderFailure::UnknownRun(run.kind@))
    }
}

/// The style of a paragraph: what its attributes add, in order.
pub open spec fn style_of(attrs: Seq<MarkupAttribute>) -> Result<Seq<char>, RenderFailure>
    decreases attrs.len(),
{
    if attrs.len() == 0 {
        Ok(seq![])
    } else {
        match style_of(attrs.drop_last()) {
            Err(e) => Err(e),
            Ok(style) => match attribute_style(attrs.last()) {
                Err(e) => Err(e),
                Ok(more) => Ok(style + more),
            },
        }
    }
}

/// The HTML of the runs of a paragraph, in order.
pub open spec fn runs_html(runs: Seq<MarkupDocumentContentInner>) -> Result<
    Seq<char>,
    RenderFailure,
>
    decreases runs.len(),
{
    if runs.len() == 0 {
        Ok(seq![])
    } else {
        match runs_html(runs.drop_last()) {
            Err(e) => Err(e),
            Ok(html) => match run_html(runs.last()) {
                Err(e) => Err(e),
                Ok(more) => Ok(html + more),
            },
        }
    }
}

/// The HTML of one block: a paragraph with its style and its runs; nothing
/// for a video.
pub open spec fn block_html(block: MarkupDocumentContent) -> Result<Seq<char>, RenderFailure> {
    if block.kind@ == "paragraph"@ {
        match style_of(block.attrs@) {
            Err(e) => Err(e),
            Ok(style) => match block.content {
                None => Err(RenderFailure::MissingContent),
                Some(runs) => match runs_html(runs@) {
                    Err(e) => Err(e),
                    Ok(html) => Ok("<p style=\""@ + style + "\">"@ + html + "</p>"@),
                },
            },
        }
    } else if block.kind@ == "da-video"@ {
        Ok(seq![])
    } else {
        Err(RenderFailure::UnknownBlock(block.kind@))
    }
}

/// The HTML of the blocks of a document, in order.
pub open spec fn blocks_html(blocks: Seq<MarkupDocumentContent>) -> Result<
    Seq<char>,
    RenderFailure,
>
    decreases blocks.len(),
{
    if blocks.len() == 0 {
        Ok(seq![])
    } else {
        match blocks_html(blocks.drop_last()) {
            Err(e) => Err(e),
            Ok(html) => match block_html(blocks.last()) {
                Err(e) => Err(e),
                Ok(more) => Ok(html + more),
            },
        }
    }
}

/// The HTML of a markup: that of its blocks, for a document of version 1 and
/// of the kind `doc`.
pub open spec fn markup_html(markup: Markup) -> Result<Seq<char>, RenderFailure> {
    if markup.version != 1 {
        Err(RenderFailure::UnsupportedVersion)
    } else if markup.document.kind@ != "doc"@ {
        Err(RenderFailure::UnsupportedDocument)
    } else {
        blocks_html(markup.document.content@)
    }
}

/// What stands before the title in the page.
pub open spec fn page_opening() -> Seq<char> {
    "<html><head><meta charset=\"UTF-8\"><title>"@
}

/// What stands between the title and its heading.
pub open spec fn page_styles() -> Seq<char> {
    "</title><style>html { font-family: devioussans02extrabold,Helvetica Neue,Helvetica,Arial,メイリオ, meiryo,ヒラギノ角ゴ pro w3,hiragino kaku gothic pro,sans-serif; }body { background-color: #06070d; margin: 0; padding-bottom: 56px; padding-top: 56px; }h1 { color: #f2f2f2; font-weight: 400; font-size: 48px; line-height: 1.22; letter-spacing: .3px;}p { color: #b1b1b9; font-size: 18px; line-height: 1.5; letter-spacing: .3px; }</style></head><body><div style=\"width:780px;margin:auto;\"><h1>"@
}

/// What closes the page.
pub open spec fn page_closing() -> Seq<char> {
    "</div></body></html>"@
}

/// The markup as it is, for a markup that is not a document.
pub open spec fn raw_html(raw: Seq<char>) -> Seq<char> {
    "<div style=\"color: #b1b1b9; font-size: 18px; line-height: 1.5; letter-spacing: .3px;\">"@
        + raw + "</div>"@
}

/// The page of a literature work: the title, twice, around the styles, then
/// the HTML of the document, or the markup as it is where it is not a
/// document.
pub open spec fn page_html(title: Seq<char>, markup: Option<Markup>, raw: Seq<char>) -> Result<
    Seq<char>,
    RenderFailure,
> {
    let body = match markup {
        Some(markup) => markup_html(markup),
        None => Ok(raw_html(raw)),
    };
    match body {
        Err(e) => Err(e),
        Ok(body) => Ok(
            page_opening() + title + page_styles() + title + "</h1>"@ + body + page_closing(),
        ),
    }
}

/// A failure among the first attributes is the failure of the whole list.
pub proof fn lemma_style_failure(attrs: Seq<MarkupAttribute>, k: int)
    requires
        0 <= k <= attrs.len(),
        style_of(attrs.take(k)) is Err,
    ensures
        style_of(attrs) == style_of(attrs.take(k)),
    decreases attrs.len(),
{
    if k == attrs.len() {
        assert(attrs.take(k) == attrs);
    } else {
        assert(attrs.drop_last().take(k) == attrs.take(k));
        lemma_style_failure(attrs.drop_last(), k);
    }
}

/// A failure among the first runs is the failure of the whole list.
pub proof fn lemma_runs_failure(runs: Seq<MarkupDocumentContentInner>, k: int)
    requires
        0 <= k <= runs.len(),
        runs_html(runs.take(k)) is Err,
    ensures
        runs_html(runs) == runs_html(runs.take(k)),
    decreases runs.len(),
{
    if k == runs.len() {
        assert(runs.take(k) == runs);
    } else {
        assert(runs.drop_last().take(k) == runs.take(k));
        lemma_runs_failure(runs.drop_last(), k);
    }
}

/// A failure among the first blocks is the failure of the whole list.
pub proof fn lemma_blocks_failure(blocks: Seq<MarkupDocumentContent>, k: int)
    requires
        0 <= k <= blocks.len(),
        blocks_html(blocks.take(k)) is Err,
    ensures
        blocks_html(blocks) == blocks_html(blocks.take(k)),
    decreases blocks.len(),
{
    if k == blocks.len() {
        assert(blocks.take(k) == blocks);
    } else {
        assert(blocks.drop_last().take(k) == blocks.take(k));
        lemma_blocks_failure(blocks.drop_last(), k);
    }
}

/// Appends the text `more` to `out`.
fn push_text(out: &mut Vec<char>, more: &str)
    ensures
        final(out)@ == old(out)@ + more@,
{
    let chars = to_chars(more);
    append_chars(out, &chars);
}

/// The outcome of rendering, with its texts as sequences.
pub open spec fn html_view(html: Result<Vec<char>, RenderError>) -> Result<Seq<char>, RenderFailure> {
    match html {
        Ok(html) => Ok(html@),
        Err(e) => Err(e@),
    }
}

/// What one attribute of a paragraph adds to its style.
fn render_attribute(attribute: &MarkupAttribute) -> (style: Result<Vec<char>, RenderError>)
    ensures
        html_view(style) == attribute_style(*attribute),
{
    if str_eq(attribute.key.as_str(), "indentation") {
        match &attribute.text {
            None => Err(RenderError::AttributeNotText(attribute.key.clone())),
            Some(value) => {
                let chars = to_chars(value.as_str());
                if chars.len() == 0 {
                    Ok(Vec::new())
                } else {
                    Err(RenderError::Indentation)
                }
            },
        }
    } else if str_eq(attribute.key.as_str(), "textAlign") {
        match &attribute.text {
            None => Err(RenderError::AttributeNotText(attribute.key.clone())),
            Some(value) => {
                let mut style: Vec<char> = Vec::new();
                push_text(&mut style, "text-align:");
                push_text(&mut style, value.as_str());
                push_text(&mut style, ";");
                assert(style@ == "text-align:"@ + value@ + ";"@);
                Ok(style)
            },
        }
    } else {
        Err(RenderError::UnknownAttribute(attribute.key.clone()))
    }
}

/// The HTML of one run of text.
fn render_run(run: &MarkupDocumentContentInner) -> (html: Result<Vec<char>, RenderError>)
    ensures
        html_view(html) == run_html(*run),
{
    if str_eq(run.kind.as_str(), "text") {
        match &run.text {
            Some(text) => {
                let mut html: Vec<char> = Vec::new();
                push_text(&mut html, text.as_str());
                push_text(&mut html, " ");
                assert(html@ == text@ + " "@);
                Ok(html)
            },
            None => Err(RenderError::MissingText),
        }
    } else if str_eq(run.kind.as_str(), "hardBreak") {
        let mut html: Vec<char> = Vec::new();
        push_text(&mut html, "<br><br>");
        assert(html@ == "<br><br>"@);
        Ok(html)
    } else {
        Err(RenderError::UnknownRun(run.kind.clone()))
    }
}

/// The style of a paragraph.
fn render_style(attrs: &Vec<MarkupAttribute>) -> (style: Result<Vec<char>, RenderError>)
    ensures
        html_view(style) == style_of(attrs@),
{
    let mut style: Vec<char> = Vec::new();
    let mut i: usize = 0;
    assert(attrs@.take(0).len() == 0);
    while i < attrs.len()
        invariant
            i <= attrs.len(),
            style_of(attrs@.take(i as int)) == Ok::<Seq<char>, RenderFailure>(style@),
        decreases attrs.len() - i,
    {
        proof {
            let upto = attrs@.take(i + 1);
            assert(upto.drop_last() == attrs@.take(i as int));
            assert(upto.last() == attrs@[i as int]);
        }
        match render_attribute(&attrs[i]) {
            Ok(more) => {
                append_chars(&mut style, &more);
            },
            Err(e) => {
                proof {
                    lemma_style_failure(attrs@, i + 1);
                }
                return Err(e);
            },
        }
        i += 1;
    }
    assert(attrs@.take(attrs.len() as int) == attrs@);
    Ok(style)
}

/// The HTML of the runs of a paragraph.
fn render_runs(runs: &Vec<MarkupDocumentContentInner>) -> (html: Result<Vec<char>, RenderError>)
    ensures
        html_view(html) == runs_html(runs@),
{
    let mut html: Vec<char> = Vec::new();
    let mut i: usize = 0;
    assert(runs@.take(0).len() == 0);
    while i < runs.len()
        invariant
            i <= runs.len(),
            runs_html(runs@.take(i as int)) == Ok::<Seq<char>, RenderFailure>(html@),
        decreases runs.len() - i,
    {
        proof {
            let upto = runs@.take(i + 1);
            assert(upto.drop_last() == runs@.take(i as int));
            assert(upto.last() == runs@[i as int]);
        }
        match render_run(&runs[i]) {
            Ok(more) => {
                append_chars(&mut html, &more);
            },
            Err(e) => {
                proof {
                    lemma_runs_failure(runs@, i + 1);
                }
                return Err(e);
            },
        }
        i += 1;
    }
    assert(runs@.take(runs.len() as int) == runs@);
    Ok(html)
}

/// The HTML of one block.
fn render_block(block: &MarkupDocumentContent) -> (html: Result<Vec<char>, RenderError>)
    ensures
        html_view(html) == block_html(*block),
{
    if str_eq(block.kind.as_str(), "paragraph") {
        let style = match render_style(&block.attrs) {
            Ok(style) => style,
            Err(e) => {
                return Err(e);
            },
        };
        let runs = match &block.content {
            Some(runs) => runs,
            None => {
                return Err(RenderError::MissingContent);
            },
        };
        let inner = match render_runs(runs) {
            Ok(inner) => inner,
            Err(e) => {
                return Err(e);
            },
        };
        let mut html: Vec<char> = Vec::new();
        push_text(&mut html, "<p style=\"");
        append_chars(&mut html, &style);
        push_text(&mut html, "\">");
        append_chars(&mut html, &inner);
        push_text(&mut html, "</p>");
        assert(html@ == "<p style=\""@ + style@ + "\">"@ + inner@ + "</p>"@);
        Ok(html)
    } else if str_eq(block.kind.as_str(), "da-video") {
        Ok(Vec::new())
    } else {
        Err(RenderError::UnknownBlock(block.kind.clone()))
    }
}

/// The HTML of the blocks of a document.
fn render_blocks(blocks: &Vec<MarkupDocumentContent>) -> (html: Result<Vec<char>, RenderError>)
    ensures
        html_view(html) == blocks_html(blocks@),
{
    let mut html: Vec<char> = Vec::new();
    let mut i: usize = 0;
    assert(blocks@.take(0).len() == 0);
    while i < blocks.len()
        invariant
            i <= blocks.len(),
            blocks_html(blocks@.take(i as int)) == Ok::<Seq<char>, RenderFailure>(html@),
        decreases blocks.len() - i,
    {
        proof {
            let upto = blocks@.take(i + 1);
            assert(upto.drop_last() == blocks@.take(i as int));
            assert(upto.last() == blocks@[i as int]);
        }
        match render_block(&blocks[i]) {
            Ok(more) => {
                append_chars(&mut html, &more);
            },
            Err(e) => {
                proof {
                    lemma_blocks_failure(blocks@, i + 1);
                }
                return Err(e);
            },
        }
        i += 1;
    }
    assert(blocks@.take(blocks.len() as int) == blocks@);
    Ok(html)
}

/// The HTML of a markup.
pub fn render_markup(markup: &Markup) -> (html: Result<Vec<char>, RenderError>)
    ensures
        html_view(html) == markup_html(*markup),
{
    if markup.version != 1 {
        return Err(RenderError::UnsupportedVersion);
    }
    if !str_eq(markup.document.kind.as_str(), "doc") {
        return Err(RenderError::UnsupportedDocument);
    }
    render_blocks(&markup.document.content)
}

/// The outcome of rendering a page, with its texts as sequences.
pub open spec fn page_view(page: Result<String, RenderError>) -> Result<Seq<char>, RenderFailure> {
    match page {
        Ok(page) => Ok(page@),
        Err(e) => Err(e@),
    }
}

/// Writes the page of a literature work. `markup` is the document that the
/// markup text `raw` decodes to, or `None` where it decodes to none: the
/// text then goes into the page as it is.
pub fn write_html(title: &str, markup: &Option<Markup>, raw: &str) -> (page: Result<
    String,
    RenderError,
>)
    ensures
        page_view(page) == page_html(title@, *markup, raw@),
{
    let body = match markup {
        Some(markup) => match render_markup(markup) {
            Ok(body) => body,
            Err(e) => {
                return Err(e);
            },
        },
        None => {
            let mut body: Vec<char> = Vec::new();
            push_text(
                &mut body,
                "<div style=\"color: #b1b1b9; font-size: 18px; line-height: 1.5; letter-spacing: .3px;\">",
            );
            push_text(&mut body, raw);
            push_text(&mut body, "</div>");
            assert(body@ == raw_html(raw@));
            body
        },
    };
    let mut page: Vec<char> = Vec::new();
    push_text(&mut page, "<html><head><meta charset=\"UTF-8\"><title>");
    push_text(&mut page, title);
    push_text(
        &mut page,
        "</title><style>html { font-family: devioussans02extrabold,Helvetica Neue,Helvetica,Arial,メイリオ, meiryo,ヒラギノ角ゴ pro w3,hiragino kaku gothic pro,sans-serif; }body { background-color: #06070d; margin: 0; padding-bottom: 56px; padding-top: 56px; }h1 { color: #f2f2f2; font-weight: 400; font-size: 48px; line-height: 1.22; letter-spacing: .3px;}p { color: #b1b1b9; font-size: 18px; line-height: 1.5; letter-spacing: .3px; }</style></head><body><div style=\"width:780px;margin:auto;\"><h1>",
    );
    push_text(&mut page, title);
    push_text(&mut page, "</h1>");
    append_chars(&mut page, &body);
    push_text(&mut page, "</div></body></html>");
    assert(page@ == page_opening() + title@ + page_styles() + title@ + "</h1>"@ + body@
        + page_closing());
    Ok(from_chars(&page))
}

} // verus!
