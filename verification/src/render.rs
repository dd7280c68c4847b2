//! Rendering of raw receipt text into a self-contained printable document.
//!
//! The document fixes the page geometry to an 80mm-wide receipt with no
//! margins, a monospaced face and preserved whitespace, and carries the
//! content verbatim between a fixed head and a fixed tail. Because the
//! content is untouched, stripping the wrapper recovers it exactly.

use vstd::prelude::*;
use vstd::string::StrSliceExecFns;
use vstd::string::StringExecFns;

verus! {

/// The rendered printable document.
pub struct RenderedDocument {
    pub markup: String,
}

/// The fixed text standing before the content in every rendered document.
pub open spec fn doc_head() -> Seq<char> {
    "<!DOCTYPE html><html><head><style>@page{size:80mm auto;margin:0}body{margin:0;font-family:monospace;white-space:pre-wrap}</style></head><body><pre>"@
}

/// The fixed text standing after the content in every rendered document.
pub open spec fn doc_tail() -> Seq<char> {
    "</pre></body></html>"@
}

/// The whole document rendered from `content`.
pub open spec fn render_spec(content: Seq<char>) -> Seq<char> {
    doc_head() + content + doc_tail()
}

/// Whether `m` carries the document's fixed head and tail.
pub open spec fn is_rendered(m: Seq<char>) -> bool {
    &&& m.len() >= doc_head().len() + doc_tail().len()
    &&& m.subrange(0, doc_head().len() as int) == doc_head()
    &&& m.subrange(m.len() - doc_tail().len(), m.len() as int) == doc_tail()
}

/// The content recovered from a document that carries the wrapper.
pub open spec fn strip_spec(m: Seq<char>) -> Seq<char> {
    m.subrange(doc_head().len() as int, m.len() - doc_tail().len())
}

/// Rendering wraps the content verbatim, so stripping the wrapper gives the
/// original content back exactly, for every content string.
pub proof fn lemma_render_round_trip(content: Seq<char>)
    ensures
        is_rendered(render_spec(content)),
        strip_spec(render_spec(content)) == content,
{
    let m = render_spec(content);
    let h = doc_head().len() as int;
    let t = doc_tail().len() as int;
    assert(m.subrange(0, h) =~= doc_head());
    assert(m.subrange(m.len() - t, m.len() as int) =~= doc_tail());
    assert(m.subrange(h, m.len() - t) =~= content);
}

fn head_str() -> (r: &'static str)
    ensures
        r@ == doc_head(),
{
    "<!DOCTYPE html><html><head><style>@page{size:80mm auto;margin:0}body{margin:0;font-family:monospace;white-space:pre-wrap}</style></head><body><pre>"
}

fn tail_str() -> (r: &'static str)
    ensures
        r@ == doc_tail(),
{
    "</pre></body></html>"
}

/// Transforms raw receipt text into the printable document: a pure, total
/// function of the content alone, unrelated to any printer.
pub fn render(content: &String) -> (r: RenderedDocument)
    ensures
        r.markup@ == render_spec(content@),
{
    let mut m = head_str().to_owned();
    m.append(content.as_str());
    m.append(tail_str());
    RenderedDocument { markup: m }
}

fn str_eq(a: &str, b: &str) -> (r: bool)
    ensures
        r == (a@ == b@),
{
    let sa = a.to_owned();
    let sb = b.to_owned();
    sa == sb
}

/// Recovers the receipt text from a rendered document: the content exactly
/// as given, when the document carries the wrapper, and nothing otherwise.
pub fn strip(doc: &RenderedDocument) -> (r: Option<String>)
    ensures
        r is Some <==> is_rendered(doc.markup@),
        r is Some ==> r->0@ == strip_spec(doc.markup@),
{
    let m = doc.markup.as_str();
    let n = m.unicode_len();
    let head = head_str();
    let tail = tail_str();
    let hlen = head.unicode_len();
    let tlen = tail.unicode_len();
    proof {
        reveal_strlit(
            "<!DOCTYPE html><html><head><style>@page{size:80mm auto;margin:0}body{margin:0;font-family:monospace;white-space:pre-wrap}</style></head><body><pre>",
        );
        reveal_strlit("</pre></body></html>");
    }
    if n < hlen || n - hlen < tlen {
        return None;
    }
    let found_head = m.substring_char(0, hlen);
    if !str_eq(found_head, head) {
        return None;
    }
    let found_tail = m.substring_char(n - tlen, n);
    if !str_eq(found_tail, tail) {
        return None;
    }
    let content = m.substring_char(hlen, n - tlen);
    Some(content.to_owned())
}

} // verus!
