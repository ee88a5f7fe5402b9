//! Markup rendering, delegated to the `html-sys` serialization crate.
//!
//! Every element the site emits is serialized by `html-sys`'s
//! `RenderElement` implementations, the engine behind the typed `html`
//! builder crate.  The wrappers here state exactly what that
//! serialization looks like, read off those implementations: an opening
//! tag with the attributes that were set, element-specific attributes
//! first and the global `class` and `lang` among those following, the
//! element's content verbatim, then the closing tag (void elements such
//! as `meta` and `link` have none).  Content is written as it is, with no
//! escaping, so pre-rendered markup may be nested by concatenation.

use vstd::prelude::*;
use html_sys::RenderElement;

verus! {

pub open spec fn spec_anchor(href: Seq<char>, text: Seq<char>) -> Seq<char> {
    "<a href=\""@ + href + "\">"@ + text + "</a>"@
}

pub open spec fn spec_anchor_classed(href: Seq<char>, class: Seq<char>, text: Seq<char>) -> Seq<
    char,
> {
    "<a href=\""@ + href + "\" class=\""@ + class + "\">"@ + text + "</a>"@
}

pub open spec fn spec_h1(inner: Seq<char>) -> Seq<char> {
    "<h1>"@ + inner + "</h1>"@
}

pub open spec fn spec_h2(inner: Seq<char>) -> Seq<char> {
    "<h2>"@ + inner + "</h2>"@
}

pub open spec fn spec_li(inner: Seq<char>) -> Seq<char> {
    "<li>"@ + inner + "</li>"@
}

pub open spec fn spec_ul(inner: Seq<char>) -> Seq<char> {
    "<ul>"@ + inner + "</ul>"@
}

pub open spec fn spec_p(inner: Seq<char>) -> Seq<char> {
    "<p>"@ + inner + "</p>"@
}

pub open spec fn spec_div(inner: Seq<char>) -> Seq<char> {
    "<div>"@ + inner + "</div>"@
}

pub open spec fn spec_div_classed(class: Seq<char>, inner: Seq<char>) -> Seq<char> {
    "<div class=\""@ + class + "\">"@ + inner + "</div>"@
}

pub open spec fn spec_header(inner: Seq<char>) -> Seq<char> {
    "<header>"@ + inner + "</header>"@
}

pub open spec fn spec_main(inner: Seq<char>) -> Seq<char> {
    "<main>"@ + inner + "</main>"@
}

pub open spec fn spec_footer(inner: Seq<char>) -> Seq<char> {
    "<footer>"@ + inner + "</footer>"@
}

pub open spec fn spec_title(text: Seq<char>) -> Seq<char> {
    "<title>"@ + text + "</title>"@
}

pub open spec fn spec_meta(name: Seq<char>, content: Seq<char>) -> Seq<char> {
    "<meta name=\""@ + name + "\" content=\""@ + content + "\">"@
}

pub open spec fn spec_link(href: Seq<char>, rel: Seq<char>) -> Seq<char> {
    "<link href=\""@ + href + "\" rel=\""@ + rel + "\">"@
}

pub open spec fn spec_link_sized(href: Seq<char>, rel: Seq<char>, sizes: Seq<char>) -> Seq<char> {
    "<link href=\""@ + href + "\" rel=\""@ + rel + "\" sizes=\""@ + sizes + "\">"@
}

pub open spec fn spec_head_el(inner: Seq<char>) -> Seq<char> {
    "<head>"@ + inner + "</head>"@
}

pub open spec fn spec_body_el(inner: Seq<char>) -> Seq<char> {
    "<body>"@ + inner + "</body>"@
}

/// The document root: the doctype, then an `html` element with a `lang`
/// attribute.
pub open spec fn spec_html_root(lang: Seq<char>, inner: Seq<char>) -> Seq<char> {
    "<!DOCTYPE html><html lang=\""@ + lang + "\">"@ + inner + "</html>"@
}

/// A complete document: the root around a head and a body.
pub open spec fn spec_document(lang: Seq<char>, head_inner: Seq<char>, body_inner: Seq<char>) -> Seq<
    char,
> {
    spec_html_root(lang, spec_head_el(head_inner) + spec_body_el(body_inner))
}

/// Relies on `html_sys::text::Anchor`'s `RenderElement`: an `a` element
/// with an `href` attribute around verbatim content.
#[verifier::external_body]
pub(crate) fn render_anchor(href: &str, text: &str) -> (r: String)
    ensures
        r@ == spec_anchor(href@, text@),
{
    let mut a = html_sys::text::Anchor::default();
    a.href = Some(href.to_string().into());
    let mut s = String::new();
    a.write_opening_tag(&mut s).unwrap();
    s.push_str(text);
    a.write_closing_tag(&mut s).unwrap();
    s
}

/// Relies on `html_sys::text::Anchor`'s `RenderElement`: the `href`
/// attribute is written before the global `class` attribute.
#[verifier::external_body]
pub(crate) fn render_anchor_classed(href: &str, class: &str, text: &str) -> (r: String)
    ensures
        r@ == spec_anchor_classed(href@, class@, text@),
{
    let mut a = html_sys::text::Anchor::default();
    a.href = Some(href.to_string().into());
    a.class = Some(class.to_string().into());
    let mut s = String::new();
    a.write_opening_tag(&mut s).unwrap();
    s.push_str(text);
    a.write_closing_tag(&mut s).unwrap();
    s
}

/// Relies on `html_sys::sections::Heading1`'s `RenderElement`.
#[verifier::external_body]
pub(crate) fn render_h1(inner: &str) -> (r: String)
    ensures
        r@ == spec_h1(inner@),
{
    let h = html_sys::sections::Heading1::default();
    let mut s = String::new();
    h.write_opening_tag(&mut s).unwrap();
    s.push_str(inner);
    h.write_closing_tag(&mut s).unwrap();
    s
}

/// Relies on `html_sys::sections::Heading2`'s `RenderElement`.
#[verifier::external_body]
pub(crate) fn render_h2(inner: &str) -> (r: String)
    ensures
        r@ == spec_h2(inner@),
{
    let h = html_sys::sections::Heading2::default();
    let mut s = String::new();
    h.write_opening_tag(&mut s).unwrap();
    s.push_str(inner);
    h.write_closing_tag(&mut s).unwrap();
    s
}

/// Relies on `html_sys::text::ListItem`'s `RenderElement`.
#[verifier::external_body]
pub(crate) fn render_li(inner: &str) -> (r: String)
    ensures
        r@ == spec_li(inner@),
{
    let li = html_sys::text::ListItem::default();
    let mut s = String::new();
    li.write_opening_tag(&mut s).unwrap();
    s.push_str(inner);
    li.write_closing_tag(&mut s).unwrap();
    s
}

/// Relies on `html_sys::text::UnorderedList`'s `RenderElement`.
#[verifier::external_body]
pub(crate) fn render_ul(inner: &str) -> (r: String)
    ensures
        r@ == spec_ul(inner@),
{
    let ul = html_sys::text::UnorderedList::default();
    let mut s = String::new();
    ul.write_opening_tag(&mut s).unwrap();
    s.push_str(inner);
    ul.write_closing_tag(&mut s).unwrap();
    s
}

/// Relies on `html_sys::text::Paragraph`'s `RenderElement`.
#[verifier::external_body]
pub(crate) fn render_p(inner: &str) -> (r: String)
    ensures
        r@ == spec_p(inner@),
{
    let p = html_sys::text::Paragraph::default();
    let mut s = String::new();
    p.write_opening_tag(&mut s).unwrap();
    s.push_str(inner);
    p.write_closing_tag(&mut s).unwrap();
    s
}

/// Relies on `html_sys::text::Division`'s `RenderElement`.
#[verifier::external_body]
pub(crate) fn render_div(inner: &str) -> (r: String)
    ensures
        r@ == spec_div(inner@),
{
    let d = html_sys::text::Division::default();
    let mut s = String::new();
    d.write_opening_tag(&mut s).unwrap();
    s.push_str(inner);
    d.write_closing_tag(&mut s).unwrap();
    s
}

/// Relies on `html_sys::text::Division`'s `RenderElement`, with the
/// global `class` attribute set.
#[verifier::external_body]
pub(crate) fn render_div_classed(class: &str, inner: &str) -> (r: String)
    ensures
        r@ == spec_div_classed(class@, inner@),
{
    let mut d = html_sys::text::Division::default();
    d.class = Some(class.to_string().into());
    let mut s = String::new();
    d.write_opening_tag(&mut s).unwrap();
    s.push_str(inner);
    d.write_closing_tag(&mut s).unwrap();
    s
}

/// Relies on `html_sys::sections::Header`'s `RenderElement`.
#[verifier::external_body]
pub(crate) fn render_header(inner: &str) -> (r: String)
    ensures
        r@ == spec_header(inner@),
{
    let h = html_sys::sections::Header::default();
    let mut s = String::new();
    h.write_opening_tag(&mut s).unwrap();
    s.push_str(inner);
    h.write_closing_tag(&mut s).unwrap();
    s
}

/// Relies on `html_sys::text::Main`'s `RenderElement`.
#[verifier::external_body]
pub(crate) fn render_main(inner: &str) -> (r: String)
    ensures
        r@ == spec_main(inner@),
{
    let m = html_sys::text::Main::default();
    let mut s = String::new();
    m.write_opening_tag(&mut s).unwrap();
    s.push_str(inner);
    m.write_closing_tag(&mut s).unwrap();
    s
}

/// Relies on `html_sys::sections::Footer`'s `RenderElement`.
#[verifier::external_body]
pub(crate) fn render_footer(inner: &str) -> (r: String)
    ensures
        r@ == spec_footer(inner@),
{
    let f = html_sys::sections::Footer::default();
    let mut s = String::new();
    f.write_opening_tag(&mut s).unwrap();
    s.push_str(inner);
    f.write_closing_tag(&mut s).unwrap();
    s
}

/// Relies on `html_sys::metadata::Title`'s `RenderElement`.
#[verifier::external_body]
pub(crate) fn render_title(text: &str) -> (r: String)
    ensures
        r@ == spec_title(text@),
{
    let t = html_sys::metadata::Title::default();
    let mut s = String::new();
    t.write_opening_tag(&mut s).unwrap();
    s.push_str(text);
    t.write_closing_tag(&mut s).unwrap();
    s
}

/// Relies on `html_sys::metadata::Meta`'s `RenderElement`: a void
/// element, `name` written before `content`, no closing tag.
#[verifier::external_body]
pub(crate) fn render_meta(name: &str, content: &str) -> (r: String)
    ensures
        r@ == spec_meta(name@, content@),
{
    let mut m = html_sys::metadata::Meta::default();
    m.name = Some(name.to_string().into());
    m.content = Some(content.to_string().into());
    let mut s = String::new();
    m.write_opening_tag(&mut s).unwrap();
    m.write_closing_tag(&mut s).unwrap();
    s
}

/// Relies on `html_sys::metadata::Link`'s `RenderElement`: a void
/// element, `href` written before `rel`, no closing tag.
#[verifier::external_body]
pub(crate) fn render_link(href: &str, rel: &str) -> (r: String)
    ensures
        r@ == spec_link(href@, rel@),
{
    let mut l = html_sys::metadata::Link::default();
    l.href = Some(href.to_string().into());
    l.rel = Some(rel.to_string().into());
    let mut s = String::new();
    l.write_opening_tag(&mut s).unwrap();
    l.write_closing_tag(&mut s).unwrap();
    s
}

/// Relies on `html_sys::metadata::Link`'s `RenderElement`: as
/// `render_link` with the `sizes` attribute also set; the write order is
/// `href`, `rel`, `sizes`.
#[verifier::external_body]
pub(crate) fn render_link_sized(href: &str, rel: &str, sizes: &str) -> (r: String)
    ensures
        r@ == spec_link_sized(href@, rel@, sizes@),
{
    let mut l = html_sys::metadata::Link::default();
    l.href = Some(href.to_string().into());
    l.rel = Some(rel.to_string().into());
    l.sizes = Some(sizes.to_string().into());
    let mut s = String::new();
    l.write_opening_tag(&mut s).unwrap();
    l.write_closing_tag(&mut s).unwrap();
    s
}

/// Relies on `html_sys::metadata::Head`'s `RenderElement`.
#[verifier::external_body]
pub(crate) fn render_head(inner: &str) -> (r: String)
    ensures
        r@ == spec_head_el(inner@),
{
    let h = html_sys::metadata::Head::default();
    let mut s = String::new();
    h.write_opening_tag(&mut s).unwrap();
    s.push_str(inner);
    h.write_closing_tag(&mut s).unwrap();
    s
}

/// Relies on `html_sys::sections::Body`'s `RenderElement`.
#[verifier::external_body]
pub(crate) fn render_body(inner: &str) -> (r: String)
    ensures
        r@ == spec_body_el(inner@),
{
    let b = html_sys::sections::Body::default();
    let mut s = String::new();
    b.write_opening_tag(&mut s).unwrap();
    s.push_str(inner);
    b.write_closing_tag(&mut s).unwrap();
    s
}

/// Relies on `html_sys::root::Html`'s `RenderElement`: the opening tag is
/// preceded by the doctype, and the global `lang` attribute is written.
#[verifier::external_body]
pub(crate) fn render_html_root(lang: &str, inner: &str) -> (r: String)
    ensures
        r@ == spec_html_root(lang@, inner@),
{
    let mut h = html_sys::root::Html::default();
    h.lang = Some(lang.to_string().into());
    let mut s = String::new();
    h.write_opening_tag(&mut s).unwrap();
    s.push_str(inner);
    h.write_closing_tag(&mut s).unwrap();
    s
}

} // verus!
