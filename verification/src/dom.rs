//! The trusted boundary to `scraper`: parsing a page into a DOM document,
//! compiling selectors, and reading matched elements.
//!
//! Parsing, selector matching and text extraction are deterministic in the
//! page and selector strings alone, so each opaque handle carries the plain
//! text it came from as ghost data, and every read is stated as a named
//! function of those strings: `match_count` says how many elements a
//! selector matches, `text_at` and `attr_at` what the first matching
//! descendant of a match holds, and `inner_payload` what a match contains.
//! The handles are built only in this module, so their ghost text always is
//! the text the wrapped value came from.

use vstd::prelude::*;
use crate::text::opt_text;

verus! {

#[verifier::external_type_specification]
#[verifier::external_body]
pub struct ExHtml(scraper::Html);

#[verifier::external_type_specification]
#[verifier::external_body]
pub struct ExSelector(scraper::Selector);

#[verifier::external_type_specification]
#[verifier::external_body]
pub struct ExElementRef<'a>(scraper::ElementRef<'a>);

/// Whether a selector string is valid selector syntax, per
/// `scraper::Selector::parse`; a function of the string alone.
pub uninterp spec fn selector_ok(s: Seq<char>) -> bool;

/// How many elements of the document parsed from `page` match the selector
/// parsed from `sel`, in document order.
pub uninterp spec fn match_count(page: Seq<char>, sel: Seq<char>) -> nat;

/// The concatenated text content of the first descendant of the `i`-th
/// `container` match of `page` that matches `field`; `None` when no
/// descendant matches.
pub uninterp spec fn text_at(
    page: Seq<char>,
    container: Seq<char>,
    i: int,
    field: Seq<char>,
) -> Option<Seq<char>>;

/// The value of attribute `name` on the first descendant of the `i`-th
/// `container` match of `page` that matches `field`; `None` when no
/// descendant matches or the attribute is absent.
pub uninterp spec fn attr_at(
    page: Seq<char>,
    container: Seq<char>,
    i: int,
    field: Seq<char>,
    name: Seq<char>,
) -> Option<Seq<char>>;

/// The serialised inner contents of the `i`-th `container` match of `page`.
pub uninterp spec fn inner_payload(page: Seq<char>, container: Seq<char>, i: int) -> Seq<char>;

/// A parsed document together with the page text it was parsed from.
pub struct Doc {
    html: scraper::Html,
    page: Ghost<Seq<char>>,
}

impl Doc {
    /// The page text this document was parsed from.
    pub closed spec fn source(&self) -> Seq<char> {
        self.page@
    }
}

/// A compiled selector together with the selector string it was parsed
/// from.
pub struct Sel {
    sel: scraper::Selector,
    text: Ghost<Seq<char>>,
}

impl Sel {
    /// The selector string this selector was parsed from.
    pub closed spec fn source(&self) -> Seq<char> {
        self.text@
    }
}

/// One matched element: which page it is in, which selector matched it,
/// and at which index in document order.
pub struct Elem<'a> {
    el: scraper::ElementRef<'a>,
    in_page: Ghost<Seq<char>>,
    by_sel: Ghost<Seq<char>>,
    at_index: Ghost<int>,
}

impl<'a> Elem<'a> {
    /// The page text of the document this element stands in.
    pub closed spec fn page(&self) -> Seq<char> {
        self.in_page@
    }

    /// The selector string that matched this element.
    pub closed spec fn container(&self) -> Seq<char> {
        self.by_sel@
    }

    /// The element's index among the selector's matches, in document order.
    pub closed spec fn index(&self) -> int {
        self.at_index@
    }
}

/// Relies on `scraper::Html::parse_document`: parses page text into a DOM
/// document; it never fails, however malformed the text.
#[verifier::external_body]
fn parse_document_raw(html: &str) -> scraper::Html {
    scraper::Html::parse_document(html)
}

/// Parses page text into a document handle that remembers its source.
pub(crate) fn parse_document(html: &str) -> (d: Doc)
    ensures
        d.source() == html@,
{
    Doc { html: parse_document_raw(html), page: Ghost(html@) }
}

/// Relies on `scraper::Selector::parse`: compiling a selector succeeds
/// exactly when the string is valid selector syntax.
#[verifier::external_body]
fn parse_selector_raw(s: &str) -> (r: Option<scraper::Selector>)
    ensures
        r is Some <==> selector_ok(s@),
{
    scraper::Selector::parse(s).ok()
}

/// Compiles a selector string into a handle that remembers its source.
pub(crate) fn parse_selector(s: &str) -> (r: Option<Sel>)
    ensures
        r is Some <==> selector_ok(s@),
        r matches Some(sel) ==> sel.source() == s@,
{
    match parse_selector_raw(s) {
        Some(sel) => Some(Sel { sel, text: Ghost(s@) }),
        None => None,
    }
}

/// Relies on `scraper::Html::select`: how many elements of the document
/// match the selector.
#[verifier::external_body]
fn count_matches(doc: &Doc, sel: &Sel) -> (n: usize)
    ensures
        n == match_count(doc.source(), sel.source()),
{
    doc.html.select(&sel.sel).count()
}

/// Relies on `scraper::Html::select` and `Iterator::nth`: the `i`-th
/// element matching the selector, in document order.
#[verifier::external_body]
fn nth_match<'a>(doc: &'a Doc, sel: &Sel, i: usize) -> scraper::ElementRef<'a>
    requires
        i < match_count(doc.source(), sel.source()),
{
    doc.html.select(&sel.sel).nth(i).unwrap()
}

/// Every element of the document that matches the selector, in document
/// order, each remembering its page, selector and index.
pub(crate) fn select_matches<'a>(doc: &'a Doc, sel: &Sel) -> (r: Vec<Elem<'a>>)
    ensures
        r@.len() == match_count(doc.source(), sel.source()),
        forall|i: int|
            0 <= i < r@.len() ==> (#[trigger] r@[i]).page() == doc.source() && r@[i].container()
                == sel.source() && r@[i].index() == i,
{
    let n = count_matches(doc, sel);
    let mut r: Vec<Elem<'a>> = Vec::new();
    let mut i: usize = 0;
    while i < n
        invariant
            i <= n,
            n == match_count(doc.source(), sel.source()),
            r@.len() == i,
            forall|j: int|
                0 <= j < i ==> (#[trigger] r@[j]).page() == doc.source() && r@[j].container()
                    == sel.source() && r@[j].index() == j,
        decreases n - i,
    {
        let el = nth_match(doc, sel, i);
        r.push(
            Elem {
                el,
                in_page: Ghost(doc.source()),
                by_sel: Ghost(sel.source()),
                at_index: Ghost(i as int),
            },
        );
        i = i + 1;
    }
    r
}

/// Relies on `scraper::ElementRef::select` and `ElementRef::text`: the
/// concatenated text content of the first descendant of `el` matching
/// `field`, `None` when nothing matches.
#[verifier::external_body]
pub(crate) fn text_of_first(el: &Elem<'_>, field: &Sel) -> (r: Option<String>)
    ensures
        opt_text(r) == text_at(el.page(), el.container(), el.index(), field.source()),
{
    el.el.select(&field.sel).next().map(|m| m.text().collect::<String>())
}

/// Relies on `scraper::ElementRef::select` and `ElementRef::attr`: the
/// value of attribute `name` on the first descendant of `el` matching
/// `field`, `None` when nothing matches or the attribute is absent.
#[verifier::external_body]
pub(crate) fn attr_of_first(el: &Elem<'_>, field: &Sel, name: &str) -> (r: Option<String>)
    ensures
        opt_text(r) == attr_at(el.page(), el.container(), el.index(), field.source(), name@),
{
    el.el.select(&field.sel).next().and_then(|m| m.attr(name)).map(|s| s.to_string())
}

/// Relies on `scraper::ElementRef::inner_html`: the serialised inner
/// contents of the matched element.
#[verifier::external_body]
pub(crate) fn payload_of(el: &Elem<'_>) -> (r: String)
    ensures
        r@ == inner_payload(el.page(), el.container(), el.index()),
{
    el.el.inner_html()
}

} // verus!
