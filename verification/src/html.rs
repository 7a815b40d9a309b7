//! Parsed HTML pages.
//!
//! `scraper` parses a page and finds elements in it. What an element holds is
//! described here by [`Element`], a mathematical tree, and the few operations
//! of `scraper` that the library calls are given contracts over it. Those
//! contracts are believed, not proved.

use scraper::ElementRef;
use scraper::Html;
use scraper::Selector;
use vstd::prelude::*;

verus! {

/// What the library reads of an element of a page.
pub struct Element {
    /// The markup between its opening and its closing tag.
    pub inner_html: Seq<char>,
    /// Its children that are elements themselves, from the first to the last.
    pub children: Seq<Element>,
}

/// `scraper::Html`, a parsed page. Nothing inside it is seen here.
#[verifier::external_type_specification]
#[verifier::external_body]
pub struct ExHtml(scraper::Html);

/// `scraper::ElementRef`, a reference to an element of a parsed page.
/// Nothing inside it is seen here; it is read through the functions below.
#[verifier::external_type_specification]
#[verifier::external_body]
pub struct ExElementRef<'a>(scraper::ElementRef<'a>);

/// The page that `scraper` makes of `text`.
pub uninterp spec fn page_of(text: Seq<char>) -> Html;

/// The first element that `scraper` yields when `page` is searched with the
/// CSS selector `selector`; `None` where it yields none or rejects the
/// selector.
pub uninterp spec fn first_match(page: Html, selector: Seq<char>) -> Option<Element>;

/// What the element behind `e` holds.
pub uninterp spec fn element_of(e: ElementRef) -> Element;

/// `Html::parse_document`. Believed: the page is a function of the text
/// alone. Parsing never fails; a malformed page still gives a tree.
#[verifier::external_body]
pub(crate) fn parse_document(text: &str) -> (page: Html)
    ensures
        page == page_of(text@),
{
    Html::parse_document(text)
}

/// `Html::select` with the selector that `Selector::parse` makes of
/// `selector`, and the first element that it yields; `None` where the
/// selector is rejected. Believed: the outcome is a function of the page and
/// the selector alone, and the element found holds what [`first_match`]
/// names.
#[verifier::external_body]
pub(crate) fn select_first<'a>(page: &'a Html, selector: &str) -> (r: Option<ElementRef<'a>>)
    ensures
        r is Some <==> first_match(*page, selector@) is Some,
        r is Some ==> Some(element_of(r->Some_0)) == first_match(*page, selector@),
{
    Selector::parse(selector).ok().and_then(|s| page.select(&s).next())
}

/// `ElementRef::child_elements`, collected. Believed: it yields the children
/// that are elements, from the first to the last.
#[verifier::external_body]
pub(crate) fn child_elements<'a>(e: ElementRef<'a>) -> (r: Vec<ElementRef<'a>>)
    ensures
        r@.len() == element_of(e).children.len(),
        forall|i: int| 0 <= i < r@.len() ==> element_of(#[trigger] r@[i]) == element_of(e).children[i],
{
    e.child_elements().collect()
}

/// `ElementRef::inner_html`. Believed: it returns the markup inside the
/// element.
#[verifier::external_body]
pub(crate) fn inner_html(e: ElementRef) -> (r: String)
    ensures
        r@ == element_of(e).inner_html,
{
    e.inner_html()
}

} // verus!
