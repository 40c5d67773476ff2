use vstd::prelude::*;

verus! {

#[verifier::external_type_specification]
#[verifier::external_body]
pub struct ExHtml(scraper::Html);

/// Whether the CSS selector `selector` compiles and, if so, whether it matches
/// an element of the document parsed from `html`: `None` for a selector that
/// does not compile, else `Some(matched)`.
pub uninterp spec fn selector_probe(html: Seq<char>, selector: Seq<char>) -> Option<bool>;

/// Whether some selector of `selectors` compiles and matches in `html`.
pub open spec fn blocked(html: Seq<char>, selectors: Seq<String>) -> bool {
    exists|i: int| 0 <= i < selectors.len() && #[trigger] selector_probe(html, selectors[i]@) == Some(true)
}

/// Relies on scraper::Html::parse_document, which parses a whole page.
#[verifier::external_body]
fn parse_html(text: &str) -> scraper::Html {
    scraper::Html::parse_document(text)
}

/// A parsed HTML page, kept beside the text it was parsed from.
pub struct Document {
    text: String,
    tree: scraper::Html,
}

impl Document {
    /// The text the document was parsed from.
    pub closed spec fn text(&self) -> Seq<char> {
        self.text@
    }

    /// Parses `html` as a whole page.
    pub fn parse(html: String) -> (d: Document)
        ensures
            d.text() == html@,
    {
        let tree = parse_html(html.as_str());
        Document { text: html, tree }
    }

    /// Gives back the text the document was parsed from.
    pub fn into_text(self) -> (r: String)
        ensures
            r@ == self.text(),
    {
        self.text
    }
}

/// Relies on scraper::Selector::parse, which refuses a selector it cannot
/// compile, and on scraper::Html::select, whose iterator yields the elements
/// that match. The tree was parsed from the document's text by `parse_html`.
#[verifier::external_body]
fn probe(doc: &Document, selector: &str) -> (r: Option<bool>)
    ensures
        r == selector_probe(doc.text(), selector@),
{
    match scraper::Selector::parse(selector) {
        Ok(s) => Some(doc.tree.select(&s).next().is_some()),
        Err(_) => None,
    }
}

/// Whether the page shows one of `selectors`: true on the first selector that
/// matches an element. A selector that does not compile never matches.
pub fn is_blocked(document: &Document, selectors: &[String]) -> (r: bool)
    ensures
        r == blocked(document.text(), selectors@),
{
    let mut i: usize = 0;
    while i < selectors.len()
        invariant
            0 <= i <= selectors@.len(),
            forall|j: int| 0 <= j < i ==> #[trigger] selector_probe(document.text(), selectors@[j]@) != Some(true),
        decreases selectors@.len() - i,
    {
        match probe(document, selectors[i].as_str()) {
            Some(true) => {
                return true;
            },
            _ => {},
        }
        i = i + 1;
    }
    false
}

} // verus!
