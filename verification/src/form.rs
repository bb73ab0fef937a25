//! The login form: the elements of the login page, read with the `select` crate, and the
//! anti-forgery token that one of them carries.

use crate::failure::{text_outcome_view, Failure, FailureView};
use crate::first::{first_index, is_first, lemma_first_index};
use crate::text::same_text;
use vstd::prelude::*;
use vstd::std_specs::iter::IteratorSpec;
use vstd::string::StrSliceExecFns;

verus! {

/// The attributes of one element: local names and values, in the order of the document.
pub type Attributes = Vec<(String, String)>;

/// The name of the attribute that marks the field with the anti-forgery token.
pub const FIELD_ATTRIBUTE: &'static str = "name";

/// The value that this attribute has on that field.
pub const FIELD_NAME: &'static str = "_csrf_token";

/// The name of the attribute that holds the token.
pub const VALUE_ATTRIBUTE: &'static str = "value";

/// The longest page, in characters, that is handed to the parser.
pub const MAX_PAGE_CHARS: usize = 1_048_576;

/// The most start tags of a page that is handed to the parser.
pub const MAX_PAGE_TAGS: usize = 384;

/// Whether `c` is a letter of the ASCII alphabet.
pub open spec fn is_letter(c: char) -> bool {
    ('a' <= c && c <= 'z') || ('A' <= c && c <= 'Z')
}

/// Whether a start tag may begin at place `i` of `text`: a `<` stands there, and a letter
/// follows it.
pub open spec fn opens_tag(text: Seq<char>, i: int) -> bool {
    0 <= i && i + 1 < text.len() && text[i] == '<' && is_letter(text[i + 1])
}

/// At how many of the first `upto` places of `text` a start tag may begin.
pub open spec fn start_tags(text: Seq<char>, upto: int) -> nat
    decreases upto,
{
    if upto <= 0 {
        0
    } else {
        start_tags(text, upto - 1) + if opens_tag(text, upto - 1) {
            1nat
        } else {
            0nat
        }
    }
}

/// A page is readable if it is neither longer nor richer in start tags than the parser is
/// trusted with. The parser opens elements for start tags only, so the bound on them
/// bounds how deep the elements of the page can nest.
pub open spec fn readable(html: Seq<char>) -> bool {
    html.len() <= MAX_PAGE_CHARS && start_tags(html, html.len() as int) <= MAX_PAGE_TAGS
}

/// Tells whether `c` is a letter of the ASCII alphabet.
fn letter(c: char) -> (is: bool)
    ensures
        is == is_letter(c),
{
    ('a' <= c && c <= 'z') || ('A' <= c && c <= 'Z')
}

/// Tells whether a page is readable.
pub fn is_readable(html: &str) -> (ok: bool)
    ensures
        ok == readable(html@),
{
    if html.unicode_len() > MAX_PAGE_CHARS {
        return false;
    }
    let mut rest = html.chars();
    let mut tags: usize = 0;
    let mut after_open = false;
    let ghost mut seen: int = 0;
    loop
        invariant
            html@.len() <= MAX_PAGE_CHARS,
            0 <= seen <= html@.len(),
            rest.remaining() == html@.subrange(seen, html@.len() as int),
            tags == start_tags(html@, seen - 1),
            tags <= seen,
            after_open == (seen > 0 && html@[seen - 1] == '<'),
        decreases html@.len() - seen,
    {
        match rest.next() {
            None => {
                assert(!opens_tag(html@, seen - 1));
                return tags <= MAX_PAGE_TAGS;
            },
            Some(c) => {
                assert(html@[seen] == c);
                if after_open && letter(c) {
                    tags += 1;
                }
                after_open = c == '<';
                proof {
                    seen = seen + 1;
                }
            },
        }
    }
}

/// The elements that `select` finds in the document that it parses from `html`, in the
/// order of the document, each as the list of its attributes.
pub uninterp spec fn html_elements(html: Seq<char>) -> Seq<Seq<(Seq<char>, Seq<char>)>>;

/// Parses `html` with `select::document::Document::from` and hands out, for each node that
/// `Document::find` yields for the predicate `Element`, what `Node::attrs` yields: the local
/// name and the value of each attribute. The result depends on the text alone.
///
/// The parser refuses a text of more than `u32::MAX` bytes, and the walk over the parsed
/// tree takes stack for every level at which the elements nest: only a readable page is
/// handed over.
#[verifier::external_body]
fn elements_of(html: &str) -> (elements: Vec<Attributes>)
    requires
        readable(html@),
    ensures
        elements.deep_view() == html_elements(html@),
{
    select::document::Document::from(html).find(select::predicate::Element).map(
        |node| node.attrs().map(|(name, value)| (name.to_owned(), value.to_owned())).collect(),
    ).collect()
}

/// The condition on an index of `attributes`: the attribute there is called `name`.
pub open spec fn called(attributes: Seq<(Seq<char>, Seq<char>)>, name: Seq<char>) -> spec_fn(
    int,
) -> bool {
    |i: int| attributes[i].0 == name
}

/// The value of the first attribute called `name`.
pub open spec fn attribute_value(
    attributes: Seq<(Seq<char>, Seq<char>)>,
    name: Seq<char>,
) -> Option<Seq<char>> {
    match first_index(attributes.len() as int, called(attributes, name)) {
        Some(i) => Some(attributes[i].1),
        None => None,
    }
}

/// Looks an attribute up by its name. Where several bear the name, the first counts.
pub fn attribute<'a>(attributes: &'a Attributes, name: &str) -> (value: Option<&'a String>)
    ensures
        value.deep_view() == attribute_value(attributes.deep_view(), name@),
{
    let ghost model = attributes.deep_view();
    let mut i: usize = 0;
    while i < attributes.len()
        invariant
            i <= attributes.len(),
            model == attributes.deep_view(),
            forall|j: int| 0 <= j < i ==> !#[trigger] called(model, name@)(j),
        decreases attributes.len() - i,
    {
        if same_text(attributes[i].0.as_str(), name) {
            proof {
                lemma_first_index(model.len() as int, called(model, name@));
                assert(is_first(model.len() as int, called(model, name@), i as int));
            }
            return Some(&attributes[i].1);
        }
        i += 1;
    }
    proof {
        lemma_first_index(model.len() as int, called(model, name@));
    }
    None
}

/// An element is the token field if its `name` attribute is `_csrf_token`.
pub open spec fn is_token_field(attributes: Seq<(Seq<char>, Seq<char>)>) -> bool {
    attribute_value(attributes, FIELD_ATTRIBUTE@) == Some(FIELD_NAME@)
}

/// The condition on an index of `elements`: the element there is the token field.
pub open spec fn token_field_at(elements: Seq<Seq<(Seq<char>, Seq<char>)>>) -> spec_fn(
    int,
) -> bool {
    |i: int| is_token_field(elements[i])
}

/// The anti-forgery token of a login page: the `value` attribute of the first element that
/// is the token field. A page without such an element has none, and so has a page whose
/// first such element has no `value`.
pub open spec fn token_in(elements: Seq<Seq<(Seq<char>, Seq<char>)>>) -> Result<
    Seq<char>,
    FailureView,
> {
    match first_index(elements.len() as int, token_field_at(elements)) {
        Some(i) => match attribute_value(elements[i], VALUE_ATTRIBUTE@) {
            Some(token) => Ok(token),
            None => Err(FailureView::TokenNotFound),
        },
        None => Err(FailureView::TokenNotFound),
    }
}

/// Tells whether an element is the token field.
pub fn names_token_field(attributes: &Attributes) -> (is_field: bool)
    ensures
        is_field == is_token_field(attributes.deep_view()),
{
    match attribute(attributes, FIELD_ATTRIBUTE) {
        Some(value) => same_text(value.as_str(), FIELD_NAME),
        None => false,
    }
}

/// Takes the anti-forgery token out of the elements of a login page.
pub fn csrf_token_in(elements: &Vec<Attributes>) -> (outcome: Result<String, Failure>)
    ensures
        text_outcome_view(outcome) == token_in(elements.deep_view()),
{
    let ghost model = elements.deep_view();
    let mut i: usize = 0;
    while i < elements.len()
        invariant
            i <= elements.len(),
            model == elements.deep_view(),
            forall|j: int| 0 <= j < i ==> !#[trigger] token_field_at(model)(j),
        decreases elements.len() - i,
    {
        assert(model[i as int] == elements[i as int].deep_view());
        if names_token_field(&elements[i]) {
            proof {
                lemma_first_index(model.len() as int, token_field_at(model));
                assert(is_first(model.len() as int, token_field_at(model), i as int));
            }
            return match attribute(&elements[i], VALUE_ATTRIBUTE) {
                Some(token) => Ok(token.clone()),
                None => Err(Failure::TokenNotFound),
            };
        }
        i += 1;
    }
    proof {
        lemma_first_index(model.len() as int, token_field_at(model));
    }
    Err(Failure::TokenNotFound)
}

/// The anti-forgery token of a page as it came in. A page that is not readable is not
/// parsed, and has no token.
pub open spec fn token_of_page(html: Seq<char>) -> Result<Seq<char>, FailureView> {
    if readable(html) {
        token_in(html_elements(html))
    } else {
        Err(FailureView::TokenNotFound)
    }
}

/// Reads the anti-forgery token from the HTML of the login page.
pub fn csrf_token(html: &str) -> (outcome: Result<String, Failure>)
    ensures
        text_outcome_view(outcome) == token_of_page(html@),
{
    if !is_readable(html) {
        return Err(Failure::TokenNotFound);
    }
    let elements = elements_of(html);
    csrf_token_in(&elements)
}

} // verus!
