//! The OAuth fragment that the console redirect carries, read with the `url` crate.

use crate::failure::{Failure, FailureView, OAuthField};
use crate::text::same_text;
use vstd::prelude::*;

verus! {

#[verifier::external_type_specification]
#[verifier::external_body]
pub struct ExParseError(url::ParseError);

/// What `url::Url::parse` makes of `location`: `None` where it reports an error, else the
/// fragment of the URL, if it has one.
pub uninterp spec fn location_fragment(location: Seq<char>) -> Option<Option<Seq<char>>>;

/// The name and value pairs that `url::form_urlencoded::parse` reads from `input`, in the
/// order in which they stand there.
pub uninterp spec fn form_pairs(input: Seq<char>) -> Seq<(Seq<char>, Seq<char>)>;

/// Calls `url::Url::parse` and hands out what `Url::fragment` gives for the parsed URL. The
/// outcome depends on the text alone.
#[verifier::external_body]
fn fragment_of(location: &str) -> (outcome: Result<Option<String>, url::ParseError>)
    ensures
        outcome is Ok <==> location_fragment(location@) is Some,
        outcome matches Ok(fragment) ==> location_fragment(location@) == Some(
            fragment.deep_view(),
        ),
{
    url::Url::parse(location).map(|url| url.fragment().map(|fragment| fragment.to_owned()))
}

/// Calls `url::form_urlencoded::parse` on the bytes of `input` and collects the pairs that
/// it yields, each as owned strings. They depend on the text alone.
#[verifier::external_body]
fn pairs_of(input: &str) -> (pairs: Vec<(String, String)>)
    ensures
        pairs.deep_view() == form_pairs(input@),
{
    url::form_urlencoded::parse(input.as_bytes()).into_owned().collect()
}

/// The mapping that a sequence of pairs stands for: a later pair replaces an earlier one
/// with the same name.
pub open spec fn pairs_map(pairs: Seq<(Seq<char>, Seq<char>)>) -> Map<Seq<char>, Seq<char>>
    decreases pairs.len(),
{
    if pairs.len() == 0 {
        Map::empty()
    } else {
        pairs_map(pairs.drop_last()).insert(pairs.last().0, pairs.last().1)
    }
}

/// Pair `i` is the last pair of `pairs` with the name `key`.
pub open spec fn is_last_with(pairs: Seq<(Seq<char>, Seq<char>)>, key: Seq<char>, i: int) -> bool {
    &&& 0 <= i < pairs.len()
    &&& pairs[i].0 == key
    &&& forall|j: int| i < j < pairs.len() ==> (#[trigger] pairs[j]).0 != key
}

/// A name is in the mapping exactly if some pair has it, and it is mapped to the value of
/// the last such pair.
pub proof fn lemma_pairs_map(pairs: Seq<(Seq<char>, Seq<char>)>, key: Seq<char>)
    ensures
        pairs_map(pairs).contains_key(key) <==> exists|i: int|
            0 <= i < pairs.len() && (#[trigger] pairs[i]).0 == key,
        forall|i: int| is_last_with(pairs, key, i) ==> pairs_map(pairs)[key] == pairs[i].1,
    decreases pairs.len(),
{
    if pairs.len() > 0 {
        let front = pairs.drop_last();
        lemma_pairs_map(front, key);
        if pairs.last().0 == key {
            assert(pairs[pairs.len() - 1].0 == key);
        } else {
            if pairs_map(pairs).contains_key(key) {
                let i = choose|i: int| 0 <= i < front.len() && (#[trigger] front[i]).0 == key;
                assert(pairs[i].0 == key);
            }
            if exists|i: int| 0 <= i < pairs.len() && (#[trigger] pairs[i]).0 == key {
                let i = choose|i: int| 0 <= i < pairs.len() && (#[trigger] pairs[i]).0 == key;
                assert(front[i].0 == key);
            }
        }
        assert forall|i: int| is_last_with(pairs, key, i) implies pairs_map(pairs)[key]
            == pairs[i].1 by {
            if i < pairs.len() - 1 {
                assert(pairs[pairs.len() - 1].0 != key);
                assert(is_last_with(front, key, i)) by {
                    assert forall|j: int| i < j < front.len() implies (#[trigger] front[j]).0
                        != key by {
                        assert(pairs[j].0 != key);
                    }
                }
            }
        }
    }
}

/// The key and value mapping that the fragment of a redirect target holds. It is kept as
/// the pairs in the order of the fragment; a later pair replaces an earlier one with the
/// same name, as in a map that is filled pair by pair.
#[derive(Clone, Debug)]
pub struct OAuthFragment {
    pairs: Vec<(String, String)>,
}

impl View for OAuthFragment {
    type V = Map<Seq<char>, Seq<char>>;

    closed spec fn view(&self) -> Map<Seq<char>, Seq<char>> {
        pairs_map(self.pairs.deep_view())
    }
}

impl OAuthFragment {
    /// The pairs that the mapping was read from.
    pub closed spec fn source(&self) -> Seq<(Seq<char>, Seq<char>)> {
        self.pairs.deep_view()
    }

    /// The mapping that `pairs` stand for.
    pub fn from_pairs(pairs: Vec<(String, String)>) -> (fragment: OAuthFragment)
        ensures
            fragment.source() == pairs.deep_view(),
            fragment@ == pairs_map(pairs.deep_view()),
    {
        OAuthFragment { pairs }
    }

    /// Reads a fragment as form-encoded pairs.
    pub fn parse(fragment: &str) -> (parsed: OAuthFragment)
        ensures
            parsed.source() == form_pairs(fragment@),
            parsed@ == pairs_map(form_pairs(fragment@)),
    {
        OAuthFragment { pairs: pairs_of(fragment) }
    }

    /// The pairs that the mapping was read from, in their order.
    pub fn pairs(&self) -> (pairs: &Vec<(String, String)>)
        ensures
            pairs.deep_view() == self.source(),
            self@ == pairs_map(pairs.deep_view()),
    {
        &self.pairs
    }

    /// The value that `key` is mapped to.
    pub fn get(&self, key: &str) -> (value: Option<&String>)
        ensures
            value is Some <==> self@.contains_key(key@),
            value matches Some(text) ==> text@ == self@[key@],
    {
        let ghost source = self.pairs.deep_view();
        let mut i: usize = self.pairs.len();
        while i > 0
            invariant
                i <= self.pairs.len(),
                source == self.pairs.deep_view(),
                forall|j: int| i <= j < source.len() ==> (#[trigger] source[j]).0 != key@,
            decreases i,
        {
            i -= 1;
            if same_text(self.pairs[i].0.as_str(), key) {
                proof {
                    assert(source[i as int].0 == key@);
                    assert(is_last_with(source, key@, i as int));
                    lemma_pairs_map(source, key@);
                }
                return Some(&self.pairs[i].1);
            }
        }
        proof {
            lemma_pairs_map(source, key@);
        }
        None
    }
}

/// The two tokens that the token endpoint exchanges for a bearer token.
#[derive(Clone, Debug)]
pub struct OAuthTokens {
    pub access_token: String,
    pub id_token: String,
}

/// The mathematical content of [`OAuthTokens`].
pub ghost struct OAuthTokensView {
    pub access_token: Seq<char>,
    pub id_token: Seq<char>,
}

impl View for OAuthTokens {
    type V = OAuthTokensView;

    open spec fn view(&self) -> OAuthTokensView {
        OAuthTokensView { access_token: self.access_token@, id_token: self.id_token@ }
    }
}

/// The content of an outcome that holds the two tokens.
pub open spec fn tokens_outcome_view(outcome: Result<OAuthTokens, Failure>) -> Result<
    OAuthTokensView,
    FailureView,
> {
    match outcome {
        Ok(tokens) => Ok(tokens@),
        Err(failure) => Err(failure@),
    }
}

/// The tokens that a mapping holds, or the first of the two keys that it lacks.
pub open spec fn tokens_in(mapping: Map<Seq<char>, Seq<char>>) -> Result<
    OAuthTokensView,
    FailureView,
> {
    if !mapping.contains_key(OAuthField::AccessToken.key()) {
        Err(FailureView::MissingOAuthField(OAuthField::AccessToken))
    } else if !mapping.contains_key(OAuthField::IdToken.key()) {
        Err(FailureView::MissingOAuthField(OAuthField::IdToken))
    } else {
        Ok(
            OAuthTokensView {
                access_token: mapping[OAuthField::AccessToken.key()],
                id_token: mapping[OAuthField::IdToken.key()],
            },
        )
    }
}

/// Takes the access token and the identity token out of a fragment. Where one is
/// missing, the failure names it; the access token is looked for first.
pub fn required_tokens(fragment: &OAuthFragment) -> (outcome: Result<OAuthTokens, Failure>)
    ensures
        tokens_outcome_view(outcome) == tokens_in(fragment@),
{
    let access_token = match fragment.get(OAuthField::AccessToken.name()) {
        Some(value) => value.clone(),
        None => {
            return Err(Failure::MissingOAuthField(OAuthField::AccessToken));
        },
    };
    let id_token = match fragment.get(OAuthField::IdToken.name()) {
        Some(value) => value.clone(),
        None => {
            return Err(Failure::MissingOAuthField(OAuthField::IdToken));
        },
    };
    Ok(OAuthTokens { access_token, id_token })
}

/// The tokens that the fragment of a redirect target holds. A target without a fragment
/// holds none.
pub open spec fn tokens_in_location(location: Seq<char>) -> Result<OAuthTokensView, FailureView> {
    match location_fragment(location) {
        None => Err(FailureView::InvalidLocation { location }),
        Some(None) => tokens_in(Map::empty()),
        Some(Some(fragment)) => tokens_in(pairs_map(form_pairs(fragment))),
    }
}

/// Reads the redirect target as a URL and takes the two tokens out of its fragment.
pub fn tokens_from_location(location: &str) -> (outcome: Result<OAuthTokens, Failure>)
    ensures
        tokens_outcome_view(outcome) == tokens_in_location(location@),
{
    let fragment = match fragment_of(location) {
        Ok(Some(fragment)) => OAuthFragment::parse(fragment.as_str()),
        Ok(None) => OAuthFragment::from_pairs(Vec::new()),
        Err(_) => {
            return Err(Failure::InvalidLocation { location: location.to_owned() });
        },
    };
    required_tokens(&fragment)
}

} // verus!
