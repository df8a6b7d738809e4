//! A subscriber's display name, accepted only when it is safe to store and show.
use crate::text::{all_white_space, trims_to_empty};
use vstd::prelude::*;

verus! {

/// The number of extended grapheme clusters that `unicode_segmentation`
/// finds in `s`.
pub uninterp spec fn extended_grapheme_count(s: Seq<char>) -> nat;

/// `UnicodeSegmentation::graphemes(s, true).count()` of `unicode_segmentation`.
/// Claimed: the count is `extended_grapheme_count` of the characters of `s`;
/// nothing more is said of how clusters are formed.
#[verifier::external_body]
fn count_graphemes(s: &str) -> (n: usize)
    ensures
        n as nat == extended_grapheme_count(s@),
{
    unicode_segmentation::UnicodeSegmentation::graphemes(s, true).count()
}

/// The characters a name may not hold: `/ ( ) " < > \ { }`.
pub open spec fn is_forbidden_name_char(c: char) -> bool {
    ||| c == '/'
    ||| c == '('
    ||| c == ')'
    ||| c == '"'
    ||| c == '<'
    ||| c == '>'
    ||| c == '\\'
    ||| c == '{'
    ||| c == '}'
}

/// The longest name accepted, counted in grapheme clusters.
pub const MAX_NAME_GRAPHEMES: usize = 256;

/// A name is accepted when it is not empty or all white space, has at most
/// `MAX_NAME_GRAPHEMES` grapheme clusters, and holds no forbidden character.
pub open spec fn is_valid_subscriber_name(s: Seq<char>) -> bool {
    &&& !all_white_space(s)
    &&& extended_grapheme_count(s) <= MAX_NAME_GRAPHEMES
    &&& forall|i: int| 0 <= i < s.len() ==> !is_forbidden_name_char(#[trigger] s[i])
}

/// The error text for a refused name.
pub open spec fn invalid_name_message(s: Seq<char>) -> Seq<char> {
    s + " is not a valid subscriber name."@
}

fn forbidden_name_char(c: char) -> (b: bool)
    ensures
        b == is_forbidden_name_char(c),
{
    c == '/' || c == '(' || c == ')' || c == '"' || c == '<' || c == '>' || c == '\\' || c
        == '{' || c == '}'
}

fn has_forbidden_name_char(s: &str) -> (b: bool)
    ensures
        b == exists|i: int| 0 <= i < s@.len() && is_forbidden_name_char(#[trigger] s@[i]),
{
    broadcast use vstd::string::group_string_axioms;

    for c in it: s.chars()
        invariant
            it.seq() == s@,
            forall|j: int| 0 <= j < it.index() ==> !is_forbidden_name_char(#[trigger] s@[j]),
    {
        if forbidden_name_char(c) {
            assert(is_forbidden_name_char(s@[it.index() as int]));
            return true;
        }
    }
    false
}

/// Whether `s`, which has `graphemes` grapheme clusters, is an acceptable
/// name: not empty or all white space, not too long, and free of forbidden
/// characters.
pub fn is_acceptable_name(s: &str, graphemes: usize) -> (b: bool)
    ensures
        b <==> {
            &&& !all_white_space(s@)
            &&& graphemes <= MAX_NAME_GRAPHEMES
            &&& forall|i: int| 0 <= i < s@.len() ==> !is_forbidden_name_char(#[trigger] s@[i])
        },
{
    let is_empty_or_whitespace = trims_to_empty(s);
    let is_too_long = graphemes > MAX_NAME_GRAPHEMES;
    let contains_forbidden_characters = has_forbidden_name_char(s);
    !(is_empty_or_whitespace || is_too_long || contains_forbidden_characters)
}

/// A validated subscriber name.
#[derive(Debug)]
pub struct SubscriberName {
    name: String,
}

impl View for SubscriberName {
    type V = Seq<char>;

    closed spec fn view(&self) -> Seq<char> {
        self.name@
    }
}

impl SubscriberName {
    #[verifier::type_invariant]
    closed spec fn well_formed(self) -> bool {
        is_valid_subscriber_name(self.name@)
    }

    /// Accepts `s` as a name exactly when it is valid; otherwise the error
    /// says which input was refused.
    pub fn parse(s: String) -> (r: Result<SubscriberName, String>)
        ensures
            r is Ok <==> is_valid_subscriber_name(s@),
            r matches Ok(n) ==> n@ == s@,
            r matches Err(m) ==> m@ == invalid_name_message(s@),
    {
        let graphemes = count_graphemes(s.as_str());
        if is_acceptable_name(s.as_str(), graphemes) {
            Ok(SubscriberName { name: s })
        } else {
            Err(s.concat(" is not a valid subscriber name."))
        }
    }

    /// The name as text; it is always a valid name.
    pub fn as_ref(&self) -> (r: &str)
        ensures
            r@ == self@,
            is_valid_subscriber_name(r@),
    {
        proof {
            use_type_invariant(self);
        }
        self.name.as_str()
    }
}

} // verus!
