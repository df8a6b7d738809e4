//! A subscriber's e-mail address, accepted only when `validator` accepts it.
use vstd::prelude::*;

verus! {

/// Whether `validator::validate_email` accepts `s` (the HTML living
/// standard's form of an e-mail address, with length limits on both parts).
pub uninterp spec fn is_valid_email(s: Seq<char>) -> bool;

/// `validator::validate_email` of `validator`.
/// Claimed: the answer is `is_valid_email` of the characters of `s`, and
/// (its source tests this first) an accepted address is not empty and holds
/// an `@`. The rest of its rules are not restated here.
#[verifier::external_body]
fn validate_email(s: &str) -> (b: bool)
    ensures
        b == is_valid_email(s@),
        b ==> s@.len() > 0 && s@.contains('@'),
{
    validator::validate_email(s)
}

/// The error text for a refused address.
pub open spec fn invalid_email_message(s: Seq<char>) -> Seq<char> {
    s + " is not a valid subscriber email."@
}

/// A validated subscriber e-mail address.
#[derive(Debug)]
pub struct SubscriberEmail {
    email: String,
}

impl View for SubscriberEmail {
    type V = Seq<char>;

    closed spec fn view(&self) -> Seq<char> {
        self.email@
    }
}

impl SubscriberEmail {
    #[verifier::type_invariant]
    closed spec fn well_formed(self) -> bool {
        &&& is_valid_email(self.email@)
        &&& self.email@.contains('@')
    }

    /// Accepts `s` as an address exactly when `validator` accepts it;
    /// otherwise the error says which input was refused.
    pub fn parse(s: String) -> (r: Result<SubscriberEmail, String>)
        ensures
            r is Ok <==> is_valid_email(s@),
            r matches Ok(e) ==> e@ == s@,
            r matches Err(m) ==> m@ == invalid_email_message(s@),
    {
        if validate_email(s.as_str()) {
            Ok(SubscriberEmail { email: s })
        } else {
            Err(s.concat(" is not a valid subscriber email."))
        }
    }

    /// The address as text; it is always one that `validator` accepts, and it
    /// holds an `@`.
    pub fn as_ref(&self) -> (r: &str)
        ensures
            r@ == self@,
            is_valid_email(r@),
            r@.contains('@'),
    {
        proof {
            use_type_invariant(self);
        }
        self.email.as_str()
    }
}

} // verus!
