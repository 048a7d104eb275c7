use vstd::prelude::*;

verus! {

/// Whether the standard syntactic email check accepts a text.
pub uninterp spec fn email_syntax_ok(s: Seq<char>) -> bool;

/// Relies on `validator::validate_email`: a syntactic check of an address,
/// without any network lookup. It refuses an empty text and one without
/// an `@` before looking further.
#[verifier::external_body]
fn check_email_syntax(s: &str) -> (r: bool)
    ensures
        r == email_syntax_ok(s@),
        r ==> s@.len() > 0 && s@.contains('@'),
{
    validator::validate_email(s)
}

/// The diagnostic that carries a refused address.
pub open spec fn invalid_email_message(s: Seq<char>) -> Seq<char> {
    "invalid email "@ + s
}

/// A subscriber's address, accepted by the standard email syntax check.
#[derive(Debug)]
pub struct SubscriberEmail(String);

impl View for SubscriberEmail {
    type V = Seq<char>;

    closed spec fn view(&self) -> Seq<char> {
        self.0@
    }
}

impl SubscriberEmail {
    pub open spec fn valid(&self) -> bool {
        email_syntax_ok(self@)
    }

    #[verifier::type_invariant]
    spec fn inv(self) -> bool {
        email_syntax_ok(self.0@)
    }

    pub fn parse(s: String) -> (r: Result<SubscriberEmail, String>)
        ensures
            email_syntax_ok(s@) ==> r is Ok && r->Ok_0@ == s@,
            !email_syntax_ok(s@) ==> r is Err && r->Err_0@ == invalid_email_message(s@),
            r is Ok ==> r->Ok_0.valid(),
            s@.len() == 0 || !s@.contains('@') ==> r is Err,
    {
        if check_email_syntax(s.as_str()) {
            Ok(SubscriberEmail(s))
        } else {
            let msg = String::from_str("invalid email ");
            Err(msg.concat(s.as_str()))
        }
    }

    pub fn as_ref(&self) -> (r: &str)
        ensures
            r@ == self@,
            self.valid(),
    {
        proof {
            use_type_invariant(self);
        }
        self.0.as_str()
    }
}

} // verus!
