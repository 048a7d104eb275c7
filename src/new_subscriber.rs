use crate::subscriber_email::{email_syntax_ok, invalid_email_message, SubscriberEmail};
use crate::subscriber_name::{name_error_is, name_problem, NameError, SubscriberName};
use vstd::prelude::*;

verus! {

/// The raw fields of a registration form.
pub struct FormData {
    pub name: String,
    pub email: String,
}

/// A registration whose name and address were both accepted.
#[derive(Debug)]
pub struct NewSubscriber {
    pub email: SubscriberEmail,
    pub name: SubscriberName,
}

/// Why a registration form was refused.
#[derive(Debug)]
pub enum FormError {
    Name(NameError),
    Email(String),
}

/// Whether a form's fields are both acceptable.
pub open spec fn form_ok(name: Seq<char>, email: Seq<char>) -> bool {
    name_problem(name) is None && email_syntax_ok(email)
}

impl NewSubscriber {
    /// Validates the name, then the address; the first refusal is returned.
    pub fn try_from(form: FormData) -> (r: Result<NewSubscriber, FormError>)
        ensures
            form_ok(form.name@, form.email@) <==> r is Ok,
            r is Ok ==> r->Ok_0.name@ == form.name@ && r->Ok_0.email@ == form.email@
                && r->Ok_0.name.valid() && r->Ok_0.email.valid(),
            name_problem(form.name@) is Some ==> r is Err && r->Err_0 is Name && name_error_is(
                r->Err_0->Name_0,
                name_problem(form.name@)->0,
                form.name@,
            ),
            name_problem(form.name@) is None && !email_syntax_ok(form.email@) ==> r is Err
                && r->Err_0 is Email && r->Err_0->Email_0@ == invalid_email_message(form.email@),
            form.name@.len() == 0 || form.email@.len() == 0 ==> r is Err,
    {
        let name = match SubscriberName::parse(form.name) {
            Ok(n) => n,
            Err(e) => return Err(FormError::Name(e)),
        };
        let email = match SubscriberEmail::parse(form.email) {
            Ok(e) => e,
            Err(msg) => return Err(FormError::Email(msg)),
        };
        Ok(NewSubscriber { email, name })
    }
}

} // verus!
