//! A contact as a form submits it: every field may be missing or empty.
//! Validation turns it into the fields of a contact, none of them empty,
//! or into one message per field that is not acceptable.

use vstd::prelude::*;
use vstd::std_specs::convert::FromSpecImpl;
use crate::model::AttributesView;
use crate::model::Contact;
use crate::model::ContactAttributes;

verus! {

/// What a submitted form holds, as character sequences.
pub struct FormView {
    pub first_name: Option<Seq<char>>,
    pub last_name: Option<Seq<char>>,
    pub phone: Option<Seq<char>>,
    pub email_address: Option<Seq<char>>,
}

/// The fields of a contact as submitted, before validation.
#[derive(Debug)]
pub struct Form {
    pub first_name: Option<String>,
    pub last_name: Option<String>,
    pub phone: Option<String>,
    pub email_address: Option<String>,
}

/// The messages of a failed validation, as character sequences.
pub struct ErrorsView {
    pub first_name: Option<Seq<char>>,
    pub last_name: Option<Seq<char>>,
    pub phone: Option<Seq<char>>,
    pub email_address: Option<Seq<char>>,
}

/// At most one message for each field of the form.
#[derive(Debug)]
pub struct Errors {
    pub first_name: Option<&'static str>,
    pub last_name: Option<&'static str>,
    pub phone: Option<&'static str>,
    pub email_address: Option<&'static str>,
}

/// The view of an optional string.
pub open spec fn text_of(field: Option<String>) -> Option<Seq<char>> {
    match field {
        Some(text) => Some(text@),
        None => None,
    }
}

/// The view of an optional message.
pub open spec fn message_of(message: Option<&'static str>) -> Option<Seq<char>> {
    match message {
        Some(text) => Some(text@),
        None => None,
    }
}

impl View for Form {
    type V = FormView;

    open spec fn view(&self) -> FormView {
        FormView {
            first_name: text_of(self.first_name),
            last_name: text_of(self.last_name),
            phone: text_of(self.phone),
            email_address: text_of(self.email_address),
        }
    }
}

impl View for Errors {
    type V = ErrorsView;

    open spec fn view(&self) -> ErrorsView {
        ErrorsView {
            first_name: message_of(self.first_name),
            last_name: message_of(self.last_name),
            phone: message_of(self.phone),
            email_address: message_of(self.email_address),
        }
    }
}

impl ErrorsView {
    /// No field has a message.
    pub open spec fn is_empty(self) -> bool {
        &&& self.first_name is None
        &&& self.last_name is None
        &&& self.phone is None
        &&& self.email_address is None
    }
}

/// The message for a first name that is missing or empty.
pub open spec fn missing_first_name() -> Seq<char> {
    "Missing first name"@
}

/// The message for a last name that is missing or empty.
pub open spec fn missing_last_name() -> Seq<char> {
    "Missing last name"@
}

/// The message for a phone number that is missing or empty.
pub open spec fn missing_phone() -> Seq<char> {
    "Missing phone"@
}

/// The message for an email address that is missing or empty.
pub open spec fn missing_email_address() -> Seq<char> {
    "Missing email address"@
}

/// A field is acceptable when it is present and not empty.
pub open spec fn filled(field: Option<Seq<char>>) -> bool {
    field matches Some(text) && text.len() > 0
}

/// A form is valid when every field is acceptable.
pub open spec fn valid(form: FormView) -> bool {
    &&& filled(form.first_name)
    &&& filled(form.last_name)
    &&& filled(form.phone)
    &&& filled(form.email_address)
}

/// The contact fields that a valid form stands for.
pub open spec fn validated(form: FormView) -> AttributesView
    recommends
        valid(form),
{
    AttributesView {
        first_name: form.first_name->0,
        last_name: form.last_name->0,
        phone: form.phone->0,
        email_address: form.email_address->0,
    }
}

/// The message for a field: `message` when the field is not acceptable,
/// none when it is.
pub open spec fn message_for(field: Option<Seq<char>>, message: Seq<char>) -> Option<Seq<char>> {
    if filled(field) {
        None
    } else {
        Some(message)
    }
}

/// The messages for a form: one for each field that is not acceptable,
/// none for the others.
pub open spec fn errors_of(form: FormView) -> ErrorsView {
    ErrorsView {
        first_name: message_for(form.first_name, missing_first_name()),
        last_name: message_for(form.last_name, missing_last_name()),
        phone: message_for(form.phone, missing_phone()),
        email_address: message_for(form.email_address, missing_email_address()),
    }
}

/// A form that lacks a field is not valid, and the messages hold one for
/// exactly the fields that are not acceptable: one for each field that is
/// missing or empty, none for a field that is filled. So a form that is
/// not valid never comes with no message at all.
pub proof fn lemma_messages_name_the_missing(form: FormView)
    ensures
        !filled(form.first_name) ==> !valid(form) && errors_of(form).first_name == Some(
            missing_first_name(),
        ),
        !filled(form.last_name) ==> !valid(form) && errors_of(form).last_name == Some(
            missing_last_name(),
        ),
        !filled(form.phone) ==> !valid(form) && errors_of(form).phone == Some(missing_phone()),
        !filled(form.email_address) ==> !valid(form) && errors_of(form).email_address == Some(
            missing_email_address(),
        ),
        filled(form.first_name) ==> errors_of(form).first_name is None,
        filled(form.last_name) ==> errors_of(form).last_name is None,
        filled(form.phone) ==> errors_of(form).phone is None,
        filled(form.email_address) ==> errors_of(form).email_address is None,
        form.first_name is None ==> !filled(form.first_name),
        form.last_name is None ==> !filled(form.last_name),
        form.phone is None ==> !filled(form.phone),
        form.email_address is None ==> !filled(form.email_address),
        valid(form) <==> errors_of(form).is_empty(),
{
}

/// A field that is present but empty counts as one that is missing: the
/// form is not valid either way, and the messages are the same. This
/// holds of the email address and of the three other fields alike.
pub proof fn lemma_empty_is_missing(form: FormView)
    ensures
        ({
            let empty = Some(Seq::<char>::empty());
            &&& !valid(FormView { email_address: empty, ..form })
            &&& !valid(FormView { email_address: None, ..form })
            &&& errors_of(FormView { email_address: empty, ..form }) == errors_of(
                FormView { email_address: None, ..form },
            )
            &&& errors_of(FormView { email_address: empty, ..form }).email_address == Some(
                missing_email_address(),
            )
            &&& errors_of(FormView { first_name: empty, ..form }) == errors_of(
                FormView { first_name: None, ..form },
            )
            &&& errors_of(FormView { last_name: empty, ..form }) == errors_of(
                FormView { last_name: None, ..form },
            )
            &&& errors_of(FormView { phone: empty, ..form }) == errors_of(
                FormView { phone: None, ..form },
            )
        }),
{
}

/// What a valid form stands for is what was submitted, field by field,
/// and none of its fields is empty.
pub proof fn lemma_validated_keeps_fields(form: FormView)
    requires
        valid(form),
    ensures
        form.first_name == Some(validated(form).first_name),
        form.last_name == Some(validated(form).last_name),
        form.phone == Some(validated(form).phone),
        form.email_address == Some(validated(form).email_address),
        validated(form).first_name.len() > 0,
        validated(form).last_name.len() > 0,
        validated(form).phone.len() > 0,
        validated(form).email_address.len() > 0,
{
}

/// The name under which a form carries the first name.
pub fn first_name() -> (name: &'static str)
    ensures
        name@ == "first_name"@,
{
    "first_name"
}

/// The name under which a form carries the last name.
pub fn last_name() -> (name: &'static str)
    ensures
        name@ == "last_name"@,
{
    "last_name"
}

/// The name under which a form carries the phone number.
pub fn phone() -> (name: &'static str)
    ensures
        name@ == "phone"@,
{
    "phone"
}

/// The name under which a form carries the email address.
pub fn email_address() -> (name: &'static str)
    ensures
        name@ == "email_address"@,
{
    "email_address"
}

impl Default for Form {
    /// The form with every field missing.
    fn default() -> (form: Form)
        ensures
            form@ == Form::default_view(),
    {
        Form { first_name: None, last_name: None, phone: None, email_address: None }
    }
}

impl Clone for Form {
    fn clone(&self) -> (copy: Self)
        ensures
            copy == *self,
    {
        Form {
            first_name: self.first_name.clone(),
            last_name: self.last_name.clone(),
            phone: self.phone.clone(),
            email_address: self.email_address.clone(),
        }
    }
}

impl Default for Errors {
    /// No message for any field.
    fn default() -> (errors: Errors)
        ensures
            errors@.is_empty(),
    {
        Errors { first_name: None, last_name: None, phone: None, email_address: None }
    }
}

impl From<Contact> for Form {
    /// The form that holds the fields of a stored contact.
    fn from(value: Contact) -> (form: Form) {
        let ContactAttributes { first_name, last_name, phone, email_address } = value.attributes;
        Form {
            first_name: Some(first_name),
            last_name: Some(last_name),
            phone: Some(phone),
            email_address: Some(email_address),
        }
    }
}

impl FromSpecImpl<Contact> for Form {
    open spec fn obeys_from_spec() -> bool {
        true
    }

    open spec fn from_spec(value: Contact) -> Form {
        Form {
            first_name: Some(value.attributes.first_name),
            last_name: Some(value.attributes.last_name),
            phone: Some(value.attributes.phone),
            email_address: Some(value.attributes.email_address),
        }
    }
}

impl Form {
    /// The form with every field missing.
    pub open spec fn default_view() -> FormView {
        FormView { first_name: None, last_name: None, phone: None, email_address: None }
    }

    /// Validates the form. A valid form gives the fields of a contact,
    /// each equal to what was submitted and none of them empty. Any other
    /// form gives the messages of `errors_of`: one for each field that is
    /// missing or empty.
    pub fn to_valid(&self) -> (checked: Result<ContactAttributes, Errors>)
        ensures
            valid(self@) <==> checked is Ok,
            checked matches Ok(attributes) ==> attributes@ == validated(self@),
            checked matches Err(errors) ==> errors@ == errors_of(self@),
    {
        match (&self.first_name, &self.last_name, &self.phone, &self.email_address) {
            (Some(first_name), Some(last_name), Some(phone), Some(email)) => {
                if !first_name.as_str().is_empty() && !last_name.as_str().is_empty()
                    && !phone.as_str().is_empty() && !email.as_str().is_empty() {
                    return Ok(
                        ContactAttributes {
                            first_name: first_name.clone(),
                            last_name: last_name.clone(),
                            phone: phone.clone(),
                            email_address: email.clone(),
                        },
                    );
                }
            },
            _ => {},
        }
        Err(
            Errors {
                first_name: message(&self.first_name, "Missing first name"),
                last_name: message(&self.last_name, "Missing last name"),
                phone: message(&self.phone, "Missing phone"),
                email_address: message(&self.email_address, "Missing email address"),
            },
        )
    }
}

/// The message for a field: `text` when the field is missing or empty.
fn message(field: &Option<String>, text: &'static str) -> (message: Option<&'static str>)
    ensures
        message_of(message) == message_for(text_of(*field), text@),
{
    let acceptable = match field {
        Some(entered) => !entered.as_str().is_empty(),
        None => false,
    };
    if acceptable {
        None
    } else {
        Some(text)
    }
}

} // verus!
