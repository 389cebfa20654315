//! The contact record and its identifier.

use vstd::prelude::*;
use crate::text::signed_decimal;
use crate::text::signed_decimal_string;

verus! {

/// Identifier of a stored contact. The store assigns it; it never changes
/// and no two stored contacts share one.
#[derive(Clone, Copy, Debug, PartialEq, Eq, Structural)]
pub struct ContactId(pub i32);

impl View for ContactId {
    type V = int;

    open spec fn view(&self) -> int {
        self.0 as int
    }
}

impl ContactId {
    /// The identifier with the given number.
    pub fn new(value: i32) -> (id: ContactId)
        ensures
            id@ == value,
    {
        ContactId(value)
    }

    /// The identifier's number.
    pub fn value(&self) -> (value: i32)
        ensures
            value == self@,
    {
        self.0
    }

    /// The identifier as a decimal numeral.
    pub fn to_string(&self) -> (text: String)
        ensures
            text@ == signed_decimal(self@),
    {
        signed_decimal_string(self.0 as i64)
    }
}

impl Default for ContactId {
    fn default() -> (id: ContactId)
        ensures
            id@ == 0,
    {
        ContactId(0)
    }
}

/// What the four text fields of a contact hold, as character sequences.
pub struct AttributesView {
    pub first_name: Seq<char>,
    pub last_name: Seq<char>,
    pub phone: Seq<char>,
    pub email_address: Seq<char>,
}

/// The four text fields of a contact.
#[derive(Debug)]
pub struct ContactAttributes {
    pub first_name: String,
    pub last_name: String,
    pub phone: String,
    pub email_address: String,
}

impl View for ContactAttributes {
    type V = AttributesView;

    open spec fn view(&self) -> AttributesView {
        AttributesView {
            first_name: self.first_name@,
            last_name: self.last_name@,
            phone: self.phone@,
            email_address: self.email_address@,
        }
    }
}

impl Clone for ContactAttributes {
    fn clone(&self) -> (copy: Self)
        ensures
            copy == *self,
    {
        ContactAttributes {
            first_name: self.first_name.clone(),
            last_name: self.last_name.clone(),
            phone: self.phone.clone(),
            email_address: self.email_address.clone(),
        }
    }
}

/// A stored contact as a value: its identifier's number and its fields.
pub struct ContactView {
    pub id: int,
    pub attributes: AttributesView,
}

/// A stored contact: an identifier and the four text fields.
#[derive(Debug)]
pub struct Contact {
    pub id: ContactId,
    pub attributes: ContactAttributes,
}

impl View for Contact {
    type V = ContactView;

    open spec fn view(&self) -> ContactView {
        ContactView { id: self.id@, attributes: self.attributes@ }
    }
}

impl Clone for Contact {
    fn clone(&self) -> (copy: Self)
        ensures
            copy == *self,
    {
        Contact { id: self.id, attributes: self.attributes.clone() }
    }
}

impl core::ops::Deref for Contact {
    type Target = ContactAttributes;

    fn deref(&self) -> (attributes: &ContactAttributes)
        ensures
            *attributes == self.attributes,
    {
        &self.attributes
    }
}

} // verus!
