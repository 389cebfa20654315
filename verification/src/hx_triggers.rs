//! The request header that names the control behind a request. A handler
//! reads it only to choose the shape of its reply.

use vstd::prelude::*;
use crate::text::same_text;

verus! {

/// The name of the header.
pub fn header_name() -> (name: &'static str)
    ensures
        name@ == "hx-trigger"@,
{
    "hx-trigger"
}

/// The header is missing or names no known control.
#[derive(Clone, Copy, Debug, PartialEq, Eq, Structural)]
pub struct InvalidTrigger;

/// The first of the header's values is exactly `id`.
pub open spec fn names(values: Seq<String>, id: Seq<char>) -> bool {
    values.len() > 0 && values[0]@ == id
}

fn first_is(values: &Vec<String>, id: &str) -> (named: bool)
    ensures
        named == names(values@, id@),
{
    if values.len() == 0 {
        false
    } else {
        same_text(values[0].as_str(), id)
    }
}

/// The controls of the contact list that a request can come from.
#[derive(Clone, Copy, Debug, PartialEq, Eq, Structural)]
pub enum ContactsInteraction {
    Search,
}

impl ContactsInteraction {
    /// The header value that names the control.
    pub open spec fn id_of(self) -> Seq<char> {
        match self {
            ContactsInteraction::Search => "search"@,
        }
    }

    /// The header value that names the control.
    pub fn id(&self) -> (id: &'static str)
        ensures
            id@ == self.id_of(),
    {
        match self {
            ContactsInteraction::Search => "search",
        }
    }

    /// Reads the control from the header's values. Only the first value
    /// counts; it has to be the control's name, letter for letter.
    pub fn decode(values: &Vec<String>) -> (decoded: Result<ContactsInteraction, InvalidTrigger>)
        ensures
            decoded == if names(values@, ContactsInteraction::Search.id_of()) {
                Ok::<ContactsInteraction, InvalidTrigger>(ContactsInteraction::Search)
            } else {
                Err::<ContactsInteraction, InvalidTrigger>(InvalidTrigger)
            },
    {
        if first_is(values, ContactsInteraction::Search.id()) {
            Ok(ContactsInteraction::Search)
        } else {
            Err(InvalidTrigger)
        }
    }

    /// Appends the header value that names the control.
    pub fn encode(&self, values: &mut Vec<String>)
        ensures
            final(values)@.len() == old(values)@.len() + 1,
            final(values)@.take(old(values)@.len() as int) == old(values)@,
            final(values)@.last()@ == self.id_of(),
    {
        let ghost before = values@;
        values.push(self.id().to_owned());
        assert(values@.take(before.len() as int) =~= before);
    }
}

/// The controls of a contact's page that a delete request can come from.
#[derive(Clone, Copy, Debug, PartialEq, Eq, Structural)]
pub enum DeleteTrigger {
    Button,
}

impl DeleteTrigger {
    /// The header value that names the control.
    pub open spec fn id_of(self) -> Seq<char> {
        match self {
            DeleteTrigger::Button => "delete-btn"@,
        }
    }

    /// The header value that names the control.
    pub fn id(&self) -> (id: &'static str)
        ensures
            id@ == self.id_of(),
    {
        match self {
            DeleteTrigger::Button => "delete-btn",
        }
    }

    /// Reads the control from the header's values. Only the first value
    /// counts; it has to be the control's name, letter for letter.
    pub fn decode(values: &Vec<String>) -> (decoded: Result<DeleteTrigger, InvalidTrigger>)
        ensures
            decoded == if names(values@, DeleteTrigger::Button.id_of()) {
                Ok::<DeleteTrigger, InvalidTrigger>(DeleteTrigger::Button)
            } else {
                Err::<DeleteTrigger, InvalidTrigger>(InvalidTrigger)
            },
    {
        if first_is(values, DeleteTrigger::Button.id()) {
            Ok(DeleteTrigger::Button)
        } else {
            Err(InvalidTrigger)
        }
    }

    /// Appends the header value that names the control.
    pub fn encode(&self, values: &mut Vec<String>)
        ensures
            final(values)@.len() == old(values)@.len() + 1,
            final(values)@.take(old(values)@.len() as int) == old(values)@,
            final(values)@.last()@ == self.id_of(),
    {
        let ghost before = values@;
        values.push(self.id().to_owned());
        assert(values@.take(before.len() as int) =~= before);
    }
}

} // verus!
