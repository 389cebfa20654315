//! The JSON side of the site: the same table, with replies that are
//! records or plain text.

use vstd::prelude::*;
use vstd::string::StringExecFns;
use crate::model::Contact;
use crate::model::ContactAttributes;
use crate::model::ContactId;
use crate::model::ContactView;
use crate::store::ContactStore;
use crate::table::delete_of;
use crate::table::find_of;
use crate::table::holds;
use crate::table::insert_of;
use crate::table::update_of;
use crate::table::views;
use crate::exhausted;
use crate::exhausted_text;
use crate::missing;
use crate::missing_text;
use crate::AppError;
use crate::Plain;

verus! {

/// A plain-text reply as a value.
pub struct PlainView {
    pub status: u16,
    pub body: Seq<char>,
}

/// A reply of the JSON side as a value.
pub enum ReplyView {
    Contacts(Seq<ContactView>),
    Contact(ContactView),
    Plain(PlainView),
}

/// What a request to the JSON side is answered with.
#[derive(Debug)]
pub enum Reply {
    /// An object whose member `contacts` lists the records.
    Contacts(Vec<Contact>),
    /// One record.
    Contact(Contact),
    /// Plain text with a status code.
    Plain(Plain),
}

impl View for Reply {
    type V = ReplyView;

    open spec fn view(&self) -> ReplyView {
        match self {
            Reply::Contacts(rows) => ReplyView::Contacts(views(rows@)),
            Reply::Contact(contact) => ReplyView::Contact(contact@),
            Reply::Plain(plain) => ReplyView::Plain(
                PlainView { status: plain.status, body: plain.body@ },
            ),
        }
    }
}

/// The reply to a request for one record: the record, or status 404.
pub open spec fn found_of(found: Option<ContactView>) -> ReplyView {
    match found {
        Some(contact) => ReplyView::Contact(contact),
        None => ReplyView::Plain(PlainView { status: 404, body: "Could not find contact"@ }),
    }
}

/// The reply after a delete.
pub open spec fn deleted_reply() -> ReplyView {
    ReplyView::Plain(PlainView { status: 200, body: "Successfully deleted"@ })
}

/// The reply to a request for one record, given what the table holds
/// under its identifier.
pub fn found(row: Option<Contact>) -> (reply: Reply)
    ensures
        reply@ == found_of(
            match row {
                Some(contact) => Some(contact@),
                None => None,
            },
        ),
{
    match row {
        Some(contact) => Reply::Contact(contact),
        None => Reply::Plain(
            Plain { status: 404, body: String::from_str("Could not find contact") },
        ),
    }
}

/// The reply after a delete.
pub fn deleted() -> (reply: Reply)
    ensures
        reply@ == deleted_reply(),
{
    Reply::Plain(Plain { status: 200, body: String::from_str("Successfully deleted") })
}

/// `GET /contacts`: every record.
pub fn get_contacts(store: &ContactStore) -> (reply: Reply)
    ensures
        reply@ == ReplyView::Contacts(store@),
{
    Reply::Contacts(store.all())
}

/// `GET /contacts/:id`: the record, or status 404 when the table does not
/// hold it.
pub fn get_contact(store: &ContactStore, id: ContactId) -> (reply: Reply)
    ensures
        reply@ == found_of(find_of(store@, id@)),
{
    found(store.find(id))
}

/// `PUT /contacts/:id`: replaces the fields of the record `id` by those of
/// `contact` and answers with the record as it now stands. The
/// identifier inside `contact` is not read. When the table does not hold
/// `id`, nothing changes and the request fails.
pub fn update_contact(store: &mut ContactStore, id: ContactId, contact: Contact) -> (reply: Result<
    Reply,
    AppError,
>)
    ensures
        final(store)@ == update_of(old(store)@, id@, contact.attributes@),
        final(store).last_id() == old(store).last_id(),
        holds(old(store)@, id@) ==> {
            &&& reply matches Ok(record)
            &&& record@ == ReplyView::Contact(
                ContactView { id: id@, attributes: contact.attributes@ },
            )
        },
        !holds(old(store)@, id@) ==> {
            &&& reply matches Err(AppError::Diesel(detail))
            &&& detail@ == missing_text()
        },
{
    match store.update(id, contact.attributes) {
        Some(updated) => Ok(Reply::Contact(updated)),
        None => Err(missing()),
    }
}

/// `DELETE /contacts/:id`: deletes the record, if the table holds it. The
/// reply does not depend on whether it did.
pub fn delete_contact(store: &mut ContactStore, id: ContactId) -> (reply: Reply)
    ensures
        final(store)@ == delete_of(old(store)@, id@),
        final(store).last_id() == old(store).last_id(),
        reply@ == deleted_reply(),
{
    let _ = store.delete(id);
    deleted()
}

/// `POST /contacts`: adds a record with the given fields, as they are,
/// and answers with it. The request fails, and nothing is added, only
/// when the table has no identifier left.
pub fn new_contact(store: &mut ContactStore, attributes: ContactAttributes) -> (created: Result<
    Contact,
    AppError,
>)
    ensures
        old(store).last_id() < i32::MAX ==> {
            &&& created matches Ok(contact)
            &&& contact@ == ContactView {
                id: old(store).last_id() + 1,
                attributes: attributes@,
            }
            &&& final(store)@ == insert_of(old(store)@, contact.id@, attributes@)
            &&& final(store).last_id() == contact.id@
        },
        old(store).last_id() >= i32::MAX ==> {
            &&& created matches Err(AppError::Diesel(detail))
            &&& detail@ == exhausted_text()
            &&& final(store)@ == old(store)@
            &&& final(store).last_id() == old(store).last_id()
        },
{
    match store.insert(attributes) {
        Some(contact) => Ok(contact),
        None => Err(exhausted()),
    }
}

} // verus!
