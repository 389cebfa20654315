//! The paths of the site, each as a type that writes itself out.

use vstd::prelude::*;
use vstd::string::StringExecFns;
use crate::model::ContactId;
use crate::text::decimal;
use crate::text::decimal_string;
use crate::text::signed_decimal;

verus! {

/// The path of the site's root.
pub open spec fn root_path() -> Seq<char> {
    "/"@
}

/// The path of the contact list.
pub open spec fn contacts_path() -> Seq<char> {
    "/contacts"@
}

/// The path that answers with the number of contacts.
pub open spec fn count_path() -> Seq<char> {
    "/contacts/count"@
}

/// The path of the form for a new contact.
pub open spec fn new_path() -> Seq<char> {
    "/contacts/new"@
}

/// The path of the contact `id`.
pub open spec fn view_path(id: int) -> Seq<char> {
    "/contacts/"@ + signed_decimal(id)
}

/// The path of the form that edits the contact `id`.
pub open spec fn edit_path(id: int) -> Seq<char> {
    view_path(id) + "/edit"@
}

/// The path that checks an email address for the contact `id`.
pub open spec fn email_path(id: int) -> Seq<char> {
    view_path(id) + "/email"@
}

/// The contact list with a page number as its query.
pub open spec fn page_path(page: nat) -> Seq<char> {
    contacts_path() + "?&page="@ + decimal(page)
}

/// `/`
#[derive(Clone, Copy, Debug)]
pub struct Root;

/// `/contacts`
#[derive(Clone, Copy, Debug)]
pub struct Contacts;

/// `/contacts/count`
#[derive(Clone, Copy, Debug)]
pub struct ContactsCount;

/// `/contacts/new`
#[derive(Clone, Copy, Debug)]
pub struct AddContact;

/// `/contacts/:id`
#[derive(Clone, Copy, Debug)]
pub struct ViewContact {
    pub id: ContactId,
}

/// `/contacts/:id/edit`
#[derive(Clone, Copy, Debug)]
pub struct UpdateContact {
    pub id: ContactId,
}

/// `/contacts/:id/email`
#[derive(Clone, Copy, Debug)]
pub struct ContactEmail {
    pub id: ContactId,
}

/// The query that asks for one page of the contact list.
#[derive(Clone, Copy, Debug)]
pub struct Pagination {
    pub page: u32,
}

impl Root {
    /// Writes the path out.
    pub fn to_string(&self) -> (path: String)
        ensures
            path@ == root_path(),
    {
        String::from_str("/")
    }
}

impl Contacts {
    /// Writes the path out.
    pub fn to_string(&self) -> (path: String)
        ensures
            path@ == contacts_path(),
    {
        String::from_str("/contacts")
    }

    /// Writes the path out with `params` as its query: `?&page=` and the
    /// page number.
    pub fn with_query_params(&self, params: Pagination) -> (path: String)
        ensures
            path@ == page_path(params.page as nat),
    {
        page_link(params.page as u64)
    }
}

/// The contact list with the page number `page` as its query.
pub fn page_link(page: u64) -> (path: String)
    ensures
        path@ == page_path(page as nat),
{
    let number = decimal_string(page);
    String::from_str("/contacts").concat("?&page=").concat(number.as_str())
}

impl ContactsCount {
    /// Writes the path out.
    pub fn to_string(&self) -> (path: String)
        ensures
            path@ == count_path(),
    {
        String::from_str("/contacts/count")
    }
}

impl AddContact {
    /// Writes the path out.
    pub fn to_string(&self) -> (path: String)
        ensures
            path@ == new_path(),
    {
        String::from_str("/contacts/new")
    }
}

impl ViewContact {
    /// Writes the path out, the identifier as a decimal numeral.
    pub fn to_string(&self) -> (path: String)
        ensures
            path@ == view_path(self.id@),
    {
        let number = self.id.to_string();
        String::from_str("/contacts/").concat(number.as_str())
    }
}

impl UpdateContact {
    /// Writes the path out, the identifier as a decimal numeral.
    pub fn to_string(&self) -> (path: String)
        ensures
            path@ == edit_path(self.id@),
    {
        ViewContact { id: self.id }.to_string().concat("/edit")
    }
}

impl ContactEmail {
    /// Writes the path out, the identifier as a decimal numeral.
    pub fn to_string(&self) -> (path: String)
        ensures
            path@ == email_path(self.id@),
    {
        ViewContact { id: self.id }.to_string().concat("/email")
    }
}

} // verus!
