//! The HTML side of the site: for each request, which reply it gets and
//! what it does to the contacts table. The handlers named after a route
//! work on the model of the table; the functions they are made of take
//! what a database returned and are what the site itself calls.
//!
//! A reply is a value. A redirect names its target and the notice shown on
//! the next page; a page names what it shows. Turning it into markup is
//! the caller's part.

use vstd::prelude::*;
use vstd::string::StringExecFns;
use crate::hx_triggers::ContactsInteraction;
use crate::hx_triggers::DeleteTrigger;
use crate::model::Contact;
use crate::model::ContactId;
use crate::model::ContactView;
use crate::model::AttributesView;
use crate::paths::contacts_path;
use crate::paths::edit_path;
use crate::paths::email_path;
use crate::paths::new_path;
use crate::paths::page_link;
use crate::paths::page_path;
use crate::paths::view_path;
use crate::paths::AddContact;
use crate::paths::ContactEmail;
use crate::paths::Contacts;
use crate::paths::UpdateContact;
use crate::paths::ViewContact;
use crate::pending_contact::errors_of;
use crate::pending_contact::message_of;
use crate::pending_contact::text_of;
use crate::pending_contact::valid;
use crate::pending_contact::validated;
use crate::pending_contact::Errors;
use crate::pending_contact::ErrorsView;
use crate::pending_contact::Form;
use crate::pending_contact::FormView;
use crate::store::bounded;
use crate::store::numbers;
use crate::store::ContactStore;
use crate::store::Selection;
use crate::table::delete_many_of;
use crate::table::delete_of;
use crate::table::ascending;
use crate::table::find_of;
use crate::table::insert_of;
use crate::table::lemma_inserted_is_found;
use crate::table::lemma_page_is_bounded;
use crate::table::lemma_pages_are_apart;
use crate::table::page_of;
use crate::table::search_of;
use crate::table::select_of;
use crate::table::update_of;
use crate::table::views;
use crate::table::with_email;
use crate::table::SelectionView;
use crate::text::decimal;
use crate::text::escape;
use crate::text::escaped;
use crate::text::decimal_string;
use crate::exhausted;
use crate::exhausted_text;
use crate::missing;
use crate::missing_text;
use crate::AppError;

verus! {

/// The number of contacts on one page of the list.
pub const PAGE_SIZE: u64 = 10;

/// The query of a request for the contact list.
#[derive(Debug)]
pub struct GetContactsParams {
    /// The search term, sent as `q`.
    pub query: Option<String>,
    /// The page number; the first page is 0.
    pub page: Option<u32>,
}

/// The query of a request that checks an email address.
#[derive(Debug)]
pub struct EmailValidationParams {
    pub email_address: Option<String>,
}

/// The body of a request that deletes the selected contacts.
#[derive(Debug)]
pub struct DeleteContactList {
    pub selected_contact_ids: Vec<ContactId>,
}

/// How a notice is meant.
#[derive(Clone, Copy, Debug, PartialEq, Eq, Structural)]
pub enum Level {
    Success,
    Warning,
}

/// A notice as a value.
pub struct NoticeView {
    pub level: Level,
    pub message: Seq<char>,
}

/// A message that is shown once, on the page after a redirect.
#[derive(Debug)]
pub struct Notice {
    pub level: Level,
    pub message: String,
}

impl View for Notice {
    type V = NoticeView;

    open spec fn view(&self) -> NoticeView {
        NoticeView { level: self.level, message: self.message@ }
    }
}

/// A redirect as a value.
pub struct RedirectView {
    pub to: Seq<char>,
    pub permanent: bool,
    pub flash: Option<NoticeView>,
}

/// A redirect: where to, whether for good, and the notice that goes along.
#[derive(Debug)]
pub struct Redirect {
    pub to: String,
    pub permanent: bool,
    pub flash: Option<Notice>,
}

impl View for Redirect {
    type V = RedirectView;

    open spec fn view(&self) -> RedirectView {
        RedirectView {
            to: self.to@,
            permanent: self.permanent,
            flash: match self.flash {
                Some(notice) => Some(notice@),
                None => None,
            },
        }
    }
}

/// A form field as a value.
pub struct FieldView {
    pub value: Seq<char>,
    pub error: Option<Seq<char>>,
}

/// One field of the contact form: what it shows as entered, and the
/// message beside it.
#[derive(Debug)]
pub struct Field {
    pub value: String,
    pub error: Option<&'static str>,
}

impl View for Field {
    type V = FieldView;

    open spec fn view(&self) -> FieldView {
        FieldView { value: self.value@, error: message_of(self.error) }
    }
}

/// The contact form as a value.
pub struct ContactFormView {
    pub action: Seq<char>,
    pub email_address: FieldView,
    pub first_name: FieldView,
    pub last_name: FieldView,
    pub phone: FieldView,
    pub email_check: Option<Seq<char>>,
    pub delete: Option<Seq<char>>,
}

/// The form that creates or edits a contact.
#[derive(Debug)]
pub struct ContactForm {
    /// Where the form is submitted.
    pub action: String,
    pub email_address: Field,
    pub first_name: Field,
    pub last_name: Field,
    pub phone: Field,
    /// Where the email address is checked while it is typed, if anywhere.
    pub email_check: Option<String>,
    /// Where the contact is deleted, if the form offers that.
    pub delete: Option<String>,
}

impl View for ContactForm {
    type V = ContactFormView;

    open spec fn view(&self) -> ContactFormView {
        ContactFormView {
            action: self.action@,
            email_address: self.email_address@,
            first_name: self.first_name@,
            last_name: self.last_name@,
            phone: self.phone@,
            email_check: text_of(self.email_check),
            delete: text_of(self.delete),
        }
    }
}

/// The page of the contact list as a value.
pub struct ContactsPageView {
    pub search: Seq<char>,
    pub rows: Seq<ContactView>,
    pub more: Option<Seq<char>>,
}

/// The page of the contact list.
#[derive(Debug)]
pub struct ContactsPage {
    /// What the search field shows.
    pub search: String,
    /// The contacts listed.
    pub rows: Vec<Contact>,
    /// Where the next page of the list is, when there may be one.
    pub more: Option<String>,
}

impl View for ContactsPage {
    type V = ContactsPageView;

    open spec fn view(&self) -> ContactsPageView {
        ContactsPageView {
            search: self.search@,
            rows: views(self.rows@),
            more: text_of(self.more),
        }
    }
}

/// A reply as a value.
pub enum ReplyView {
    Redirect(RedirectView),
    Text(Seq<char>),
    Rows(Seq<ContactView>),
    Contacts(ContactsPageView),
    Form(ContactFormView),
    Contact(ContactView),
}

/// What a request is answered with.
#[derive(Debug)]
pub enum Reply {
    /// A redirect, with or without a notice.
    Redirect(Redirect),
    /// Plain text with status 200.
    Text(String),
    /// The rows of the contact list alone, to replace those on a page
    /// that is already shown.
    Rows(Vec<Contact>),
    /// The page of the contact list.
    Contacts(ContactsPage),
    /// The page with the contact form.
    Form(ContactForm),
    /// The page of one contact.
    Contact(Contact),
}

impl View for Reply {
    type V = ReplyView;

    open spec fn view(&self) -> ReplyView {
        match self {
            Reply::Redirect(redirect) => ReplyView::Redirect(redirect@),
            Reply::Text(text) => ReplyView::Text(text@),
            Reply::Rows(rows) => ReplyView::Rows(views(rows@)),
            Reply::Contacts(page) => ReplyView::Contacts(page@),
            Reply::Form(form) => ReplyView::Form(form@),
            Reply::Contact(contact) => ReplyView::Contact(contact@),
        }
    }
}

/// A redirect for now, with a notice.
pub open spec fn notice_redirect(to: Seq<char>, level: Level, message: Seq<char>) -> ReplyView {
    ReplyView::Redirect(
        RedirectView { to, permanent: false, flash: Some(NoticeView { level, message }) },
    )
}

/// The reply to a request for a contact that the table does not hold.
pub open spec fn not_found_reply() -> ReplyView {
    notice_redirect(contacts_path(), Level::Warning, "Could not find contact"@)
}

/// The reply after a contact was created.
pub open spec fn created_reply() -> ReplyView {
    notice_redirect(contacts_path(), Level::Success, "Created a new contact!"@)
}

/// The reply after the contact `id` was updated.
pub open spec fn updated_reply(id: int) -> ReplyView {
    notice_redirect(view_path(id), Level::Success, "Updated contact!"@)
}

/// The reply after one contact was deleted: a redirect with a notice when
/// the request came from the delete button, else an empty body.
pub open spec fn deleted_reply(trigger: Option<DeleteTrigger>) -> ReplyView {
    if trigger is Some {
        notice_redirect(contacts_path(), Level::Success, "Deleted contact, yo!"@)
    } else {
        ReplyView::Text(Seq::<char>::empty())
    }
}

/// The reply after the selected contacts were deleted.
pub open spec fn deleted_all_reply() -> ReplyView {
    notice_redirect(contacts_path(), Level::Success, "Deleted contacts!"@)
}

/// The page number of a request; 0 when it names none.
pub open spec fn page_number(page: Option<u32>) -> nat {
    match page {
        Some(number) => number as nat,
        None => 0,
    }
}

/// What a request for the list selects: with a search term, the contacts
/// that match it, whatever the page; without one, the ten contacts of the
/// page.
pub open spec fn selection_of(query: Option<Seq<char>>, page: Option<u32>) -> SelectionView {
    match query {
        Some(term) => SelectionView::Search { term },
        None => SelectionView::Page {
            limit: PAGE_SIZE as nat,
            offset: page_number(page) * (PAGE_SIZE as nat),
        },
    }
}

/// What a field shows: what was entered, or nothing.
pub open spec fn entered(field: Option<Seq<char>>) -> Seq<char> {
    match field {
        Some(text) => text,
        None => Seq::<char>::empty(),
    }
}

/// Where the next page of the list is: offered when ten or more contacts
/// are shown.
pub open spec fn more_of(page: Option<u32>, shown: nat) -> Option<Seq<char>> {
    if shown >= PAGE_SIZE {
        Some(page_path(page_number(page) + 1))
    } else {
        None
    }
}

/// The reply to a request for the list, given the rows that were
/// selected: the rows alone when the search field sent the request, else
/// the whole page.
pub open spec fn listing_of(
    query: Option<Seq<char>>,
    page: Option<u32>,
    trigger: Option<ContactsInteraction>,
    rows: Seq<ContactView>,
) -> ReplyView {
    if trigger is Some {
        ReplyView::Rows(rows)
    } else {
        ReplyView::Contacts(
            ContactsPageView { search: entered(query), rows, more: more_of(page, rows.len()) },
        )
    }
}

/// The `LIKE` pattern for the names that hold `term` anywhere.
pub open spec fn name_pattern_of(term: Seq<char>) -> Seq<char> {
    seq!['%'] + escaped(term) + seq!['%']
}

/// The line that tells how many contacts there are.
pub open spec fn count_text_of(count: nat) -> Seq<char> {
    "("@ + decimal(count) + " total Contacts)"@
}

/// A field of the form: what was entered and the message for it.
pub open spec fn field_of(value: Option<Seq<char>>, error: Option<Seq<char>>) -> FieldView {
    FieldView { value: entered(value), error }
}

/// The form for a new contact, with what was entered and the messages.
pub open spec fn new_form_of(form: FormView, errors: ErrorsView) -> ContactFormView {
    ContactFormView {
        action: new_path(),
        email_address: field_of(form.email_address, errors.email_address),
        first_name: field_of(form.first_name, errors.first_name),
        last_name: field_of(form.last_name, errors.last_name),
        phone: field_of(form.phone, errors.phone),
        email_check: None,
        delete: None,
    }
}

/// The form that edits the contact `id`, with what was entered and the
/// messages.
pub open spec fn edit_form_of(id: int, form: FormView, errors: ErrorsView) -> ContactFormView {
    ContactFormView {
        action: edit_path(id),
        email_address: field_of(form.email_address, errors.email_address),
        first_name: field_of(form.first_name, errors.first_name),
        last_name: field_of(form.last_name, errors.last_name),
        phone: field_of(form.phone, errors.phone),
        email_check: Some(email_path(id)),
        delete: Some(view_path(id)),
    }
}

/// The form that holds the fields of a stored contact.
pub open spec fn form_of(contact: ContactView) -> FormView {
    FormView {
        first_name: Some(contact.attributes.first_name),
        last_name: Some(contact.attributes.last_name),
        phone: Some(contact.attributes.phone),
        email_address: Some(contact.attributes.email_address),
    }
}

/// No message for any field.
pub open spec fn no_errors() -> ErrorsView {
    ErrorsView { first_name: None, last_name: None, phone: None, email_address: None }
}

/// The reply to a request for one contact's page.
pub open spec fn shown_of(found: Option<ContactView>) -> ReplyView {
    match found {
        Some(contact) => ReplyView::Contact(contact),
        None => not_found_reply(),
    }
}

/// The reply to a request for the form that edits the contact `id`.
pub open spec fn edit_of(id: int, found: Option<ContactView>) -> ReplyView {
    match found {
        Some(contact) => ReplyView::Form(edit_form_of(id, form_of(contact), no_errors())),
        None => not_found_reply(),
    }
}

/// The answer to a check of an email address, given how many contacts
/// have it; `None` stands for an address that was empty or not sent.
pub open spec fn email_answer_of(matching: Option<nat>) -> Seq<char> {
    match matching {
        None => "Email cannot be empty"@,
        Some(n) => if n == 0 {
            Seq::<char>::empty()
        } else {
            "Email must be unique"@
        },
    }
}

/// A list without a search term shows at most ten contacts, whatever the
/// page and whoever asks: the ten of that page, in table order.
pub proof fn lemma_list_shows_a_page(table: Seq<ContactView>, page: Option<u32>)
    ensures
        ({
            let rows = select_of(table, selection_of(None, page));
            &&& rows.len() <= 10
            &&& rows == page_of(table, 10, page_number(page) * 10)
            &&& listing_of(None, page, None, rows) matches ReplyView::Contacts(shown)
            &&& shown.rows == rows
        }),
{
    lemma_page_is_bounded(table, 10, page_number(page) * 10);
}

/// A list with a search term shows the contacts whose name holds the
/// term, all of them, whatever page the request names.
pub proof fn lemma_list_with_a_term_searches(
    table: Seq<ContactView>,
    term: Seq<char>,
    page: Option<u32>,
)
    ensures
        select_of(table, selection_of(Some(term), page)) == search_of(table, term),
        select_of(table, selection_of(Some(term), page)) == select_of(
            table,
            selection_of(Some(term), None),
        ),
{
}

/// Two pages that follow one another share no contact: every identifier
/// listed on page `number` is below every identifier listed on the next.
pub proof fn lemma_next_page_is_apart(table: Seq<ContactView>, number: u32)
    requires
        ascending(table),
        number < u32::MAX,
    ensures
        ({
            let rows = select_of(table, selection_of(None, Some(number)));
            let next = select_of(table, selection_of(None, Some((number + 1) as u32)));
            forall|i: int, j: int|
                0 <= i < rows.len() && 0 <= j < next.len() ==> (#[trigger] rows[i]).id < (
                #[trigger] next[j]).id
        }),
{
    lemma_pages_are_apart(table, 10, number as nat);
}

/// A contact that a valid form created is shown, under the identifier it
/// was given, with exactly the fields that were submitted.
pub proof fn lemma_created_is_shown(table: Seq<ContactView>, last: int, form: FormView)
    requires
        ascending(table),
        bounded(table, last),
        valid(form),
    ensures
        ({
            let after = insert_of(table, last + 1, validated(form));
            shown_of(find_of(after, last + 1)) == ReplyView::Contact(
                ContactView {
                    id: last + 1,
                    attributes: AttributesView {
                        first_name: form.first_name->0,
                        last_name: form.last_name->0,
                        phone: form.phone->0,
                        email_address: form.email_address->0,
                    },
                },
            )
        }),
{
    lemma_inserted_is_found(table, last + 1, validated(form));
}

fn notice(to: String, level: Level, message: &str) -> (reply: Reply)
    ensures
        reply@ == notice_redirect(to@, level, message@),
{
    Reply::Redirect(
        Redirect {
            to,
            permanent: false,
            flash: Some(Notice { level, message: String::from_str(message) }),
        },
    )
}

/// `GET /`: a permanent redirect to the contact list.
pub fn root() -> (reply: Reply)
    ensures
        reply@ == ReplyView::Redirect(
            RedirectView { to: contacts_path(), permanent: true, flash: None },
        ),
{
    Reply::Redirect(Redirect { to: Contacts.to_string(), permanent: true, flash: None })
}

/// What a request for the contact list selects from the table.
pub fn selection(params: &GetContactsParams) -> (selected: Selection)
    ensures
        selected@ == selection_of(text_of(params.query), params.page),
{
    match &params.query {
        Some(term) => Selection::Search { term: term.clone() },
        None => {
            let number: u64 = match params.page {
                Some(number) => number as u64,
                None => 0,
            };
            Selection::Page { limit: PAGE_SIZE, offset: number * PAGE_SIZE }
        },
    }
}

/// The reply to a request for the contact list, given the rows that
/// were selected.
pub fn listing(
    params: &GetContactsParams,
    trigger: Option<ContactsInteraction>,
    rows: Vec<Contact>,
) -> (reply: Reply)
    ensures
        reply@ == listing_of(text_of(params.query), params.page, trigger, views(rows@)),
{
    if trigger.is_some() {
        return Reply::Rows(rows);
    }
    let search = match &params.query {
        Some(term) => term.clone(),
        None => String::new(),
    };
    let number: u64 = match params.page {
        Some(number) => number as u64,
        None => 0,
    };
    let more = if rows.len() as u64 >= PAGE_SIZE {
        Some(page_link(number + 1))
    } else {
        None
    };
    Reply::Contacts(ContactsPage { search, rows, more })
}

/// The pattern by which a database that matches with `LIKE` finds the
/// names that hold `term` anywhere: `%`, the term with `%`, `_` and `\`
/// escaped, then `%`.
pub fn name_pattern(term: &str) -> (pattern: String)
    ensures
        pattern@ == name_pattern_of(term@),
{
    let inner = escape(term);
    let pattern = String::from_str("%").concat(inner.as_str()).concat("%");
    proof {
        reveal_strlit("%");
        assert(pattern@ =~= name_pattern_of(term@));
    }
    pattern
}

/// The line that tells how many contacts there are.
pub fn count_text(count: u64) -> (text: String)
    ensures
        text@ == count_text_of(count as nat),
{
    let number = decimal_string(count);
    String::from_str("(").concat(number.as_str()).concat(" total Contacts)")
}

fn field(value: Option<String>, error: Option<&'static str>) -> (field: Field)
    ensures
        field@ == field_of(text_of(value), message_of(error)),
{
    let value = match value {
        Some(text) => text,
        None => String::new(),
    };
    Field { value, error }
}

/// The form for a new contact, showing what was entered and, beside each
/// field, its message.
pub fn new_contact_form(contact: Form, errors: Errors) -> (form: ContactForm)
    ensures
        form@ == new_form_of(contact@, errors@),
{
    let Form { first_name, last_name, phone, email_address } = contact;
    ContactForm {
        action: AddContact.to_string(),
        email_address: field(email_address, errors.email_address),
        first_name: field(first_name, errors.first_name),
        last_name: field(last_name, errors.last_name),
        phone: field(phone, errors.phone),
        email_check: None,
        delete: None,
    }
}

/// The form that edits the contact `id`, showing what was entered and,
/// beside each field, its message.
pub fn edit_contact_form(id: ContactId, contact: Form, errors: Errors) -> (form: ContactForm)
    ensures
        form@ == edit_form_of(id@, contact@, errors@),
{
    let Form { first_name, last_name, phone, email_address } = contact;
    ContactForm {
        action: UpdateContact { id }.to_string(),
        email_address: field(email_address, errors.email_address),
        first_name: field(first_name, errors.first_name),
        last_name: field(last_name, errors.last_name),
        phone: field(phone, errors.phone),
        email_check: Some(ContactEmail { id }.to_string()),
        delete: Some(ViewContact { id }.to_string()),
    }
}

/// The reply to a request for a contact that the table does not hold.
pub fn not_found() -> (reply: Reply)
    ensures
        reply@ == not_found_reply(),
{
    notice(Contacts.to_string(), Level::Warning, "Could not find contact")
}

/// The reply after a contact was created.
pub fn created() -> (reply: Reply)
    ensures
        reply@ == created_reply(),
{
    notice(Contacts.to_string(), Level::Success, "Created a new contact!")
}

/// The reply after the contact `id` was updated.
pub fn updated(id: ContactId) -> (reply: Reply)
    ensures
        reply@ == updated_reply(id@),
{
    notice(ViewContact { id }.to_string(), Level::Success, "Updated contact!")
}

/// The reply after one contact was deleted.
pub fn deleted(trigger: Option<DeleteTrigger>) -> (reply: Reply)
    ensures
        reply@ == deleted_reply(trigger),
{
    if trigger.is_some() {
        notice(Contacts.to_string(), Level::Success, "Deleted contact, yo!")
    } else {
        Reply::Text(String::new())
    }
}

/// The reply after the selected contacts were deleted.
pub fn deleted_all() -> (reply: Reply)
    ensures
        reply@ == deleted_all_reply(),
{
    notice(Contacts.to_string(), Level::Success, "Deleted contacts!")
}

/// The reply to a request for one contact's page, given what the table
/// holds under its identifier.
pub fn shown(found: Option<Contact>) -> (reply: Reply)
    ensures
        reply@ == shown_of(
            match found {
                Some(contact) => Some(contact@),
                None => None,
            },
        ),
{
    match found {
        Some(contact) => Reply::Contact(contact),
        None => not_found(),
    }
}

/// The reply to a request for the form that edits the contact `id`,
/// given what the table holds under that identifier.
pub fn edit_form(id: ContactId, found: Option<Contact>) -> (reply: Reply)
    ensures
        reply@ == edit_of(
            id@,
            match found {
                Some(contact) => Some(contact@),
                None => None,
            },
        ),
{
    match found {
        Some(contact) => Reply::Form(
            edit_contact_form(id, Form::from(contact), Errors::default()),
        ),
        None => not_found(),
    }
}

/// The reply to a request for one contact's page, given how the lookup
/// went: the page or the redirect of `shown` when it went through, and
/// the lookup's own error when it failed.
pub fn shown_after(lookup: Result<Option<Contact>, AppError>) -> (reply: Result<Reply, AppError>)
    ensures
        lookup matches Ok(found) ==> {
            &&& reply matches Ok(page)
            &&& page@ == shown_of(
                match found {
                    Some(contact) => Some(contact@),
                    None => None,
                },
            )
        },
        lookup matches Err(error) ==> reply matches Err(same) && same == error,
{
    match lookup {
        Ok(found) => Ok(shown(found)),
        Err(error) => Err(error),
    }
}

/// The reply to a request for the form that edits the contact `id`,
/// given how the lookup went: the form or the redirect of `edit_form`
/// when it went through, and the lookup's own error when it failed.
pub fn edit_form_after(id: ContactId, lookup: Result<Option<Contact>, AppError>) -> (reply: Result<
    Reply,
    AppError,
>)
    ensures
        lookup matches Ok(found) ==> {
            &&& reply matches Ok(page)
            &&& page@ == edit_of(
                id@,
                match found {
                    Some(contact) => Some(contact@),
                    None => None,
                },
            )
        },
        lookup matches Err(error) ==> reply matches Err(same) && same == error,
{
    match lookup {
        Ok(found) => Ok(edit_form(id, found)),
        Err(error) => Err(error),
    }
}

/// The address that a check is about, or `None` when it is empty or was
/// not sent: then there is nothing to look up.
pub fn probed_email(params: &EmailValidationParams) -> (email: Option<String>)
    ensures
        email matches Some(text) ==> text_of(params.email_address) == Some(text@) && text@.len()
            > 0,
        email is None ==> entered(text_of(params.email_address)).len() == 0,
{
    match &params.email_address {
        Some(text) => {
            if text.as_str().is_empty() {
                None
            } else {
                Some(text.clone())
            }
        },
        None => None,
    }
}

/// The answer to a check of an email address, given how many contacts
/// have it; `None` stands for an address that was empty or not sent.
pub fn email_answer(matching: Option<u64>) -> (text: String)
    ensures
        text@ == email_answer_of(
            match matching {
                Some(n) => Some(n as nat),
                None => None,
            },
        ),
{
    match matching {
        None => String::from_str("Email cannot be empty"),
        Some(n) => {
            if n == 0 {
                String::new()
            } else {
                String::from_str("Email must be unique")
            }
        },
    }
}

/// `GET /contacts`: the contacts that the request selects, as rows alone
/// when the search field sent it, else as the whole page.
pub fn contacts(
    store: &ContactStore,
    params: &GetContactsParams,
    trigger: Option<ContactsInteraction>,
) -> (reply: Reply)
    ensures
        reply@ == listing_of(
            text_of(params.query),
            params.page,
            trigger,
            select_of(store@, selection_of(text_of(params.query), params.page)),
        ),
{
    let rows = store.select(&selection(params));
    listing(params, trigger, rows)
}

/// `GET /contacts/count`: the line that tells how many contacts there are.
pub fn contacts_count(store: &ContactStore) -> (text: String)
    ensures
        text@ == count_text_of(store@.len()),
{
    count_text(store.count() as u64)
}

/// `GET /contacts/new`: the empty form.
pub fn contacts_new_get() -> (reply: Reply)
    ensures
        reply@ == ReplyView::Form(new_form_of(Form::default_view(), no_errors())),
{
    Reply::Form(new_contact_form(Form::default(), Errors::default()))
}

/// `POST /contacts/new`. A form that is not valid changes nothing and is
/// shown again, with what was entered and the messages. A valid form
/// adds a contact with those fields and redirects to the list with a
/// notice. An error comes only when the table has no identifier left;
/// nothing is added then.
pub fn contacts_new_post(store: &mut ContactStore, form: Form) -> (reply: Result<Reply, AppError>)
    ensures
        !valid(form@) ==> {
            &&& final(store)@ == old(store)@
            &&& reply matches Ok(page)
            &&& page@ == ReplyView::Form(new_form_of(form@, errors_of(form@)))
        },
        valid(form@) && old(store).last_id() < i32::MAX ==> {
            &&& final(store)@ == insert_of(
                old(store)@,
                old(store).last_id() + 1,
                validated(form@),
            )
            &&& reply matches Ok(redirect)
            &&& redirect@ == created_reply()
        },
        valid(form@) && old(store).last_id() >= i32::MAX ==> {
            &&& final(store)@ == old(store)@
            &&& reply matches Err(AppError::Diesel(detail))
            &&& detail@ == exhausted_text()
        },
        final(store).last_id() == if reply is Ok && valid(form@) {
            old(store).last_id() + 1
        } else {
            old(store).last_id()
        },
{
    match form.to_valid() {
        Err(errors) => Ok(Reply::Form(new_contact_form(form, errors))),
        Ok(attributes) => {
            match store.insert(attributes) {
                Some(_) => Ok(created()),
                None => Err(exhausted()),
            }
        },
    }
}

/// The contact `id`. It is an error to ask for one that the table does
/// not hold.
pub fn find_contact(store: &ContactStore, id: ContactId) -> (found: Result<Contact, AppError>)
    ensures
        found matches Ok(contact) ==> find_of(store@, id@) == Some(contact@),
        found matches Err(error) ==> {
            &&& find_of(store@, id@) is None
            &&& error matches AppError::Diesel(detail)
            &&& detail@ == missing_text()
        },
{
    match store.find(id) {
        Some(contact) => Ok(contact),
        None => Err(missing()),
    }
}

/// `GET /contacts/:id`: the contact's page, or a redirect to the list
/// with a warning when the table does not hold it.
pub fn contacts_view(store: &ContactStore, id: ContactId) -> (reply: Reply)
    ensures
        reply@ == shown_of(find_of(store@, id@)),
{
    shown(find_contact(store, id).ok())
}

/// `GET /contacts/:id/edit`: the form with the contact's fields, or a
/// redirect to the list with a warning when the table does not hold it.
pub fn contacts_edit_get(store: &ContactStore, id: ContactId) -> (reply: Reply)
    ensures
        reply@ == edit_of(id@, find_of(store@, id@)),
{
    edit_form(id, find_contact(store, id).ok())
}

/// `POST /contacts/:id/edit`. A form that is not valid changes nothing
/// and is shown again, with what was entered and the messages. A valid
/// form replaces the contact's fields and redirects to its page with a
/// notice; when the table does not hold the contact, nothing changes and
/// the reply is the same.
pub fn contacts_edit_post(store: &mut ContactStore, id: ContactId, form: Form) -> (reply: Reply)
    ensures
        final(store).last_id() == old(store).last_id(),
        !valid(form@) ==> {
            &&& final(store)@ == old(store)@
            &&& reply@ == ReplyView::Form(edit_form_of(id@, form@, errors_of(form@)))
        },
        valid(form@) ==> {
            &&& final(store)@ == update_of(old(store)@, id@, validated(form@))
            &&& reply@ == updated_reply(id@)
        },
{
    match form.to_valid() {
        Err(errors) => Reply::Form(edit_contact_form(id, form, errors)),
        Ok(attributes) => {
            let _ = store.update(id, attributes);
            updated(id)
        },
    }
}

/// `DELETE /contacts/:id`: deletes the contact, if the table holds it. The
/// reply does not depend on whether it did.
pub fn contacts_delete(store: &mut ContactStore, id: ContactId, trigger: Option<DeleteTrigger>) -> (reply:
    Reply)
    ensures
        final(store)@ == delete_of(old(store)@, id@),
        final(store).last_id() == old(store).last_id(),
        reply@ == deleted_reply(trigger),
{
    let _ = store.delete(id);
    deleted(trigger)
}

/// `DELETE /contacts`: deletes the selected contacts that the table holds.
/// The reply does not depend on how many it held.
pub fn contacts_delete_all(store: &mut ContactStore, to_delete: &DeleteContactList) -> (reply: Reply)
    ensures
        final(store)@ == delete_many_of(old(store)@, numbers(to_delete.selected_contact_ids@)),
        final(store).last_id() == old(store).last_id(),
        reply@ == deleted_all_reply(),
{
    let _ = store.delete_many(&to_delete.selected_contact_ids);
    deleted_all()
}

/// `GET /contacts/:id/email`: what is wrong with the address, as text.
/// An address that is empty or was not sent cannot be used; one that a
/// contact already has is not unique; for any other the text is empty.
pub fn contacts_email_get(store: &ContactStore, params: &EmailValidationParams) -> (reply: Reply)
    ensures
        reply@ == ReplyView::Text(
            email_answer_of(
                if entered(text_of(params.email_address)).len() == 0 {
                    None
                } else {
                    Some(with_email(store@, entered(text_of(params.email_address))).len())
                },
            ),
        ),
{
    match probed_email(params) {
        None => Reply::Text(email_answer(None)),
        Some(email) => {
            let matching = store.count_by_email(email.as_str());
            Reply::Text(email_answer(Some(matching as u64)))
        },
    }
}

} // verus!
