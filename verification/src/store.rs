//! A model of the contacts table, held in memory. The site itself keeps
//! its contacts in a database; this table stands for it where the
//! handlers are specified and tried. Every operation is specified by the
//! function of `table` that bears its name.

use vstd::prelude::*;
use crate::model::Contact;
use crate::model::ContactAttributes;
use crate::model::ContactId;
use crate::model::ContactView;
use crate::table::ascending;
use crate::table::clip;
use crate::table::delete_many_of;
use crate::table::delete_of;
use crate::table::find_of;
use crate::table::holds;
use crate::table::in_name;
use crate::table::insert_of;
use crate::table::lemma_filter_ascending;
use crate::table::lemma_find_at;
use crate::table::page_of;
use crate::table::search_of;
use crate::table::select_of;
use crate::table::SelectionView;
use crate::table::update_of;
use crate::table::views;
use crate::table::with_email;
use crate::text::contains_ignoring_case;
use crate::text::same_text;

verus! {

/// Every identifier of the table lies between 1 and `last`.
pub open spec fn bounded(table: Seq<ContactView>, last: int) -> bool {
    forall|i: int| 0 <= i < table.len() ==> 1 <= (#[trigger] table[i]).id <= last
}

/// The numbers of a list of identifiers.
pub open spec fn numbers(ids: Seq<ContactId>) -> Seq<int> {
    ids.map_values(|id: ContactId| id@)
}

proof fn lemma_filter_bounded(
    table: Seq<ContactView>,
    keep: spec_fn(ContactView) -> bool,
    last: int,
)
    requires
        bounded(table, last),
    ensures
        bounded(table.filter(keep), last),
{
    let kept = table.filter(keep);
    assert forall|i: int| 0 <= i < kept.len() implies 1 <= (#[trigger] kept[i]).id <= last by {
        table.lemma_filter_contains_rev(keep, kept[i]);
        let k = choose|k: int| 0 <= k < table.len() && table[k] == kept[i];
        assert(1 <= table[k].id <= last);
    }
}

proof fn lemma_take_push(rows: Seq<Contact>, i: int)
    requires
        0 <= i < rows.len(),
    ensures
        views(rows).take(i + 1) == views(rows).take(i).push(rows[i]@),
{
    assert(views(rows).take(i + 1) =~= views(rows).take(i).push(rows[i]@));
}

/// What a request for the contact list selects.
#[derive(Debug)]
pub enum Selection {
    /// The rows whose first or last name holds the term.
    Search { term: String },
    /// At most `limit` rows, after skipping the first `offset`.
    Page { limit: u64, offset: u64 },
}

impl View for Selection {
    type V = SelectionView;

    open spec fn view(&self) -> SelectionView {
        match self {
            Selection::Search { term } => SelectionView::Search { term: term@ },
            Selection::Page { limit, offset } => SelectionView::Page {
                limit: *limit as nat,
                offset: *offset as nat,
            },
        }
    }
}

/// The contacts table: rows in ascending order of identifier, and the
/// last identifier that was handed out. Identifiers start at 1 and are
/// never handed out twice, also after a row is deleted.
pub struct ContactStore {
    rows: Vec<Contact>,
    last_id: i32,
}

impl View for ContactStore {
    type V = Seq<ContactView>;

    closed spec fn view(&self) -> Seq<ContactView> {
        views(self.rows@)
    }
}

impl ContactStore {
    #[verifier::type_invariant]
    spec fn well_formed(self) -> bool {
        &&& ascending(views(self.rows@))
        &&& bounded(views(self.rows@), self.last_id as int)
        &&& 0 <= self.last_id
    }

    /// The last identifier that was handed out; 0 before the first.
    pub closed spec fn last_id(&self) -> int {
        self.last_id as int
    }

    /// The empty table.
    pub fn new() -> (store: ContactStore)
        ensures
            store@ == Seq::<ContactView>::empty(),
            store.last_id() == 0,
    {
        let store = ContactStore { rows: Vec::new(), last_id: 0 };
        assert(store@ =~= Seq::<ContactView>::empty());
        store
    }

    /// Shows what holds of every table: its identifiers ascend and lie
    /// between 1 and the last one handed out.
    pub fn audit(&self)
        ensures
            ascending(self@),
            bounded(self@, self.last_id()),
    {
        proof {
            use_type_invariant(self);
        }
    }

    /// Adds a row with the next identifier and the given fields, and
    /// returns it. Returns `None`, and changes nothing, once every
    /// identifier has been handed out.
    pub fn insert(&mut self, attributes: ContactAttributes) -> (created: Option<Contact>)
        ensures
            old(self).last_id() < i32::MAX <==> created is Some,
            created matches Some(contact) ==> {
                &&& contact.id@ == old(self).last_id() + 1
                &&& contact.attributes == attributes
                &&& final(self)@ == insert_of(old(self)@, contact.id@, attributes@)
                &&& final(self).last_id() == contact.id@
            },
            created is None ==> final(self)@ == old(self)@ && final(self).last_id() == old(
                self,
            ).last_id(),
    {
        proof {
            use_type_invariant(&*self);
        }
        if self.last_id == i32::MAX {
            return None;
        }
        let id = ContactId(self.last_id + 1);
        let contact = Contact { id, attributes };
        let copy = contact.clone();
        let ghost before = views(self.rows@);
        let mut rows: Vec<Contact> = Vec::new();
        core::mem::swap(&mut rows, &mut self.rows);
        rows.push(contact);
        proof {
            assert(views(rows@) =~= before.push(contact@));
        }
        *self = ContactStore { rows, last_id: id.0 };
        Some(copy)
    }

    /// The row with the identifier `id`, if there is one.
    pub fn find(&self, id: ContactId) -> (found: Option<Contact>)
        ensures
            found matches Some(contact) ==> find_of(self@, id@) == Some(contact@),
            found is None ==> find_of(self@, id@) is None,
    {
        proof {
            use_type_invariant(self);
        }
        let mut i: usize = 0;
        while i < self.rows.len()
            invariant
                i <= self.rows.len(),
                ascending(views(self.rows@)),
                forall|k: int| 0 <= k < i ==> (#[trigger] views(self.rows@)[k]).id != id@,
            decreases self.rows.len() - i,
        {
            if self.rows[i].id.0 == id.0 {
                proof {
                    lemma_find_at(views(self.rows@), i as int);
                }
                return Some(self.rows[i].clone());
            }
            i += 1;
        }
        None
    }

    /// The number of rows.
    pub fn count(&self) -> (n: usize)
        ensures
            n == self@.len(),
    {
        self.rows.len()
    }

    /// Every row, in ascending order of identifier.
    pub fn all(&self) -> (rows: Vec<Contact>)
        ensures
            views(rows@) == self@,
    {
        let mut rows: Vec<Contact> = Vec::new();
        let mut i: usize = 0;
        while i < self.rows.len()
            invariant
                i <= self.rows.len(),
                views(rows@) == views(self.rows@).take(i as int),
            decreases self.rows.len() - i,
        {
            let ghost taken = views(rows@);
            rows.push(self.rows[i].clone());
            proof {
                assert(views(rows@) =~= taken.push(self.rows@[i as int]@));
                lemma_take_push(self.rows@, i as int);
            }
            i += 1;
        }
        proof {
            assert(views(self.rows@).take(i as int) =~= views(self.rows@));
        }
        rows
    }

    /// At most `limit` rows in ascending order of identifier, after
    /// skipping the first `offset`.
    pub fn page(&self, limit: u64, offset: u64) -> (rows: Vec<Contact>)
        ensures
            views(rows@) == page_of(self@, limit as nat, offset as nat),
    {
        let len = self.rows.len();
        let from: usize = if offset < len as u64 {
            offset as usize
        } else {
            len
        };
        let to: usize = if limit < (len - from) as u64 {
            from + limit as usize
        } else {
            len
        };
        assert(from == clip(self@, offset as nat));
        assert(to == clip(self@, (offset + limit) as nat));
        let mut rows: Vec<Contact> = Vec::new();
        let mut i: usize = from;
        while i < to
            invariant
                from <= i <= to <= self.rows.len(),
                views(rows@) == views(self.rows@).subrange(from as int, i as int),
            decreases to - i,
        {
            let ghost taken = views(rows@);
            rows.push(self.rows[i].clone());
            proof {
                assert(views(rows@) =~= taken.push(self.rows@[i as int]@));
                assert(views(rows@) =~= views(self.rows@).subrange(from as int, i + 1));
            }
            i += 1;
        }
        rows
    }

    /// The rows whose first or last name holds `term`, the case of ASCII
    /// letters left out of account, in ascending order of identifier.
    pub fn search(&self, term: &str) -> (rows: Vec<Contact>)
        ensures
            views(rows@) == search_of(self@, term@),
    {
        let ghost keep = |contact: ContactView| in_name(contact, term@);
        let mut rows: Vec<Contact> = Vec::new();
        let mut i: usize = 0;
        proof {
            reveal(Seq::filter);
            assert(views(self.rows@).take(0) =~= Seq::<ContactView>::empty());
            assert(views(rows@) =~= Seq::<ContactView>::empty());
        }
        while i < self.rows.len()
            invariant
                i <= self.rows.len(),
                keep == |contact: ContactView| in_name(contact, term@),
                views(rows@) == views(self.rows@).take(i as int).filter(keep),
            decreases self.rows.len() - i,
        {
            let row = &self.rows[i];
            let hit = contains_ignoring_case(row.attributes.first_name.as_str(), term)
                || contains_ignoring_case(row.attributes.last_name.as_str(), term);
            proof {
                lemma_take_push(self.rows@, i as int);
                views(self.rows@).take(i as int).lemma_filter_push(row@, keep);
            }
            if hit {
                let ghost before = views(rows@);
                rows.push(row.clone());
                proof {
                    assert(views(rows@) =~= before.push(row@));
                }
            }
            i += 1;
        }
        proof {
            assert(views(self.rows@).take(i as int) =~= views(self.rows@));
        }
        rows
    }

    /// The rows that `selection` asks for, in ascending order of
    /// identifier.
    pub fn select(&self, selection: &Selection) -> (rows: Vec<Contact>)
        ensures
            views(rows@) == select_of(self@, selection@),
    {
        match selection {
            Selection::Search { term } => self.search(term.as_str()),
            Selection::Page { limit, offset } => self.page(*limit, *offset),
        }
    }

    /// The number of rows whose email address is exactly `email`.
    pub fn count_by_email(&self, email: &str) -> (n: usize)
        ensures
            n == with_email(self@, email@).len(),
    {
        let ghost keep = |contact: ContactView| contact.attributes.email_address == email@;
        let mut n: usize = 0;
        let mut i: usize = 0;
        proof {
            reveal(Seq::filter);
            assert(views(self.rows@).take(0) =~= Seq::<ContactView>::empty());
        }
        while i < self.rows.len()
            invariant
                i <= self.rows.len(),
                n <= i,
                keep == |contact: ContactView| contact.attributes.email_address == email@,
                n == views(self.rows@).take(i as int).filter(keep).len(),
            decreases self.rows.len() - i,
        {
            let row = &self.rows[i];
            proof {
                lemma_take_push(self.rows@, i as int);
                views(self.rows@).take(i as int).lemma_filter_push(row@, keep);
            }
            if same_text(row.attributes.email_address.as_str(), email) {
                n += 1;
            }
            i += 1;
        }
        proof {
            assert(views(self.rows@).take(i as int) =~= views(self.rows@));
        }
        n
    }

    /// Replaces the fields of the row `id` and returns the row as it now
    /// stands. Returns `None`, and changes nothing, if no row has that
    /// identifier.
    pub fn update(&mut self, id: ContactId, attributes: ContactAttributes) -> (updated: Option<
        Contact,
    >)
        ensures
            final(self)@ == update_of(old(self)@, id@, attributes@),
            final(self).last_id() == old(self).last_id(),
            holds(old(self)@, id@) <==> updated is Some,
            updated matches Some(contact) ==> contact.id == id && contact.attributes == attributes,
    {
        proof {
            use_type_invariant(&*self);
        }
        let ghost before = views(self.rows@);
        let mut rows: Vec<Contact> = Vec::new();
        let mut updated: Option<Contact> = None;
        let mut i: usize = 0;
        while i < self.rows.len()
            invariant
                i <= self.rows.len(),
                before == views(self.rows@),
                rows@.len() == i,
                views(rows@) == update_of(before, id@, attributes@).take(i as int),
                updated is Some <==> holds(before.take(i as int), id@),
                updated matches Some(contact) ==> contact.id == id && contact.attributes
                    == attributes,
            decreases self.rows.len() - i,
        {
            let row = &self.rows[i];
            if row.id.0 == id.0 {
                let replaced = Contact { id, attributes: attributes.clone() };
                updated = Some(replaced.clone());
                rows.push(replaced);
                proof {
                    assert(before.take(i + 1)[i as int].id == id@);
                }
            } else {
                rows.push(row.clone());
                proof {
                    if holds(before.take(i + 1), id@) {
                        let k = choose|k: int|
                            0 <= k < before.take(i + 1).len() && (#[trigger] before.take(
                                i + 1,
                            )[k]).id == id@;
                        assert(before.take(i as int)[k].id == id@);
                    }
                    if holds(before.take(i as int), id@) {
                        let k = choose|k: int|
                            0 <= k < before.take(i as int).len() && (#[trigger] before.take(
                                i as int,
                            )[k]).id == id@;
                        assert(before.take(i + 1)[k].id == id@);
                    }
                }
            }
            proof {
                assert(views(rows@) =~= update_of(before, id@, attributes@).take(i + 1));
            }
            i += 1;
        }
        proof {
            assert(before.take(i as int) =~= before);
            assert(update_of(before, id@, attributes@).take(i as int) =~= update_of(
                before,
                id@,
                attributes@,
            ));
            let after = update_of(before, id@, attributes@);
            assert forall|a: int, b: int| 0 <= a < b < after.len() implies after[a].id
                < after[b].id by {
                assert(before[a].id < before[b].id);
            }
            assert forall|k: int| 0 <= k < after.len() implies 1 <= (#[trigger] after[k]).id
                <= self.last_id by {
                assert(1 <= before[k].id <= self.last_id);
            }
        }
        *self = ContactStore { rows, last_id: self.last_id };
        updated
    }

    /// Deletes the row `id` and returns how many rows went: one, or none
    /// if no row has that identifier.
    pub fn delete(&mut self, id: ContactId) -> (removed: usize)
        ensures
            final(self)@ == delete_of(old(self)@, id@),
            final(self).last_id() == old(self).last_id(),
            removed == old(self)@.len() - final(self)@.len(),
    {
        let mut ids: Vec<ContactId> = Vec::new();
        ids.push(id);
        proof {
            let one = |contact: ContactView| contact.id != id@;
            let listed = |contact: ContactView| !numbers(ids@).contains(contact.id);
            assert(numbers(ids@) =~= seq![id@]);
            assert forall|contact: ContactView| #[trigger] one(contact) == listed(contact) by {
                assert(seq![id@][0] == id@);
            }
            assert(one =~= listed);
        }
        self.delete_many(&ids)
    }

    /// Deletes every row whose identifier is among `ids` and returns how
    /// many rows went. Identifiers that name no row are passed over.
    pub fn delete_many(&mut self, ids: &Vec<ContactId>) -> (removed: usize)
        ensures
            final(self)@ == delete_many_of(old(self)@, numbers(ids@)),
            final(self).last_id() == old(self).last_id(),
            removed == old(self)@.len() - final(self)@.len(),
    {
        proof {
            use_type_invariant(&*self);
        }
        let ghost before = views(self.rows@);
        let ghost keep = |contact: ContactView| !numbers(ids@).contains(contact.id);
        let mut rows: Vec<Contact> = Vec::new();
        let mut removed: usize = 0;
        let mut i: usize = 0;
        proof {
            reveal(Seq::filter);
            assert(before.take(0) =~= Seq::<ContactView>::empty());
            assert(views(rows@) =~= Seq::<ContactView>::empty());
        }
        while i < self.rows.len()
            invariant
                i <= self.rows.len(),
                before == views(self.rows@),
                keep == |contact: ContactView| !numbers(ids@).contains(contact.id),
                views(rows@) == before.take(i as int).filter(keep),
                removed + rows@.len() == i,
            decreases self.rows.len() - i,
        {
            let row = &self.rows[i];
            proof {
                lemma_take_push(self.rows@, i as int);
                before.take(i as int).lemma_filter_push(row@, keep);
            }
            if !listed(ids, row.id) {
                let ghost kept = views(rows@);
                rows.push(row.clone());
                proof {
                    assert(views(rows@) =~= kept.push(row@));
                }
            } else {
                removed += 1;
            }
            i += 1;
        }
        proof {
            assert(before.take(i as int) =~= before);
            lemma_filter_ascending(before, keep);
            lemma_filter_bounded(before, keep, self.last_id as int);
        }
        *self = ContactStore { rows, last_id: self.last_id };
        removed
    }
}

/// Whether `id` is among `ids`.
fn listed(ids: &Vec<ContactId>, id: ContactId) -> (found: bool)
    ensures
        found == numbers(ids@).contains(id@),
{
    let mut k: usize = 0;
    while k < ids.len()
        invariant
            k <= ids.len(),
            forall|j: int| 0 <= j < k ==> numbers(ids@)[j] != id@,
        decreases ids.len() - k,
    {
        if ids[k].0 == id.0 {
            assert(numbers(ids@)[k as int] == id@);
            return true;
        }
        k += 1;
    }
    false
}

} // verus!
