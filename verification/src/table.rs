//! The contacts table as a mathematical value: the sequence of its rows,
//! ordered by identifier. Each statement that the site sends to its
//! database is stated here as a function on that sequence.

use vstd::prelude::*;
use crate::model::AttributesView;
use crate::model::Contact;
use crate::model::ContactView;
use crate::text::contains_folded;
use crate::text::contains_text;
use crate::text::folded;
use crate::text::lemma_folding_keeps_occurrences;

verus! {

/// The rows of a table, each as a value.
pub open spec fn views(rows: Seq<Contact>) -> Seq<ContactView> {
    rows.map_values(|contact: Contact| contact@)
}

/// The rows stand in strictly ascending order of identifier, so no
/// identifier occurs twice.
pub open spec fn ascending(table: Seq<ContactView>) -> bool {
    forall|i: int, j: int| 0 <= i < j < table.len() ==> table[i].id < table[j].id
}

/// Some row of the table has the identifier `id`.
pub open spec fn holds(table: Seq<ContactView>, id: int) -> bool {
    exists|i: int| 0 <= i < table.len() && (#[trigger] table[i]).id == id
}

/// The row with the identifier `id`, if the table has one.
pub open spec fn find_of(table: Seq<ContactView>, id: int) -> Option<ContactView> {
    if holds(table, id) {
        Some(table[choose|i: int| 0 <= i < table.len() && (#[trigger] table[i]).id == id])
    } else {
        None
    }
}

/// The search term stands in the first name or in the last name, the
/// case of ASCII letters left out of account.
pub open spec fn in_name(contact: ContactView, term: Seq<char>) -> bool {
    ||| contains_folded(contact.attributes.first_name, term)
    ||| contains_folded(contact.attributes.last_name, term)
}

/// The rows whose first or last name holds the term, in table order.
pub open spec fn search_of(table: Seq<ContactView>, term: Seq<char>) -> Seq<ContactView> {
    table.filter(|contact: ContactView| in_name(contact, term))
}

/// Where a page starts or ends: `position`, or the table's end if that
/// comes first.
pub open spec fn clip(table: Seq<ContactView>, position: nat) -> int {
    if position < table.len() {
        position as int
    } else {
        table.len() as int
    }
}

/// At most `limit` rows, after skipping the first `offset`.
pub open spec fn page_of(table: Seq<ContactView>, limit: nat, offset: nat) -> Seq<ContactView> {
    table.subrange(clip(table, offset), clip(table, offset + limit))
}

/// The table with a new row at its end.
pub open spec fn insert_of(table: Seq<ContactView>, id: int, attributes: AttributesView) -> Seq<
    ContactView,
> {
    table.push(ContactView { id, attributes })
}

/// The table with the fields of the row `id` replaced; unchanged if no row
/// has that identifier.
pub open spec fn update_of(table: Seq<ContactView>, id: int, attributes: AttributesView) -> Seq<
    ContactView,
> {
    table.map_values(
        |contact: ContactView|
            if contact.id == id {
                ContactView { id, attributes }
            } else {
                contact
            },
    )
}

/// The table without the row `id`.
pub open spec fn delete_of(table: Seq<ContactView>, id: int) -> Seq<ContactView> {
    table.filter(|contact: ContactView| contact.id != id)
}

/// The table without the rows whose identifier is among `ids`.
pub open spec fn delete_many_of(table: Seq<ContactView>, ids: Seq<int>) -> Seq<ContactView> {
    table.filter(|contact: ContactView| !ids.contains(contact.id))
}

/// The rows whose email address is exactly `email`.
pub open spec fn with_email(table: Seq<ContactView>, email: Seq<char>) -> Seq<ContactView> {
    table.filter(|contact: ContactView| contact.attributes.email_address == email)
}

/// What a request for the contact list selects.
pub enum SelectionView {
    /// The rows whose first or last name holds the term.
    Search { term: Seq<char> },
    /// At most `limit` rows, after skipping the first `offset`.
    Page { limit: nat, offset: nat },
}

/// The rows that a selection gives, in table order.
pub open spec fn select_of(table: Seq<ContactView>, selection: SelectionView) -> Seq<ContactView> {
    match selection {
        SelectionView::Search { term } => search_of(table, term),
        SelectionView::Page { limit, offset } => page_of(table, limit, offset),
    }
}

/// In an ascending table an identifier names at most one row, so the row
/// at `i` is the one that `find_of` gives for its identifier.
pub proof fn lemma_find_at(table: Seq<ContactView>, i: int)
    requires
        ascending(table),
        0 <= i < table.len(),
    ensures
        find_of(table, table[i].id) == Some(table[i]),
{
    let id = table[i].id;
    assert(holds(table, id));
    let k = choose|k: int| 0 <= k < table.len() && (#[trigger] table[k]).id == id;
    if k < i {
        assert(table[k].id < table[i].id);
    } else if i < k {
        assert(table[i].id < table[k].id);
    }
}

/// Filtering keeps the order of an ascending table.
pub proof fn lemma_filter_ascending(table: Seq<ContactView>, keep: spec_fn(ContactView) -> bool)
    requires
        ascending(table),
    ensures
        ascending(table.filter(keep)),
    decreases table.len(),
{
    reveal(Seq::filter);
    if table.len() > 0 {
        let front = table.drop_last();
        lemma_filter_ascending(front, keep);
        let kept = front.filter(keep);
        if keep(table.last()) {
            assert forall|i: int, j: int| 0 <= i < j < kept.len() + 1 implies kept.push(
                table.last(),
            )[i].id < kept.push(table.last())[j].id by {
                if j == kept.len() {
                    front.lemma_filter_contains_rev(keep, kept[i]);
                    let k = choose|k: int| 0 <= k < front.len() && front[k] == kept[i];
                    assert(table[k].id < table[table.len() - 1].id);
                }
            }
        }
    }
}

/// A row that was added under an identifier above all others is found
/// under that identifier, with the fields it was given, and the table
/// stays ascending.
pub proof fn lemma_inserted_is_found(table: Seq<ContactView>, id: int, attributes: AttributesView)
    requires
        ascending(table),
        forall|i: int| 0 <= i < table.len() ==> (#[trigger] table[i]).id < id,
    ensures
        ascending(insert_of(table, id, attributes)),
        find_of(insert_of(table, id, attributes), id) == Some(ContactView { id, attributes }),
        forall|other: int|
            other != id ==> find_of(insert_of(table, id, attributes), other) == find_of(
                table,
                other,
            ),
{
    let after = insert_of(table, id, attributes);
    assert forall|i: int, j: int| 0 <= i < j < after.len() implies after[i].id < after[j].id by {
        if j < table.len() {
            assert(table[i].id < table[j].id);
        } else {
            assert(table[i].id < id);
        }
    }
    lemma_find_at(after, table.len() as int);
    assert forall|other: int| other != id implies find_of(after, other) == find_of(
        table,
        other,
    ) by {
        if holds(table, other) {
            let k = choose|k: int| 0 <= k < table.len() && (#[trigger] table[k]).id == other;
            assert(after[k] == table[k]);
            lemma_find_at(after, k);
            lemma_find_at(table, k);
        } else if holds(after, other) {
            let k = choose|k: int| 0 <= k < after.len() && (#[trigger] after[k]).id == other;
            assert(k < table.len());
            assert(table[k].id == other);
        }
    }
}

/// A search gives exactly the rows whose first or last name holds the
/// term: each such row is in the result, and each row of the result is
/// such a row of the table. Phone and email address play no part.
pub proof fn lemma_search_is_by_name(table: Seq<ContactView>, term: Seq<char>)
    ensures
        forall|i: int|
            0 <= i < table.len() && in_name(table[i], term) ==> search_of(table, term).contains(
                #[trigger] table[i],
            ),
        forall|k: int|
            0 <= k < search_of(table, term).len() ==> in_name(
                #[trigger] search_of(table, term)[k],
                term,
            ) && table.contains(search_of(table, term)[k]),
        (forall|i: int| 0 <= i < table.len() ==> !in_name(#[trigger] table[i], term))
            ==> search_of(table, term).len() == 0,
{
    let keep = |contact: ContactView| in_name(contact, term);
    let found = table.filter(keep);
    assert forall|i: int| 0 <= i < table.len() && in_name(table[i], term) implies found.contains(
        #[trigger] table[i],
    ) by {
        table.lemma_filter_contains(keep, i);
    }
    assert forall|k: int| 0 <= k < found.len() implies in_name(#[trigger] found[k], term)
        && table.contains(found[k]) by {
        table.lemma_filter_pred(keep, k);
        table.lemma_filter_contains_rev(keep, found[k]);
    }
    if forall|i: int| 0 <= i < table.len() ==> !in_name(#[trigger] table[i], term) {
        if found.len() > 0 {
            table.lemma_filter_pred(keep, 0);
            table.lemma_filter_contains_rev(keep, found[0]);
            let i = choose|i: int| 0 <= i < table.len() && table[i] == found[0];
            assert(!in_name(table[i], term));
        }
    }
}

/// A contact whose first or last name holds the term letter for letter is
/// among those that a search for the term gives.
pub proof fn lemma_search_finds_a_part_of_a_name(
    table: Seq<ContactView>,
    term: Seq<char>,
    i: int,
)
    requires
        0 <= i < table.len(),
        contains_text(table[i].attributes.first_name, term) || contains_text(
            table[i].attributes.last_name,
            term,
        ),
    ensures
        search_of(table, term).contains(table[i]),
{
    if contains_text(table[i].attributes.first_name, term) {
        lemma_folding_keeps_occurrences(table[i].attributes.first_name, term);
    } else {
        lemma_folding_keeps_occurrences(table[i].attributes.last_name, term);
    }
    lemma_search_is_by_name(table, term);
}

/// Two terms that differ only in the case of ASCII letters find the same
/// contacts.
pub proof fn lemma_search_ignores_case(table: Seq<ContactView>, term: Seq<char>, other: Seq<char>)
    requires
        folded(term) == folded(other),
    ensures
        search_of(table, term) == search_of(table, other),
{
    let by_term = |contact: ContactView| in_name(contact, term);
    let by_other = |contact: ContactView| in_name(contact, other);
    assert(by_term =~= by_other);
}

/// A page holds at most `limit` rows, each of them a row of the table.
pub proof fn lemma_page_is_bounded(table: Seq<ContactView>, limit: nat, offset: nat)
    ensures
        page_of(table, limit, offset).len() <= limit,
        forall|k: int|
            0 <= k < page_of(table, limit, offset).len() ==> table.contains(
                #[trigger] page_of(table, limit, offset)[k],
            ),
{
    let page = page_of(table, limit, offset);
    let from = clip(table, offset);
    assert forall|k: int| 0 <= k < page.len() implies table.contains(#[trigger] page[k]) by {
        assert(table[from + k] == page[k]);
    }
}

/// A page of an ascending table is ascending.
pub proof fn lemma_page_is_ascending(table: Seq<ContactView>, limit: nat, offset: nat)
    requires
        ascending(table),
    ensures
        ascending(page_of(table, limit, offset)),
{
    let page = page_of(table, limit, offset);
    let from = clip(table, offset);
    assert forall|i: int, j: int| 0 <= i < j < page.len() implies page[i].id < page[j].id by {
        assert(table[from + i].id < table[from + j].id);
    }
}

/// Every identifier on page `number` is below every identifier on the
/// page after it, so the two pages share no contact.
pub proof fn lemma_pages_are_apart(table: Seq<ContactView>, size: nat, number: nat)
    requires
        ascending(table),
    ensures
        ({
            let page = page_of(table, size, number * size);
            let next = page_of(table, size, (number + 1) * size);
            forall|i: int, j: int|
                0 <= i < page.len() && 0 <= j < next.len() ==> (#[trigger] page[i]).id < (
                #[trigger] next[j]).id
        }),
{
    let page = page_of(table, size, number * size);
    let next = page_of(table, size, (number + 1) * size);
    assert((number + 1) * size == number * size + size) by (nonlinear_arith);
    let from = clip(table, number * size);
    let then = clip(table, (number + 1) * size);
    assert forall|i: int, j: int| 0 <= i < page.len() && 0 <= j < next.len() implies (
    #[trigger] page[i]).id < (#[trigger] next[j]).id by {
        assert(table[from + i].id < table[then + j].id);
    }
}

/// Deleting an identifier that the table does not hold changes nothing.
pub proof fn lemma_delete_absent(table: Seq<ContactView>, id: int)
    requires
        !holds(table, id),
    ensures
        delete_of(table, id) == table,
{
    let keep = |contact: ContactView| contact.id != id;
    lemma_filter_keeps_all(table, keep);
}

/// Deleting identifiers of which the table holds none changes nothing.
pub proof fn lemma_delete_many_absent(table: Seq<ContactView>, ids: Seq<int>)
    requires
        forall|k: int| 0 <= k < ids.len() ==> !holds(table, #[trigger] ids[k]),
    ensures
        delete_many_of(table, ids) == table,
{
    let keep = |contact: ContactView| !ids.contains(contact.id);
    assert forall|i: int| 0 <= i < table.len() implies keep(#[trigger] table[i]) by {
        if ids.contains(table[i].id) {
            let k = choose|k: int| 0 <= k < ids.len() && ids[k] == table[i].id;
            assert(!holds(table, ids[k]));
        }
    }
    lemma_filter_keeps_all(table, keep);
}

/// After a delete the identifier is gone, and every other row is found
/// as before.
pub proof fn lemma_deleted_is_gone(table: Seq<ContactView>, id: int)
    requires
        ascending(table),
    ensures
        ascending(delete_of(table, id)),
        find_of(delete_of(table, id), id) is None,
        forall|other: int|
            other != id ==> find_of(delete_of(table, id), other) == find_of(table, other),
{
    let keep = |contact: ContactView| contact.id != id;
    let after = table.filter(keep);
    lemma_filter_ascending(table, keep);
    if holds(after, id) {
        let k = choose|k: int| 0 <= k < after.len() && (#[trigger] after[k]).id == id;
        table.lemma_filter_pred(keep, k);
    }
    assert forall|other: int| other != id implies find_of(after, other) == find_of(
        table,
        other,
    ) by {
        if holds(table, other) {
            let i = choose|i: int| 0 <= i < table.len() && (#[trigger] table[i]).id == other;
            table.lemma_filter_contains(keep, i);
            let k = choose|k: int| 0 <= k < after.len() && after[k] == table[i];
            lemma_find_at(after, k);
            lemma_find_at(table, i);
        } else if holds(after, other) {
            let k = choose|k: int| 0 <= k < after.len() && (#[trigger] after[k]).id == other;
            table.lemma_filter_contains_rev(keep, after[k]);
            let i = choose|i: int| 0 <= i < table.len() && table[i] == after[k];
            assert(table[i].id == other);
        }
    }
}

/// An update keeps every identifier in its place; the row it names gets
/// the new fields and every other row keeps its own.
pub proof fn lemma_updated_is_found(table: Seq<ContactView>, id: int, attributes: AttributesView)
    requires
        ascending(table),
    ensures
        ascending(update_of(table, id, attributes)),
        update_of(table, id, attributes).len() == table.len(),
        holds(table, id) ==> find_of(update_of(table, id, attributes), id) == Some(
            ContactView { id, attributes },
        ),
        !holds(table, id) ==> update_of(table, id, attributes) == table,
        forall|other: int|
            other != id ==> find_of(update_of(table, id, attributes), other) == find_of(
                table,
                other,
            ),
{
    let after = update_of(table, id, attributes);
    assert forall|i: int, j: int| 0 <= i < j < after.len() implies after[i].id < after[j].id by {
        assert(table[i].id < table[j].id);
    }
    if holds(table, id) {
        let i = choose|i: int| 0 <= i < table.len() && (#[trigger] table[i]).id == id;
        assert(after[i] == ContactView { id, attributes });
        lemma_find_at(after, i);
    } else {
        assert forall|i: int| 0 <= i < table.len() implies after[i] == table[i] by {
            assert(table[i].id != id);
        }
        assert(after =~= table);
    }
    assert forall|other: int| other != id implies find_of(after, other) == find_of(
        table,
        other,
    ) by {
        if holds(table, other) {
            let i = choose|i: int| 0 <= i < table.len() && (#[trigger] table[i]).id == other;
            assert(after[i] == table[i]);
            lemma_find_at(after, i);
            lemma_find_at(table, i);
        } else if holds(after, other) {
            let k = choose|k: int| 0 <= k < after.len() && (#[trigger] after[k]).id == other;
            assert(table[k].id == other);
        }
    }
}

proof fn lemma_filter_keeps_all(table: Seq<ContactView>, keep: spec_fn(ContactView) -> bool)
    requires
        forall|i: int| 0 <= i < table.len() ==> keep(#[trigger] table[i]),
    ensures
        table.filter(keep) == table,
    decreases table.len(),
{
    reveal(Seq::filter);
    if table.len() > 0 {
        let front = table.drop_last();
        assert forall|i: int| 0 <= i < front.len() implies keep(#[trigger] front[i]) by {
            assert(front[i] == table[i]);
        }
        lemma_filter_keeps_all(front, keep);
        assert(keep(table[table.len() - 1]));
        assert(front.push(table.last()) =~= table);
    } else {
        assert(table.filter(keep) =~= table);
    }
}

} // verus!
