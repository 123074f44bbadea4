//! The table of stored keys and the statements that are run against it.
//!
//! A key is claimed in two statements, as in a relational store: one selects
//! an unclaimed row, the other marks that row as used on condition that it is
//! still unclaimed. The condition of the second statement, not the first
//! statement, is what lets at most one claimant have a row.

use vstd::prelude::*;
use crate::keys::{
    is_key_of, is_unclaimed, stored_row, Key, KeyView, KeyWithSecret, KeyWithSecretView,
    LookupKeyView, NewKey, NewKeyView,
};

verus! {

/// A table is in order when its rows are numbered from 1 in the order in which
/// they were stored, and no two rows carry the same secret.
pub open spec fn table_wf(rows: Seq<KeyView>) -> bool {
    &&& rows.len() <= i32::MAX
    &&& forall|i: int| 0 <= i < rows.len() ==> (#[trigger] rows[i]).id == i + 1
    &&& forall|i: int, j: int|
        0 <= i < rows.len() && 0 <= j < rows.len() && i != j ==> (#[trigger] rows[i]).secret != (
        #[trigger] rows[j]).secret
}

/// The rows that are unclaimed and stored for a chain tag and a suffix.
pub open spec fn unclaimed_rows(tag: Seq<char>, suffix: Seq<char>) -> spec_fn(KeyView) -> bool {
    |row: KeyView| is_unclaimed(row, tag, suffix)
}

/// The rows that are stored for a chain tag and a public key.
pub open spec fn rows_of_pubkey(tag: Seq<char>, pubkey: Seq<char>) -> spec_fn(KeyView) -> bool {
    |row: KeyView| is_key_of(row, tag, pubkey)
}

/// `i` is the place of the earliest row that `wanted` holds of.
pub open spec fn is_first(rows: Seq<KeyView>, wanted: spec_fn(KeyView) -> bool, i: int) -> bool {
    &&& 0 <= i < rows.len()
    &&& wanted(rows[i])
    &&& forall|j: int| 0 <= j < i ==> !wanted(#[trigger] rows[j])
}

/// The place of the earliest row that `wanted` holds of, if there is one.
pub open spec fn first_place(rows: Seq<KeyView>, wanted: spec_fn(KeyView) -> bool) -> Option<int> {
    if exists|i: int| is_first(rows, wanted, i) {
        Some(choose|i: int| is_first(rows, wanted, i))
    } else {
        None
    }
}

/// The earliest row that `wanted` holds of, if there is one.
pub open spec fn first_row(rows: Seq<KeyView>, wanted: spec_fn(KeyView) -> bool) -> Option<KeyView> {
    match first_place(rows, wanted) {
        Some(i) => Some(rows[i]),
        None => None,
    }
}

/// The first statement of a claim: the earliest unclaimed row of a chain tag
/// and a suffix.
pub open spec fn selected(rows: Seq<KeyView>, tag: Seq<char>, suffix: Seq<char>) -> Option<KeyView> {
    first_row(rows, unclaimed_rows(tag, suffix))
}

/// The second statement of a claim: the row numbered `id` is marked as used at
/// `now` and returned, on condition that it is there and still unclaimed. In
/// every other case the table stays as it is and no row is returned.
pub open spec fn marked(rows: Seq<KeyView>, id: int, now: int) -> (Seq<KeyView>, Option<KeyView>) {
    if 1 <= id <= rows.len() && rows[id - 1].used_at is None {
        let row = KeyView { used_at: Some(now), ..rows[id - 1] };
        (rows.update(id - 1, row), Some(row))
    } else {
        (rows, None)
    }
}

/// A claim: both statements, one after the other.
pub open spec fn claimed(rows: Seq<KeyView>, tag: Seq<char>, suffix: Seq<char>, now: int) -> (
    Seq<KeyView>,
    Option<KeyView>,
) {
    match selected(rows, tag, suffix) {
        Some(row) => marked(rows, row.id, now),
        None => (rows, None),
    }
}

/// Whether a new row can be stored: no row carries its secret yet, and a
/// number is left for it.
pub open spec fn insertable(rows: Seq<KeyView>, key: NewKeyView) -> bool {
    &&& rows.len() < i32::MAX
    &&& forall|i: int| 0 <= i < rows.len() ==> (#[trigger] rows[i]).secret != key.secret
}

/// An insert: the new row is stored at the end under the next number and
/// returned; where it cannot be stored the table stays as it is and no row is
/// returned.
pub open spec fn inserted(rows: Seq<KeyView>, key: NewKeyView, now: int) -> (
    Seq<KeyView>,
    Option<KeyView>,
) {
    if insertable(rows, key) {
        let row = stored_row(key, rows.len() as int + 1, now);
        (rows.push(row), Some(row))
    } else {
        (rows, None)
    }
}

/// A lookup for signing: the earliest row of a chain tag and a public key,
/// with the secret that it carries laid beside it.
pub open spec fn found(rows: Seq<KeyView>, tag: Seq<char>, pubkey: Seq<char>) -> Option<
    KeyWithSecretView,
> {
    match first_row(rows, rows_of_pubkey(tag, pubkey)) {
        Some(row) => Some(KeyWithSecretView { key: row, secret: row.secret }),
        None => None,
    }
}

/// A lookup for signing by the number of the row: the row of that number, if
/// it is stored for the chain tag, with the secret that it carries.
pub open spec fn found_by_id(rows: Seq<KeyView>, tag: Seq<char>, id: int) -> Option<
    KeyWithSecretView,
> {
    if 1 <= id <= rows.len() && rows[id - 1].chain == tag {
        Some(KeyWithSecretView { key: rows[id - 1], secret: rows[id - 1].secret })
    } else {
        None
    }
}

/// A lookup for signing, by public key or by number.
pub open spec fn found_by(rows: Seq<KeyView>, tag: Seq<char>, lookup: LookupKeyView) -> Option<
    KeyWithSecretView,
> {
    match lookup {
        LookupKeyView::Pubkey(pubkey) => found(rows, tag, pubkey),
        LookupKeyView::Id(id) => found_by_id(rows, tag, id),
    }
}

/// The content of an optional key.
pub open spec fn key_view(key: Option<Key>) -> Option<KeyView> {
    match key {
        Some(k) => Some(k@),
        None => None,
    }
}

/// The content of an optional key with its secret.
pub open spec fn secret_view(key: Option<KeyWithSecret>) -> Option<KeyWithSecretView> {
    match key {
        Some(k) => Some(k@),
        None => None,
    }
}

/// The earliest row that `wanted` holds of is at `i`, if `i` is such a place.
pub proof fn lemma_first_place_is(rows: Seq<KeyView>, wanted: spec_fn(KeyView) -> bool, i: int)
    requires
        is_first(rows, wanted, i),
    ensures
        first_place(rows, wanted) == Some(i),
        first_row(rows, wanted) == Some(rows[i]),
{
    let c = choose|c: int| is_first(rows, wanted, c);
    if c < i {
        assert(!wanted(rows[c]));
    } else if i < c {
        assert(!wanted(rows[i]));
    }
}

/// There is no earliest row that `wanted` holds of, if it holds of none.
pub proof fn lemma_first_place_none(rows: Seq<KeyView>, wanted: spec_fn(KeyView) -> bool)
    requires
        forall|j: int| 0 <= j < rows.len() ==> !wanted(#[trigger] rows[j]),
    ensures
        first_place(rows, wanted) is None,
        first_row(rows, wanted) is None,
{
}

/// The content of a list of keys.
pub open spec fn rows_view(rows: Seq<Key>) -> Seq<KeyView> {
    Seq::new(rows.len(), |i: int| rows[i]@)
}

/// The keys of the vault, in the order in which they were stored.
pub struct KeyTable {
    rows: Vec<Key>,
}

impl View for KeyTable {
    type V = Seq<KeyView>;

    closed spec fn view(&self) -> Seq<KeyView> {
        rows_view(self.rows@)
    }
}

impl KeyTable {
    #[verifier::type_invariant]
    spec fn inv(self) -> bool {
        table_wf(rows_view(self.rows@))
    }

    /// An empty table.
    pub fn new() -> (r: KeyTable)
        ensures
            r@ == Seq::<KeyView>::empty(),
            table_wf(r@),
    {
        let r = KeyTable { rows: Vec::new() };
        assert(r@ =~= Seq::<KeyView>::empty());
        r
    }

    /// Every table is in order. Calling this does nothing; it lets the caller
    /// know.
    pub fn in_order(&self)
        ensures
            table_wf(self@),
    {
        proof {
            use_type_invariant(self);
        }
    }

    /// The number of rows.
    pub fn len(&self) -> (r: usize)
        ensures
            r == self@.len(),
            table_wf(self@),
    {
        proof {
            use_type_invariant(self);
        }
        self.rows.len()
    }

    /// The first statement of a claim.
    pub fn select_unclaimed(&self, tag: &str, suffix: &str) -> (r: Option<Key>)
        ensures
            key_view(r) == selected(self@, tag@, suffix@),
            table_wf(self@),
    {
        proof {
            use_type_invariant(self);
        }
        let wanted_tag = tag.to_owned();
        let wanted_suffix = suffix.to_owned();
        let ghost wanted = unclaimed_rows(tag@, suffix@);
        let mut i: usize = 0;
        while i < self.rows.len()
            invariant
                i <= self.rows.len(),
                table_wf(self@),
                wanted_tag@ == tag@,
                wanted_suffix@ == suffix@,
                wanted == unclaimed_rows(tag@, suffix@),
                forall|j: int| 0 <= j < i ==> !wanted(#[trigger] self@[j]),
            decreases self.rows.len() - i,
        {
            assert(self@[i as int] == self.rows@[i as int]@);
            if self.rows[i].matches_unclaimed(&wanted_tag, &wanted_suffix) {
                proof {
                    lemma_first_place_is(self@, wanted, i as int);
                }
                return Some(self.rows[i].clone());
            }
            i += 1;
        }
        proof {
            lemma_first_place_none(self@, wanted);
        }
        None
    }

    /// The second statement of a claim.
    pub fn mark_used(&mut self, id: i32, now: i64) -> (r: Option<Key>)
        ensures
            (final(self)@, key_view(r)) == marked(old(self)@, id as int, now as int),
            table_wf(final(self)@),
    {
        proof {
            use_type_invariant(&*self);
        }
        if id >= 1 && id as usize <= self.rows.len() {
            let place = (id - 1) as usize;
            assert(self@[place as int] == self.rows@[place as int]@);
            if self.rows[place].used_at().is_none() {
                let row = self.rows[place].claimed(now);
                let kept = row.clone();
                let ghost before = self@;
                let mut rows: Vec<Key> = Vec::new();
                core::mem::swap(&mut self.rows, &mut rows);
                rows.set(place, row);
                proof {
                    assert(rows_view(rows@) =~= before.update(place as int, kept@));
                    lemma_marked_in_order(before, id as int, now as int);
                }
                core::mem::swap(&mut self.rows, &mut rows);
                return Some(kept);
            }
        }
        None
    }

    /// An insert. The row is stored as it is given: the secret is not sealed
    /// here.
    pub fn insert(&mut self, key: &NewKey, now: i64) -> (r: Option<Key>)
        ensures
            (final(self)@, key_view(r)) == inserted(old(self)@, key@, now as int),
            table_wf(final(self)@),
    {
        proof {
            use_type_invariant(&*self);
        }
        let n = self.rows.len();
        if n >= i32::MAX as usize {
            return None;
        }
        let secret = key.get_secret();
        let mut i: usize = 0;
        while i < n
            invariant
                i <= n,
                n == self.rows.len(),
                table_wf(self@),
                self@ == old(self)@,
                secret@ == key@.secret,
                forall|j: int| 0 <= j < i ==> (#[trigger] self@[j]).secret != key@.secret,
            decreases n - i,
        {
            assert(self@[i as int] == self.rows@[i as int]@);
            if self.rows[i].carries(&secret) {
                return None;
            }
            i += 1;
        }
        let row = key.stored((n + 1) as i32, now);
        let kept = row.clone();
        let ghost before = self@;
        let mut rows: Vec<Key> = Vec::new();
        core::mem::swap(&mut self.rows, &mut rows);
        rows.push(row);
        proof {
            assert(rows_view(rows@) =~= before.push(kept@));
            lemma_inserted_in_order(before, key@, now as int);
        }
        core::mem::swap(&mut self.rows, &mut rows);
        Some(kept)
    }

    /// A lookup for signing by the number of the row. The table stays as it
    /// is.
    pub fn find_by_id(&self, tag: &str, id: i32) -> (r: Option<KeyWithSecret>)
        ensures
            secret_view(r) == found_by_id(self@, tag@, id as int),
            table_wf(self@),
    {
        proof {
            use_type_invariant(self);
        }
        if id >= 1 && id as usize <= self.rows.len() {
            let place = (id - 1) as usize;
            assert(self@[place as int] == self.rows@[place as int]@);
            let wanted_tag = tag.to_owned();
            if self.rows[place].has_chain(&wanted_tag) {
                return Some(self.rows[place].with_secret());
            }
        }
        None
    }

    /// A lookup for signing. The table stays as it is.
    pub fn find_by_pubkey(&self, tag: &str, pubkey: &str) -> (r: Option<KeyWithSecret>)
        ensures
            secret_view(r) == found(self@, tag@, pubkey@),
            table_wf(self@),
    {
        proof {
            use_type_invariant(self);
        }
        let wanted_tag = tag.to_owned();
        let wanted_pubkey = pubkey.to_owned();
        let ghost wanted = rows_of_pubkey(tag@, pubkey@);
        let mut i: usize = 0;
        while i < self.rows.len()
            invariant
                i <= self.rows.len(),
                table_wf(self@),
                wanted_tag@ == tag@,
                wanted_pubkey@ == pubkey@,
                wanted == rows_of_pubkey(tag@, pubkey@),
                forall|j: int| 0 <= j < i ==> !wanted(#[trigger] self@[j]),
            decreases self.rows.len() - i,
        {
            assert(self@[i as int] == self.rows@[i as int]@);
            if self.rows[i].matches_pubkey(&wanted_tag, &wanted_pubkey) {
                proof {
                    lemma_first_place_is(self@, wanted, i as int);
                }
                return Some(self.rows[i].with_secret());
            }
            i += 1;
        }
        proof {
            lemma_first_place_none(self@, wanted);
        }
        None
    }
}

/// Marking a row as used leaves the table in order.
pub proof fn lemma_marked_in_order(rows: Seq<KeyView>, id: int, now: int)
    requires
        table_wf(rows),
    ensures
        table_wf(marked(rows, id, now).0),
        marked(rows, id, now).0.len() == rows.len(),
{
    let after = marked(rows, id, now).0;
    if after != rows {
        assert forall|i: int| 0 <= i < after.len() implies (#[trigger] after[i]).id == i + 1 by {
            assert(rows[i].id == i + 1);
        }
        assert forall|i: int, j: int|
            0 <= i < after.len() && 0 <= j < after.len() && i != j implies (#[trigger] after[i]).secret
            != (#[trigger] after[j]).secret by {
            assert(rows[i].secret != rows[j].secret);
        }
    }
}

/// An insert leaves the table in order.
pub proof fn lemma_inserted_in_order(rows: Seq<KeyView>, key: NewKeyView, now: int)
    requires
        table_wf(rows),
    ensures
        table_wf(inserted(rows, key, now).0),
{
    let after = inserted(rows, key, now).0;
    if insertable(rows, key) {
        assert forall|i: int| 0 <= i < after.len() implies (#[trigger] after[i]).id == i + 1 by {
            if i < rows.len() {
                assert(rows[i].id == i + 1);
            }
        }
        assert forall|i: int, j: int|
            0 <= i < after.len() && 0 <= j < after.len() && i != j implies (#[trigger] after[i]).secret
            != (#[trigger] after[j]).secret by {
            if i < rows.len() && j < rows.len() {
                assert(rows[i].secret != rows[j].secret);
            } else if i < rows.len() {
                assert(rows[i].secret != key.secret);
            } else {
                assert(rows[j].secret != key.secret);
            }
        }
    }
}

} // verus!
