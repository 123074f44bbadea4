//! What holds of claims: a row is handed out at most once, whether the
//! claimants come one after the other or race, and a claimed row stays
//! claimed.

use vstd::prelude::*;
use crate::chain::{chain_tag, Chain};
use crate::database::{claim_post, create_post, kept_as, kept_row};
use crate::error::DatabaseError;
use crate::keys::{is_unclaimed, Key, KeyView, NewKeyView};
use crate::store::{
    claimed, first_place, inserted, is_first, key_view, lemma_first_place_is,
    lemma_first_place_none, lemma_inserted_in_order, lemma_marked_in_order, marked, selected,
    table_wf, unclaimed_rows,
};

verus! {

/// The row at `i` is the only unclaimed row of a chain tag and a suffix.
pub open spec fn sole_unclaimed(rows: Seq<KeyView>, tag: Seq<char>, suffix: Seq<char>, i: int) -> bool {
    &&& 0 <= i < rows.len()
    &&& is_unclaimed(rows[i], tag, suffix)
    &&& forall|j: int|
        0 <= j < rows.len() && j != i ==> !is_unclaimed(#[trigger] rows[j], tag, suffix)
}

/// Nothing was taken back or rewritten between two states of the table: every
/// earlier row is still there, either as it was or, if it was unclaimed, with
/// nothing changed but the time at which it has since been claimed.
pub open spec fn claims_kept(before: Seq<KeyView>, after: Seq<KeyView>) -> bool {
    &&& before.len() <= after.len()
    &&& forall|i: int|
        0 <= i < before.len() ==> {
            ||| (#[trigger] after[i]) == before[i]
            ||| (before[i].used_at is None && after[i].used_at is Some && after[i] == KeyView {
                used_at: after[i].used_at,
                ..before[i]
            })
        }
}

/// The order in which the statements of two racing claims, `a` and `b`, reach
/// the table. Each claim selects before it marks; the two selections change
/// nothing, so their order among themselves makes no difference.
pub enum Schedule {
    /// `a` runs both statements, then `b` runs both.
    AThenB,
    /// `b` runs both statements, then `a` runs both.
    BThenA,
    /// Both select, then `a` marks, then `b` marks.
    BothSelectAMarksFirst,
    /// Both select, then `b` marks, then `a` marks.
    BothSelectBMarksFirst,
}

/// The second statement of a claim, run for what the first one selected.
pub open spec fn marked_selection(rows: Seq<KeyView>, selection: Option<KeyView>, now: int) -> (
    Seq<KeyView>,
    Option<KeyView>,
) {
    match selection {
        Some(row) => marked(rows, row.id, now),
        None => (rows, None),
    }
}

/// The table after two racing claims for the same chain tag and suffix, with
/// what `a` received and what `b` received.
pub open spec fn raced(
    rows: Seq<KeyView>,
    tag: Seq<char>,
    suffix: Seq<char>,
    now_a: int,
    now_b: int,
    schedule: Schedule,
) -> (Seq<KeyView>, Option<KeyView>, Option<KeyView>) {
    match schedule {
        Schedule::AThenB => {
            let (mid, a) = claimed(rows, tag, suffix, now_a);
            let (end, b) = claimed(mid, tag, suffix, now_b);
            (end, a, b)
        },
        Schedule::BThenA => {
            let (mid, b) = claimed(rows, tag, suffix, now_b);
            let (end, a) = claimed(mid, tag, suffix, now_a);
            (end, a, b)
        },
        Schedule::BothSelectAMarksFirst => {
            let selection = selected(rows, tag, suffix);
            let (mid, a) = marked_selection(rows, selection, now_a);
            let (end, b) = marked_selection(mid, selection, now_b);
            (end, a, b)
        },
        Schedule::BothSelectBMarksFirst => {
            let selection = selected(rows, tag, suffix);
            let (mid, b) = marked_selection(rows, selection, now_b);
            let (end, a) = marked_selection(mid, selection, now_a);
            (end, a, b)
        },
    }
}

/// What is selected is an unclaimed row of the table, at the place that its
/// number gives.
pub proof fn lemma_selected_is_unclaimed(rows: Seq<KeyView>, tag: Seq<char>, suffix: Seq<char>)
    requires
        table_wf(rows),
    ensures
        match selected(rows, tag, suffix) {
            Some(row) => 1 <= row.id <= rows.len() && rows[row.id - 1] == row && is_unclaimed(
                row,
                tag,
                suffix,
            ),
            None => forall|j: int|
                0 <= j < rows.len() ==> !is_unclaimed(#[trigger] rows[j], tag, suffix),
        },
{
    let wanted = unclaimed_rows(tag, suffix);
    match first_place(rows, wanted) {
        Some(i) => {
            assert(is_first(rows, wanted, i));
            assert(rows[i].id == i + 1);
        },
        None => {
            assert forall|j: int| 0 <= j < rows.len() implies !is_unclaimed(
                #[trigger] rows[j],
                tag,
                suffix,
            ) by {
                if is_unclaimed(rows[j], tag, suffix) {
                    lemma_some_first(rows, wanted, j);
                }
            }
        },
    }
}

/// Where `wanted` holds of some row, it holds of an earliest one.
proof fn lemma_some_first(rows: Seq<KeyView>, wanted: spec_fn(KeyView) -> bool, j: int)
    requires
        0 <= j < rows.len(),
        wanted(rows[j]),
    ensures
        first_place(rows, wanted) is Some,
    decreases j,
{
    if exists|k: int| 0 <= k < j && wanted(#[trigger] rows[k]) {
        let k = choose|k: int| 0 <= k < j && wanted(#[trigger] rows[k]);
        lemma_some_first(rows, wanted, k);
    } else {
        assert(is_first(rows, wanted, j));
    }
}

/// A claim against the only unclaimed row returns that row, marked as used;
/// the next claim for the same chain tag and suffix returns nothing.
pub proof fn lemma_claimed_then_none(
    rows: Seq<KeyView>,
    tag: Seq<char>,
    suffix: Seq<char>,
    now_first: int,
    now_second: int,
    i: int,
)
    requires
        table_wf(rows),
        sole_unclaimed(rows, tag, suffix, i),
    ensures
        claimed(rows, tag, suffix, now_first).1 == Some(
            KeyView { used_at: Some(now_first), ..rows[i] },
        ),
        claimed(claimed(rows, tag, suffix, now_first).0, tag, suffix, now_second).1 is None,
{
    let wanted = unclaimed_rows(tag, suffix);
    assert(is_first(rows, wanted, i));
    lemma_first_place_is(rows, wanted, i);
    assert(rows[i].id == i + 1);
    let after = claimed(rows, tag, suffix, now_first).0;
    assert(after == rows.update(i, KeyView { used_at: Some(now_first), ..rows[i] }));
    assert forall|j: int| 0 <= j < after.len() implies !wanted(#[trigger] after[j]) by {
        if j != i {
            assert(!is_unclaimed(rows[j], tag, suffix));
        }
    }
    lemma_first_place_none(after, wanted);
}

/// Two claims, one after the other, never return the same row, whatever the
/// table holds.
pub proof fn lemma_never_claimed_twice(
    rows: Seq<KeyView>,
    tag: Seq<char>,
    suffix: Seq<char>,
    now_first: int,
    now_second: int,
)
    requires
        table_wf(rows),
    ensures
        ({
            let (mid, first) = claimed(rows, tag, suffix, now_first);
            let (end, second) = claimed(mid, tag, suffix, now_second);
            first is Some && second is Some ==> first->0.id != second->0.id
        }),
{
    let (mid, first) = claimed(rows, tag, suffix, now_first);
    lemma_selected_is_unclaimed(rows, tag, suffix);
    lemma_claimed_in_order(rows, tag, suffix, now_first);
    lemma_selected_is_unclaimed(mid, tag, suffix);
}

/// A claim leaves the table in order.
pub proof fn lemma_claimed_in_order(rows: Seq<KeyView>, tag: Seq<char>, suffix: Seq<char>, now: int)
    requires
        table_wf(rows),
    ensures
        table_wf(claimed(rows, tag, suffix, now).0),
{
    match selected(rows, tag, suffix) {
        Some(row) => {
            lemma_marked_in_order(rows, row.id, now);
        },
        None => {},
    }
}

/// Of two racing claims against the only unclaimed row, exactly one receives
/// the row and the other receives nothing, in whatever order their statements
/// reach the table.
pub proof fn lemma_race_has_one_winner(
    rows: Seq<KeyView>,
    tag: Seq<char>,
    suffix: Seq<char>,
    now_a: int,
    now_b: int,
    schedule: Schedule,
    i: int,
)
    requires
        table_wf(rows),
        sole_unclaimed(rows, tag, suffix, i),
    ensures
        ({
            let (end, a) = (raced(rows, tag, suffix, now_a, now_b, schedule).0, raced(
                rows,
                tag,
                suffix,
                now_a,
                now_b,
                schedule,
            ).1);
            let b = raced(rows, tag, suffix, now_a, now_b, schedule).2;
            &&& (a is Some) != (b is Some)
            &&& a matches Some(row) ==> row == (KeyView { used_at: Some(now_a), ..rows[i] })
            &&& b matches Some(row) ==> row == (KeyView { used_at: Some(now_b), ..rows[i] })
        }),
{
    let wanted = unclaimed_rows(tag, suffix);
    assert(is_first(rows, wanted, i));
    lemma_first_place_is(rows, wanted, i);
    assert(rows[i].id == i + 1);
    match schedule {
        Schedule::AThenB => {
            lemma_claimed_then_none(rows, tag, suffix, now_a, now_b, i);
        },
        Schedule::BThenA => {
            lemma_claimed_then_none(rows, tag, suffix, now_b, now_a, i);
        },
        Schedule::BothSelectAMarksFirst => {},
        Schedule::BothSelectBMarksFirst => {},
    }
}

/// Two racing claims never receive the same row, whatever the table holds and
/// in whatever order their statements reach it.
pub proof fn lemma_race_never_shares(
    rows: Seq<KeyView>,
    tag: Seq<char>,
    suffix: Seq<char>,
    now_a: int,
    now_b: int,
    schedule: Schedule,
)
    requires
        table_wf(rows),
    ensures
        ({
            let a = raced(rows, tag, suffix, now_a, now_b, schedule).1;
            let b = raced(rows, tag, suffix, now_a, now_b, schedule).2;
            a is Some && b is Some ==> a->0.id != b->0.id
        }),
{
    match schedule {
        Schedule::AThenB => {
            lemma_never_claimed_twice(rows, tag, suffix, now_a, now_b);
        },
        Schedule::BThenA => {
            lemma_never_claimed_twice(rows, tag, suffix, now_b, now_a);
        },
        Schedule::BothSelectAMarksFirst => {
            lemma_selected_is_unclaimed(rows, tag, suffix);
        },
        Schedule::BothSelectBMarksFirst => {
            lemma_selected_is_unclaimed(rows, tag, suffix);
        },
    }
}

/// Marking a row as used takes no claim back.
pub proof fn lemma_marked_keeps_claims(rows: Seq<KeyView>, id: int, now: int)
    ensures
        claims_kept(rows, marked(rows, id, now).0),
{
}

/// A claim takes no claim back.
pub proof fn lemma_claimed_keeps_claims(rows: Seq<KeyView>, tag: Seq<char>, suffix: Seq<char>, now: int)
    ensures
        claims_kept(rows, claimed(rows, tag, suffix, now).0),
{
    match selected(rows, tag, suffix) {
        Some(row) => {
            lemma_marked_keeps_claims(rows, row.id, now);
        },
        None => {},
    }
}

/// An insert takes no claim back.
pub proof fn lemma_inserted_keeps_claims(rows: Seq<KeyView>, key: NewKeyView, now: int)
    ensures
        claims_kept(rows, inserted(rows, key, now).0),
{
}

/// Two claims through a vault, one after the other, against the only
/// unclaimed row of a chain and a suffix: unless the store fails, the first
/// returns that row, marked as used, and the second returns nothing.
pub proof fn lemma_two_claims_in_turn(
    before: Seq<KeyView>,
    chain: Chain,
    suffix: Seq<char>,
    i: int,
    between: Seq<KeyView>,
    first: Result<Option<Key>, DatabaseError>,
    after: Seq<KeyView>,
    second: Result<Option<Key>, DatabaseError>,
)
    requires
        table_wf(before),
        sole_unclaimed(before, chain_tag(chain), suffix, i),
        claim_post(before, chain, suffix, between, first),
        claim_post(between, chain, suffix, after, second),
        first is Ok,
        second is Ok,
    ensures
        first matches Ok(Some(key)) && key@.id == before[i].id && key@.used_at is Some && key@
            == (KeyView { used_at: key@.used_at, ..before[i] }),
        second matches Ok(None),
        after == between,
{
    let tag = chain_tag(chain);
    let now_first = choose|now: int|
        (between, key_view(first->Ok_0)) == #[trigger] claimed(before, tag, suffix, now);
    let now_second = choose|now: int|
        (after, key_view(second->Ok_0)) == #[trigger] claimed(between, tag, suffix, now);
    lemma_claimed_then_none(before, tag, suffix, now_first, now_second, i);
}

/// Whatever a claim through a vault returns, it has taken no claim back and
/// left the table in order.
pub proof fn lemma_claim_keeps_claims(
    before: Seq<KeyView>,
    chain: Chain,
    suffix: Seq<char>,
    after: Seq<KeyView>,
    r: Result<Option<Key>, DatabaseError>,
)
    requires
        table_wf(before),
        claim_post(before, chain, suffix, after, r),
    ensures
        claims_kept(before, after),
        table_wf(after),
{
    match r {
        Ok(key) => {
            let now = choose|now: int|
                (after, key_view(key)) == #[trigger] claimed(
                    before,
                    chain_tag(chain),
                    suffix,
                    now,
                );
            lemma_claimed_keeps_claims(before, chain_tag(chain), suffix, now);
            lemma_claimed_in_order(before, chain_tag(chain), suffix, now);
        },
        Err(_) => {},
    }
}

/// Whatever the storing of a new key through a vault returns, it has taken no
/// claim back and left the table in order.
pub proof fn lemma_create_keeps_claims(
    before: Seq<KeyView>,
    seed: Option<Seq<u8>>,
    key: NewKeyView,
    after: Seq<KeyView>,
    r: Result<Key, DatabaseError>,
)
    requires
        table_wf(before),
        create_post(before, seed, key, after, r),
    ensures
        claims_kept(before, after),
        table_wf(after),
{
    match r {
        Ok(row) => {
            let (stored, now) = choose|stored: Seq<u8>, now: int|
                kept_as(seed, key.secret, stored) && (after, Some(row@))
                    == #[trigger] inserted(before, kept_row(key, stored), now);
            lemma_inserted_keeps_claims(before, kept_row(key, stored), now);
            lemma_inserted_in_order(
                before,
                kept_row(key, stored),
                now,
            );
        },
        Err(_) => {},
    }
}

/// What holds between one state of the table and the next, and between that
/// and a third, holds between the first and the third.
pub proof fn lemma_claims_kept_transitive(first: Seq<KeyView>, second: Seq<KeyView>, third: Seq<KeyView>)
    requires
        claims_kept(first, second),
        claims_kept(second, third),
    ensures
        claims_kept(first, third),
{
    assert forall|i: int| 0 <= i < first.len() implies {
        ||| (#[trigger] third[i]) == first[i]
        ||| (first[i].used_at is None && third[i].used_at is Some && third[i] == KeyView {
            used_at: third[i].used_at,
            ..first[i]
        })
    } by {
        let a = second[i];
        let b = third[i];
    }
}

} // verus!
