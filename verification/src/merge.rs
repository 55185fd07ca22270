//! Transactions of several addresses as one list: ordered by transaction id, each id
//! once.

use vstd::prelude::*;
use crate::electrs::{records_of, AddressTransaction};
use crate::protocol::TransactionInfoView;
use crate::text::{
    chars_of, is_before, lemma_text_before_irreflexive, lemma_text_before_total,
    lemma_text_before_transitive, same_text, text_before,
};

verus! {

/// Whether some record has the transaction id `txid`.
pub open spec fn has_txid(s: Seq<TransactionInfoView>, txid: Seq<char>) -> bool {
    exists|i: int| 0 <= i < s.len() && (#[trigger] s[i]).txid == txid
}

/// Whether the records stand in strictly rising order of transaction id.
pub open spec fn ordered_by_txid(s: Seq<TransactionInfoView>) -> bool {
    forall|i: int, j: int|
        0 <= i < j < s.len() ==> text_before((#[trigger] s[i]).txid, (#[trigger] s[j]).txid)
}

/// The first position at or after `i` whose id does not come before `txid`.
pub open spec fn rank_from(s: Seq<TransactionInfoView>, txid: Seq<char>, i: int) -> int
    decreases s.len() - i,
{
    if i < 0 || i >= s.len() {
        s.len() as int
    } else if text_before(s[i].txid, txid) {
        rank_from(s, txid, i + 1)
    } else {
        i
    }
}

/// The list with `t` in it: unchanged where a record has `t`'s id already, else with
/// `t` before the first record whose id does not come before `t`'s.
pub open spec fn inserted(s: Seq<TransactionInfoView>, t: TransactionInfoView) -> Seq<
    TransactionInfoView,
> {
    if has_txid(s, t.txid) {
        s
    } else {
        s.insert(rank_from(s, t.txid, 0), t)
    }
}

/// The list with the records of `more` inserted one after the other.
pub open spec fn merged(s: Seq<TransactionInfoView>, more: Seq<TransactionInfoView>) -> Seq<
    TransactionInfoView,
>
    decreases more.len(),
{
    if more.len() == 0 {
        s
    } else {
        inserted(merged(s, more.drop_last()), more.last())
    }
}

/// The transaction ids of the records, in their order.
pub open spec fn txids_of(s: Seq<TransactionInfoView>) -> Seq<Seq<char>> {
    Seq::new(s.len(), |i: int| s[i].txid)
}

proof fn lemma_rank_bounds(s: Seq<TransactionInfoView>, txid: Seq<char>, i: int)
    requires
        0 <= i <= s.len(),
    ensures
        i <= rank_from(s, txid, i) <= s.len(),
        forall|k: int| i <= k < rank_from(s, txid, i) ==> text_before((#[trigger] s[k]).txid, txid),
        rank_from(s, txid, i) < s.len() ==> !text_before(s[rank_from(s, txid, i)].txid, txid),
    decreases s.len() - i,
{
    if i < s.len() && text_before(s[i].txid, txid) {
        lemma_rank_bounds(s, txid, i + 1);
    }
}

/// Inserting into an ordered list gives an ordered list.
pub proof fn lemma_inserted_ordered(s: Seq<TransactionInfoView>, t: TransactionInfoView)
    requires
        ordered_by_txid(s),
    ensures
        ordered_by_txid(inserted(s, t)),
{
    if !has_txid(s, t.txid) {
        let p = rank_from(s, t.txid, 0);
        lemma_rank_bounds(s, t.txid, 0);
        let r = s.insert(p, t);
        assert forall|i: int, j: int| 0 <= i < j < r.len() implies text_before(
            (#[trigger] r[i]).txid,
            (#[trigger] r[j]).txid,
        ) by {
            if j < p {
                assert(r[i] == s[i] && r[j] == s[j]);
            } else if j == p {
                assert(r[i] == s[i]);
            } else if i == p {
                // t against a record at or after position p of s
                let q = j - 1;
                assert(r[j] == s[q]);
                assert(s[q].txid != t.txid);
                if q > p {
                    assert(text_before(s[p].txid, s[q].txid));
                }
                lemma_text_before_total(s[p].txid, t.txid);
                assert(text_before(t.txid, s[p].txid));
                if q > p {
                    lemma_text_before_transitive(t.txid, s[p].txid, s[q].txid);
                }
            } else if i < p {
                assert(r[i] == s[i] && r[j] == s[j - 1]);
            } else {
                assert(r[i] == s[i - 1] && r[j] == s[j - 1]);
            }
        }
    }
}

/// Merging into an ordered list gives an ordered list.
pub proof fn lemma_merged_ordered(s: Seq<TransactionInfoView>, more: Seq<TransactionInfoView>)
    requires
        ordered_by_txid(s),
    ensures
        ordered_by_txid(merged(s, more)),
    decreases more.len(),
{
    if more.len() > 0 {
        lemma_merged_ordered(s, more.drop_last());
        lemma_inserted_ordered(merged(s, more.drop_last()), more.last());
    }
}

/// An ordered list holds no transaction id twice.
pub proof fn lemma_ordered_has_no_duplicate(s: Seq<TransactionInfoView>)
    requires
        ordered_by_txid(s),
    ensures
        forall|i: int, j: int|
            0 <= i < s.len() && 0 <= j < s.len() && i != j ==> (#[trigger] s[i]).txid != (
            #[trigger] s[j]).txid,
{
    assert forall|i: int, j: int| 0 <= i < s.len() && 0 <= j < s.len() && i != j implies (
    #[trigger] s[i]).txid != (#[trigger] s[j]).txid by {
        lemma_text_before_irreflexive(s[i].txid);
        if i < j {
            assert(text_before(s[i].txid, s[j].txid));
        } else {
            assert(text_before(s[j].txid, s[i].txid));
        }
    }
}

/// After an insertion the list has the ids that it had, and the id inserted, and no
/// others.
pub proof fn lemma_inserted_ids(s: Seq<TransactionInfoView>, t: TransactionInfoView, txid: Seq<char>)
    ensures
        has_txid(inserted(s, t), txid) <==> (has_txid(s, txid) || txid == t.txid),
{
    if !has_txid(s, t.txid) {
        let p = rank_from(s, t.txid, 0);
        lemma_rank_bounds(s, t.txid, 0);
        let r = s.insert(p, t);
        if has_txid(s, txid) {
            let i = choose|i: int| 0 <= i < s.len() && (#[trigger] s[i]).txid == txid;
            if i < p {
                assert(r[i] == s[i]);
            } else {
                assert(r[i + 1] == s[i]);
            }
        }
        if txid == t.txid {
            assert(r[p] == t);
        }
        if has_txid(r, txid) {
            let i = choose|i: int| 0 <= i < r.len() && (#[trigger] r[i]).txid == txid;
            if i < p {
                assert(r[i] == s[i]);
            } else if i > p {
                assert(r[i] == s[i - 1]);
            }
        }
    }
}

/// After a merge the list has the ids that it had, and those merged in, and no others.
pub proof fn lemma_merged_ids(
    s: Seq<TransactionInfoView>,
    more: Seq<TransactionInfoView>,
    txid: Seq<char>,
)
    ensures
        has_txid(merged(s, more), txid) <==> (has_txid(s, txid) || has_txid(more, txid)),
    decreases more.len(),
{
    if more.len() > 0 {
        let rest = more.drop_last();
        lemma_merged_ids(s, rest, txid);
        lemma_inserted_ids(merged(s, rest), more.last(), txid);
        if has_txid(rest, txid) {
            let i = choose|i: int| 0 <= i < rest.len() && (#[trigger] rest[i]).txid == txid;
            assert(more[i] == rest[i]);
        }
        if has_txid(more, txid) {
            let i = choose|i: int| 0 <= i < more.len() && (#[trigger] more[i]).txid == txid;
            if i < rest.len() {
                assert(rest[i] == more[i]);
            } else {
                assert(more[i] == more.last());
            }
        }
        if txid == more.last().txid {
            assert(more[more.len() - 1].txid == txid);
        }
    }
}

/// Merging records whose ids the list has already changes nothing.
pub proof fn lemma_merged_known(s: Seq<TransactionInfoView>, more: Seq<TransactionInfoView>)
    requires
        forall|i: int| 0 <= i < more.len() ==> has_txid(s, (#[trigger] more[i]).txid),
    ensures
        merged(s, more) == s,
    decreases more.len(),
{
    if more.len() > 0 {
        let rest = more.drop_last();
        assert forall|i: int| 0 <= i < rest.len() implies has_txid(s, (#[trigger] rest[i]).txid) by {
            assert(rest[i] == more[i]);
        }
        lemma_merged_known(s, rest);
        assert(has_txid(s, more[more.len() - 1].txid));
    }
}

/// Merging the same records a second time changes nothing: no transaction is counted
/// twice.
pub proof fn lemma_merged_idempotent(s: Seq<TransactionInfoView>, more: Seq<TransactionInfoView>)
    ensures
        merged(merged(s, more), more) == merged(s, more),
{
    let once = merged(s, more);
    assert forall|i: int| 0 <= i < more.len() implies has_txid(once, (#[trigger] more[i]).txid) by {
        lemma_merged_ids(s, more, more[i].txid);
    }
    lemma_merged_known(once, more);
}

fn holds_txid(list: &Vec<AddressTransaction>, txid: &str) -> (r: bool)
    ensures
        r == has_txid(records_of(list@), txid@),
{
    let mut i: usize = 0;
    while i < list.len()
        invariant
            i <= list.len(),
            forall|k: int| 0 <= k < i ==> (#[trigger] records_of(list@)[k]).txid != txid@,
        decreases list.len() - i,
    {
        if same_text(list[i].txid.as_str(), txid) {
            assert(records_of(list@)[i as int].txid == txid@);
            return true;
        }
        i = i + 1;
    }
    false
}

fn rank_of(list: &Vec<AddressTransaction>, txid: &str) -> (r: usize)
    ensures
        r == rank_from(records_of(list@), txid@, 0),
        r <= list.len(),
{
    let wanted = chars_of(txid);
    let mut i: usize = 0;
    while i < list.len()
        invariant
            i <= list.len(),
            wanted@ == txid@,
            rank_from(records_of(list@), txid@, 0) == rank_from(records_of(list@), txid@, i as int),
        decreases list.len() - i,
    {
        let here = chars_of(list[i].txid.as_str());
        assert(here@ == records_of(list@)[i as int].txid);
        if !is_before(&here, &wanted) {
            return i;
        }
        i = i + 1;
    }
    i
}

/// Puts `t` into the list unless a record has its transaction id already.
pub fn insert_transaction(list: &mut Vec<AddressTransaction>, t: AddressTransaction)
    ensures
        records_of(final(list)@) == inserted(records_of(old(list)@), t@),
{
    if !holds_txid(list, t.txid.as_str()) {
        let at = rank_of(list, t.txid.as_str());
        let ghost before = records_of(list@);
        let ghost tv = t@;
        list.insert(at, t);
        assert(records_of(list@) =~= before.insert(at as int, tv));
    }
}

/// Puts the records of `more` into the list, one after the other.
pub fn merge_transactions(list: &mut Vec<AddressTransaction>, more: &Vec<AddressTransaction>)
    ensures
        records_of(final(list)@) == merged(records_of(old(list)@), records_of(more@)),
{
    let ghost start = records_of(list@);
    let mut i: usize = 0;
    while i < more.len()
        invariant
            i <= more.len(),
            start == records_of(old(list)@),
            records_of(list@) == merged(start, records_of(more@).take(i as int)),
        decreases more.len() - i,
    {
        proof {
            assert(records_of(more@).take(i + 1).drop_last() == records_of(more@).take(i as int));
        }
        insert_transaction(list, more[i].copy());
        i = i + 1;
    }
    assert(records_of(more@).take(more.len() as int) == records_of(more@));
}

} // verus!
