//! The lookup orchestrator: which addresses a query stands for, and what the answers
//! about them add up to. One address that fails adds nothing and stops nothing.

use vstd::prelude::*;
use crate::electrs::{records_of, AddressTransaction, ElectrsClient, IndexerError};
use crate::merge::{
    has_txid, lemma_merged_ids, lemma_merged_known, lemma_merged_ordered,
    merge_transactions, merged, ordered_by_txid, txids_of,
};
use crate::protocol::TransactionInfoView;
use crate::reply::clamp_i64;
use crate::resolver::{classified, classify, derivable, derived_address, Query};
use crate::text::{copy_text, texts_of};

verus! {

/// The number of receiving addresses looked at for an extended public key, unless the
/// caller says otherwise.
pub const DEFAULT_GAP_LIMIT: u32 = 20;

/// Why a lookup has no result.
#[derive(Debug, Clone, Copy, PartialEq, Eq, Structural)]
pub enum LookupError {
    /// The query is neither an address nor an extended public key.
    InvalidQuery,
    /// The extended public key could not be used.
    Derivation,
}

/// What the indexer said about one address.
#[derive(Debug)]
pub struct AddressOutcome {
    pub balance: Result<(i64, i64), IndexerError>,
    pub transactions: Result<Vec<AddressTransaction>, IndexerError>,
}

/// The mathematical value of an `AddressOutcome`: what was learned, whatever the
/// failure where nothing was.
pub ghost struct AddressOutcomeView {
    pub balance: Option<(i64, i64)>,
    pub transactions: Option<Seq<TransactionInfoView>>,
}

impl View for AddressOutcome {
    type V = AddressOutcomeView;

    open spec fn view(&self) -> AddressOutcomeView {
        AddressOutcomeView {
            balance: match self.balance {
                Ok(b) => Some(b),
                Err(_) => None,
            },
            transactions: match self.transactions {
                Ok(v) => Some(records_of(v@)),
                Err(_) => None,
            },
        }
    }
}

impl AddressOutcomeView {
    /// The outcome of an address about which nothing was learned.
    pub open spec fn failed() -> AddressOutcomeView {
        AddressOutcomeView { balance: None, transactions: None }
    }

    /// The confirmed balance that the address adds.
    pub open spec fn confirmed(self) -> int {
        match self.balance {
            Some(b) => b.0 as int,
            None => 0,
        }
    }

    /// The unconfirmed balance that the address adds.
    pub open spec fn unconfirmed(self) -> int {
        match self.balance {
            Some(b) => b.1 as int,
            None => 0,
        }
    }

    /// The transactions that the address adds.
    pub open spec fn records(self) -> Seq<TransactionInfoView> {
        match self.transactions {
            Some(v) => v,
            None => Seq::empty(),
        }
    }
}

/// The values of a run of outcomes.
pub open spec fn outcome_views(outcomes: Seq<AddressOutcome>) -> Seq<AddressOutcomeView> {
    Seq::new(outcomes.len(), |i: int| outcomes[i]@)
}

/// The outcomes of the first `count` addresses; an address without an outcome counts
/// as one about which nothing was learned.
pub open spec fn outcomes_for(outcomes: Seq<AddressOutcomeView>, count: int) -> Seq<
    AddressOutcomeView,
> {
    Seq::new(
        count as nat,
        |i: int|
            if 0 <= i < outcomes.len() {
                outcomes[i]
            } else {
                AddressOutcomeView::failed()
            },
    )
}

/// The sum of the confirmed balances.
pub open spec fn confirmed_total(outcomes: Seq<AddressOutcomeView>) -> int
    decreases outcomes.len(),
{
    if outcomes.len() == 0 {
        0
    } else {
        confirmed_total(outcomes.drop_last()) + outcomes.last().confirmed()
    }
}

/// The sum of the unconfirmed balances.
pub open spec fn unconfirmed_total(outcomes: Seq<AddressOutcomeView>) -> int
    decreases outcomes.len(),
{
    if outcomes.len() == 0 {
        0
    } else {
        unconfirmed_total(outcomes.drop_last()) + outcomes.last().unconfirmed()
    }
}

/// The transactions of all the addresses as one list: ordered by transaction id, each
/// id once, with the record that came first.
pub open spec fn transactions_total(outcomes: Seq<AddressOutcomeView>) -> Seq<TransactionInfoView>
    decreases outcomes.len(),
{
    if outcomes.len() == 0 {
        Seq::empty()
    } else {
        merged(transactions_total(outcomes.drop_last()), outcomes.last().records())
    }
}

/// Balances and transactions of a query.
#[derive(Debug, Clone, PartialEq, Eq)]
pub struct BalanceAggregate {
    pub confirmed_sats: i64,
    pub unconfirmed_sats: i64,
    pub transaction_ids: Vec<String>,
}

/// The mathematical value of a `BalanceAggregate`.
pub ghost struct BalanceAggregateView {
    pub confirmed_sats: i64,
    pub unconfirmed_sats: i64,
    pub transaction_ids: Seq<Seq<char>>,
}

impl View for BalanceAggregate {
    type V = BalanceAggregateView;

    open spec fn view(&self) -> BalanceAggregateView {
        BalanceAggregateView {
            confirmed_sats: self.confirmed_sats,
            unconfirmed_sats: self.unconfirmed_sats,
            transaction_ids: texts_of(self.transaction_ids@),
        }
    }
}

/// What the outcomes add up to: the sums of the balances, held to the `i64` range, and
/// the ids of the merged transactions.
pub open spec fn aggregate_of(outcomes: Seq<AddressOutcomeView>) -> BalanceAggregateView {
    BalanceAggregateView {
        confirmed_sats: clamp_i64(confirmed_total(outcomes)),
        unconfirmed_sats: clamp_i64(unconfirmed_total(outcomes)),
        transaction_ids: txids_of(transactions_total(outcomes)),
    }
}

/// Whether the ids stand in strictly rising order, so that none occurs twice.
pub open spec fn rising(ids: Seq<Seq<char>>) -> bool {
    forall|i: int, j: int|
        0 <= i < j < ids.len() ==> crate::text::text_before(#[trigger] ids[i], #[trigger] ids[j])
}

/// The transaction ids of an aggregate stand in strictly rising order, and none occurs
/// twice, whatever the outcomes were and however often an address was looked at.
pub proof fn lemma_aggregate_ids_rise(outcomes: Seq<AddressOutcomeView>)
    ensures
        rising(aggregate_of(outcomes).transaction_ids),
        forall|i: int, j: int|
            0 <= i < j < aggregate_of(outcomes).transaction_ids.len() ==> (
            #[trigger] aggregate_of(outcomes).transaction_ids[i]) != (#[trigger] aggregate_of(
                outcomes,
            ).transaction_ids[j]),
{
    let records = transactions_total(outcomes);
    let ids = aggregate_of(outcomes).transaction_ids;
    lemma_transactions_total_ordered(outcomes);
    assert forall|i: int, j: int| 0 <= i < j < ids.len() implies crate::text::text_before(
        #[trigger] ids[i],
        #[trigger] ids[j],
    ) by {
        assert(crate::text::text_before(records[i].txid, records[j].txid));
    }
    assert forall|i: int, j: int| 0 <= i < j < ids.len() implies (#[trigger] ids[i]) != (
    #[trigger] ids[j]) by {
        assert(crate::text::text_before(ids[i], ids[j]));
        crate::text::lemma_text_before_irreflexive(ids[i]);
    }
}

/// Where the sums of the balances are numbers that an `i64` holds, the aggregate states
/// exactly those sums.
pub proof fn lemma_aggregate_is_the_sum(outcomes: Seq<AddressOutcomeView>)
    requires
        i64::MIN <= confirmed_total(outcomes) <= i64::MAX,
        i64::MIN <= unconfirmed_total(outcomes) <= i64::MAX,
    ensures
        aggregate_of(outcomes).confirmed_sats == confirmed_total(outcomes),
        aggregate_of(outcomes).unconfirmed_sats == unconfirmed_total(outcomes),
{
}

/// An address about which nothing was learned changes no sum and no list: the
/// aggregate of the others stands.
pub proof fn lemma_failed_address_adds_nothing(outcomes: Seq<AddressOutcomeView>)
    ensures
        confirmed_total(outcomes.push(AddressOutcomeView::failed())) == confirmed_total(outcomes),
        unconfirmed_total(outcomes.push(AddressOutcomeView::failed())) == unconfirmed_total(
            outcomes,
        ),
        transactions_total(outcomes.push(AddressOutcomeView::failed())) == transactions_total(
            outcomes,
        ),
        aggregate_of(outcomes.push(AddressOutcomeView::failed())) == aggregate_of(outcomes),
{
    let more = outcomes.push(AddressOutcomeView::failed());
    assert(more.drop_last() == outcomes);
    assert(more.last().records().len() == 0);
}

/// An address about which nothing was learned counts as if it had not been looked at,
/// wherever it stands among the others: the rest adds up as it would without it.
pub proof fn lemma_failed_address_counts_as_absent(outcomes: Seq<AddressOutcomeView>, k: int)
    requires
        0 <= k < outcomes.len(),
    ensures
        confirmed_total(outcomes.update(k, AddressOutcomeView::failed())) == confirmed_total(
            outcomes.remove(k),
        ),
        unconfirmed_total(outcomes.update(k, AddressOutcomeView::failed())) == unconfirmed_total(
            outcomes.remove(k),
        ),
        transactions_total(outcomes.update(k, AddressOutcomeView::failed())) == transactions_total(
            outcomes.remove(k),
        ),
        aggregate_of(outcomes.update(k, AddressOutcomeView::failed())) == aggregate_of(
            outcomes.remove(k),
        ),
    decreases outcomes.len(),
{
    let with_failure = outcomes.update(k, AddressOutcomeView::failed());
    let without = outcomes.remove(k);
    if k == outcomes.len() - 1 {
        assert(with_failure.drop_last() == outcomes.drop_last());
        assert(without == outcomes.drop_last());
        assert(with_failure.last().records().len() == 0);
    } else {
        lemma_failed_address_counts_as_absent(outcomes.drop_last(), k);
        assert(with_failure.drop_last() == outcomes.drop_last().update(
            k,
            AddressOutcomeView::failed(),
        ));
        assert(without.drop_last() == outcomes.drop_last().remove(k));
        assert(with_failure.last() == outcomes.last());
        assert(without.last() == outcomes.last());
    }
}

/// One more address adds its own balances to the sums.
pub proof fn lemma_address_adds_its_balance(outcomes: Seq<AddressOutcomeView>, o: AddressOutcomeView)
    ensures
        confirmed_total(outcomes.push(o)) == confirmed_total(outcomes) + o.confirmed(),
        unconfirmed_total(outcomes.push(o)) == unconfirmed_total(outcomes) + o.unconfirmed(),
{
    assert(outcomes.push(o).drop_last() == outcomes);
}

/// The merged transactions stand in strictly rising order of transaction id, so no id
/// occurs twice.
pub proof fn lemma_transactions_total_ordered(outcomes: Seq<AddressOutcomeView>)
    ensures
        ordered_by_txid(transactions_total(outcomes)),
    decreases outcomes.len(),
{
    if outcomes.len() > 0 {
        lemma_transactions_total_ordered(outcomes.drop_last());
        lemma_merged_ordered(transactions_total(outcomes.drop_last()), outcomes.last().records());
    }
}

/// Whether one of the addresses has a transaction with the id `txid`.
pub open spec fn some_address_has(outcomes: Seq<AddressOutcomeView>, txid: Seq<char>) -> bool {
    exists|i: int| 0 <= i < outcomes.len() && has_txid((#[trigger] outcomes[i]).records(), txid)
}

/// The merged list holds the union of the addresses' transaction ids: an id is in it
/// exactly where one of the addresses has it.
pub proof fn lemma_transactions_total_ids(outcomes: Seq<AddressOutcomeView>, txid: Seq<char>)
    ensures
        has_txid(transactions_total(outcomes), txid) <==> some_address_has(outcomes, txid),
    decreases outcomes.len(),
{
    if outcomes.len() > 0 {
        let rest = outcomes.drop_last();
        lemma_transactions_total_ids(rest, txid);
        lemma_merged_ids(transactions_total(rest), outcomes.last().records(), txid);
        if some_address_has(rest, txid) {
            let i = choose|i: int|
                0 <= i < rest.len() && has_txid((#[trigger] rest[i]).records(), txid);
            assert(outcomes[i] == rest[i]);
        }
        if has_txid(outcomes.last().records(), txid) {
            assert(has_txid(outcomes[outcomes.len() - 1].records(), txid));
        }
        if some_address_has(outcomes, txid) {
            let i = choose|i: int|
                0 <= i < outcomes.len() && has_txid((#[trigger] outcomes[i]).records(), txid);
            if i < rest.len() {
                assert(rest[i] == outcomes[i]);
            }
        }
    }
}

/// An address that was looked at before adds no transaction when it is looked at
/// again: no id is counted twice.
pub proof fn lemma_repeated_address_adds_no_transaction(outcomes: Seq<AddressOutcomeView>, k: int)
    requires
        0 <= k < outcomes.len(),
    ensures
        transactions_total(outcomes.push(outcomes[k])) == transactions_total(outcomes),
{
    let again = outcomes[k].records();
    assert(outcomes.push(outcomes[k]).drop_last() == outcomes);
    assert forall|i: int| 0 <= i < again.len() implies has_txid(
        transactions_total(outcomes),
        (#[trigger] again[i]).txid,
    ) by {
        assert(has_txid(outcomes[k].records(), again[i].txid));
        lemma_transactions_total_ids(outcomes, again[i].txid);
    }
    lemma_merged_known(transactions_total(outcomes), again);
}

fn clamp(total: i128) -> (r: i64)
    ensures
        r == clamp_i64(total as int),
{
    if total > i64::MAX as i128 {
        i64::MAX
    } else if total < i64::MIN as i128 {
        i64::MIN
    } else {
        total as i64
    }
}

fn txids(list: &Vec<AddressTransaction>) -> (r: Vec<String>)
    ensures
        texts_of(r@) == txids_of(records_of(list@)),
{
    let mut out: Vec<String> = Vec::new();
    let mut i: usize = 0;
    while i < list.len()
        invariant
            i <= list.len(),
            out@.len() == i,
            forall|k: int| 0 <= k < i ==> (#[trigger] out@[k])@ == list@[k].txid@,
        decreases list.len() - i,
    {
        out.push(list[i].txid.clone());
        i = i + 1;
    }
    assert(texts_of(out@) =~= txids_of(records_of(list@)));
    out
}

/// Adds up what was learned about the first `count` addresses: the sums of their
/// balances, held to the `i64` range, and their transactions as one list in order of
/// transaction id, each id once.
pub fn add_up(outcomes: &Vec<AddressOutcome>, count: usize) -> (r: (i64, i64, Vec<AddressTransaction>))
    ensures
        r.0 == clamp_i64(confirmed_total(outcomes_for(outcome_views(outcomes@), count as int))),
        r.1 == clamp_i64(unconfirmed_total(outcomes_for(outcome_views(outcomes@), count as int))),
        records_of(r.2@) == transactions_total(outcomes_for(outcome_views(outcomes@), count as int)),
        ordered_by_txid(records_of(r.2@)),
{
    let ghost all = outcomes_for(outcome_views(outcomes@), count as int);
    let mut confirmed: i128 = 0;
    let mut unconfirmed: i128 = 0;
    let mut list: Vec<AddressTransaction> = Vec::new();
    let mut i: usize = 0;
    assert(all.take(0) == Seq::<AddressOutcomeView>::empty());
    assert(records_of(list@) == Seq::<TransactionInfoView>::empty());
    while i < count
        invariant
            i <= count,
            all == outcomes_for(outcome_views(outcomes@), count as int),
            confirmed == confirmed_total(all.take(i as int)),
            unconfirmed == unconfirmed_total(all.take(i as int)),
            records_of(list@) == transactions_total(all.take(i as int)),
            -(i as int) * 0x8000_0000_0000_0000 <= confirmed <= (i as int) * 0x8000_0000_0000_0000,
            -(i as int) * 0x8000_0000_0000_0000 <= unconfirmed <= (i as int)
                * 0x8000_0000_0000_0000,
        decreases count - i,
    {
        proof {
            assert(all.take(i + 1).drop_last() == all.take(i as int));
            assert(all.take(i + 1).last() == all[i as int]);
            assert((i as int) * 0x8000_0000_0000_0000 + 0x8000_0000_0000_0000 == (i + 1)
                * 0x8000_0000_0000_0000) by (nonlinear_arith);
            assert((i as int) * 0x8000_0000_0000_0000 <= 0xffff_ffff_ffff_ffff
                * 0x8000_0000_0000_0000) by (nonlinear_arith)
                requires
                    i <= 0xffff_ffff_ffff_ffff,
            ;
        }
        if i < outcomes.len() {
            let outcome = &outcomes[i];
            assert(all[i as int] == outcome@);
            match &outcome.balance {
                Ok(b) => {
                    confirmed = confirmed + b.0 as i128;
                    unconfirmed = unconfirmed + b.1 as i128;
                },
                Err(_) => {},
            }
            match &outcome.transactions {
                Ok(more) => {
                    merge_transactions(&mut list, more);
                },
                Err(_) => {},
            }
        }
        i = i + 1;
    }
    proof {
        assert(all.take(count as int) == all);
        lemma_transactions_total_ordered(all);
    }
    (clamp(confirmed), clamp(unconfirmed), list)
}

impl ElectrsClient {
    /// Balances and transactions of several addresses as one: what `add_up` makes of
    /// all the outcomes given.
    pub fn get_addresses_balance_and_txs(&self, outcomes: &Vec<AddressOutcome>) -> (r: (
        i64,
        i64,
        Vec<AddressTransaction>,
    ))
        ensures
            r.0 == clamp_i64(confirmed_total(outcomes_for(outcome_views(outcomes@), outcomes@.len() as int))),
            r.1 == clamp_i64(unconfirmed_total(outcomes_for(outcome_views(outcomes@), outcomes@.len() as int))),
            records_of(r.2@) == transactions_total(
                outcomes_for(outcome_views(outcomes@), outcomes@.len() as int),
            ),
            ordered_by_txid(records_of(r.2@)),
    {
        add_up(outcomes, outcomes.len())
    }
}

/// The addresses that a query stands for: itself where it is an address, its first
/// `gap_limit` receiving addresses where it is an extended public key.
pub open spec fn addresses_of(q: Seq<char>, gap_limit: u32) -> Result<Seq<Seq<char>>, LookupError> {
    match classified(q) {
        Query::Invalid => Err(LookupError::InvalidQuery),
        Query::SingleAddress => Ok(seq![q]),
        Query::ExtendedPublicKey => if derivable(q, gap_limit) {
            Ok(Seq::new(gap_limit as nat, |i: int| derived_address(q, i as u32)->0))
        } else {
            Err(LookupError::Derivation)
        },
    }
}

/// The value of a list of addresses or of the error in its place.
pub open spec fn lookup_addresses_value(r: Result<Vec<String>, LookupError>) -> Result<
    Seq<Seq<char>>,
    LookupError,
> {
    match r {
        Ok(v) => Ok(texts_of(v@)),
        Err(e) => Err(e),
    }
}

/// The addresses that a query stands for.
pub fn lookup_addresses(query: &str, gap_limit: u32) -> (r: Result<Vec<String>, LookupError>)
    ensures
        lookup_addresses_value(r) == addresses_of(query@, gap_limit),
{
    match classify(query) {
        Query::Invalid => Err(LookupError::InvalidQuery),
        Query::SingleAddress => {
            let mut out: Vec<String> = Vec::new();
            out.push(copy_text(query));
            assert(texts_of(out@) =~= seq![query@]);
            Ok(out)
        },
        Query::ExtendedPublicKey => match crate::resolver::derive(query, gap_limit) {
            Ok(v) => {
                assert(texts_of(v@) =~= Seq::new(
                    gap_limit as nat,
                    |i: int| derived_address(query@, i as u32)->0,
                )) by {
                    assert forall|k: int| 0 <= k < gap_limit implies texts_of(v@)[k]
                        == derived_address(query@, k as u32)->0 by {
                        let i = k as u32;
                        assert(derived_address(query@, i) == Some(v@[i as int]@));
                    }
                }
                Ok(v)
            },
            Err(_) => Err(LookupError::Derivation),
        },
    }
}

/// What a lookup comes to, given what the indexer said about each address of the
/// query, position by position.
pub open spec fn resolved(q: Seq<char>, gap_limit: u32, outcomes: Seq<AddressOutcomeView>) -> Result<
    BalanceAggregateView,
    LookupError,
> {
    match addresses_of(q, gap_limit) {
        Ok(addresses) => Ok(aggregate_of(outcomes_for(outcomes, addresses.len() as int))),
        Err(e) => Err(e),
    }
}

/// The value of an aggregate or of the error in its place.
pub open spec fn resolved_value(r: Result<BalanceAggregate, LookupError>) -> Result<
    BalanceAggregateView,
    LookupError,
> {
    match r {
        Ok(a) => Ok(a@),
        Err(e) => Err(e),
    }
}

/// Resolves a query: fails where the query is invalid or its key cannot be used, and
/// else adds up what was learned about its addresses.
pub fn resolve(query: &str, gap_limit: u32, outcomes: &Vec<AddressOutcome>) -> (r: Result<
    BalanceAggregate,
    LookupError,
>)
    ensures
        resolved_value(r) == resolved(query@, gap_limit, outcome_views(outcomes@)),
        r matches Ok(a) ==> rising(a@.transaction_ids),
{
    let addresses = match lookup_addresses(query, gap_limit) {
        Ok(a) => a,
        Err(e) => { return Err(e); },
    };
    let sums = add_up(outcomes, addresses.len());
    proof {
        lemma_aggregate_ids_rise(outcomes_for(outcome_views(outcomes@), addresses@.len() as int));
    }
    Ok(
        BalanceAggregate {
            confirmed_sats: sums.0,
            unconfirmed_sats: sums.1,
            transaction_ids: txids(&sums.2),
        },
    )
}

} // verus!
