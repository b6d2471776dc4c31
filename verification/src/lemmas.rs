//! What holds of the log and of the queries on it, whatever was recorded.

use crate::cash::{
    cash_total, created_within, has_id, is_first_with_id, lemma_filter_push, TransactionKind,
    TransactionView,
};
use crate::clock::Timestamp;
use crate::ident::{id_text, lemma_id_text_injective};
use crate::service::requested;
use vstd::prelude::*;

verus! {

/// The sum of the amounts of all transactions in a sequence, of any kind.
pub open spec fn amount_total(transactions: Seq<TransactionView>) -> int
    decreases transactions.len(),
{
    if transactions.len() == 0 {
        0
    } else {
        amount_total(transactions.drop_last()) + transactions.last().amount
    }
}

/// No two transactions in the sequence share an identifier.
pub open spec fn distinct_ids(transactions: Seq<TransactionView>) -> bool {
    forall|i: int, j: int|
        0 <= i < j < transactions.len() ==> transactions[i].id != transactions[j].id
}

/// `merged` holds the transactions of `a` and of `b`, each in its own
/// order, interleaved in some way.
pub open spec fn interleaves(
    merged: Seq<TransactionView>,
    a: Seq<TransactionView>,
    b: Seq<TransactionView>,
) -> bool
    decreases merged.len(),
{
    if merged.len() == 0 {
        a.len() == 0 && b.len() == 0
    } else {
        ||| a.len() > 0 && a.last() == merged.last() && interleaves(
            merged.drop_last(),
            a.drop_last(),
            b,
        )
        ||| b.len() > 0 && b.last() == merged.last() && interleaves(
            merged.drop_last(),
            a,
            b.drop_last(),
        )
    }
}

/// After any run of additions the cash total is the total from before plus
/// the cash total of what was added: the balance of a log that started
/// empty is the sum of the cash amounts added to it.
pub proof fn lemma_cash_total_after_adding(
    before: Seq<TransactionView>,
    added: Seq<TransactionView>,
)
    ensures
        cash_total(before + added) == cash_total(before) + cash_total(added),
        cash_total(Seq::<TransactionView>::empty() + added) == cash_total(added),
    decreases added.len(),
{
    if added.len() == 0 {
        assert(before + added =~= before);
    } else {
        lemma_cash_total_after_adding(before, added.drop_last());
        assert((before + added).drop_last() =~= before + added.drop_last());
    }
    assert(Seq::<TransactionView>::empty() + added =~= added);
}

/// Where every transaction is a cash transaction, the cash total is the
/// plain sum of the amounts.
pub proof fn lemma_all_cash_total(transactions: Seq<TransactionView>)
    requires
        forall|i: int|
            0 <= i < transactions.len() ==> transactions[i].kind == TransactionKind::Cash,
    ensures
        cash_total(transactions) == amount_total(transactions),
    decreases transactions.len(),
{
    if transactions.len() > 0 {
        lemma_all_cash_total(transactions.drop_last());
    }
}

/// Adding a transaction keeps what was stored, in its order, and puts the
/// new one last; where its identifier is new, the identifiers stay distinct.
pub proof fn lemma_adding_keeps_order(stored: Seq<TransactionView>, t: TransactionView)
    ensures
        stored.push(t).len() == stored.len() + 1,
        stored.push(t).last() == t,
        forall|i: int| 0 <= i < stored.len() ==> stored.push(t)[i] == stored[i],
        distinct_ids(stored) && !has_id(stored, t.id) ==> distinct_ids(stored.push(t)),
{
}

/// A lookup finds a transaction exactly when one with the identifier is
/// stored: an identifier that was never added is not found.
pub proof fn lemma_lookup_finds_stored(stored: Seq<TransactionView>, id: u128)
    ensures
        has_id(stored, id) <==> exists|i: int| is_first_with_id(stored, id, i),
    decreases stored.len(),
{
    if has_id(stored, id) {
        let k = choose|k: int| 0 <= k < stored.len() && stored[k].id == id;
        if has_id(stored.take(k), id) {
            lemma_lookup_finds_stored(stored.take(k), id);
            let i = choose|i: int| is_first_with_id(stored.take(k), id, i);
            assert(is_first_with_id(stored, id, i)) by {
                assert(forall|j: int| 0 <= j < i ==> stored.take(k)[j] == stored[j]);
                assert(stored.take(k)[i] == stored[i]);
            }
        } else {
            assert(is_first_with_id(stored, id, k)) by {
                assert forall|j: int| 0 <= j < k implies stored[j].id != id by {
                    assert(stored.take(k)[j] == stored[j]);
                }
            }
        }
    }
}

/// Among distinct identifiers, the lookup of a stored transaction's
/// identifier finds that transaction and no other.
pub proof fn lemma_lookup_returns_stored(stored: Seq<TransactionView>, i: int, found: int)
    requires
        distinct_ids(stored),
        0 <= i < stored.len(),
        is_first_with_id(stored, stored[i].id, found),
    ensures
        found == i,
        is_first_with_id(stored, stored[i].id, i),
{
}

/// The transaction added last, under a new identifier, is the one that a
/// lookup of its identifier finds.
pub proof fn lemma_lookup_after_adding(stored: Seq<TransactionView>, t: TransactionView)
    requires
        !has_id(stored, t.id),
    ensures
        is_first_with_id(stored.push(t), t.id, stored.len() as int),
        stored.push(t)[stored.len() as int] == t,
{
}

/// A bulk request answers with exactly the stored transactions whose
/// identifier was asked for by its canonical text, each as it is stored.
pub proof fn lemma_requested_exact(
    stored: Seq<TransactionView>,
    wanted: Seq<Seq<char>>,
    t: TransactionView,
)
    ensures
        requested(stored, wanted).contains(t) <==> stored.contains(t) && wanted.contains(
            id_text(t.id),
        ),
    decreases stored.len(),
{
    let pred = |t: TransactionView| wanted.contains(id_text(t.id));
    if stored.len() == 0 {
        reveal(Seq::filter);
    } else {
        let rest = stored.drop_last();
        let last = stored.last();
        lemma_requested_exact(rest, wanted, t);
        lemma_filter_push(rest, last, pred);
        assert(rest.push(last) =~= stored);
        if stored.contains(t) {
            let k = choose|k: int| 0 <= k < stored.len() && stored[k] == t;
            if k < rest.len() {
                assert(rest[k] == t);
            }
        }
        if rest.contains(t) {
            let k = choose|k: int| 0 <= k < rest.len() && rest[k] == t;
            assert(stored[k] == t);
        }
        if requested(rest, wanted).contains(t) && pred(last) {
            let k = choose|k: int|
                0 <= k < requested(rest, wanted).len() && requested(rest, wanted)[k] == t;
            assert(requested(rest, wanted).push(last)[k] == t);
        }
        if pred(last) {
            assert(requested(rest, wanted).push(last)[requested(rest, wanted).len() as int]
                == last);
        }
    }
}

/// A bulk request that asks for no stored identifier answers with nothing.
pub proof fn lemma_requested_none(stored: Seq<TransactionView>, wanted: Seq<Seq<char>>)
    requires
        forall|i: int| 0 <= i < stored.len() ==> !wanted.contains(id_text(stored[i].id)),
    ensures
        requested(stored, wanted) == Seq::<TransactionView>::empty(),
    decreases stored.len(),
{
    let pred = |t: TransactionView| wanted.contains(id_text(t.id));
    if stored.len() == 0 {
        reveal(Seq::filter);
    } else {
        lemma_requested_none(stored.drop_last(), wanted);
        lemma_filter_push(stored.drop_last(), stored.last(), pred);
        assert(stored.drop_last().push(stored.last()) =~= stored);
    }
}

/// The canonical texts of a sequence of identifiers, in the same order.
pub open spec fn texts_of(ids: Seq<u128>) -> Seq<Seq<char>> {
    ids.map_values(|id: u128| id_text(id))
}

/// A canonical text is among the texts of some identifiers exactly when
/// it is the text of one of them.
pub proof fn lemma_text_among_ids(ids: Seq<u128>, id: u128)
    ensures
        texts_of(ids).contains(id_text(id)) <==> ids.contains(id),
{
    if texts_of(ids).contains(id_text(id)) {
        let k = choose|k: int| 0 <= k < texts_of(ids).len() && texts_of(ids)[k] == id_text(id);
        lemma_id_text_injective(ids[k], id);
    }
    if ids.contains(id) {
        let k = choose|k: int| 0 <= k < ids.len() && ids[k] == id;
        assert(texts_of(ids)[k] == id_text(id));
    }
}

/// A bulk request for the canonical texts of some identifiers answers
/// with exactly the stored transactions that have one of them.
pub proof fn lemma_requested_by_ids(stored: Seq<TransactionView>, ids: Seq<u128>)
    ensures
        requested(stored, texts_of(ids)) == stored.filter(
            |t: TransactionView| ids.contains(t.id),
        ),
    decreases stored.len(),
{
    let wanted = texts_of(ids);
    let by_text = |t: TransactionView| wanted.contains(id_text(t.id));
    let by_id = |t: TransactionView| ids.contains(t.id);
    if stored.len() == 0 {
        reveal(Seq::filter);
    } else {
        let rest = stored.drop_last();
        let last = stored.last();
        lemma_requested_by_ids(rest, ids);
        lemma_text_among_ids(ids, last.id);
        lemma_filter_push(rest, last, by_text);
        lemma_filter_push(rest, last, by_id);
        assert(rest.push(last) =~= stored);
    }
}

/// A date range whose start is after its end holds nothing.
pub proof fn lemma_reversed_range_is_empty(
    stored: Seq<TransactionView>,
    from: Timestamp,
    till: Timestamp,
)
    requires
        !from.spec_at_or_before(&till),
    ensures
        created_within(stored, from, till) == Seq::<TransactionView>::empty(),
    decreases stored.len(),
{
    let pred = |t: TransactionView| t.created_at.spec_within(&from, &till);
    if stored.len() == 0 {
        reveal(Seq::filter);
    } else {
        lemma_reversed_range_is_empty(stored.drop_last(), from, till);
        lemma_filter_push(stored.drop_last(), stored.last(), pred);
        assert(stored.drop_last().push(stored.last()) =~= stored);
    }
}

/// A date range holds exactly the stored transactions created from its
/// start to its end, both ends included.
pub proof fn lemma_range_is_closed(
    stored: Seq<TransactionView>,
    from: Timestamp,
    till: Timestamp,
    t: TransactionView,
)
    ensures
        created_within(stored, from, till).contains(t) <==> stored.contains(t)
            && from.spec_at_or_before(&t.created_at) && t.created_at.spec_at_or_before(&till),
        stored.contains(t) && from.spec_at_or_before(&till) && (t.created_at == from
            || t.created_at == till) ==> created_within(stored, from, till).contains(t),
    decreases stored.len(),
{
    let pred = |t: TransactionView| t.created_at.spec_within(&from, &till);
    let inside = created_within(stored, from, till);
    if stored.len() == 0 {
        reveal(Seq::filter);
    } else {
        let rest = stored.drop_last();
        let last = stored.last();
        let inner = created_within(rest, from, till);
        lemma_range_is_closed(rest, from, till, t);
        lemma_filter_push(rest, last, pred);
        assert(rest.push(last) =~= stored);
        if stored.contains(t) {
            let k = choose|k: int| 0 <= k < stored.len() && stored[k] == t;
            if k < rest.len() {
                assert(rest[k] == t);
            }
        }
        if rest.contains(t) {
            let k = choose|k: int| 0 <= k < rest.len() && rest[k] == t;
            assert(stored[k] == t);
        }
        if inner.contains(t) && pred(last) {
            let k = choose|k: int| 0 <= k < inner.len() && inner[k] == t;
            assert(inner.push(last)[k] == t);
        }
        if pred(last) {
            assert(inner.push(last)[inner.len() as int] == last);
        }
    }
}

/// However the additions of two callers are interleaved, the cash total
/// is the sum of what each of them added.
pub proof fn lemma_interleaving_keeps_total(
    merged: Seq<TransactionView>,
    a: Seq<TransactionView>,
    b: Seq<TransactionView>,
)
    requires
        interleaves(merged, a, b),
    ensures
        merged.len() == a.len() + b.len(),
        cash_total(merged) == cash_total(a) + cash_total(b),
    decreases merged.len(),
{
    if merged.len() > 0 {
        if a.len() > 0 && a.last() == merged.last() && interleaves(
            merged.drop_last(),
            a.drop_last(),
            b,
        ) {
            lemma_interleaving_keeps_total(merged.drop_last(), a.drop_last(), b);
        } else {
            lemma_interleaving_keeps_total(merged.drop_last(), a, b.drop_last());
        }
    }
}

} // verus!
