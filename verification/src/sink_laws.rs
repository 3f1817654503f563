//! What makes the two strategies safe to use behind one interface: a batch
//! store does not care how often or in which order the calls of a request
//! come, and for a request whose calls come once and in order both
//! strategies end with the same record.

use crate::record::RecordView;
use crate::sink::{FactsView, Operation, RowsView, SinkCallView};
use crate::text::lemma_first_index;
use vstd::prelude::*;

verus! {

/// After a fact is put, it is the fact of its key, and the fact of every
/// other key is what it was: the last writer wins, and only on its own key.
pub proof fn lemma_put_fact(facts: FactsView, fact: SinkCallView, id: u128, operation: Operation)
    ensures
        facts.put(fact).fact(id, operation) == (if fact.key() == (id, operation) {
            Some(fact)
        } else {
            facts.fact(id, operation)
        }),
{
    let after = facts.put(fact);
    let key = (id, operation);
    facts.keys().index_of_first_ensures(fact.key());
    facts.keys().index_of_first_ensures(key);
    match facts.keys().index_of_first(fact.key()) {
        Some(i) => {
            assert(after.keys() =~= facts.keys());
        },
        None => {
            assert(after.keys() =~= facts.keys().push(fact.key()));
            if fact.key() == key {
                lemma_first_index(after.keys(), key, facts.keys().len() as int);
            } else {
                match facts.keys().index_of_first(key) {
                    Some(j) => {
                        lemma_first_index(after.keys(), key, j);
                    },
                    None => {
                        assert forall|j: int| 0 <= j < after.keys().len() implies after.keys()[j]
                            != key by {
                            if j < facts.keys().len() {
                                assert(facts.keys()[j] == after.keys()[j]);
                                assert(!facts.keys().contains(key));
                            }
                        }
                        lemma_first_index(after.keys(), key, after.keys().len() as int);
                    },
                }
            }
        },
    }
}

/// A call that comes twice leaves the store as if it had come once.
pub proof fn lemma_put_twice(facts: FactsView, fact: SinkCallView)
    ensures
        facts.put(fact).put(fact) == facts.put(fact),
{
    let once = facts.put(fact);
    facts.keys().index_of_first_ensures(fact.key());
    match facts.keys().index_of_first(fact.key()) {
        Some(i) => {
            assert(once.keys() =~= facts.keys());
            assert(once.put(fact).facts =~= once.facts);
        },
        None => {
            assert(once.keys() =~= facts.keys().push(fact.key()));
            lemma_first_index(once.keys(), fact.key(), facts.keys().len() as int);
            assert(once.put(fact).facts =~= once.facts);
        },
    }
}

/// Two calls with different keys may come in either order: every record
/// merges to the same.
pub proof fn lemma_order_free(facts: FactsView, a: SinkCallView, b: SinkCallView, id: u128)
    requires
        a.key() != b.key(),
    ensures
        facts.put(a).put(b).merged(id) == facts.put(b).put(a).merged(id),
{
    lemma_put_fact(facts, a, id, Operation::Create);
    lemma_put_fact(facts, a, id, Operation::RecordResponse);
    lemma_put_fact(facts, a, id, Operation::RecordFinish);
    lemma_put_fact(facts, b, id, Operation::Create);
    lemma_put_fact(facts, b, id, Operation::RecordResponse);
    lemma_put_fact(facts, b, id, Operation::RecordFinish);
    lemma_put_fact(facts.put(a), b, id, Operation::Create);
    lemma_put_fact(facts.put(a), b, id, Operation::RecordResponse);
    lemma_put_fact(facts.put(a), b, id, Operation::RecordFinish);
    lemma_put_fact(facts.put(b), a, id, Operation::Create);
    lemma_put_fact(facts.put(b), a, id, Operation::RecordResponse);
    lemma_put_fact(facts.put(b), a, id, Operation::RecordFinish);
}

/// A store in which no key has two facts stays so when a fact is put.
pub proof fn lemma_put_distinct(facts: FactsView, fact: SinkCallView)
    requires
        facts.distinct(),
    ensures
        facts.put(fact).distinct(),
{
    let after = facts.put(fact);
    facts.keys().index_of_first_ensures(fact.key());
    match facts.keys().index_of_first(fact.key()) {
        Some(i) => {
            assert(after.keys() =~= facts.keys());
        },
        None => {
            assert(after.keys() =~= facts.keys().push(fact.key()));
            assert forall|i: int, j: int|
                0 <= i < after.keys().len() && 0 <= j < after.keys().len() && i
                    != j implies after.keys()[i] != after.keys()[j] by {
                if i < facts.keys().len() && j < facts.keys().len() {
                    assert(facts.keys()[i] != facts.keys()[j]);
                } else if i < facts.keys().len() {
                    assert(facts.keys().contains(facts.keys()[i]));
                } else {
                    assert(facts.keys().contains(facts.keys()[j]));
                }
            }
        },
    }
}

/// After a row is created for an id that had none, it is the row of that
/// id; after the row of an id is replaced by a row of the same id, the new
/// one is the row of that id.
pub proof fn lemma_row_written(
    rows: RowsView,
    id: u128,
    received_at: i64,
    method: Seq<char>,
    url: Seq<char>,
    headers: Seq<char>,
    row: RecordView,
)
    ensures
        rows.row(id) is None ==> rows.create(id, received_at, method, url, headers).row(id)
            == Some(RecordView::received(id, received_at, method, url, headers)),
        rows.row(id) is Some && row.id == id ==> rows.replace(id, row).row(id) == Some(row),
{
    rows.ids().index_of_first_ensures(id);
    match rows.ids().index_of_first(id) {
        Some(i) => {
            if row.id == id {
                let after = rows.replace(id, row);
                assert(after.ids() =~= rows.ids());
            }
        },
        None => {
            let after = rows.create(id, received_at, method, url, headers);
            assert(after.ids() =~= rows.ids().push(id));
            lemma_first_index(after.ids(), id, rows.ids().len() as int);
        },
    }
}

/// For a request that neither store has heard of, whose three calls come
/// once and in order, the row of the row store and the merged record of
/// the batch store are the same.
pub proof fn lemma_strategies_agree(
    rows: RowsView,
    facts: FactsView,
    id: u128,
    received_at: i64,
    method: Seq<char>,
    url: Seq<char>,
    headers: Seq<char>,
    status_code: u16,
    response_latency: u64,
    finish_latency: u64,
)
    requires
        rows.row(id) is None,
        facts.fact(id, Operation::Create) is None,
        facts.fact(id, Operation::RecordResponse) is None,
        facts.fact(id, Operation::RecordFinish) is None,
    ensures
        ({
            let received = RecordView::received(id, received_at, method, url, headers);
            let responded = RecordView {
                status_code: Some(status_code),
                response_latency: Some(response_latency),
                ..received
            };
            let finished = responded.finished(finish_latency);
            let rows_after = rows.create(id, received_at, method, url, headers).replace(
                id,
                responded,
            ).replace(id, finished);
            let facts_after = facts.put(
                SinkCallView::Create { id, received_at, method, url, headers },
            ).put(SinkCallView::RecordResponse { id, status_code, latency: response_latency }).put(
                SinkCallView::RecordFinish { id, latency: finish_latency },
            );
            &&& rows_after.row(id) == Some(finished)
            &&& facts_after.merged(id) == Some(finished)
        }),
{
    let received = RecordView::received(id, received_at, method, url, headers);
    let responded = RecordView {
        status_code: Some(status_code),
        response_latency: Some(response_latency),
        ..received
    };
    let finished = responded.finished(finish_latency);
    let r1 = rows.create(id, received_at, method, url, headers);
    lemma_row_written(rows, id, received_at, method, url, headers, received);
    let r2 = r1.replace(id, responded);
    lemma_row_written(r1, id, received_at, method, url, headers, responded);
    lemma_row_written(r2, id, received_at, method, url, headers, finished);
    let a = SinkCallView::Create { id, received_at, method, url, headers };
    let b = SinkCallView::RecordResponse { id, status_code, latency: response_latency };
    let c = SinkCallView::RecordFinish { id, latency: finish_latency };
    let f1 = facts.put(a);
    let f2 = f1.put(b);
    lemma_put_fact(facts, a, id, Operation::Create);
    lemma_put_fact(facts, a, id, Operation::RecordResponse);
    lemma_put_fact(facts, a, id, Operation::RecordFinish);
    lemma_put_fact(f1, b, id, Operation::Create);
    lemma_put_fact(f1, b, id, Operation::RecordResponse);
    lemma_put_fact(f1, b, id, Operation::RecordFinish);
    lemma_put_fact(f2, c, id, Operation::Create);
    lemma_put_fact(f2, c, id, Operation::RecordResponse);
    lemma_put_fact(f2, c, id, Operation::RecordFinish);
}

} // verus!
