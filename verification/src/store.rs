//! Model of the payment store: the table as the sequence of its rows in
//! insertion order, and the laws that hold of creates and listings
//! against it. Each create call is a single-row insert; the store itself
//! serializes concurrent inserts, so any interleaving of calls is some
//! sequence of these single inserts.

use vstd::prelude::*;
use crate::model::{
    RecordModel, RequestModel, ResponseModel, record_model, row_model, response_of_record,
    response_of_row, completed_status,
};

verus! {

/// The table after one successful create: the new row appended.
pub open spec fn table_insert(table: Seq<RecordModel>, rec: RecordModel) -> Seq<RecordModel> {
    table.push(rec)
}

/// The identifier differs from that of every stored row.
pub open spec fn fresh_id(table: Seq<RecordModel>, id: Seq<char>) -> bool {
    forall|i: int| 0 <= i < table.len() ==> table[i].id != id
}

/// All stored identifiers are pairwise distinct: the table's invariant.
pub open spec fn distinct_ids(table: Seq<RecordModel>) -> bool {
    forall|i: int, j: int| 0 <= i < j < table.len() ==> table[i].id != table[j].id
}

/// The table after a sequence of creates, applied one insert at a time.
pub open spec fn insert_all(table: Seq<RecordModel>, recs: Seq<RecordModel>) -> Seq<RecordModel>
    decreases recs.len(),
{
    if recs.len() == 0 {
        table
    } else {
        insert_all(table.push(recs[0]), recs.skip(1))
    }
}

/// The service assigns every identifier itself, never the caller. As long
/// as the assigned identifier differs from every identifier already
/// stored, the insert keeps all stored identifiers pairwise distinct.
pub proof fn lemma_fresh_id_keeps_uniqueness(table: Seq<RecordModel>, rec: RecordModel)
    requires
        distinct_ids(table),
        fresh_id(table, rec.id),
    ensures
        distinct_ids(table_insert(table, rec)),
        table_insert(table, rec).len() == table.len() + 1,
{
    let t = table_insert(table, rec);
    assert forall|i: int, j: int| 0 <= i < j < t.len() implies t[i].id != t[j].id by {
        if j == table.len() {
            assert(t[j] == rec);
            assert(t[i] == table[i]);
        }
    }
}

/// A row written by a successful create reads back through the listing as
/// one entry carrying the assigned identifier, the request's order
/// identifier, amount and currency, and the fixed settled status — the
/// same body that the create reply itself carries.
pub proof fn lemma_created_row_lists_back(req: RequestModel, id: Seq<char>)
    ensures
        response_of_row(row_model(record_model(req, id))) == (ResponseModel {
            id: id,
            order_id: req.order_id,
            status: completed_status(),
            amount_bits: req.amount_bits,
            currency: req.currency,
        }),
        response_of_row(row_model(record_model(req, id))) == response_of_record(
            record_model(req, id),
        ),
{
}

/// Identical payloads submitted twice are not deduplicated: under two
/// distinct assigned identifiers they give two distinct rows, and after
/// the two inserts both rows stand in the table, whose identifiers stay
/// pairwise distinct.
pub proof fn lemma_identical_payloads_two_records(
    table: Seq<RecordModel>,
    req: RequestModel,
    id1: Seq<char>,
    id2: Seq<char>,
)
    requires
        distinct_ids(table),
        fresh_id(table, id1),
        fresh_id(table, id2),
        id1 != id2,
    ensures
        record_model(req, id1) != record_model(req, id2),
        ({
            let t = table_insert(table_insert(table, record_model(req, id1)), record_model(req, id2));
            &&& distinct_ids(t)
            &&& t.len() == table.len() + 2
            &&& t.contains(record_model(req, id1))
            &&& t.contains(record_model(req, id2))
        }),
{
    let r1 = record_model(req, id1);
    let r2 = record_model(req, id2);
    assert(r1.id != r2.id);
    let t1 = table_insert(table, r1);
    lemma_fresh_id_keeps_uniqueness(table, r1);
    assert(fresh_id(t1, r2.id)) by {
        assert(t1[table.len() as int] == r1);
    }
    lemma_fresh_id_keeps_uniqueness(t1, r2);
    let t = table_insert(t1, r2);
    assert(t[table.len() as int] == r1);
    assert(t[table.len() as int + 1] == r2);
}

/// Any number of creates, however interleaved, reach the store as some
/// sequence of single-row inserts. If every assigned identifier differs
/// from all the others and from everything already stored, then after all
/// the inserts no write is lost: every new row and every old row stands in
/// the table, its size grew by exactly the number of creates, and the
/// identifiers remain pairwise distinct.
pub proof fn lemma_all_creates_visible(table: Seq<RecordModel>, recs: Seq<RecordModel>)
    requires
        distinct_ids(table),
        forall|k: int| 0 <= k < recs.len() ==> fresh_id(table, recs[k].id),
        forall|k: int, l: int| 0 <= k < l < recs.len() ==> recs[k].id != recs[l].id,
    ensures
        insert_all(table, recs).len() == table.len() + recs.len(),
        distinct_ids(insert_all(table, recs)),
        forall|i: int| 0 <= i < table.len() ==> insert_all(table, recs)[i] == table[i],
        forall|k: int| 0 <= k < recs.len() ==> insert_all(table, recs).contains(recs[k]),
    decreases recs.len(),
{
    if recs.len() == 0 {
    } else {
        let first = recs[0];
        let rest = recs.skip(1);
        let t1 = table.push(first);
        assert(fresh_id(table, first.id));
        lemma_fresh_id_keeps_uniqueness(table, first);
        assert forall|k: int| 0 <= k < rest.len() implies fresh_id(t1, rest[k].id) by {
            assert(rest[k] == recs[k + 1]);
            assert(fresh_id(table, recs[k + 1].id));
            assert(recs[0].id != recs[k + 1].id);
            assert forall|i: int| 0 <= i < t1.len() implies t1[i].id != rest[k].id by {
                if i == table.len() {
                    assert(t1[i] == first);
                } else {
                    assert(t1[i] == table[i]);
                }
            }
        }
        assert forall|k: int, l: int| 0 <= k < l < rest.len() implies rest[k].id != rest[l].id by {
            assert(rest[k] == recs[k + 1]);
            assert(rest[l] == recs[l + 1]);
        }
        lemma_all_creates_visible(t1, rest);
        let t = insert_all(table, recs);
        assert(t == insert_all(t1, rest));
        assert forall|i: int| 0 <= i < table.len() implies t[i] == table[i] by {
            assert(t[i] == t1[i]);
        }
        assert forall|k: int| 0 <= k < recs.len() implies t.contains(recs[k]) by {
            if k == 0 {
                assert(t[table.len() as int] == t1[table.len() as int]);
                assert(t1[table.len() as int] == first);
            } else {
                assert(rest[k - 1] == recs[k]);
                assert(insert_all(t1, rest).contains(rest[k - 1]));
            }
        }
    }
}

} // verus!
