//! The decision core of the three endpoints. Each handler is a pure
//! function from the request's decoded values and the storage outcome to
//! the reply; the surrounding process performs the actual storage calls
//! and the HTTP transport.

use vstd::prelude::*;
use crate::model::{
    PaymentRequest, PaymentRecord, StoredRow, PaymentResponse, ErrorBody, HealthResponse,
    record_model, response_of_record, response_of_row,
};

verus! {

/// Reply of the create endpoint: a created payment with HTTP 201, or the
/// storage failure with HTTP 500.
pub enum CreateReply {
    Created(PaymentResponse),
    Failed(ErrorBody),
}

/// Reply of the list endpoint: the full sequence of stored payments with
/// HTTP 200, or the storage failure with HTTP 500.
pub enum ListReply {
    Listed(Vec<PaymentResponse>),
    Failed(ErrorBody),
}

impl CreateReply {
    /// The HTTP status carried by this reply.
    pub fn status_code(&self) -> (c: u16)
        ensures
            self is Created ==> c == 201,
            self is Failed ==> c == 500,
    {
        match self {
            CreateReply::Created(_) => 201,
            CreateReply::Failed(_) => 500,
        }
    }
}

impl ListReply {
    /// The HTTP status carried by this reply.
    pub fn status_code(&self) -> (c: u16)
        ensures
            self is Listed ==> c == 200,
            self is Failed ==> c == 500,
    {
        match self {
            ListReply::Listed(_) => 200,
            ListReply::Failed(_) => 500,
        }
    }
}

/// The liveness endpoint's status: it always succeeds.
pub fn health_status_code() -> (c: u16)
    ensures
        c == 200,
{
    200
}

/// Builds the liveness payload. It takes no storage handle and performs no
/// storage call, so its reply is the same whatever the state of the store.
pub fn health_response() -> (r: HealthResponse)
    ensures
        r.status@ == "ok"@,
        r.service@ == "payments"@,
{
    HealthResponse { status: "ok".to_string(), service: "payments".to_string() }
}

/// Builds the payment row to insert for a request and a service-assigned
/// identifier: the request's fields unchanged, and the fixed status.
pub fn build_record(req: &PaymentRequest, id: String) -> (rec: PaymentRecord)
    ensures
        rec@ == record_model(req@, id@),
{
    PaymentRecord {
        id: id,
        order_id: req.order_id.clone(),
        user_id: req.user_id.clone(),
        amount_bits: req.amount_bits,
        currency: req.currency.clone(),
        status: "COMPLETED".to_string(),
    }
}

/// Builds the row to insert for a request, under a freshly generated
/// identifier. The identifier is random and never caller-supplied; all
/// that is known of it is its hyphenated length of 36 characters.
pub fn prepare_payment(req: &PaymentRequest) -> (rec: PaymentRecord)
    ensures
        rec@ == record_model(req@, rec@.id),
        rec@.id.len() == 36,
{
    let id = fresh_payment_id();
    build_record(req, id)
}

/// Turns the storage outcome of the insert into the create reply: HTTP 201
/// with the payment's representation (the inserted row without its user
/// identifier) on success, HTTP 500 carrying the storage message verbatim
/// on failure.
pub fn create_reply(rec: PaymentRecord, outcome: Result<u64, String>) -> (r: CreateReply)
    ensures
        outcome is Ok ==> (r matches CreateReply::Created(p) && p@ == response_of_record(
            rec@,
        )),
        outcome matches Err(m) ==> r matches CreateReply::Failed(b) && b.error@ == m@,
{
    match outcome {
        Ok(_) => CreateReply::Created(
            PaymentResponse {
                id: rec.id,
                order_id: rec.order_id,
                status: rec.status,
                amount_bits: rec.amount_bits,
                currency: rec.currency,
            },
        ),
        Err(m) => CreateReply::Failed(ErrorBody { error: m }),
    }
}

/// Turns the storage outcome of the unfiltered select into the list reply:
/// HTTP 200 with one entry per row, in the order the store returned them,
/// on success; HTTP 500 carrying the storage message verbatim on failure.
/// An empty store gives an empty listing, not an error.
pub fn list_reply(outcome: Result<Vec<StoredRow>, String>) -> (r: ListReply)
    ensures
        outcome matches Ok(rows) ==> r matches ListReply::Listed(v) && v@.len() == rows@.len()
            && (forall|i: int| 0 <= i < rows@.len() ==> v@[i]@ == response_of_row(rows@[i]@)),
        outcome matches Err(m) ==> r matches ListReply::Failed(b) && b.error@ == m@,
{
    match outcome {
        Ok(rows) => {
            let mut entries: Vec<PaymentResponse> = Vec::new();
            let mut k: usize = 0;
            let n = rows.len();
            while k < n
                invariant
                    n == rows@.len(),
                    k <= n,
                    entries@.len() == k,
                    forall|i: int| 0 <= i < k ==> entries@[i]@ == response_of_row(rows@[i]@),
                decreases n - k,
            {
                let row = &rows[k];
                entries.push(
                    PaymentResponse {
                        id: row.id.clone(),
                        order_id: row.order_id.clone(),
                        status: row.status.clone(),
                        amount_bits: row.amount_bits,
                        currency: row.currency.clone(),
                    },
                );
                k = k + 1;
            }
            ListReply::Listed(entries)
        },
        Err(m) => ListReply::Failed(ErrorBody { error: m }),
    }
}

/// Relies on uuid::Uuid::new_v4 and its Display rendering: a random
/// version-4 UUID in the hyphenated form, which is exactly 36 characters.
/// The value is random, so nothing beyond the length is promised, and two
/// calls may (with negligible probability) agree.
#[verifier::external_body]
fn fresh_payment_id() -> (r: String)
    ensures
        r@.len() == 36,
{
    uuid::Uuid::new_v4().to_string()
}

} // verus!
