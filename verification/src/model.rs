//! Data shapes of the service: the inbound payment request, the row written
//! to the payment store, the row read back by a listing, and the bodies of
//! the replies. Amounts travel as the raw bit pattern of their
//! double-precision value, so they pass through the library unchanged.

use vstd::prelude::*;

verus! {

/// Inbound payment request: the decoded body of a create call.
/// No validation is applied beyond the shape itself; all fields are
/// accepted as opaque values.
pub struct PaymentRequest {
    pub order_id: String,
    pub user_id: String,
    pub amount_bits: u64,
    pub currency: String,
}

/// Mathematical model of a payment request.
pub ghost struct RequestModel {
    pub order_id: Seq<char>,
    pub user_id: Seq<char>,
    pub amount_bits: u64,
    pub currency: Seq<char>,
}

impl View for PaymentRequest {
    type V = RequestModel;

    open spec fn view(&self) -> RequestModel {
        RequestModel {
            order_id: self.order_id@,
            user_id: self.user_id@,
            amount_bits: self.amount_bits,
            currency: self.currency@,
        }
    }
}

/// A full payment row, as inserted into the store: the request's fields,
/// a service-assigned identifier, and the fixed status.
pub struct PaymentRecord {
    pub id: String,
    pub order_id: String,
    pub user_id: String,
    pub amount_bits: u64,
    pub currency: String,
    pub status: String,
}

/// Mathematical model of a payment row.
pub ghost struct RecordModel {
    pub id: Seq<char>,
    pub order_id: Seq<char>,
    pub user_id: Seq<char>,
    pub amount_bits: u64,
    pub currency: Seq<char>,
    pub status: Seq<char>,
}

impl View for PaymentRecord {
    type V = RecordModel;

    open spec fn view(&self) -> RecordModel {
        RecordModel {
            id: self.id@,
            order_id: self.order_id@,
            user_id: self.user_id@,
            amount_bits: self.amount_bits,
            currency: self.currency@,
            status: self.status@,
        }
    }
}

/// A row as returned by the unfiltered listing query:
/// identifier, order identifier, amount, currency, status.
pub struct StoredRow {
    pub id: String,
    pub order_id: String,
    pub amount_bits: u64,
    pub currency: String,
    pub status: String,
}

/// Mathematical model of a listed row.
pub ghost struct RowModel {
    pub id: Seq<char>,
    pub order_id: Seq<char>,
    pub amount_bits: u64,
    pub currency: Seq<char>,
    pub status: Seq<char>,
}

impl View for StoredRow {
    type V = RowModel;

    open spec fn view(&self) -> RowModel {
        RowModel {
            id: self.id@,
            order_id: self.order_id@,
            amount_bits: self.amount_bits,
            currency: self.currency@,
            status: self.status@,
        }
    }
}

/// Body of a successful create or of one entry of a listing:
/// identifier, order identifier, status, amount, currency.
pub struct PaymentResponse {
    pub id: String,
    pub order_id: String,
    pub status: String,
    pub amount_bits: u64,
    pub currency: String,
}

/// Mathematical model of a payment reply body.
pub ghost struct ResponseModel {
    pub id: Seq<char>,
    pub order_id: Seq<char>,
    pub status: Seq<char>,
    pub amount_bits: u64,
    pub currency: Seq<char>,
}

impl View for PaymentResponse {
    type V = ResponseModel;

    open spec fn view(&self) -> ResponseModel {
        ResponseModel {
            id: self.id@,
            order_id: self.order_id@,
            status: self.status@,
            amount_bits: self.amount_bits,
            currency: self.currency@,
        }
    }
}

/// Body of a failed call: the storage layer's message, passed through
/// verbatim.
pub struct ErrorBody {
    pub error: String,
}

/// The fixed payload of the liveness endpoint.
pub struct HealthResponse {
    pub status: String,
    pub service: String,
}

/// The one status every payment carries: rows are recorded as already
/// settled, with no other state and no transition.
pub open spec fn completed_status() -> Seq<char> {
    "COMPLETED"@
}

/// The row that a create call writes for a given request and identifier.
pub open spec fn record_model(req: RequestModel, id: Seq<char>) -> RecordModel {
    RecordModel {
        id: id,
        order_id: req.order_id,
        user_id: req.user_id,
        amount_bits: req.amount_bits,
        currency: req.currency,
        status: completed_status(),
    }
}

/// The listing row that a select returns for an inserted payment row:
/// every column but the user identifier.
pub open spec fn row_model(rec: RecordModel) -> RowModel {
    RowModel {
        id: rec.id,
        order_id: rec.order_id,
        amount_bits: rec.amount_bits,
        currency: rec.currency,
        status: rec.status,
    }
}

/// The reply body built from a freshly inserted payment row: every field
/// but the user identifier.
pub open spec fn response_of_record(rec: RecordModel) -> ResponseModel {
    ResponseModel {
        id: rec.id,
        order_id: rec.order_id,
        status: rec.status,
        amount_bits: rec.amount_bits,
        currency: rec.currency,
    }
}

/// The reply body built from one listed row.
pub open spec fn response_of_row(row: RowModel) -> ResponseModel {
    ResponseModel {
        id: row.id,
        order_id: row.order_id,
        status: row.status,
        amount_bits: row.amount_bits,
        currency: row.currency,
    }
}

} // verus!
