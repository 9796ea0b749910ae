use payments::handlers::{
    build_record, create_reply, health_response, health_status_code, list_reply, prepare_payment,
    CreateReply, ListReply,
};
use payments::model::{PaymentRequest, StoredRow};

fn sample_request() -> PaymentRequest {
    PaymentRequest {
        order_id: "O1".to_string(),
        user_id: "U1".to_string(),
        amount_bits: 10.5f64.to_bits(),
        currency: "USD".to_string(),
    }
}

fn row_of(rec: &payments::model::PaymentRecord) -> StoredRow {
    StoredRow {
        id: rec.id.clone(),
        order_id: rec.order_id.clone(),
        amount_bits: rec.amount_bits,
        currency: rec.currency.clone(),
        status: rec.status.clone(),
    }
}

#[test]
fn health_fixed_payload() {
    let h = health_response();
    assert_eq!(h.status, "ok");
    assert_eq!(h.service, "payments");
    assert_eq!(health_status_code(), 200);
}

#[test]
fn create_builds_completed_row() {
    let req = sample_request();
    let rec = build_record(&req, "PAY-1".to_string());
    assert_eq!(rec.id, "PAY-1");
    assert_eq!(rec.order_id, "O1");
    assert_eq!(rec.user_id, "U1");
    assert_eq!(f64::from_bits(rec.amount_bits), 10.5);
    assert_eq!(rec.currency, "USD");
    assert_eq!(rec.status, "COMPLETED");
}

#[test]
fn create_success_echoes_record() {
    let req = sample_request();
    let rec = build_record(&req, "PAY-2".to_string());
    let reply = create_reply(rec, Ok(1));
    assert_eq!(reply.status_code(), 201);
    match reply {
        CreateReply::Created(p) => {
            assert_eq!(p.id, "PAY-2");
            assert_eq!(p.order_id, "O1");
            assert_eq!(p.status, "COMPLETED");
            assert_eq!(f64::from_bits(p.amount_bits), 10.5);
            assert_eq!(p.currency, "USD");
        }
        CreateReply::Failed(_) => panic!("successful insert must give a created reply"),
    }
}

#[test]
fn create_failure_passes_message_and_health_stays_up() {
    let req = sample_request();
    let rec = build_record(&req, "PAY-3".to_string());
    let reply = create_reply(rec, Err("connection severed".to_string()));
    assert_eq!(reply.status_code(), 500);
    match reply {
        CreateReply::Failed(b) => {
            assert!(!b.error.is_empty());
            assert_eq!(b.error, "connection severed");
        }
        CreateReply::Created(_) => panic!("a failed insert must not give a created reply"),
    }
    let h = health_response();
    assert_eq!(h.status, "ok");
    assert_eq!(h.service, "payments");
    assert_eq!(health_status_code(), 200);
}

#[test]
fn list_failure_passes_message() {
    let reply = list_reply(Err("connection severed".to_string()));
    assert_eq!(reply.status_code(), 500);
    match reply {
        ListReply::Failed(b) => {
            assert!(!b.error.is_empty());
            assert_eq!(b.error, "connection severed");
        }
        ListReply::Listed(_) => panic!("a failed select must not give a listing"),
    }
}

#[test]
fn list_empty_store_is_empty_200() {
    let reply = list_reply(Ok(Vec::new()));
    assert_eq!(reply.status_code(), 200);
    match reply {
        ListReply::Listed(v) => assert!(v.is_empty()),
        ListReply::Failed(_) => panic!("an empty store is not an error"),
    }
}

#[test]
fn created_payment_lists_back() {
    let req = sample_request();
    let rec = build_record(&req, "PAY-4".to_string());
    let reply = list_reply(Ok(vec![row_of(&rec)]));
    assert_eq!(reply.status_code(), 200);
    match reply {
        ListReply::Listed(v) => {
            assert_eq!(v.len(), 1);
            assert_eq!(v[0].id, "PAY-4");
            assert_eq!(v[0].order_id, "O1");
            assert_eq!(f64::from_bits(v[0].amount_bits), 10.5);
            assert_eq!(v[0].currency, "USD");
            assert_eq!(v[0].status, "COMPLETED");
        }
        ListReply::Failed(_) => panic!("a select that returned rows is not an error"),
    }
}

#[test]
fn fresh_identifiers_are_distinct_and_nonempty() {
    let req = sample_request();
    let first = prepare_payment(&req);
    let second = prepare_payment(&req);
    assert_eq!(first.id.len(), 36);
    assert_eq!(second.id.len(), 36);
    assert!(!first.id.is_empty());
    assert_ne!(first.id, second.id);
    // Identical payloads give two distinct records, not one: no deduplication.
    assert_eq!(first.order_id, second.order_id);
    assert_eq!(first.user_id, second.user_id);
    assert_eq!(first.amount_bits, second.amount_bits);
    assert_eq!(first.currency, second.currency);
    assert_eq!(first.status, "COMPLETED");
    assert_eq!(second.status, "COMPLETED");
}

#[test]
fn many_creates_all_visible_with_distinct_ids() {
    let req = sample_request();
    let mut records = Vec::new();
    for _ in 0..8 {
        records.push(prepare_payment(&req));
    }
    for i in 0..records.len() {
        for j in 0..records.len() {
            if i != j {
                assert_ne!(records[i].id, records[j].id);
            }
        }
    }
    let rows: Vec<StoredRow> = records.iter().map(row_of).collect();
    let reply = list_reply(Ok(rows));
    match reply {
        ListReply::Listed(v) => {
            assert_eq!(v.len(), 8);
            for (entry, rec) in v.iter().zip(records.iter()) {
                assert_eq!(entry.id, rec.id);
                assert_eq!(entry.status, "COMPLETED");
            }
        }
        ListReply::Failed(_) => panic!("a select that returned rows is not an error"),
    }
}
