use cash_ledger::{
    CashService, ErrorClass, NewTransaction, ServiceError, Timestamp, Transaction,
    TransactionKind, TransactionLog,
};

fn request(kind: i32, amount: i32) -> NewTransaction {
    NewTransaction {
        cart_id: None,
        kind,
        amount,
        reference: String::from("ref"),
        comment: String::from("note"),
        created_by: 3,
    }
}

fn service() -> CashService {
    CashService::init(TransactionLog::default())
}

const ID_A: u128 = 0xa1a2a3a4_b1b2_41c2_91d2_d3d4d5d6d7d8;
const ID_B: u128 = 0x67e55044_10b1_426f_9247_bb680e5fe0c8;
const ID_C: u128 = 0x00000000_0000_4000_8000_00000000000f;

fn filled() -> CashService {
    let mut service = service();
    service.record(request(0, 100), ID_A, Timestamp { secs: 1_577_836_800, nanos: 0 }).unwrap();
    service.record(request(1, 200), ID_B, Timestamp { secs: 1_577_840_400, nanos: 0 }).unwrap();
    service.record(request(0, -30), ID_C, Timestamp { secs: 1_577_844_000, nanos: 5 }).unwrap();
    service
}

#[test]
fn four_cash_transactions_add_up() {
    let mut service = service();
    let mut ids: Vec<u128> = Vec::new();
    for amount in [100, 200, 300, 400] {
        let request = request(0, amount);
        assert!(service.accepts(&request));
        let t = service.create_transaction(request).expect("created");
        assert_eq!(t.amount, amount);
        assert_eq!(t.kind, TransactionKind::Cash);
        ids.push(t.id);
    }
    for i in 0..ids.len() {
        for j in (i + 1)..ids.len() {
            assert_ne!(ids[i], ids[j]);
        }
    }
    assert_eq!(service.get_balance(), 1000);
    let found = service
        .get_by_date_range("2000-01-01T00:00:00Z", "9000-01-01T00:00:00Z")
        .expect("both dates are sound");
    let expected: Vec<String> =
        ids.iter().map(|id| uuid::Uuid::from_u128(*id).to_string()).collect();
    assert_eq!(found.len(), 4);
    assert_eq!(found, expected);
    let amounts: Vec<i32> = service.log().get_transactions().iter().map(|t| t.amount).collect();
    assert_eq!(amounts, vec![100, 200, 300, 400]);
}

#[test]
fn create_refuses_an_unknown_kind_and_changes_nothing() {
    let mut service = filled();
    for kind in [3, -1, 99, i32::MAX, i32::MIN] {
        assert_eq!(service.create_transaction(request(kind, 10)), Err(ServiceError::UnknownKind));
        assert_eq!(
            service.record(request(kind, 10), 1, Timestamp { secs: 0, nanos: 0 }),
            Err(ServiceError::UnknownKind)
        );
    }
    assert_eq!(service.get_balance(), 70);
    assert_eq!(service.log().get_transactions().len(), 3);
}

#[test]
fn create_hands_back_what_it_stored() {
    let mut service = service();
    let asked = NewTransaction {
        cart_id: Some(String::from("cart-77")),
        kind: 2,
        amount: 950,
        reference: String::from("bank"),
        comment: String::from("wire"),
        created_by: 12,
    };
    let t = service.create_transaction(asked).expect("created");
    assert_eq!(t.cart_id, Some(String::from("cart-77")));
    assert_eq!(t.kind, TransactionKind::Transfer);
    assert_eq!(t.amount, 950);
    assert_eq!(t.reference, "bank");
    assert_eq!(t.comment, "wire");
    assert_eq!(t.created_by, 12);
    assert_eq!(service.log().get_transactions().len(), 1);
    assert_eq!(service.log().get_transactions()[0], t);
    assert_eq!(service.get_balance(), 0);
}

#[test]
fn record_uses_the_given_identifier_and_instant() {
    let mut service = service();
    let when = Timestamp { secs: 1_600_000_000, nanos: 123 };
    let t = service.record(request(0, 55), ID_B, when).expect("recorded");
    let expected = Transaction::assemble(
        ID_B,
        when,
        None,
        TransactionKind::Cash,
        55,
        String::from("ref"),
        String::from("note"),
        3,
    );
    assert_eq!(t, expected);
    assert_eq!(service.log().get_transactions(), &vec![expected]);
    assert_eq!(service.get_balance(), 55);
}

#[test]
fn accepts_tells_when_the_balance_would_overflow() {
    let mut service = service();
    service.create_transaction(request(0, i32::MAX - 5)).unwrap();
    assert!(service.accepts(&request(0, 5)));
    assert!(!service.accepts(&request(0, 6)));
    assert!(service.accepts(&request(1, 6)));
    assert!(service.accepts(&request(2, i32::MAX)));
    assert!(service.accepts(&request(7, i32::MAX)));
    assert!(service.accepts(&request(0, i32::MIN)));
}

#[test]
fn balance_of_a_new_service_is_zero() {
    assert_eq!(service().get_balance(), 0);
}

#[test]
fn init_keeps_the_log() {
    let mut log = TransactionLog::default();
    log.add_transaction(Transaction::assemble(
        ID_A,
        Timestamp { secs: 1, nanos: 0 },
        None,
        TransactionKind::Cash,
        12,
        String::new(),
        String::new(),
        0,
    ))
    .unwrap();
    let service = CashService::init(log);
    assert_eq!(service.get_balance(), 12);
    assert_eq!(service.log().get_transactions().len(), 1);
    assert_eq!(service.log().get_transactions()[0].id, ID_A);
}

#[test]
fn get_by_id_finds_an_inserted_transaction() {
    let service = filled();
    let t = service.get_by_id("67e55044-10b1-426f-9247-bb680e5fe0c8").expect("stored");
    assert_eq!(t, service.log().get_transactions()[1]);
    assert_eq!(t.id, ID_B);
    assert_eq!(t.amount, 200);
    assert_eq!(t.kind, TransactionKind::Card);
    assert_eq!(t.reference, "ref");
    assert_eq!(t.comment, "note");
    assert_eq!(t.created_by, 3);
    assert_eq!(t.created_at, Timestamp { secs: 1_577_840_400, nanos: 0 });
}

#[test]
fn get_by_id_reads_every_form_that_uuid_reads() {
    let service = filled();
    assert_eq!(service.get_by_id("67E55044-10B1-426F-9247-BB680E5FE0C8").map(|t| t.id), Ok(ID_B));
    assert_eq!(service.get_by_id("67e5504410b1426f9247bb680e5fe0c8").map(|t| t.id), Ok(ID_B));
    assert_eq!(
        service.get_by_id("urn:uuid:67e55044-10b1-426f-9247-bb680e5fe0c8").map(|t| t.id),
        Ok(ID_B)
    );
    assert_eq!(
        service.get_by_id("{67e55044-10b1-426f-9247-bb680e5fe0c8}").map(|t| t.id),
        Ok(ID_B)
    );
}

#[test]
fn get_by_id_misses_an_identifier_never_inserted() {
    let service = filled();
    assert_eq!(
        service.get_by_id("11111111-2222-4333-8444-555555555555"),
        Err(ServiceError::NotFound)
    );
    assert_eq!(
        CashService::init(TransactionLog::default())
            .get_by_id("67e55044-10b1-426f-9247-bb680e5fe0c8"),
        Err(ServiceError::NotFound)
    );
}

#[test]
fn get_by_id_refuses_a_malformed_identifier() {
    let service = filled();
    for text in ["", "not-a-uuid", "67e55044-10b1-426f-9247-bb680e5fe0c", "67e55044-10b1-426f-9247-bb680e5fe0cg"] {
        assert_eq!(service.get_by_id(text), Err(ServiceError::MalformedId));
    }
}

#[test]
fn get_by_parsed_id_answers_for_each_parse_result() {
    let service = filled();
    assert_eq!(service.get_by_parsed_id(None), Err(ServiceError::MalformedId));
    assert_eq!(service.get_by_parsed_id(Some(5)), Err(ServiceError::NotFound));
    assert_eq!(service.get_by_parsed_id(Some(ID_C)).map(|t| t.amount), Ok(-30));
}

#[test]
fn get_bulk_returns_the_valid_matches_only() {
    let service = filled();
    let wanted = vec![
        String::from("00000000-0000-4000-8000-00000000000f"),
        String::from("11111111-2222-4333-8444-555555555555"),
        String::from("garbage"),
        String::from("a1a2a3a4-b1b2-41c2-91d2-d3d4d5d6d7d8"),
    ];
    let found = service.get_bulk(&wanted);
    assert_eq!(found.len(), 2);
    assert_eq!(found[0], service.log().get_transactions()[0]);
    assert_eq!(found[1], service.log().get_transactions()[2]);
}

#[test]
fn get_bulk_matches_the_canonical_text_only() {
    let service = filled();
    let wanted = vec![
        String::from("67E55044-10B1-426F-9247-BB680E5FE0C8"),
        String::from("67e5504410b1426f9247bb680e5fe0c8"),
        String::from("{67e55044-10b1-426f-9247-bb680e5fe0c8}"),
    ];
    assert!(service.get_bulk(&wanted).is_empty());
    assert!(service.get_bulk(&Vec::new()).is_empty());
    let twice = vec![
        String::from("67e55044-10b1-426f-9247-bb680e5fe0c8"),
        String::from("67e55044-10b1-426f-9247-bb680e5fe0c8"),
    ];
    assert_eq!(service.get_bulk(&twice).len(), 1);
}

#[test]
fn date_range_is_closed_at_both_ends() {
    let service = filled();
    let a = String::from("a1a2a3a4-b1b2-41c2-91d2-d3d4d5d6d7d8");
    let b = String::from("67e55044-10b1-426f-9247-bb680e5fe0c8");
    let c = String::from("00000000-0000-4000-8000-00000000000f");
    assert_eq!(
        service.get_by_date_range("2020-01-01T00:00:00Z", "2020-01-01T01:00:00Z"),
        Ok(vec![a.clone(), b.clone()])
    );
    assert_eq!(
        service.get_by_date_range("2020-01-01T01:00:00Z", "2020-01-01T01:00:00Z"),
        Ok(vec![b.clone()])
    );
    assert_eq!(
        service.get_by_date_range("2020-01-01T00:00:01Z", "2020-01-01T02:00:00Z"),
        Ok(vec![b.clone()])
    );
    assert_eq!(
        service.get_by_date_range("2020-01-01T00:00:00Z", "2020-01-01T02:00:00.000000005Z"),
        Ok(vec![a, b, c])
    );
}

#[test]
fn date_range_reads_the_offset_of_each_date() {
    let service = filled();
    assert_eq!(
        service.get_by_date_range("2020-01-01T01:00:00+01:00", "2019-12-31T19:00:00-05:00"),
        Ok(vec![String::from("a1a2a3a4-b1b2-41c2-91d2-d3d4d5d6d7d8")])
    );
}

#[test]
fn reversed_date_range_is_empty_and_no_error() {
    let service = filled();
    assert_eq!(
        service.get_by_date_range("2020-01-01T02:00:00Z", "2020-01-01T00:00:00Z"),
        Ok(Vec::new())
    );
}

#[test]
fn date_range_refuses_a_malformed_date() {
    let service = filled();
    assert_eq!(
        service.get_by_date_range("yesterday", "2020-01-01T00:00:00Z"),
        Err(ServiceError::MalformedFrom)
    );
    assert_eq!(
        service.get_by_date_range("2020-01-01T00:00:00Z", "2020-13-01T00:00:00Z"),
        Err(ServiceError::MalformedTill)
    );
    assert_eq!(service.get_by_date_range("", ""), Err(ServiceError::MalformedFrom));
}

#[test]
fn ids_created_within_answers_for_each_parse_result() {
    let service = filled();
    let from = Timestamp { secs: 1_577_840_400, nanos: 0 };
    let till = Timestamp { secs: 1_577_844_000, nanos: 5 };
    assert_eq!(service.ids_created_within(None, Some(till)), Err(ServiceError::MalformedFrom));
    assert_eq!(service.ids_created_within(None, None), Err(ServiceError::MalformedFrom));
    assert_eq!(service.ids_created_within(Some(from), None), Err(ServiceError::MalformedTill));
    assert_eq!(
        service.ids_created_within(Some(from), Some(till)),
        Ok(vec![
            String::from("67e55044-10b1-426f-9247-bb680e5fe0c8"),
            String::from("00000000-0000-4000-8000-00000000000f"),
        ])
    );
    assert_eq!(service.ids_created_within(Some(till), Some(from)), Ok(Vec::new()));
}

#[test]
fn errors_are_classed_by_who_is_at_fault() {
    assert_eq!(ServiceError::UnknownKind.class(), ErrorClass::BadRequest);
    assert_eq!(ServiceError::MalformedId.class(), ErrorClass::BadRequest);
    assert_eq!(ServiceError::MalformedFrom.class(), ErrorClass::BadRequest);
    assert_eq!(ServiceError::MalformedTill.class(), ErrorClass::BadRequest);
    assert_eq!(ServiceError::NotFound.class(), ErrorClass::NotFound);
    assert_eq!(ServiceError::Inconsistent.class(), ErrorClass::InternalError);
}

#[test]
fn errors_carry_their_message() {
    assert_eq!(ServiceError::UnknownKind.message(), "A tranzakció kód kódolásánál hiba történt");
    assert_eq!(ServiceError::MalformedId.message(), "Hibás tranzakció azonosító");
    assert_eq!(ServiceError::MalformedFrom.message(), "A megadott -tól- dátum hibás");
    assert_eq!(ServiceError::MalformedTill.message(), "A megadott -ig- dátum hibás");
    assert_eq!(ServiceError::NotFound.message(), "A kért tranzakció nem található");
    assert_eq!(
        ServiceError::Inconsistent.message(),
        "Error while inserting, or getting the inserted value"
    );
}

#[test]
fn kinds_have_their_codes() {
    assert_eq!(TransactionKind::from_code(0), Some(TransactionKind::Cash));
    assert_eq!(TransactionKind::from_code(1), Some(TransactionKind::Card));
    assert_eq!(TransactionKind::from_code(2), Some(TransactionKind::Transfer));
    assert_eq!(TransactionKind::from_code(3), None);
    assert_eq!(TransactionKind::from_code(-1), None);
    for kind in [TransactionKind::Cash, TransactionKind::Card, TransactionKind::Transfer] {
        assert_eq!(TransactionKind::from_code(kind.code()), Some(kind));
    }
    assert_eq!(TransactionKind::Transfer.code(), 2);
}

#[test]
fn interleaved_callers_never_lose_an_amount() {
    let mut service = service();
    let first = [10, 20, 30];
    let second = [-1, -2, -3];
    let mut expected = 0;
    for i in 0..3 {
        service.create_transaction(request(0, first[i])).unwrap();
        expected += first[i];
        assert_eq!(service.get_balance(), expected);
        service.create_transaction(request(0, second[i])).unwrap();
        expected += second[i];
        assert_eq!(service.get_balance(), expected);
    }
    assert_eq!(service.get_balance(), 54);
    assert_eq!(service.log().get_transactions().len(), 6);
}
