//! The cash service: requests as plain values, answered from one
//! transaction log, with each failure named and classed.

use crate::cash::{
    cash_total, created_within, has_id, is_first_with_id, lemma_filter_push, views, Transaction,
    TransactionKind, TransactionLog, TransactionView,
};
use crate::clock::{now, parse_rfc3339, rfc3339_instant, Timestamp};
use crate::ident::{id_text, id_to_string, is_random_id, parse_id, parsed_id, random_id};
use vstd::prelude::*;

verus! {

/// How a failure is reported to the caller of the service.
#[derive(Clone, Copy, Debug, PartialEq, Eq, Structural)]
pub enum ErrorClass {
    /// The request is at fault; nothing was changed.
    BadRequest,
    /// The request is sound but names a transaction that is not stored.
    NotFound,
    /// The service is at fault.
    InternalError,
}

/// Why a request failed.
#[derive(Clone, Copy, Debug, PartialEq, Eq, Structural)]
pub enum ServiceError {
    /// The kind code of a new transaction is not a known one.
    UnknownKind,
    /// The transaction identifier is not the text of a UUID.
    MalformedId,
    /// The start of a date range is not an RFC 3339 date and time.
    MalformedFrom,
    /// The end of a date range is not an RFC 3339 date and time.
    MalformedTill,
    /// No stored transaction has the requested identifier.
    NotFound,
    /// The log did not hand back the transaction that was just added.
    Inconsistent,
}

impl ServiceError {
    pub open spec fn spec_class(&self) -> ErrorClass {
        match self {
            ServiceError::UnknownKind => ErrorClass::BadRequest,
            ServiceError::MalformedId => ErrorClass::BadRequest,
            ServiceError::MalformedFrom => ErrorClass::BadRequest,
            ServiceError::MalformedTill => ErrorClass::BadRequest,
            ServiceError::NotFound => ErrorClass::NotFound,
            ServiceError::Inconsistent => ErrorClass::InternalError,
        }
    }

    /// The class under which the failure is reported: what the request got
    /// wrong is a bad request, a missing transaction is not found, and a
    /// fault of the log is an internal error.
    #[verifier::when_used_as_spec(spec_class)]
    pub fn class(&self) -> (class: ErrorClass)
        ensures
            class == self.spec_class(),
    {
        match self {
            ServiceError::UnknownKind => ErrorClass::BadRequest,
            ServiceError::MalformedId => ErrorClass::BadRequest,
            ServiceError::MalformedFrom => ErrorClass::BadRequest,
            ServiceError::MalformedTill => ErrorClass::BadRequest,
            ServiceError::NotFound => ErrorClass::NotFound,
            ServiceError::Inconsistent => ErrorClass::InternalError,
        }
    }

    pub open spec fn spec_message(&self) -> Seq<char> {
        match self {
            ServiceError::UnknownKind => "A tranzakció kód kódolásánál hiba történt"@,
            ServiceError::MalformedId => "Hibás tranzakció azonosító"@,
            ServiceError::MalformedFrom => "A megadott -tól- dátum hibás"@,
            ServiceError::MalformedTill => "A megadott -ig- dátum hibás"@,
            ServiceError::NotFound => "A kért tranzakció nem található"@,
            ServiceError::Inconsistent => "Error while inserting, or getting the inserted value"@,
        }
    }

    /// The text shown to the caller.
    pub fn message(&self) -> (text: String)
        ensures
            text@ == self.spec_message(),
    {
        match self {
            ServiceError::UnknownKind => "A tranzakció kód kódolásánál hiba történt".to_string(),
            ServiceError::MalformedId => "Hibás tranzakció azonosító".to_string(),
            ServiceError::MalformedFrom => "A megadott -tól- dátum hibás".to_string(),
            ServiceError::MalformedTill => "A megadott -ig- dátum hibás".to_string(),
            ServiceError::NotFound => "A kért tranzakció nem található".to_string(),
            ServiceError::Inconsistent => "Error while inserting, or getting the inserted value".to_string(),
        }
    }
}

impl TransactionKind {
    /// The kind that a code on the wire stands for.
    pub open spec fn spec_from_code(code: i32) -> Option<TransactionKind> {
        if code == 0 {
            Some(TransactionKind::Cash)
        } else if code == 1 {
            Some(TransactionKind::Card)
        } else if code == 2 {
            Some(TransactionKind::Transfer)
        } else {
            None
        }
    }

    pub open spec fn spec_code(&self) -> i32 {
        match self {
            TransactionKind::Cash => 0,
            TransactionKind::Card => 1,
            TransactionKind::Transfer => 2,
        }
    }

    /// Reads a kind from its code on the wire; `None` for an unknown code.
    #[verifier::when_used_as_spec(spec_from_code)]
    pub fn from_code(code: i32) -> (kind: Option<TransactionKind>)
        ensures
            kind == TransactionKind::spec_from_code(code),
    {
        if code == 0 {
            Some(TransactionKind::Cash)
        } else if code == 1 {
            Some(TransactionKind::Card)
        } else if code == 2 {
            Some(TransactionKind::Transfer)
        } else {
            None
        }
    }

    /// The code of the kind on the wire.
    #[verifier::when_used_as_spec(spec_code)]
    pub fn code(&self) -> (code: i32)
        ensures
            code == self.spec_code(),
            TransactionKind::spec_from_code(code) == Some(*self),
    {
        match self {
            TransactionKind::Cash => 0,
            TransactionKind::Card => 1,
            TransactionKind::Transfer => 2,
        }
    }
}

/// A request to record a transaction, as it arrives.
#[derive(Debug, PartialEq, Eq)]
pub struct NewTransaction {
    pub cart_id: Option<String>,
    /// The code of the transaction kind on the wire.
    pub kind: i32,
    pub amount: i32,
    pub reference: String,
    pub comment: String,
    pub created_by: u32,
}

impl NewTransaction {
    /// The transaction that the request asks for, once it has a kind, an
    /// identifier and an instant of creation.
    pub open spec fn recorded_as(
        &self,
        kind: TransactionKind,
        id: u128,
        created_at: Timestamp,
    ) -> TransactionView {
        TransactionView {
            id,
            cart_id: match self.cart_id {
                Some(cart) => Some(cart@),
                None => None,
            },
            kind,
            amount: self.amount as int,
            reference: self.reference@,
            comment: self.comment@,
            created_by: self.created_by,
            created_at,
        }
    }
}

/// The views of a sequence of texts, in the same order.
pub open spec fn texts(strings: Seq<String>) -> Seq<Seq<char>> {
    strings.map_values(|s: String| s@)
}

/// The transactions whose identifier, in its canonical text, is among
/// `wanted`, in their order in the sequence.
pub open spec fn requested(
    transactions: Seq<TransactionView>,
    wanted: Seq<Seq<char>>,
) -> Seq<TransactionView> {
    transactions.filter(|t: TransactionView| wanted.contains(id_text(t.id)))
}

/// The canonical texts of the identifiers of a sequence of transactions.
pub open spec fn id_texts(transactions: Seq<TransactionView>) -> Seq<Seq<char>> {
    transactions.map_values(|t: TransactionView| id_text(t.id))
}

/// The service: one transaction log and the operations on it. Its view
/// is the view of the log.
pub struct CashService {
    log: TransactionLog,
}

impl View for CashService {
    type V = Seq<TransactionView>;

    closed spec fn view(&self) -> Seq<TransactionView> {
        self.log@
    }
}

impl CashService {
    /// The log of the service is well-formed.
    pub closed spec fn wf(&self) -> bool {
        self.log.wf()
    }

    /// A service on the given log.
    pub fn init(log: TransactionLog) -> (service: Self)
        ensures
            service@ == log@,
            log.wf() ==> service.wf(),
    {
        CashService { log }
    }

    /// The log of the service.
    pub fn log(&self) -> (log: &TransactionLog)
        ensures
            log@ == self@,
            self.wf() ==> log.wf(),
    {
        &self.log
    }

    /// The request has a known kind whose effect on the balance would take
    /// it out of the range of `i32`.
    pub open spec fn overflows(&self, request: &NewTransaction) -> bool {
        TransactionKind::spec_from_code(request.kind) == Some(TransactionKind::Cash) && !(i32::MIN
            <= cash_total(self@) + request.amount <= i32::MAX)
    }

    /// Whether `create_transaction` can take the request: `false` where the
    /// balance would leave the range of `i32`.
    pub fn accepts(&self, request: &NewTransaction) -> (r: bool)
        requires
            self.wf(),
        ensures
            r == !self.overflows(request),
    {
        match TransactionKind::from_code(request.kind) {
            Some(TransactionKind::Cash) => self.log.get_balance().checked_add(
                request.amount,
            ).is_some(),
            _ => true,
        }
    }

    /// Records the requested transaction under the identifier `id`, as
    /// created at `created_at`. A request with an unknown kind is refused
    /// and changes nothing.
    pub fn record(&mut self, request: NewTransaction, id: u128, created_at: Timestamp) -> (r:
        Result<Transaction, ServiceError>)
        requires
            old(self).wf(),
            !old(self).overflows(&request),
        ensures
            final(self).wf(),
            (match TransactionKind::spec_from_code(request.kind) {
                None => r == Err::<Transaction, ServiceError>(ServiceError::UnknownKind)
                    && final(self)@ == old(self)@,
                Some(kind) => {
                    &&& r matches Ok(t)
                    &&& t@ == request.recorded_as(kind, id, created_at)
                    &&& final(self)@ == old(self)@.push(t@)
                    &&& cash_total(final(self)@) == cash_total(old(self)@) + t@.cash_effect()
                },
            }),
    {
        let kind = match TransactionKind::from_code(request.kind) {
            Some(kind) => kind,
            None => {
                return Err(ServiceError::UnknownKind);
            },
        };
        let transaction = Transaction::assemble(
            id,
            created_at,
            request.cart_id,
            kind,
            request.amount,
            request.reference,
            request.comment,
            request.created_by,
        );
        let stored = transaction.clone();
        proof {
            self.log.lemma_total_in_range();
        }
        match self.log.add_transaction(stored) {
            Ok(_) => Ok(transaction),
            Err(_) => Err(ServiceError::Inconsistent),
        }
    }

    /// Records the requested transaction with a fresh random identifier,
    /// as created now, and hands it back. A request with an unknown kind is
    /// refused and changes nothing.
    pub fn create_transaction(&mut self, request: NewTransaction) -> (r: Result<
        Transaction,
        ServiceError,
    >)
        requires
            old(self).wf(),
            !old(self).overflows(&request),
        ensures
            final(self).wf(),
            (match TransactionKind::spec_from_code(request.kind) {
                None => r == Err::<Transaction, ServiceError>(ServiceError::UnknownKind)
                    && final(self)@ == old(self)@,
                Some(kind) => {
                    &&& r matches Ok(t)
                    &&& is_random_id(t.id)
                    &&& t.created_at.secs >= 0
                    &&& t.created_at.nanos < 1_000_000_000
                    &&& t@ == request.recorded_as(kind, t.id, t.created_at)
                    &&& final(self)@ == old(self)@.push(t@)
                    &&& cash_total(final(self)@) == cash_total(old(self)@) + t@.cash_effect()
                },
            }),
    {
        if TransactionKind::from_code(request.kind).is_none() {
            return Err(ServiceError::UnknownKind);
        }
        let id = random_id();
        let created_at = now();
        self.record(request, id, created_at)
    }

    /// The current balance: the cash total of every recorded transaction.
    pub fn get_balance(&self) -> (balance: i32)
        requires
            self.wf(),
        ensures
            balance == cash_total(self@),
    {
        self.log.get_balance()
    }

    /// What a lookup by identifier answers on the transactions `stored`:
    /// the first one with the identifier, or that there is none.
    pub open spec fn answers_lookup(
        stored: Seq<TransactionView>,
        id: u128,
        r: Result<Transaction, ServiceError>,
    ) -> bool {
        match r {
            Ok(t) => exists|i: int| is_first_with_id(stored, id, i) && t@ == stored[i],
            Err(e) => e == ServiceError::NotFound && !has_id(stored, id),
        }
    }

    /// The transaction with a parsed identifier: a bad request where the
    /// text was no identifier, not found where no transaction has it.
    pub fn get_by_parsed_id(&self, parsed: Option<u128>) -> (r: Result<Transaction, ServiceError>)
        ensures
            (match parsed {
                None => r == Err::<Transaction, ServiceError>(ServiceError::MalformedId),
                Some(id) => CashService::answers_lookup(self@, id, r),
            }),
    {
        match parsed {
            None => Err(ServiceError::MalformedId),
            Some(id) => match self.log.find(id) {
                Some(t) => Ok(t.clone()),
                None => Err(ServiceError::NotFound),
            },
        }
    }

    /// The transaction whose identifier is written in `transaction_id`.
    pub fn get_by_id(&self, transaction_id: &str) -> (r: Result<Transaction, ServiceError>)
        ensures
            (match parsed_id(transaction_id@) {
                None => r == Err::<Transaction, ServiceError>(ServiceError::MalformedId),
                Some(id) => CashService::answers_lookup(self@, id, r),
            }),
    {
        self.get_by_parsed_id(parse_id(transaction_id))
    }

    /// The recorded transactions whose identifier, in its canonical text,
    /// is among `transaction_ids`, in the order in which they were
    /// recorded. A text that names no recorded transaction adds nothing.
    pub fn get_bulk(&self, transaction_ids: &Vec<String>) -> (found: Vec<Transaction>)
        ensures
            views(found@) == requested(self@, texts(transaction_ids@)),
    {
        let ghost wanted = texts(transaction_ids@);
        let ghost pred = |t: TransactionView| wanted.contains(id_text(t.id));
        let transactions = self.log.get_transactions();
        let mut found: Vec<Transaction> = Vec::new();
        let mut i: usize = 0;
        proof {
            reveal(Seq::filter);
            assert(self@.take(0).filter(pred) =~= views(found@));
        }
        while i < transactions.len()
            invariant
                i <= transactions.len(),
                views(transactions@) == self@,
                wanted == texts(transaction_ids@),
                pred == |t: TransactionView| wanted.contains(id_text(t.id)),
                views(found@) == self@.take(i as int).filter(pred),
            decreases transactions.len() - i,
        {
            let t = &transactions[i];
            let text = id_to_string(t.id);
            let mut wanted_here = false;
            let mut j: usize = 0;
            while j < transaction_ids.len() && !wanted_here
                invariant
                    j <= transaction_ids.len(),
                    wanted == texts(transaction_ids@),
                    wanted_here ==> wanted.contains(text@),
                    !wanted_here ==> forall|k: int| 0 <= k < j ==> wanted[k] != text@,
                decreases transaction_ids.len() - j,
            {
                if transaction_ids[j] == text {
                    assert(wanted[j as int] == text@);
                    wanted_here = true;
                }
                j += 1;
            }
            proof {
                assert(t@ == self@[i as int]);
                lemma_filter_push(self@.take(i as int), t@, pred);
                assert(self@.take(i as int).push(t@) =~= self@.take(i + 1));
                assert(wanted_here == pred(t@));
            }
            if wanted_here {
                let ghost before = found@;
                found.push(t.clone());
                assert(views(found@) =~= views(before).push(t@));
            }
            i += 1;
        }
        assert(self@.take(i as int) =~= self@);
        found
    }

    /// The identifiers, in canonical text, of the transactions created in
    /// the closed interval between two parsed instants, in the order in
    /// which they were recorded: a bad request where either text was no
    /// instant, the start being looked at first.
    pub fn ids_created_within(&self, from: Option<Timestamp>, till: Option<Timestamp>) -> (r:
        Result<Vec<String>, ServiceError>)
        ensures
            (match (from, till) {
                (None, _) => r == Err::<Vec<String>, ServiceError>(ServiceError::MalformedFrom),
                (Some(_), None) => r == Err::<Vec<String>, ServiceError>(
                    ServiceError::MalformedTill,
                ),
                (Some(from), Some(till)) => r matches Ok(ids) && texts(ids@) == id_texts(
                    created_within(self@, from, till),
                ),
            }),
    {
        let from = match from {
            Some(from) => from,
            None => {
                return Err(ServiceError::MalformedFrom);
            },
        };
        let till = match till {
            Some(till) => till,
            None => {
                return Err(ServiceError::MalformedTill);
            },
        };
        let found = self.log.get_log(from, till);
        let mut ids: Vec<String> = Vec::new();
        let mut i: usize = 0;
        while i < found.len()
            invariant
                i <= found.len(),
                texts(ids@) == id_texts(views(found@).take(i as int)),
            decreases found.len() - i,
        {
            let ghost before = ids@;
            ids.push(id_to_string(found[i].id));
            proof {
                assert(texts(ids@) =~= texts(before).push(id_text(found[i as int].id)));
                assert(id_texts(views(found@).take(i + 1)) =~= id_texts(
                    views(found@).take(i as int),
                ).push(id_text(found[i as int].id)));
            }
            i += 1;
        }
        assert(views(found@).take(i as int) =~= views(found@));
        Ok(ids)
    }

    /// The identifiers, in canonical text, of the transactions created in
    /// the closed interval between the instants written in `date_from` and
    /// `date_till`, both RFC 3339 dates and times.
    pub fn get_by_date_range(&self, date_from: &str, date_till: &str) -> (r: Result<
        Vec<String>,
        ServiceError,
    >)
        ensures
            (match (rfc3339_instant(date_from@), rfc3339_instant(date_till@)) {
                (None, _) => r == Err::<Vec<String>, ServiceError>(ServiceError::MalformedFrom),
                (Some(_), None) => r == Err::<Vec<String>, ServiceError>(
                    ServiceError::MalformedTill,
                ),
                (Some(from), Some(till)) => r matches Ok(ids) && texts(ids@) == id_texts(
                    created_within(self@, from, till),
                ),
            }),
    {
        let from = parse_rfc3339(date_from);
        if from.is_none() {
            return Err(ServiceError::MalformedFrom);
        }
        self.ids_created_within(from, parse_rfc3339(date_till))
    }
}

} // verus!
