//! Transactions and the append-only log that holds them.

use crate::clock::{now, Timestamp};
use crate::ident::{is_random_id, nil_id, random_id};
use vstd::prelude::*;

verus! {

/// The payment method of a transaction. Only cash moves the balance.
#[derive(Clone, Copy, Debug, PartialEq, Eq, Structural)]
pub enum TransactionKind {
    Cash,
    Card,
    Transfer,
}

impl Default for TransactionKind {
    fn default() -> (kind: Self)
        ensures
            kind == TransactionKind::Cash,
    {
        TransactionKind::Cash
    }
}

/// One movement of money. A transaction does not change once it is made.
#[derive(Debug, PartialEq, Eq)]
pub struct Transaction {
    /// UUID of the transaction.
    pub id: u128,
    /// The cart that the payment belongs to, where there is one.
    pub cart_id: Option<String>,
    pub kind: TransactionKind,
    /// Minor currency units; positive flows in, negative flows out.
    pub amount: i32,
    pub reference: String,
    pub comment: String,
    /// The user that recorded the transaction.
    pub created_by: u32,
    pub created_at: Timestamp,
}

/// What a transaction says, with its texts as sequences of characters.
pub ghost struct TransactionView {
    pub id: u128,
    pub cart_id: Option<Seq<char>>,
    pub kind: TransactionKind,
    pub amount: int,
    pub reference: Seq<char>,
    pub comment: Seq<char>,
    pub created_by: u32,
    pub created_at: Timestamp,
}

impl TransactionView {
    /// What the transaction adds to the cash balance.
    pub open spec fn cash_effect(self) -> int {
        if self.kind == TransactionKind::Cash {
            self.amount
        } else {
            0
        }
    }
}

impl View for Transaction {
    type V = TransactionView;

    open spec fn view(&self) -> TransactionView {
        TransactionView {
            id: self.id,
            cart_id: match self.cart_id {
                Some(cart) => Some(cart@),
                None => None,
            },
            kind: self.kind,
            amount: self.amount as int,
            reference: self.reference@,
            comment: self.comment@,
            created_by: self.created_by,
            created_at: self.created_at,
        }
    }
}

impl Clone for Transaction {
    fn clone(&self) -> (copy: Self)
        ensures
            copy == *self,
    {
        Transaction {
            id: self.id,
            cart_id: match &self.cart_id {
                Some(cart) => Some(cart.clone()),
                None => None,
            },
            kind: self.kind,
            amount: self.amount,
            reference: self.reference.clone(),
            comment: self.comment.clone(),
            created_by: self.created_by,
            created_at: self.created_at,
        }
    }
}

impl Transaction {
    /// Puts a transaction together from an identifier, an instant and what
    /// the caller recorded.
    pub fn assemble(
        id: u128,
        created_at: Timestamp,
        cart_id: Option<String>,
        kind: TransactionKind,
        amount: i32,
        reference: String,
        comment: String,
        created_by: u32,
    ) -> (transaction: Self)
        ensures
            transaction == (Transaction {
                id,
                cart_id,
                kind,
                amount,
                reference,
                comment,
                created_by,
                created_at,
            }),
    {
        Transaction { id, cart_id, kind, amount, reference, comment, created_by, created_at }
    }

    /// Makes a transaction with a fresh random identifier, created now.
    pub fn new(
        cart_id: Option<String>,
        kind: TransactionKind,
        amount: i32,
        reference: String,
        comment: String,
        created_by: u32,
    ) -> (transaction: Self)
        ensures
            is_random_id(transaction.id),
            transaction.cart_id == cart_id,
            transaction.kind == kind,
            transaction.amount == amount,
            transaction.reference == reference,
            transaction.comment == comment,
            transaction.created_by == created_by,
            transaction.created_at.secs >= 0,
            transaction.created_at.nanos < 1_000_000_000,
    {
        Transaction::assemble(
            random_id(),
            now(),
            cart_id,
            kind,
            amount,
            reference,
            comment,
            created_by,
        )
    }
}

impl Default for Transaction {
    /// A cash transaction of amount zero with the nil identifier, empty
    /// texts and no cart, created now.
    fn default() -> (transaction: Self)
        ensures
            transaction.id == 0,
            transaction.cart_id is None,
            transaction.kind == TransactionKind::Cash,
            transaction.amount == 0,
            transaction.reference@ == Seq::<char>::empty(),
            transaction.comment@ == Seq::<char>::empty(),
            transaction.created_by == 0,
            transaction.created_at.secs >= 0,
            transaction.created_at.nanos < 1_000_000_000,
    {
        Transaction {
            id: nil_id(),
            cart_id: None,
            kind: TransactionKind::default(),
            amount: 0,
            reference: String::default(),
            comment: String::default(),
            created_by: 0,
            created_at: now(),
        }
    }
}

/// The views of a sequence of transactions, in the same order.
pub open spec fn views(transactions: Seq<Transaction>) -> Seq<TransactionView> {
    transactions.map_values(|t: Transaction| t@)
}

/// The sum of the amounts of the cash transactions in a sequence.
pub open spec fn cash_total(transactions: Seq<TransactionView>) -> int
    decreases transactions.len(),
{
    if transactions.len() == 0 {
        0
    } else {
        cash_total(transactions.drop_last()) + transactions.last().cash_effect()
    }
}

/// Some transaction in the sequence has the identifier `id`.
pub open spec fn has_id(transactions: Seq<TransactionView>, id: u128) -> bool {
    exists|i: int| 0 <= i < transactions.len() && transactions[i].id == id
}

/// Position `i` holds the first transaction in the sequence with the
/// identifier `id`.
pub open spec fn is_first_with_id(transactions: Seq<TransactionView>, id: u128, i: int) -> bool {
    &&& 0 <= i < transactions.len()
    &&& transactions[i].id == id
    &&& forall|j: int| 0 <= j < i ==> transactions[j].id != id
}

/// The transactions created in the closed interval from `from` to `till`,
/// in their order in the sequence.
pub open spec fn created_within(
    transactions: Seq<TransactionView>,
    from: Timestamp,
    till: Timestamp,
) -> Seq<TransactionView> {
    transactions.filter(|t: TransactionView| t.created_at.spec_within(&from, &till))
}

/// Filtering a sequence with one more element at its end keeps or drops
/// that element and leaves the rest as it was.
pub proof fn lemma_filter_push<A>(s: Seq<A>, x: A, pred: spec_fn(A) -> bool)
    ensures
        pred(x) ==> s.push(x).filter(pred) == s.filter(pred).push(x),
        !pred(x) ==> s.push(x).filter(pred) == s.filter(pred),
{
    reveal(Seq::filter);
    assert(s.push(x).drop_last() =~= s);
}

/// The cash total of a sequence with one more transaction at its end.
pub proof fn lemma_cash_total_push(transactions: Seq<TransactionView>, t: TransactionView)
    ensures
        cash_total(transactions.push(t)) == cash_total(transactions) + t.cash_effect(),
{
    assert(transactions.push(t).drop_last() =~= transactions);
}

/// An append-only log of transactions with its running cash balance.
///
/// The view of a log is the sequence of its transactions in the order in
/// which they were added. A well-formed log holds as its balance the cash
/// total of that sequence.
pub struct TransactionLog {
    transactions: Vec<Transaction>,
    balance_cash: i32,
}

impl View for TransactionLog {
    type V = Seq<TransactionView>;

    closed spec fn view(&self) -> Seq<TransactionView> {
        views(self.transactions@)
    }
}

impl Default for TransactionLog {
    /// The empty log, with balance zero.
    fn default() -> (log: Self)
        ensures
            log.wf(),
            log@ == Seq::<TransactionView>::empty(),
    {
        TransactionLog { transactions: Vec::new(), balance_cash: 0 }
    }
}

impl TransactionLog {
    /// The stored balance is the cash total of the stored transactions.
    pub closed spec fn wf(&self) -> bool {
        self.balance_cash == cash_total(self@)
    }

    /// The cash total of a well-formed log is in the range of `i32`.
    pub proof fn lemma_total_in_range(&self)
        requires
            self.wf(),
        ensures
            i32::MIN <= cash_total(self@) <= i32::MAX,
    {
    }

    /// The balance after adding `transaction` still fits the balance's type.
    pub open spec fn spec_has_room_for(&self, transaction: &Transaction) -> bool {
        i32::MIN <= cash_total(self@) + transaction@.cash_effect() <= i32::MAX
    }

    /// Whether `transaction` can be added without the balance leaving the
    /// range of `i32`.
    #[verifier::when_used_as_spec(spec_has_room_for)]
    pub fn has_room_for(&self, transaction: &Transaction) -> (r: bool)
        requires
            self.wf(),
        ensures
            r == self.spec_has_room_for(transaction),
    {
        match transaction.kind {
            TransactionKind::Cash => self.balance_cash.checked_add(transaction.amount).is_some(),
            _ => true,
        }
    }

    /// Appends `transaction` and, where it is a cash transaction, adds its
    /// amount to the balance. Hands back the stored transaction.
    ///
    /// The stored entry is read back and its identifier compared with the
    /// one that was handed in; on a well-formed log the two always agree, so
    /// the call always succeeds.
    pub fn add_transaction(&mut self, transaction: Transaction) -> (r: Result<&Transaction, String>)
        requires
            old(self).wf(),
            old(self).spec_has_room_for(&transaction),
        ensures
            final(self).wf(),
            final(self)@ == old(self)@.push(transaction@),
            cash_total(final(self)@) == cash_total(old(self)@) + transaction@.cash_effect(),
            r is Ok,
            *r->Ok_0 == transaction,
    {
        match transaction.kind {
            TransactionKind::Cash => self.balance_cash += transaction.amount,
            _ => (),
        }
        let id = transaction.id;
        self.transactions.push(transaction);
        proof {
            assert(self@ =~= old(self)@.push(transaction@));
            assert(self@.drop_last() =~= old(self)@);
        }
        if let Some(stored) = self.transactions.last() {
            if stored.id == id {
                return Ok(stored);
            }
        }
        Err("Error while inserting, or getting the inserted value".to_string())
    }

    /// The current balance: the cash total of every transaction added so far.
    pub fn get_balance(&self) -> (balance: i32)
        requires
            self.wf(),
        ensures
            balance == cash_total(self@),
    {
        self.balance_cash
    }

    /// Every stored transaction, in the order in which they were added.
    pub fn get_transactions(&self) -> (transactions: &Vec<Transaction>)
        ensures
            views(transactions@) == self@,
    {
        &self.transactions
    }

    /// The first stored transaction with the identifier `id`, if there is one.
    pub fn find(&self, id: u128) -> (r: Option<&Transaction>)
        ensures
            (match r {
                Some(t) => exists|i: int| is_first_with_id(self@, id, i) && t@ == self@[i],
                None => !has_id(self@, id),
            }),
    {
        let mut i: usize = 0;
        while i < self.transactions.len()
            invariant
                i <= self.transactions.len(),
                forall|j: int| 0 <= j < i ==> self@[j].id != id,
            decreases self.transactions.len() - i,
        {
            if self.transactions[i].id == id {
                assert(is_first_with_id(self@, id, i as int));
                return Some(&self.transactions[i]);
            }
            i += 1;
        }
        None
    }

    /// The stored transactions created in the closed interval from `from`
    /// to `till`, in the order in which they were added.
    pub fn get_log(&self, from: Timestamp, till: Timestamp) -> (found: Vec<Transaction>)
        ensures
            views(found@) == created_within(self@, from, till),
    {
        let ghost pred = |t: TransactionView| t.created_at.spec_within(&from, &till);
        let mut found: Vec<Transaction> = Vec::new();
        let mut i: usize = 0;
        proof {
            reveal(Seq::filter);
            assert(self@.take(0).filter(pred) =~= views(found@));
        }
        while i < self.transactions.len()
            invariant
                i <= self.transactions.len(),
                pred == |t: TransactionView| t.created_at.spec_within(&from, &till),
                views(found@) == self@.take(i as int).filter(pred),
            decreases self.transactions.len() - i,
        {
            let t = &self.transactions[i];
            proof {
                lemma_filter_push(self@.take(i as int), t@, pred);
                assert(self@.take(i as int).push(t@) =~= self@.take(i + 1));
            }
            if t.created_at.within(&from, &till) {
                let ghost before = found@;
                found.push(t.clone());
                assert(views(found@) =~= views(before).push(t@));
            }
            i += 1;
        }
        assert(self@.take(i as int) =~= self@);
        found
    }

    /// Rebuilds a log from stored transactions and a stored balance.
    /// Succeeds exactly when the balance is the cash total of the
    /// transactions.
    pub fn from_parts(transactions: Vec<Transaction>, balance: i32) -> (r: Option<Self>)
        ensures
            r is Some <==> balance == cash_total(views(transactions@)),
            r matches Some(log) ==> log.wf() && log@ == views(transactions@),
    {
        let ghost all = views(transactions@);
        let mut total: i128 = 0;
        let mut i: usize = 0;
        while i < transactions.len()
            invariant
                i <= transactions.len(),
                all == views(transactions@),
                total == cash_total(all.take(i as int)),
                -0x8000_0000 * i <= total <= 0x8000_0000 * i,
            decreases transactions.len() - i,
        {
            proof {
                lemma_cash_total_push(all.take(i as int), all[i as int]);
                assert(all.take(i as int).push(all[i as int]) =~= all.take(i + 1));
            }
            match transactions[i].kind {
                TransactionKind::Cash => total = total + transactions[i].amount as i128,
                _ => (),
            }
            i += 1;
        }
        assert(all.take(i as int) =~= all);
        if total == balance as i128 {
            Some(TransactionLog { transactions, balance_cash: balance })
        } else {
            None
        }
    }
}

impl Clone for TransactionLog {
    fn clone(&self) -> (copy: Self)
        ensures
            copy@ == self@,
            self.wf() ==> copy.wf(),
    {
        let transactions = self.transactions.clone();
        assert(transactions@ =~= self.transactions@);
        TransactionLog { transactions, balance_cash: self.balance_cash }
    }
}

} // verus!
