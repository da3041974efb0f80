use crate::amount::Amount;
use vstd::prelude::*;

verus! {

/// What one input record asks for, with its amount where one applies.
#[derive(Debug, Clone, Copy)]
pub enum TransactionKind {
    Withdrawal(Amount),
    Deposit(Amount),
    Dispute,
    Resolve,
    Chargeback,
}

/// An immutable typed description of one input record.
#[derive(Debug, Clone, Copy)]
pub struct Transaction {
    pub kind: TransactionKind,
    pub client_id: u16,
    pub tx_id: u32,
}

impl Transaction {
    /// Well-formedness: a carried amount stays within the decimal range.
    pub open spec fn wf(self) -> bool {
        match self.kind {
            TransactionKind::Deposit(a) => a.inv(),
            TransactionKind::Withdrawal(a) => a.inv(),
            _ => true,
        }
    }

    pub fn new_charge_back(tx_id: u32, client_id: u16) -> (r: Self)
        ensures
            r == (Transaction { kind: TransactionKind::Chargeback, client_id, tx_id }),
            r.wf(),
    {
        Transaction { kind: TransactionKind::Chargeback, client_id, tx_id }
    }

    pub fn new_dispute(tx_id: u32, client_id: u16) -> (r: Self)
        ensures
            r == (Transaction { kind: TransactionKind::Dispute, client_id, tx_id }),
            r.wf(),
    {
        Transaction { kind: TransactionKind::Dispute, client_id, tx_id }
    }

    pub fn new_resolve(tx_id: u32, client_id: u16) -> (r: Self)
        ensures
            r == (Transaction { kind: TransactionKind::Resolve, client_id, tx_id }),
            r.wf(),
    {
        Transaction { kind: TransactionKind::Resolve, client_id, tx_id }
    }

    pub fn new_deposit(tx_id: u32, client_id: u16, amount: Amount) -> (r: Self)
        ensures
            r == (Transaction { kind: TransactionKind::Deposit(amount), client_id, tx_id }),
            amount.inv() ==> r.wf(),
    {
        Transaction { kind: TransactionKind::Deposit(amount), client_id, tx_id }
    }

    pub fn new_withdrawal(tx_id: u32, client_id: u16, amount: Amount) -> (r: Self)
        ensures
            r == (Transaction { kind: TransactionKind::Withdrawal(amount), client_id, tx_id }),
            amount.inv() ==> r.wf(),
    {
        Transaction { kind: TransactionKind::Withdrawal(amount), client_id, tx_id }
    }

    pub fn kind(&self) -> (r: TransactionKind)
        ensures
            r == self.kind,
    {
        self.kind
    }

    pub fn client_id(&self) -> (r: u16)
        ensures
            r == self.client_id,
    {
        self.client_id
    }

    pub fn tx_id(&self) -> (r: u32)
        ensures
            r == self.tx_id,
    {
        self.tx_id
    }
}

} // verus!
