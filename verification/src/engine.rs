use crate::account::{
    chargeback_post, deposit_post, dispute_post, fresh_account_view, resolve_post, withdraw_post,
    Account, AccountSummary, AccountView,
};
use crate::amount::{add_fits, can_add, Amount};
use crate::result::TxResult;
use crate::transaction::{Transaction, TransactionKind};
use vstd::prelude::*;

verus! {

broadcast use vstd::std_specs::hash::group_hash_axioms;

/// How one routed operation relates the target account's state before and
/// after it.
pub open spec fn op_post(
    pre: AccountView,
    post: AccountView,
    t: Transaction,
    r: TxResult<()>,
) -> bool {
    match t.kind {
        TransactionKind::Deposit(a) => deposit_post(pre, post, t.tx_id, a, r),
        TransactionKind::Withdrawal(a) => withdraw_post(pre, post, t.tx_id, a, r),
        TransactionKind::Dispute => dispute_post(pre, post, t.tx_id, r),
        TransactionKind::Resolve => resolve_post(pre, post, t.tx_id, r),
        TransactionKind::Chargeback => chargeback_post(pre, post, t.tx_id, r),
    }
}

/// Machine limit for one routed operation on the account state `v`.
pub open spec fn view_op_fits(v: AccountView, t: Transaction) -> bool {
    match t.kind {
        TransactionKind::Deposit(a) => v.deposit_fits(t.tx_id, a),
        TransactionKind::Withdrawal(a) => v.withdraw_fits(t.tx_id, a),
        TransactionKind::Dispute => v.dispute_fits(t.tx_id),
        TransactionKind::Resolve => v.resolve_fits(t.tx_id),
        TransactionKind::Chargeback => v.chargeback_fits(t.tx_id),
    }
}

/// Routes transactions to accounts, owns the account population, and produces
/// the final snapshot. Accounts are kept sorted by client id.
pub struct TransactionEngine {
    pub accounts: Vec<Account>,
}

impl TransactionEngine {
    /// Well-formedness: every account is well formed and the population is
    /// strictly sorted by client id, so ids are unique.
    pub open spec fn wf(self) -> bool {
        &&& forall|i: int|
            0 <= i < self.accounts@.len() ==> (#[trigger] self.accounts@[i])@.wf()
        &&& forall|i: int, j: int|
            0 <= i < j < self.accounts@.len() ==> (#[trigger] self.accounts@[i]).id
                < (#[trigger] self.accounts@[j]).id
    }

    /// Whether some account already belongs to `client`.
    pub open spec fn has_client(self, client: u16) -> bool {
        exists|i: int| 0 <= i < self.accounts@.len() && (#[trigger] self.accounts@[i]).id == client
    }

    /// The index of `client`'s account; meaningful only when one exists, and
    /// then unique because the population is strictly sorted.
    pub open spec fn client_index(self, client: u16) -> int {
        choose|i: int| 0 <= i < self.accounts@.len() && (#[trigger] self.accounts@[i]).id == client
    }

    /// The account state a transaction for `client` acts on: the existing one,
    /// or the fresh zero state that would be created for it.
    pub open spec fn target_view(self, client: u16) -> AccountView {
        if self.has_client(client) {
            self.accounts@[self.client_index(client)]@
        } else {
            fresh_account_view(client)
        }
    }

    /// An engine with no accounts yet.
    pub fn new() -> (r: TransactionEngine)
        ensures
            r.accounts@.len() == 0,
            r.wf(),
    {
        TransactionEngine { accounts: Vec::new() }
    }

    /// The position `client`'s account has, or would get, in the sorted
    /// population.
    fn find_slot(&self, client: u16) -> (r: usize)
        requires
            self.wf(),
        ensures
            r <= self.accounts@.len(),
            forall|j: int| 0 <= j < r ==> (#[trigger] self.accounts@[j]).id < client,
            r < self.accounts@.len() ==> self.accounts@[r as int].id >= client,
            self.has_client(client) <==> (r < self.accounts@.len()
                && self.accounts@[r as int].id == client),
            self.has_client(client) ==> self.client_index(client) == r,
    {
        let n = self.accounts.len();
        let mut i: usize = 0;
        while i < n && self.accounts[i].id < client
            invariant
                n == self.accounts@.len(),
                i <= n,
                self.wf(),
                forall|j: int| 0 <= j < i ==> (#[trigger] self.accounts@[j]).id < client,
            decreases n - i,
        {
            i = i + 1;
        }
        proof {
            if i < self.accounts@.len() && self.accounts@[i as int].id == client {
                assert(self.has_client(client));
                let w = self.client_index(client);
                assert(0 <= w < self.accounts@.len() && self.accounts@[w].id == client);
                if w < i as int {
                    assert(self.accounts@[w].id < client);
                    assert(false);
                }
                if w > i as int {
                    assert(self.accounts@[i as int].id < self.accounts@[w].id);
                    assert(false);
                }
            } else {
                if self.has_client(client) {
                    let w = self.client_index(client);
                    assert(0 <= w < self.accounts@.len() && self.accounts@[w].id == client);
                    if w < i as int {
                        assert(self.accounts@[w].id < client);
                    } else if w == i as int {
                        assert(self.accounts@[i as int].id == client);
                    } else {
                        assert(self.accounts@[i as int].id < self.accounts@[w].id);
                    }
                    assert(false);
                }
            }
        }
        i
    }

    /// Applies one operation to an account, dispatching on the kind.
    fn apply(account: &mut Account, transaction: &Transaction) -> (r: TxResult<()>)
        requires
            old(account)@.wf(),
            transaction.wf(),
            view_op_fits(old(account)@, *transaction),
        ensures
            final(account)@.wf(),
            op_post(old(account)@, final(account)@, *transaction, r),
    {
        let tx_id = transaction.tx_id();
        match transaction.kind() {
            TransactionKind::Withdrawal(amount) => account.withdraw(tx_id, amount),
            TransactionKind::Deposit(amount) => account.deposit(tx_id, amount),
            TransactionKind::Dispute => account.dispute(tx_id),
            TransactionKind::Resolve => account.resolve(tx_id),
            TransactionKind::Chargeback => account.chargeback(tx_id),
        }
    }

    /// Routes one transaction to its account, creating a fresh zero-balance
    /// account on first reference, and surfaces the account's outcome
    /// unchanged.
    pub fn execute(&mut self, transaction: Transaction) -> (r: TxResult<()>)
        requires
            old(self).wf(),
            transaction.wf(),
            view_op_fits(old(self).target_view(transaction.client_id), transaction),
        ensures
            final(self).wf(),
            execute_post(*old(self), *final(self), transaction, r),
    {
        let client = transaction.client_id();
        let i = self.find_slot(client);
        if i < self.accounts.len() && self.accounts[i].id == client {
            let mut account = self.accounts.remove(i);
            let r = Self::apply(&mut account, &transaction);
            proof {
                assert(account@.id == old(self).accounts@[i as int]@.id);
            }
            self.accounts.insert(i, account);
            proof {
                assert(self.accounts@ =~= old(self).accounts@.update(i as int, account));
                assert(old(self).accounts@.update(i as int, account) =~= self.accounts@);
            }
            r
        } else {
            proof {
                assert(!old(self).has_client(client));
            }
            let mut account = Account::new(client);
            let r = Self::apply(&mut account, &transaction);
            self.accounts.insert(i, account);
            proof {
                assert(account@.id == client);
                assert(forall|j: int|
                    0 <= j < i ==> (#[trigger] old(self).accounts@[j]).id < client);
                assert(forall|j: int|
                    i <= j < old(self).accounts@.len() ==> (#[trigger] old(
                        self,
                    ).accounts@[j]).id > client) by {
                    assert forall|j: int|
                        i < j < old(self).accounts@.len() implies (#[trigger] old(
                        self,
                    ).accounts@[j]).id > client by {
                        assert(old(self).accounts@[i as int].id < old(self).accounts@[j].id);
                    }
                }
            }
            r
        }
    }

    /// Every account's snapshot, ordered by ascending client id. The ordering
    /// is part of the contract: report output must be deterministic.
    pub fn account_summary(&self) -> (r: Vec<AccountSummary>)
        requires
            self.wf(),
            forall|i: int|
                0 <= i < self.accounts@.len() ==> add_fits(
                    (#[trigger] self.accounts@[i]).available,
                    self.accounts@[i].held,
                ),
        ensures
            r@.len() == self.accounts@.len(),
            forall|i: int|
                0 <= i < r@.len() ==> summary_matches(#[trigger] r@[i], self.accounts@[i]@),
            forall|i: int, j: int| 0 <= i < j < r@.len() ==> r@[i].id < r@[j].id,
    {
        let n = self.accounts.len();
        let mut out: Vec<AccountSummary> = Vec::new();
        let mut i: usize = 0;
        while i < n
            invariant
                n == self.accounts@.len(),
                i <= n,
                out@.len() == i,
                self.wf(),
                forall|k: int|
                    0 <= k < n ==> add_fits(
                        (#[trigger] self.accounts@[k]).available,
                        self.accounts@[k].held,
                    ),
                forall|k: int|
                    0 <= k < i ==> summary_matches(#[trigger] out@[k], self.accounts@[k]@),
            decreases n - i,
        {
            let s = self.accounts[i].summary();
            out.push(s);
            i = i + 1;
        }
        out
    }

    /// Whether every account's two balances can still be added exactly, which
    /// `account_summary` requires to form the totals.
    pub fn summaries_fit(&self) -> (r: bool)
        requires
            self.wf(),
        ensures
            r == forall|i: int|
                0 <= i < self.accounts@.len() ==> add_fits(
                    (#[trigger] self.accounts@[i]).available,
                    self.accounts@[i].held,
                ),
    {
        let n = self.accounts.len();
        let mut i: usize = 0;
        while i < n
            invariant
                n == self.accounts@.len(),
                i <= n,
                self.wf(),
                forall|k: int|
                    0 <= k < i ==> add_fits(
                        (#[trigger] self.accounts@[k]).available,
                        self.accounts@[k].held,
                    ),
            decreases n - i,
        {
            if !can_add(&self.accounts[i].available, &self.accounts[i].held) {
                return false;
            }
            i = i + 1;
        }
        true
    }

    /// Whether the next transaction's arithmetic stays within the decimal
    /// range, so that `execute` may be called on it.
    pub fn can_execute(&self, transaction: &Transaction) -> (r: bool)
        requires
            self.wf(),
            transaction.wf(),
        ensures
            r == view_op_fits(self.target_view(transaction.client_id), *transaction),
    {
        let client = transaction.client_id();
        let i = self.find_slot(client);
        if i < self.accounts.len() && self.accounts[i].id == client {
            account_op_fits(&self.accounts[i], transaction)
        } else {
            let fresh = Account::new(client);
            account_op_fits(&fresh, transaction)
        }
    }
}

/// A summary faithfully reflects an account state: same id, balances and lock
/// flag, and a total that is exactly the sum of available and held.
pub open spec fn summary_matches(s: AccountSummary, v: AccountView) -> bool {
    &&& s.id == v.id
    &&& s.available == v.available
    &&& s.held == v.held
    &&& s.is_locked == v.is_locked
    &&& s.total.inv()
    &&& s.total.value() == v.available.value() + v.held.value()
}

/// How one `execute` call relates the whole engine state before and after it:
/// exactly one account is touched or inserted, and it steps by the routed
/// operation.
pub open spec fn execute_post(
    pre: TransactionEngine,
    post: TransactionEngine,
    t: Transaction,
    r: TxResult<()>,
) -> bool {
    if pre.has_client(t.client_id) {
        let i = pre.client_index(t.client_id);
        exists|a: Account|
            {
                &&& post.accounts@ == #[trigger] pre.accounts@.update(i, a)
                &&& op_post(pre.accounts@[i]@, a@, t, r)
            }
    } else {
        exists|k: int, a: Account|
            {
                &&& 0 <= k <= pre.accounts@.len()
                &&& post.accounts@ == #[trigger] pre.accounts@.insert(k, a)
                &&& op_post(fresh_account_view(t.client_id), a@, t, r)
            }
    }
}

/// Whether one routed operation on this concrete account stays within the
/// decimal range.
fn account_op_fits(account: &Account, transaction: &Transaction) -> (r: bool)
    requires
        account@.wf(),
        transaction.wf(),
    ensures
        r == view_op_fits(account@, *transaction),
{
    let tx_id = transaction.tx_id();
    match transaction.kind() {
        TransactionKind::Deposit(amount) => {
            let blocked = account.ledger.contains_key(&tx_id) || account.is_locked
                || amount.is_negative();
            if blocked {
                true
            } else {
                can_add(&account.available, &amount)
            }
        },
        TransactionKind::Withdrawal(amount) => {
            let blocked = account.ledger.contains_key(&tx_id) || account.is_locked
                || amount.is_negative() || account.available.lt_value(&amount);
            if blocked {
                true
            } else {
                can_add(&account.available, &amount.negated())
            }
        },
        TransactionKind::Dispute => {
            if account.is_locked {
                return true;
            }
            match account.ledger.get(&tx_id) {
                None => true,
                Some(e) => match e.state {
                    crate::account::LedgerEntryState::Normal => {
                        can_add(&account.available, &e.amount.negated()) && can_add(
                            &account.held,
                            &e.amount,
                        )
                    },
                    _ => true,
                },
            }
        },
        TransactionKind::Resolve => {
            if account.is_locked {
                return true;
            }
            match account.ledger.get(&tx_id) {
                None => true,
                Some(e) => match e.state {
                    crate::account::LedgerEntryState::Disputed => {
                        can_add(&account.available, &e.amount) && can_add(
                            &account.held,
                            &e.amount.negated(),
                        )
                    },
                    _ => true,
                },
            }
        },
        TransactionKind::Chargeback => {
            if account.is_locked {
                return true;
            }
            match account.ledger.get(&tx_id) {
                None => true,
                Some(e) => match e.state {
                    crate::account::LedgerEntryState::Disputed => can_add(
                        &account.held,
                        &e.amount.negated(),
                    ),
                    _ => true,
                },
            }
        },
    }
}

} // verus!
