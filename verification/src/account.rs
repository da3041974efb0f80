use crate::amount::{
    add_fits, amount_text, dec_add, dec_display, spec_neg, Amount,
};
use crate::result::{TxError, TxResult};
use crate::text::{push_u32, spec_uint_text};
use std::collections::HashMap;
use vstd::prelude::*;
use vstd::string::StringExecFns;

verus! {

broadcast use vstd::std_specs::hash::group_hash_axioms;

/// Dispute lifecycle of one ledger entry: entries start `Normal`, a dispute
/// holds them `Disputed`, and a chargeback parks them in the terminal
/// `ChargedBack` state.
#[derive(Debug, Clone, Copy, PartialEq, Eq, Structural)]
pub enum LedgerEntryState {
    Normal,
    Disputed,
    ChargedBack,
}

/// One recorded deposit or withdrawal. The amount keeps the original sign:
/// positive for a deposit, negative for a withdrawal, which lets the dispute
/// arithmetic treat both uniformly.
#[derive(Debug, Clone, Copy)]
pub struct LedgerEntry {
    pub amount: Amount,
    pub state: LedgerEntryState,
}

/// Read-only projection of an account taken at snapshot time.
#[derive(Debug, Clone, Copy)]
pub struct AccountSummary {
    pub id: u16,
    pub available: Amount,
    pub held: Amount,
    pub total: Amount,
    pub is_locked: bool,
}

/// A single client's ledger: its recorded transactions, the running balances,
/// and the permanent lock flag.
#[derive(Debug)]
pub struct Account {
    pub ledger: HashMap<u32, LedgerEntry>,
    pub id: u16,
    pub available: Amount,
    pub held: Amount,
    pub is_locked: bool,
}

/// The mathematical state of an account.
pub struct AccountView {
    pub ledger: Map<u32, LedgerEntry>,
    pub id: u16,
    pub available: Amount,
    pub held: Amount,
    pub is_locked: bool,
}

impl View for Account {
    type V = AccountView;

    open spec fn view(&self) -> AccountView {
        AccountView {
            ledger: self.ledger@,
            id: self.id,
            available: self.available,
            held: self.held,
            is_locked: self.is_locked,
        }
    }
}

/// The state a freshly created account starts in: empty ledger, zero
/// balances, unlocked.
pub open spec fn fresh_account_view(id: u16) -> AccountView {
    AccountView {
        ledger: Map::empty(),
        id,
        available: Amount { mantissa: 0, scale: 0 },
        held: Amount { mantissa: 0, scale: 0 },
        is_locked: false,
    }
}

impl AccountView {
    /// Well-formedness: every stored amount stays within the decimal range.
    pub open spec fn wf(self) -> bool {
        &&& self.available.inv()
        &&& self.held.inv()
        &&& forall|t: u32|
            self.ledger.contains_key(t) ==> (#[trigger] self.ledger[t]).amount.inv()
    }

    /// A deposit is honored when the transaction id is fresh, the account is
    /// unlocked and the amount is not negative.
    pub open spec fn deposit_allowed(self, tx_id: u32, amount: Amount) -> bool {
        &&& !self.ledger.contains_key(tx_id)
        &&& !self.is_locked
        &&& amount.value() >= 0
    }

    /// A withdrawal additionally requires the amount to stay within the
    /// available balance; held funds are never eligible.
    pub open spec fn withdraw_allowed(self, tx_id: u32, amount: Amount) -> bool {
        &&& !self.ledger.contains_key(tx_id)
        &&& !self.is_locked
        &&& amount.value() >= 0
        &&& amount.value() <= self.available.value()
    }

    /// Whether a dispute-family operation actually moves funds: the account is
    /// unlocked and the referenced entry exists in the state `st`.
    pub open spec fn entry_actionable(self, tx_id: u32, st: LedgerEntryState) -> bool {
        &&& !self.is_locked
        &&& self.ledger.contains_key(tx_id)
        &&& self.ledger[tx_id].state == st
    }

    /// Machine limit: when a deposit would be honored, its sum must stay
    /// representable.
    pub open spec fn deposit_fits(self, tx_id: u32, amount: Amount) -> bool {
        self.deposit_allowed(tx_id, amount) ==> add_fits(self.available, amount)
    }

    /// Machine limit for a withdrawal.
    pub open spec fn withdraw_fits(self, tx_id: u32, amount: Amount) -> bool {
        self.withdraw_allowed(tx_id, amount) ==> add_fits(self.available, spec_neg(amount))
    }

    /// Machine limit for a dispute.
    pub open spec fn dispute_fits(self, tx_id: u32) -> bool {
        self.entry_actionable(tx_id, LedgerEntryState::Normal) ==> {
            let x = self.ledger[tx_id].amount;
            add_fits(self.available, spec_neg(x)) && add_fits(self.held, x)
        }
    }

    /// Machine limit for a resolve.
    pub open spec fn resolve_fits(self, tx_id: u32) -> bool {
        self.entry_actionable(tx_id, LedgerEntryState::Disputed) ==> {
            let x = self.ledger[tx_id].amount;
            add_fits(self.available, x) && add_fits(self.held, spec_neg(x))
        }
    }

    /// Machine limit for a chargeback.
    pub open spec fn chargeback_fits(self, tx_id: u32) -> bool {
        self.entry_actionable(tx_id, LedgerEntryState::Disputed) ==> add_fits(
            self.held,
            spec_neg(self.ledger[tx_id].amount),
        )
    }
}

/// Text of the duplicate-transaction refusal.
pub open spec fn duplicate_tx_message(tx_id: u32, id: u16) -> Seq<char> {
    "Attempt to execute a transaction ["@ + spec_uint_text(tx_id as int)
        + "] twice for account ["@ + spec_uint_text(id as int) + "]."@
}

/// Text of the locked-account refusal.
pub open spec fn locked_message(id: u16) -> Seq<char> {
    "Attempt to execute a transaction on locked account ["@ + spec_uint_text(id as int) + "]."@
}

/// Text of the negative-deposit refusal.
pub open spec fn negative_deposit_message(amount: Amount, tx_id: u32, id: u16) -> Seq<char> {
    "Attempt to deposit a negative amount ["@
        + dec_display(amount.mantissa as int, amount.scale as int) + "] in transaction ["@
        + spec_uint_text(tx_id as int) + "] for account ["@ + spec_uint_text(id as int) + "]."@
}

/// Text of the negative-withdrawal refusal.
pub open spec fn negative_withdrawal_message(amount: Amount, tx_id: u32, id: u16) -> Seq<char> {
    "Attempt to withdraw a negative amount ["@
        + dec_display(amount.mantissa as int, amount.scale as int) + "] in transaction ["@
        + spec_uint_text(tx_id as int) + "] for account ["@ + spec_uint_text(id as int) + "]."@
}

/// Text of the insufficient-funds refusal.
pub open spec fn insufficient_funds_message(
    amount: Amount,
    balance: Amount,
    tx_id: u32,
    id: u16,
) -> Seq<char> {
    "Attempt to withdraw an amount ["@
        + dec_display(amount.mantissa as int, amount.scale as int)
        + "] greater than balance ["@
        + dec_display(balance.mantissa as int, balance.scale as int) + "] in transaction ["@
        + spec_uint_text(tx_id as int) + "] for account ["@ + spec_uint_text(id as int) + "]."@
}

fn duplicate_tx_error(tx_id: u32, id: u16) -> (e: TxError)
    ensures
        e matches TxError::InvalidOperation(m) && m@ == duplicate_tx_message(tx_id, id),
{
    let mut s = String::from_str("Attempt to execute a transaction [");
    push_u32(&mut s, tx_id);
    s.append("] twice for account [");
    push_u32(&mut s, id as u32);
    s.append("].");
    proof {
        assert(s@ =~= duplicate_tx_message(tx_id, id));
    }
    TxError::InvalidOperation(s)
}

fn locked_error(id: u16) -> (e: TxError)
    ensures
        e matches TxError::InvalidOperation(m) && m@ == locked_message(id),
{
    let mut s = String::from_str("Attempt to execute a transaction on locked account [");
    push_u32(&mut s, id as u32);
    s.append("].");
    proof {
        assert(s@ =~= locked_message(id));
    }
    TxError::InvalidOperation(s)
}

fn negative_deposit_error(amount: &Amount, tx_id: u32, id: u16) -> (e: TxError)
    requires
        amount.inv(),
    ensures
        e matches TxError::InvalidArgument(m) && m@ == negative_deposit_message(
            *amount,
            tx_id,
            id,
        ),
{
    let mut s = String::from_str("Attempt to deposit a negative amount [");
    s.append(amount_text(amount).as_str());
    s.append("] in transaction [");
    push_u32(&mut s, tx_id);
    s.append("] for account [");
    push_u32(&mut s, id as u32);
    s.append("].");
    proof {
        assert(s@ =~= negative_deposit_message(*amount, tx_id, id));
    }
    TxError::InvalidArgument(s)
}

fn negative_withdrawal_error(amount: &Amount, tx_id: u32, id: u16) -> (e: TxError)
    requires
        amount.inv(),
    ensures
        e matches TxError::InvalidArgument(m) && m@ == negative_withdrawal_message(
            *amount,
            tx_id,
            id,
        ),
{
    let mut s = String::from_str("Attempt to withdraw a negative amount [");
    s.append(amount_text(amount).as_str());
    s.append("] in transaction [");
    push_u32(&mut s, tx_id);
    s.append("] for account [");
    push_u32(&mut s, id as u32);
    s.append("].");
    proof {
        assert(s@ =~= negative_withdrawal_message(*amount, tx_id, id));
    }
    TxError::InvalidArgument(s)
}

fn insufficient_funds_error(amount: &Amount, balance: &Amount, tx_id: u32, id: u16) -> (e: TxError)
    requires
        amount.inv(),
        balance.inv(),
    ensures
        e matches TxError::InvalidArgument(m) && m@ == insufficient_funds_message(
            *amount,
            *balance,
            tx_id,
            id,
        ),
{
    let mut s = String::from_str("Attempt to withdraw an amount [");
    s.append(amount_text(amount).as_str());
    s.append("] greater than balance [");
    s.append(amount_text(balance).as_str());
    s.append("] in transaction [");
    push_u32(&mut s, tx_id);
    s.append("] for account [");
    push_u32(&mut s, id as u32);
    s.append("].");
    proof {
        assert(s@ =~= insufficient_funds_message(*amount, *balance, tx_id, id));
    }
    TxError::InvalidArgument(s)
}

/// How one `deposit` call relates the account state before it to the state
/// after it, together with its outcome.
pub open spec fn deposit_post(
    pre: AccountView,
    post: AccountView,
    tx_id: u32,
    amount: Amount,
    r: TxResult<()>,
) -> bool {
    &&& (r is Ok <==> pre.deposit_allowed(tx_id, amount))
    &&& match r {
        Ok(_) => {
            &&& post.ledger == pre.ledger.insert(
                tx_id,
                LedgerEntry { amount, state: LedgerEntryState::Normal },
            )
            &&& post.available.inv()
            &&& post.available.value() == pre.available.value() + amount.value()
            &&& post.held == pre.held
            &&& post.is_locked == pre.is_locked
            &&& post.id == pre.id
        },
        Err(e) => {
            &&& post == pre
            &&& if pre.ledger.contains_key(tx_id) {
                e matches TxError::InvalidOperation(m) && m@ == duplicate_tx_message(tx_id, pre.id)
            } else if pre.is_locked {
                e matches TxError::InvalidOperation(m) && m@ == locked_message(pre.id)
            } else {
                e matches TxError::InvalidArgument(m) && m@ == negative_deposit_message(
                    amount,
                    tx_id,
                    pre.id,
                )
            }
        },
    }
}

/// How one `withdraw` call relates the states before and after it. On success
/// the entry is recorded with the negated amount.
pub open spec fn withdraw_post(
    pre: AccountView,
    post: AccountView,
    tx_id: u32,
    amount: Amount,
    r: TxResult<()>,
) -> bool {
    &&& (r is Ok <==> pre.withdraw_allowed(tx_id, amount))
    &&& match r {
        Ok(_) => {
            &&& post.ledger == pre.ledger.insert(
                tx_id,
                LedgerEntry { amount: spec_neg(amount), state: LedgerEntryState::Normal },
            )
            &&& post.available.inv()
            &&& post.available.value() == pre.available.value() - amount.value()
            &&& post.held == pre.held
            &&& post.is_locked == pre.is_locked
            &&& post.id == pre.id
        },
        Err(e) => {
            &&& post == pre
            &&& if pre.ledger.contains_key(tx_id) {
                e matches TxError::InvalidOperation(m) && m@ == duplicate_tx_message(tx_id, pre.id)
            } else if pre.is_locked {
                e matches TxError::InvalidOperation(m) && m@ == locked_message(pre.id)
            } else if amount.value() < 0 {
                e matches TxError::InvalidArgument(m) && m@ == negative_withdrawal_message(
                    amount,
                    tx_id,
                    pre.id,
                )
            } else {
                e matches TxError::InvalidArgument(m) && m@ == insufficient_funds_message(
                    amount,
                    pre.available,
                    tx_id,
                    pre.id,
                )
            }
        },
    }
}

/// How one `dispute` call relates the states before and after it. An unknown
/// or non-`Normal` entry makes it a silent no-op.
pub open spec fn dispute_post(
    pre: AccountView,
    post: AccountView,
    tx_id: u32,
    r: TxResult<()>,
) -> bool {
    &&& (r is Ok <==> !pre.is_locked)
    &&& match r {
        Ok(_) => {
            if pre.entry_actionable(tx_id, LedgerEntryState::Normal) {
                let x = pre.ledger[tx_id].amount;
                &&& post.ledger == pre.ledger.insert(
                    tx_id,
                    LedgerEntry { amount: x, state: LedgerEntryState::Disputed },
                )
                &&& post.available.inv()
                &&& post.available.value() == pre.available.value() - x.value()
                &&& post.held.inv()
                &&& post.held.value() == pre.held.value() + x.value()
                &&& post.is_locked == pre.is_locked
                &&& post.id == pre.id
            } else {
                post == pre
            }
        },
        Err(e) => {
            &&& post == pre
            &&& e matches TxError::InvalidOperation(m) && m@ == locked_message(pre.id)
        },
    }
}

/// How one `resolve` call relates the states before and after it: the exact
/// reversal of a dispute's arithmetic.
pub open spec fn resolve_post(
    pre: AccountView,
    post: AccountView,
    tx_id: u32,
    r: TxResult<()>,
) -> bool {
    &&& (r is Ok <==> !pre.is_locked)
    &&& match r {
        Ok(_) => {
            if pre.entry_actionable(tx_id, LedgerEntryState::Disputed) {
                let x = pre.ledger[tx_id].amount;
                &&& post.ledger == pre.ledger.insert(
                    tx_id,
                    LedgerEntry { amount: x, state: LedgerEntryState::Normal },
                )
                &&& post.available.inv()
                &&& post.available.value() == pre.available.value() + x.value()
                &&& post.held.inv()
                &&& post.held.value() == pre.held.value() - x.value()
                &&& post.is_locked == pre.is_locked
                &&& post.id == pre.id
            } else {
                post == pre
            }
        },
        Err(e) => {
            &&& post == pre
            &&& e matches TxError::InvalidOperation(m) && m@ == locked_message(pre.id)
        },
    }
}

/// How one `chargeback` call relates the states before and after it: the held
/// funds leave for good and the account locks.
pub open spec fn chargeback_post(
    pre: AccountView,
    post: AccountView,
    tx_id: u32,
    r: TxResult<()>,
) -> bool {
    &&& (r is Ok <==> !pre.is_locked)
    &&& match r {
        Ok(_) => {
            if pre.entry_actionable(tx_id, LedgerEntryState::Disputed) {
                let x = pre.ledger[tx_id].amount;
                &&& post.ledger == pre.ledger.insert(
                    tx_id,
                    LedgerEntry { amount: x, state: LedgerEntryState::ChargedBack },
                )
                &&& post.available == pre.available
                &&& post.held.inv()
                &&& post.held.value() == pre.held.value() - x.value()
                &&& post.is_locked == true
                &&& post.id == pre.id
            } else {
                post == pre
            }
        },
        Err(e) => {
            &&& post == pre
            &&& e matches TxError::InvalidOperation(m) && m@ == locked_message(pre.id)
        },
    }
}

/// One call of any of the five account operations, with its arguments
/// abstracted away.
pub open spec fn account_step(pre: AccountView, post: AccountView, r: TxResult<()>) -> bool {
    ||| exists|tx_id: u32, amount: Amount| deposit_post(pre, post, tx_id, amount, r)
    ||| exists|tx_id: u32, amount: Amount| withdraw_post(pre, post, tx_id, amount, r)
    ||| exists|tx_id: u32| dispute_post(pre, post, tx_id, r)
    ||| exists|tx_id: u32| resolve_post(pre, post, tx_id, r)
    ||| exists|tx_id: u32| chargeback_post(pre, post, tx_id, r)
}

/// Law: the lock is permanent. Once an account is locked, every operation is
/// refused with the locked-account error, nothing in the account changes, and
/// no operation ever clears the flag.
pub proof fn lemma_lock_is_permanent(pre: AccountView, post: AccountView, r: TxResult<()>)
    requires
        account_step(pre, post, r),
    ensures
        pre.is_locked ==> post == pre && r is Err,
        pre.is_locked ==> post.is_locked,
{
}

/// Law: transaction ids are unique per account. After a successful deposit or
/// withdrawal under some id, a second deposit or withdrawal under the same id
/// is refused as a duplicate and leaves the account unchanged.
pub proof fn lemma_tx_ids_unique(
    pre: AccountView,
    mid: AccountView,
    post: AccountView,
    tx_id: u32,
    first_amount: Amount,
    second_amount: Amount,
    r1: TxResult<()>,
    r2: TxResult<()>,
)
    requires
        deposit_post(pre, mid, tx_id, first_amount, r1) || withdraw_post(
            pre,
            mid,
            tx_id,
            first_amount,
            r1,
        ),
        r1 is Ok,
        deposit_post(mid, post, tx_id, second_amount, r2) || withdraw_post(
            mid,
            post,
            tx_id,
            second_amount,
            r2,
        ),
    ensures
        r2 is Err,
        post == mid,
        r2 matches Err(e) ==> e is InvalidOperation,
{
    assert(mid.ledger.contains_key(tx_id));
}

/// Law: `dispute` is idempotent. A second dispute of the same entry, right
/// after a first one, succeeds and changes nothing further.
pub proof fn lemma_dispute_idempotent(
    pre: AccountView,
    mid: AccountView,
    post: AccountView,
    tx_id: u32,
    r1: TxResult<()>,
    r2: TxResult<()>,
)
    requires
        dispute_post(pre, mid, tx_id, r1),
        r1 is Ok,
        dispute_post(mid, post, tx_id, r2),
    ensures
        r2 is Ok,
        post == mid,
{
    if pre.entry_actionable(tx_id, LedgerEntryState::Normal) {
        assert(mid.ledger[tx_id].state == LedgerEntryState::Disputed);
        assert(!mid.entry_actionable(tx_id, LedgerEntryState::Normal));
    }
}

/// Law: `dispute` followed immediately by `resolve` of the same entry is a
/// round trip. Both succeed, and the balances, the ledger and the lock flag
/// come back to exactly their pre-dispute state.
pub proof fn lemma_dispute_resolve_round_trip(
    pre: AccountView,
    mid: AccountView,
    post: AccountView,
    tx_id: u32,
    r1: TxResult<()>,
    r2: TxResult<()>,
)
    requires
        pre.entry_actionable(tx_id, LedgerEntryState::Normal),
        dispute_post(pre, mid, tx_id, r1),
        resolve_post(mid, post, tx_id, r2),
    ensures
        r1 is Ok,
        r2 is Ok,
        post.available.value() == pre.available.value(),
        post.held.value() == pre.held.value(),
        post.ledger == pre.ledger,
        post.is_locked == pre.is_locked,
        post.id == pre.id,
{
    let x = pre.ledger[tx_id].amount;
    assert(mid.entry_actionable(tx_id, LedgerEntryState::Disputed));
    assert(mid.ledger[tx_id].amount == x);
    assert(pre.ledger[tx_id] == LedgerEntry { amount: x, state: LedgerEntryState::Normal });
    assert(post.ledger =~= pre.ledger);
}

impl Account {
    /// A fresh, zero-balance, unlocked account for client `id`.
    pub fn new(id: u16) -> (r: Account)
        ensures
            r@ == fresh_account_view(id),
            r@.wf(),
    {
        let r = Account {
            ledger: HashMap::new(),
            id,
            available: Amount::zero(),
            held: Amount::zero(),
            is_locked: false,
        };
        proof {
            assert(r@.ledger =~= fresh_account_view(id).ledger);
        }
        r
    }

    pub fn available(&self) -> (r: Amount)
        ensures
            r == self.available,
    {
        self.available
    }

    pub fn held(&self) -> (r: Amount)
        ensures
            r == self.held,
    {
        self.held
    }

    pub fn is_locked(&self) -> (r: bool)
        ensures
            r == self.is_locked,
    {
        self.is_locked
    }

    pub fn id(&self) -> (r: u16)
        ensures
            r == self.id,
    {
        self.id
    }

    /// The derived total balance: available plus held, never stored.
    pub fn total(&self) -> (r: Amount)
        requires
            self.available.inv(),
            self.held.inv(),
            add_fits(self.available, self.held),
        ensures
            r.inv(),
            r.value() == self.available.value() + self.held.value(),
    {
        dec_add(&self.available, &self.held)
    }

    /// The read-only snapshot of this account. Its total is exactly the sum
    /// of the available and held balances.
    pub fn summary(&self) -> (r: AccountSummary)
        requires
            self@.wf(),
            add_fits(self.available, self.held),
        ensures
            r.id == self.id,
            r.available == self.available,
            r.held == self.held,
            r.is_locked == self.is_locked,
            r.total.inv(),
            r.total.value() == self.available.value() + self.held.value(),
    {
        AccountSummary {
            id: self.id,
            available: self.available,
            held: self.held,
            total: self.total(),
            is_locked: self.is_locked,
        }
    }

    /// Records a deposit: a fresh `Normal` entry carrying `+amount`, and the
    /// available balance grows by it.
    pub fn deposit(&mut self, tx_id: u32, amount: Amount) -> (r: TxResult<()>)
        requires
            old(self)@.wf(),
            amount.inv(),
            old(self)@.deposit_fits(tx_id, amount),
        ensures
            final(self)@.wf(),
            deposit_post(old(self)@, final(self)@, tx_id, amount, r),
    {
        if self.ledger.contains_key(&tx_id) {
            return Err(duplicate_tx_error(tx_id, self.id));
        }
        if self.is_locked {
            return Err(locked_error(self.id));
        }
        if amount.is_negative() {
            return Err(negative_deposit_error(&amount, tx_id, self.id));
        }
        self.ledger.insert(tx_id, LedgerEntry { amount, state: LedgerEntryState::Normal });
        self.available = dec_add(&self.available, &amount);
        Ok(())
    }

    /// Records a withdrawal: a fresh `Normal` entry carrying `-amount`, and
    /// the available balance shrinks by it. Held funds are never eligible.
    pub fn withdraw(&mut self, tx_id: u32, amount: Amount) -> (r: TxResult<()>)
        requires
            old(self)@.wf(),
            amount.inv(),
            old(self)@.withdraw_fits(tx_id, amount),
        ensures
            final(self)@.wf(),
            withdraw_post(old(self)@, final(self)@, tx_id, amount, r),
    {
        if self.ledger.contains_key(&tx_id) {
            return Err(duplicate_tx_error(tx_id, self.id));
        }
        if self.is_locked {
            return Err(locked_error(self.id));
        }
        if amount.is_negative() {
            return Err(negative_withdrawal_error(&amount, tx_id, self.id));
        }
        if self.available.lt_value(&amount) {
            return Err(insufficient_funds_error(&amount, &self.available, tx_id, self.id));
        }
        let negated = amount.negated();
        self.ledger.insert(
            tx_id,
            LedgerEntry { amount: negated, state: LedgerEntryState::Normal },
        );
        self.available = dec_add(&self.available, &negated);
        Ok(())
    }

    /// Opens a dispute: the entry's funds move from available to held. An
    /// unknown transaction id or an entry that is not `Normal` is a silent
    /// no-op.
    pub fn dispute(&mut self, tx_id: u32) -> (r: TxResult<()>)
        requires
            old(self)@.wf(),
            old(self)@.dispute_fits(tx_id),
        ensures
            final(self)@.wf(),
            dispute_post(old(self)@, final(self)@, tx_id, r),
    {
        if self.is_locked {
            return Err(locked_error(self.id));
        }
        let entry = match self.ledger.get(&tx_id) {
            None => {
                return Ok(());
            },
            Some(e) => *e,
        };
        match entry.state {
            LedgerEntryState::Normal => {},
            _ => {
                return Ok(());
            },
        }
        let moved = entry.amount;
        self.ledger.insert(
            tx_id,
            LedgerEntry { amount: moved, state: LedgerEntryState::Disputed },
        );
        self.available = dec_add(&self.available, &moved.negated());
        self.held = dec_add(&self.held, &moved);
        Ok(())
    }

    /// Resolves a dispute: reverses the dispute's arithmetic exactly and the
    /// entry returns to `Normal`. Unknown or non-`Disputed` entries are a
    /// silent no-op.
    pub fn resolve(&mut self, tx_id: u32) -> (r: TxResult<()>)
        requires
            old(self)@.wf(),
            old(self)@.resolve_fits(tx_id),
        ensures
            final(self)@.wf(),
            resolve_post(old(self)@, final(self)@, tx_id, r),
    {
        if self.is_locked {
            return Err(locked_error(self.id));
        }
        let entry = match self.ledger.get(&tx_id) {
            None => {
                return Ok(());
            },
            Some(e) => *e,
        };
        match entry.state {
            LedgerEntryState::Disputed => {},
            _ => {
                return Ok(());
            },
        }
        let moved = entry.amount;
        self.ledger.insert(
            tx_id,
            LedgerEntry { amount: moved, state: LedgerEntryState::Normal },
        );
        self.available = dec_add(&self.available, &moved);
        self.held = dec_add(&self.held, &moved.negated());
        Ok(())
    }

    /// Charges back a disputed entry: the held funds are permanently removed
    /// and the account locks for good. Unknown or non-`Disputed` entries are
    /// a silent no-op.
    pub fn chargeback(&mut self, tx_id: u32) -> (r: TxResult<()>)
        requires
            old(self)@.wf(),
            old(self)@.chargeback_fits(tx_id),
        ensures
            final(self)@.wf(),
            chargeback_post(old(self)@, final(self)@, tx_id, r),
    {
        if self.is_locked {
            return Err(locked_error(self.id));
        }
        let entry = match self.ledger.get(&tx_id) {
            None => {
                return Ok(());
            },
            Some(e) => *e,
        };
        match entry.state {
            LedgerEntryState::Disputed => {},
            _ => {
                return Ok(());
            },
        }
        let moved = entry.amount;
        self.ledger.insert(
            tx_id,
            LedgerEntry { amount: moved, state: LedgerEntryState::ChargedBack },
        );
        self.held = dec_add(&self.held, &moved.negated());
        self.is_locked = true;
        Ok(())
    }
}

} // verus!
