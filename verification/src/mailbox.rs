//! The notification mailbox: a single slot between the context that delivers
//! native events and the worker that reacts to them.
//!
//! Only the presence of a token matters. A deposit into an occupied slot is
//! dropped, so a burst of events leaves exactly one token behind.

use vstd::prelude::*;

verus! {

/// A signal without payload: the observed state may have changed and should
/// be queried again.
#[derive(Clone, Copy, Debug, PartialEq, Eq, Structural)]
pub struct NotificationToken;

/// One operation on a mailbox, as it appears in a history of operations.
#[derive(Clone, Copy, Debug, PartialEq, Eq, Structural)]
pub enum MailboxOp {
    /// The delivering side offers a token.
    Deposit,
    /// The worker asks for the pending token.
    Take,
}

/// Whether a token is pending after `op`, given whether one was pending before.
pub open spec fn pending_after_op(pending: bool, op: MailboxOp) -> bool {
    match op {
        MailboxOp::Deposit => true,
        MailboxOp::Take => false,
    }
}

/// Whether `op` hands a token to the worker, given whether one was pending.
pub open spec fn hands_out_token(pending: bool, op: MailboxOp) -> bool {
    op == MailboxOp::Take && pending
}

/// Whether a token is pending after the whole history `ops`.
pub open spec fn pending_after(pending: bool, ops: Seq<MailboxOp>) -> bool
    decreases ops.len(),
{
    if ops.len() == 0 {
        pending
    } else {
        pending_after_op(pending_after(pending, ops.drop_last()), ops.last())
    }
}

/// The number of tokens the worker receives over the history `ops`.
pub open spec fn tokens_taken(pending: bool, ops: Seq<MailboxOp>) -> nat
    decreases ops.len(),
{
    if ops.len() == 0 {
        0
    } else {
        let before = ops.drop_last();
        let handed: nat = if hands_out_token(pending_after(pending, before), ops.last()) {
            1
        } else {
            0
        };
        tokens_taken(pending, before) + handed
    }
}

/// The number of deposits in the history `ops`.
pub open spec fn deposits_in(ops: Seq<MailboxOp>) -> nat
    decreases ops.len(),
{
    if ops.len() == 0 {
        0
    } else {
        let one: nat = if ops.last() == MailboxOp::Deposit {
            1
        } else {
            0
        };
        deposits_in(ops.drop_last()) + one
    }
}

/// A history of `deposits` deposits followed by `takes` takes.
pub open spec fn burst_then_takes(deposits: nat, takes: nat) -> Seq<MailboxOp> {
    Seq::new(
        deposits + takes,
        |i: int|
            if i < deposits {
                MailboxOp::Deposit
            } else {
                MailboxOp::Take
            },
    )
}

/// The single-slot mailbox.
pub struct Mailbox {
    slot: Option<NotificationToken>,
}

impl Mailbox {
    /// Whether a token is waiting to be taken.
    pub closed spec fn pending(&self) -> bool {
        self.slot is Some
    }

    /// An empty mailbox.
    pub fn new() -> (mailbox: Mailbox)
        ensures
            !mailbox.pending(),
    {
        Mailbox { slot: None }
    }

    /// Offers a token without waiting. The result tells whether the token was
    /// stored; it is dropped when one is pending already.
    pub fn deposit(&mut self) -> (stored: bool)
        ensures
            final(self).pending() == pending_after_op(old(self).pending(), MailboxOp::Deposit),
            stored == !old(self).pending(),
    {
        match self.slot {
            Some(_) => false,
            None => {
                self.slot = Some(NotificationToken);
                true
            },
        }
    }

    /// Removes the pending token, if there is one. `None` means that the
    /// caller has to wait for the next deposit.
    pub fn take(&mut self) -> (token: Option<NotificationToken>)
        ensures
            final(self).pending() == pending_after_op(old(self).pending(), MailboxOp::Take),
            token is Some == hands_out_token(old(self).pending(), MailboxOp::Take),
    {
        let token = self.slot;
        self.slot = None;
        token
    }

    /// Whether a token is waiting to be taken.
    pub fn is_pending(&self) -> (pending: bool)
        ensures
            pending == self.pending(),
    {
        self.slot.is_some()
    }

    /// Applies one recorded operation and tells whether it handed out a token.
    pub fn apply(&mut self, op: MailboxOp) -> (handed: bool)
        ensures
            final(self).pending() == pending_after_op(old(self).pending(), op),
            handed == hands_out_token(old(self).pending(), op),
    {
        match op {
            MailboxOp::Deposit => {
                let _ = self.deposit();
                false
            },
            MailboxOp::Take => self.take().is_some(),
        }
    }

    /// Replays a history of operations and counts the tokens handed out.
    pub fn replay(&mut self, ops: &Vec<MailboxOp>) -> (taken: usize)
        ensures
            final(self).pending() == pending_after(old(self).pending(), ops@),
            taken == tokens_taken(old(self).pending(), ops@),
    {
        let mut taken: usize = 0;
        let mut i: usize = 0;
        while i < ops.len()
            invariant
                i <= ops.len(),
                self.pending() == pending_after(old(self).pending(), ops@.take(i as int)),
                taken == tokens_taken(old(self).pending(), ops@.take(i as int)),
                taken <= i,
            decreases ops.len() - i,
        {
            proof {
                assert(ops@.take(i + 1).drop_last() =~= ops@.take(i as int));
                assert(ops@.take(i + 1).last() == ops@[i as int]);
            }
            let handed = self.apply(ops[i]);
            if handed {
                taken = taken + 1;
            }
            i = i + 1;
        }
        proof {
            assert(ops@.take(ops.len() as int) =~= ops@);
        }
        taken
    }
}

/// No more tokens are handed out than there are operations in the history.
pub proof fn lemma_tokens_bounded(pending: bool, ops: Seq<MailboxOp>)
    ensures
        tokens_taken(pending, ops) <= ops.len(),
    decreases ops.len(),
{
    if ops.len() > 0 {
        lemma_tokens_bounded(pending, ops.drop_last());
    }
}

/// The worker never receives more tokens than were deposited, counting one
/// more where a token was pending at the start.
pub proof fn lemma_tokens_never_exceed_deposits(pending: bool, ops: Seq<MailboxOp>)
    ensures
        tokens_taken(pending, ops) + (if pending_after(pending, ops) { 1nat } else { 0nat })
            <= deposits_in(ops) + (if pending { 1nat } else { 0nat }),
    decreases ops.len(),
{
    if ops.len() > 0 {
        lemma_tokens_never_exceed_deposits(pending, ops.drop_last());
    }
}

/// Coalescing: however many deposits arrive before the worker looks, and
/// whatever the slot held before them, the takes that follow hand out exactly
/// one token, and it goes to the first of them. Every later take finds the
/// slot empty and has to wait.
pub proof fn lemma_burst_coalesces(pending: bool, deposits: nat, takes: nat)
    requires
        deposits >= 1,
    ensures
        tokens_taken(pending, burst_then_takes(deposits, takes)) == (if takes >= 1 { 1nat } else { 0nat }),
        pending_after(pending, burst_then_takes(deposits, takes)) == (takes == 0),
    decreases deposits + takes,
{
    let ops = burst_then_takes(deposits, takes);
    if takes > 0 {
        assert(ops.drop_last() =~= burst_then_takes(deposits, (takes - 1) as nat));
        lemma_burst_coalesces(pending, deposits, (takes - 1) as nat);
    } else if deposits > 1 {
        assert(ops.drop_last() =~= burst_then_takes((deposits - 1) as nat, 0));
        lemma_burst_coalesces(pending, (deposits - 1) as nat, 0);
    } else {
        assert(ops.drop_last() =~= Seq::<MailboxOp>::empty());
        assert(tokens_taken(pending, ops.drop_last()) == 0);
        assert(pending_after(pending, ops.drop_last()) == pending);
    }
}

/// A take on an empty mailbox hands out nothing and leaves it empty: the
/// worker stays blocked until a deposit occurs, and the take after that
/// deposit succeeds.
pub proof fn lemma_take_waits_for_deposit(waits: nat)
    ensures
        tokens_taken(false, burst_then_takes(0, waits)) == 0,
        !pending_after(false, burst_then_takes(0, waits)),
        tokens_taken(
            false,
            burst_then_takes(0, waits).push(MailboxOp::Deposit).push(MailboxOp::Take),
        ) == 1,
    decreases waits,
{
    let idle = burst_then_takes(0, waits);
    if waits > 0 {
        assert(idle.drop_last() =~= burst_then_takes(0, (waits - 1) as nat));
        lemma_take_waits_for_deposit((waits - 1) as nat);
    }
    assert(tokens_taken(false, idle) == 0 && !pending_after(false, idle));
    let woken = idle.push(MailboxOp::Deposit);
    let served = woken.push(MailboxOp::Take);
    assert(woken.drop_last() =~= idle);
    assert(served.drop_last() =~= woken);
    assert(tokens_taken(false, woken) == tokens_taken(false, idle));
    assert(pending_after(false, woken));
    assert(tokens_taken(false, served) == tokens_taken(false, woken) + 1);
}

} // verus!
