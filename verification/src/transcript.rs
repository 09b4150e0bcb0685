//! The record of the exchanges between the driver and the hardware.
//!
//! An operation of the driver asks a [`Transcript`] to perform each action
//! in turn. The transcript holds the exchanges that were already performed:
//! while there are some left it checks that the requested action is the one
//! recorded and hands back the recorded reply; once they are used up it keeps
//! the requested action as pending and stops the operation. The caller then
//! performs the pending action, appends the exchange, and runs the operation
//! again on a fresh transcript.
use vstd::prelude::*;

use crate::types::Nrf24Error;

verus! {

/// An action that the hardware must perform.
#[derive(Clone, Debug)]
pub enum Action {
    /// A full-duplex SPI transfer of these bytes; the reply has the same length.
    Transfer(Vec<u8>),
    /// Drive the CE pin high (`true`) or low (`false`).
    SetCe(bool),
    /// Wait this many microseconds.
    DelayUs(u32),
    /// Wait this many nanoseconds.
    DelayNs(u32),
}

/// The abstract form of an [`Action`].
pub enum ActionView {
    Transfer(Seq<u8>),
    SetCe(bool),
    DelayUs(u32),
    DelayNs(u32),
}

impl View for Action {
    type V = ActionView;

    open spec fn view(&self) -> ActionView {
        match self {
            Action::Transfer(bytes) => ActionView::Transfer(bytes@),
            Action::SetCe(high) => ActionView::SetCe(*high),
            Action::DelayUs(us) => ActionView::DelayUs(*us),
            Action::DelayNs(ns) => ActionView::DelayNs(*ns),
        }
    }
}

/// An action that was performed, with the bytes that the radio replied
/// (the reply of anything but a transfer is ignored).
#[derive(Clone, Debug)]
pub struct Exchange {
    pub action: Action,
    pub reply: Vec<u8>,
}

/// Why an operation of the driver stopped before completing.
#[derive(Clone, Copy, Debug, PartialEq, Eq)]
pub enum Stop {
    /// The transcript ran out of exchanges; the pending action must be
    /// performed before the operation is run again.
    Suspend,
    /// The operation asked for an action other than the one recorded (or the
    /// recorded reply of a transfer does not have the transfer's length).
    Diverged,
    /// The operation failed.
    Fail(Nrf24Error<(), ()>),
}

/// The exchanges already performed and how far an operation got through them.
pub struct Transcript {
    history: Vec<Exchange>,
    cursor: usize,
    pending: Option<Action>,
}

/// The abstract content of a [`Transcript`].
pub struct TranscriptView {
    /// Each performed action with its reply.
    pub history: Seq<(ActionView, Seq<u8>)>,
    /// How many exchanges the operation has used.
    pub cursor: int,
    /// The action that the operation asked for past the end of the history.
    pub pending: Option<ActionView>,
}

impl Transcript {
    #[verifier::type_invariant]
    spec fn cursor_in_history(&self) -> bool {
        self.cursor <= self.history.len()
    }
}

impl TranscriptView {
    /// Exchange `k` performed `a`.
    pub open spec fn at(self, k: int, a: ActionView) -> bool {
        0 <= k < self.history.len() && self.history[k].0 == a
    }

    /// The reply of exchange `k`.
    pub open spec fn reply(self, k: int) -> Seq<u8> {
        self.history[k].1
    }
}

/// The abstract form of an optional action.
pub open spec fn opt_view(a: Option<Action>) -> Option<ActionView> {
    match a {
        Some(a) => Some(a@),
        None => None,
    }
}

impl View for Transcript {
    type V = TranscriptView;

    closed spec fn view(&self) -> TranscriptView {
        TranscriptView {
            history: self.history@.map_values(|e: Exchange| (e.action@, e.reply@)),
            cursor: self.cursor as int,
            pending: opt_view(self.pending),
        }
    }
}

/// Does a recorded reply fit the action it answers?
pub open spec fn reply_fits(a: ActionView, reply: Seq<u8>) -> bool {
    match a {
        ActionView::Transfer(bytes) => reply.len() == bytes.len(),
        _ => true,
    }
}

fn bytes_eq(a: &Vec<u8>, b: &Vec<u8>) -> (r: bool)
    ensures
        r == (a@ == b@),
{
    if a.len() != b.len() {
        return false;
    }
    let mut i: usize = 0;
    while i < a.len()
        invariant
            a@.len() == b@.len(),
            i <= a@.len(),
            forall|j: int| 0 <= j < i ==> a@[j] == b@[j],
        decreases a@.len() - i,
    {
        if a[i] != b[i] {
            return false;
        }
        i = i + 1;
    }
    assert(a@ =~= b@);
    true
}

fn same_action(a: &Action, b: &Action) -> (r: bool)
    ensures
        r == (a@ == b@),
{
    match (a, b) {
        (Action::Transfer(x), Action::Transfer(y)) => bytes_eq(x, y),
        (Action::SetCe(x), Action::SetCe(y)) => *x == *y,
        (Action::DelayUs(x), Action::DelayUs(y)) => *x == *y,
        (Action::DelayNs(x), Action::DelayNs(y)) => *x == *y,
        _ => false,
    }
}

fn copy_bytes(v: &Vec<u8>) -> (r: Vec<u8>)
    ensures
        r@ == v@,
{
    let mut r: Vec<u8> = Vec::new();
    let mut i: usize = 0;
    while i < v.len()
        invariant
            i <= v@.len(),
            r@ == v@.take(i as int),
        decreases v@.len() - i,
    {
        r.push(v[i]);
        i = i + 1;
        assert(r@ =~= v@.take(i as int));
    }
    assert(v@.take(v@.len() as int) =~= v@);
    r
}

impl Transcript {
    /// A transcript over the exchanges already performed, in order.
    pub fn new(history: Vec<Exchange>) -> (r: Transcript)
        ensures
            r@.history == history@.map_values(|e: Exchange| (e.action@, e.reply@)),
            r@.cursor == 0,
            r@.pending is None,
    {
        Transcript { history, cursor: 0, pending: None }
    }

    /// The action that stopped the operation, if it ran out of exchanges.
    pub fn pending(&self) -> (r: Option<Action>)
        ensures
            opt_view(r) == self@.pending,
    {
        match &self.pending {
            Some(a) => Some(
                match a {
                    Action::Transfer(bytes) => Action::Transfer(copy_bytes(bytes)),
                    Action::SetCe(high) => Action::SetCe(*high),
                    Action::DelayUs(us) => Action::DelayUs(*us),
                    Action::DelayNs(ns) => Action::DelayNs(*ns),
                },
            ),
            None => None,
        }
    }

    /// How many exchanges the operation has used.
    pub fn cursor(&self) -> (r: usize)
        ensures
            r == self@.cursor,
    {
        self.cursor
    }

    /// Perform `action`: hand back the recorded reply of the next exchange
    /// if it performed this action, stop with [`Stop::Suspend`] (keeping the
    /// action as pending) if no exchange is left, and stop with
    /// [`Stop::Diverged`] otherwise.
    pub fn perform(&mut self, action: Action) -> (r: Result<Vec<u8>, Stop>)
        ensures
            final(self)@.history == old(self)@.history,
            ({
                let t = old(self)@;
                let c = t.cursor;
                &&& r is Ok <==> (t.at(c, action@) && reply_fits(action@, t.reply(c)))
                &&& r is Ok ==> final(self)@.cursor == c + 1 && r->Ok_0@ == t.reply(c)
                &&& c >= t.history.len() ==> r == Err::<Vec<u8>, Stop>(Stop::Suspend)
                    && final(self)@.pending == Some(action@)
                &&& c < t.history.len() && r is Err ==> r == Err::<Vec<u8>, Stop>(Stop::Diverged)
                &&& r is Err ==> final(self)@.cursor == c
            }),
            0 <= final(self)@.cursor <= final(self)@.history.len(),
    {
        proof {
            use_type_invariant(&*self);
        }
        if self.cursor < self.history.len() {
            let e = &self.history[self.cursor];
            let fits = match &action {
                Action::Transfer(bytes) => e.reply.len() == bytes.len(),
                _ => true,
            };
            if fits && same_action(&e.action, &action) {
                let reply = copy_bytes(&e.reply);
                self.cursor = self.cursor + 1;
                Ok(reply)
            } else {
                Err(Stop::Diverged)
            }
        } else {
            self.pending = Some(action);
            Err(Stop::Suspend)
        }
    }
}

} // verus!
