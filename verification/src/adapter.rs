//! The event source adapters: which native events are worth a deposit into
//! the mailbox. A callback decides here and does nothing else; in
//! particular it never queries the state itself.

use vstd::prelude::*;
use crate::mailbox::{pending_after_op, Mailbox, MailboxOp};

verus! {

/// The accessibility event for a change of the foreground window.
pub const EVENT_SYSTEM_FOREGROUND: u32 = 3;

/// The window message that ends the message loop's window.
pub const WM_DESTROY: u32 = 2;

/// The window message that announces raw input.
pub const WM_INPUT: u32 = 255;

/// What the window procedure of the hidden window does with a message.
#[derive(Clone, Copy, Debug, PartialEq, Eq, Structural)]
pub enum MessageRoute {
    /// Read the raw input packet, judge it, and report the message handled.
    ReadRawInput,
    /// Post the quit message and report the message handled.
    PostQuit,
    /// Leave the message to the default window procedure.
    DefaultProcedure,
}

/// The route of the window message `msg`.
pub open spec fn route_of(msg: u32) -> MessageRoute {
    if msg == WM_INPUT {
        MessageRoute::ReadRawInput
    } else if msg == WM_DESTROY {
        MessageRoute::PostQuit
    } else {
        MessageRoute::DefaultProcedure
    }
}

/// The hook callback: whether the accessibility event `event` is worth a
/// deposit. Only a change of the foreground window is.
pub fn win_event_proc(event: u32) -> (deposit: bool)
    ensures
        deposit == (event == EVENT_SYSTEM_FOREGROUND),
{
    event == EVENT_SYSTEM_FOREGROUND
}

/// The window procedure: what is to be done with the message `msg`.
pub fn wndproc(msg: u32) -> (route: MessageRoute)
    ensures
        route == route_of(msg),
{
    if msg == WM_INPUT {
        MessageRoute::ReadRawInput
    } else if msg == WM_DESTROY {
        MessageRoute::PostQuit
    } else {
        MessageRoute::DefaultProcedure
    }
}

/// What a native callback does once it has judged its event: a relevant
/// event is offered to the mailbox without waiting, any other leaves the
/// mailbox alone. The result tells whether a token was stored.
pub fn notify(mailbox: &mut Mailbox, relevant: bool) -> (stored: bool)
    ensures
        final(mailbox).pending() == (if relevant {
            pending_after_op(old(mailbox).pending(), MailboxOp::Deposit)
        } else {
            old(mailbox).pending()
        }),
        stored == (relevant && !old(mailbox).pending()),
{
    if relevant {
        mailbox.deposit()
    } else {
        false
    }
}

} // verus!
