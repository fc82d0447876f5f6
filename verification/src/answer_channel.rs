//! The channel the window answers on. The record of the answers sent is
//! private to this module, so only `AnswerChannel::send` extends it.
use crate::ui::UiResult;
use std::sync::mpsc::Sender;
use vstd::prelude::*;

verus! {

/// The sending end of the answer channel, with the answers handed to it so
/// far.
pub struct AnswerChannel {
    tx: Sender<UiResult>,
    sent: Ghost<Seq<UiResult>>,
}

impl AnswerChannel {
    /// The answers handed to `Sender::send` so far, in order.
    pub closed spec fn sent(&self) -> Seq<UiResult> {
        self.sent@
    }

    /// The sending end the answers go to.
    pub closed spec fn sender(&self) -> Sender<UiResult> {
        self.tx
    }

    /// A channel on `tx` to which nothing has been handed yet.
    pub fn new(tx: Sender<UiResult>) -> (c: AnswerChannel)
        ensures
            c.sent() == Seq::<UiResult>::empty(),
            c.sender() == tx,
    {
        AnswerChannel { tx, sent: Ghost(Seq::empty()) }
    }

    /// `Sender::send`: hands `r` to the channel, which records it among the
    /// answers sent, on the same sending end; true when the receiving side
    /// accepted it. Whether the receiver is still there depends on the other
    /// threads, so nothing is stated of the result.
    #[verifier::external_body]
    pub fn send(&mut self, r: UiResult) -> (accepted: bool)
        ensures
            final(self).sent() == old(self).sent().push(r),
            final(self).sender() == old(self).sender(),
    {
        self.tx.send(r).is_ok()
    }
}

} // verus!
