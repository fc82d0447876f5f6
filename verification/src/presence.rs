//! How the Discord presence follows the statuses reported by the scans.
use crate::trigger::{Status, StatusView};
use vstd::prelude::*;

verus! {

/// What to do with the Discord activity after a status is received.
#[derive(Debug, Clone, Copy, PartialEq, Eq, Structural)]
pub enum PresenceAction {
    /// Leave the activity as it is.
    Nothing,
    /// Set the configured placeholder activity (presence becomes hidden).
    SetActivity,
    /// Clear the activity (presence becomes shown).
    ClearActivity,
}

/// The presence state after `received`, and what to do with the activity:
/// a hide request while shown sets the placeholder activity, a show request
/// while hidden clears it, and anything else changes nothing.
pub open spec fn presence_step_spec(current: StatusView, received: StatusView) -> (
    StatusView,
    PresenceAction,
) {
    match received {
        StatusView::Hide => match current {
            StatusView::Show => (StatusView::Hide, PresenceAction::SetActivity),
            _ => (current, PresenceAction::Nothing),
        },
        StatusView::Show => match current {
            StatusView::Hide => (StatusView::Show, PresenceAction::ClearActivity),
            _ => (current, PresenceAction::Nothing),
        },
        _ => (current, PresenceAction::Nothing),
    }
}

/// Takes in a received status (see `presence_step_spec`).
pub fn presence_step(current: &mut Status, received: &Status) -> (action: PresenceAction)
    ensures
        (final(current)@, action) == presence_step_spec(old(current)@, received@),
{
    match received {
        Status::Hide => {
            if matches!(*current, Status::Show) {
                *current = Status::Hide;
                PresenceAction::SetActivity
            } else {
                PresenceAction::Nothing
            }
        },
        Status::Show => {
            if matches!(*current, Status::Hide) {
                *current = Status::Show;
                PresenceAction::ClearActivity
            } else {
                PresenceAction::Nothing
            }
        },
        _ => PresenceAction::Nothing,
    }
}

/// Receiving the same status twice in a row changes the activity at most
/// once: the second time there is nothing to do.
pub proof fn lemma_presence_step_idempotent(current: StatusView, received: StatusView)
    ensures
        presence_step_spec(presence_step_spec(current, received).0, received).1
            == PresenceAction::Nothing,
        presence_step_spec(presence_step_spec(current, received).0, received).0
            == presence_step_spec(current, received).0,
{
}

/// From a shown or hidden state, a hide or show request always leaves the
/// presence in the requested state, and the activity changes exactly when the
/// state does.
pub proof fn lemma_presence_follows_requests(current: StatusView, received: StatusView)
    requires
        current is Hide || current is Show,
        received is Hide || received is Show,
    ensures
        presence_step_spec(current, received).0 == received,
        (presence_step_spec(current, received).1 == PresenceAction::Nothing) <==> (current
            == received),
{
}

/// The presence state and the actions taken after receiving `received`, in
/// order, starting from `start`.
pub open spec fn presence_run(start: StatusView, received: Seq<StatusView>) -> (
    StatusView,
    Seq<PresenceAction>,
)
    decreases received.len(),
{
    if received.len() == 0 {
        (start, seq![])
    } else {
        let (before, actions) = presence_run(start, received.drop_last());
        let (after, action) = presence_step_spec(before, received.last());
        (after, actions.push(action))
    }
}

/// The last hide or show request among `received`, or `start` when there is
/// none: a window check keeps the state.
pub open spec fn last_request(start: StatusView, received: Seq<StatusView>) -> StatusView
    decreases received.len(),
{
    if received.len() == 0 {
        start
    } else {
        match received.last() {
            StatusView::Hide => StatusView::Hide,
            StatusView::Show => StatusView::Show,
            _ => last_request(start, received.drop_last()),
        }
    }
}

/// The actions that touch the activity.
pub open spec fn activity_changes(actions: Seq<PresenceAction>) -> Seq<PresenceAction> {
    actions.filter(|a: PresenceAction| a != PresenceAction::Nothing)
}

/// Over any sequence of received statuses, starting shown: the presence is
/// in the state that the last hide or show request asked for (shown when
/// there was none), one action is taken per status, and the activity is set
/// and cleared in turn, starting with setting it, ending set exactly when
/// the presence is hidden.
pub proof fn lemma_presence_run(received: Seq<StatusView>)
    ensures
        presence_run(StatusView::Show, received).0 == last_request(StatusView::Show, received),
        presence_run(StatusView::Show, received).1.len() == received.len(),
        forall|i: int|
            0 <= i < activity_changes(presence_run(StatusView::Show, received).1).len() ==> (
            #[trigger] activity_changes(presence_run(StatusView::Show, received).1)[i]) == if i
                % 2 == 0 {
                PresenceAction::SetActivity
            } else {
                PresenceAction::ClearActivity
            },
        (activity_changes(presence_run(StatusView::Show, received).1).len() % 2 == 1) <==> (
        presence_run(StatusView::Show, received).0 is Hide),
    decreases received.len(),
{
    if received.len() > 0 {
        let rest = received.drop_last();
        lemma_presence_run(rest);
        let (before, actions) = presence_run(StatusView::Show, rest);
        let (after, action) = presence_step_spec(before, received.last());
        let pred = |a: PresenceAction| a != PresenceAction::Nothing;
        actions.lemma_filter_push(action, pred);
        lemma_last_request_is_request(StatusView::Show, rest);
    }
}

/// From a shown or hidden start, the last request is to hide or to show.
proof fn lemma_last_request_is_request(start: StatusView, received: Seq<StatusView>)
    requires
        start is Hide || start is Show,
    ensures
        last_request(start, received) is Hide || last_request(start, received) is Show,
    decreases received.len(),
{
    if received.len() > 0 {
        lemma_last_request_is_request(start, received.drop_last());
    }
}

} // verus!
