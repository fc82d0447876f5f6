//! The state of the window: its title, whether the "restart Discord" dialog
//! is open, whether closing quits, and whether the window is hidden.
use std::sync::mpsc::{Receiver, Sender};
use crate::answer_channel::AnswerChannel;
use vstd::prelude::*;
use vstd::string::StringExecFns;

verus! {

#[verifier::external_type_specification]
#[verifier::external_body]
#[verifier::reject_recursive_types(T)]
pub struct ExReceiver<T>(Receiver<T>);

#[verifier::external_type_specification]
#[verifier::external_body]
#[verifier::reject_recursive_types(T)]
pub struct ExSender<T>(Sender<T>);

/// Requests sent to the window by the other parts of the program.
#[derive(Debug, Clone, Copy, PartialEq, Eq, Structural)]
pub enum UiUpdate {
    /// Ask the user to restart Discord.
    AskRestart,
    /// Hide the window.
    Hide,
    /// Show the window.
    Unhide,
    /// Quit the program.
    AcutallyQuit,
}

/// Answers that the window sends back.
#[derive(Debug, Clone, Copy, PartialEq, Eq, Structural)]
pub enum UiResult {
    /// The user chose to restart Discord.
    RestartDiscord,
}

/// `Receiver::try_recv`: an update waiting in the channel, if any. What comes
/// back depends on the other threads, so nothing is stated of it.
#[verifier::external_body]
fn try_receive(rx: &Receiver<UiUpdate>) -> Option<UiUpdate> {
    rx.try_recv().ok()
}

/// What the window state holds.
pub struct UiView {
    pub title: Seq<char>,
    pub show_restart_discord_dialog: bool,
    pub actually_close: bool,
    pub hide: bool,
    /// The updates taken in so far, in order.
    pub updates: Seq<UiUpdate>,
    /// The answers handed to the answer channel (`Sender::send`) so far, in
    /// order.
    pub answers: Seq<UiResult>,
    /// The receiving end the updates come from.
    pub receiver: Receiver<UiUpdate>,
    /// The sending end the answers go to.
    pub sender: Sender<UiResult>,
}

/// The window state, with the channel it receives updates on and the one it
/// answers on.
pub struct Ui {
    title: String,
    show_restart_discord_dialog: bool,
    actually_close: bool,
    hide: bool,
    rx: Receiver<UiUpdate>,
    answers: AnswerChannel,
    updates: Ghost<Seq<UiUpdate>>,
}

impl View for Ui {
    type V = UiView;

    closed spec fn view(&self) -> UiView {
        UiView {
            title: self.title@,
            show_restart_discord_dialog: self.show_restart_discord_dialog,
            actually_close: self.actually_close,
            hide: self.hide,
            updates: self.updates@,
            answers: self.answers.sent(),
            receiver: self.rx,
            sender: self.answers.sender(),
        }
    }
}

/// The state after an update: a restart request opens the dialog, hide and
/// unhide set whether the window is hidden, and a quit request makes closing
/// quit. The update joins those taken in; no answer is sent.
pub open spec fn apply_update_spec(m: UiView, update: UiUpdate) -> UiView {
    let taken = UiView { updates: m.updates.push(update), ..m };
    match update {
        UiUpdate::AskRestart => UiView { show_restart_discord_dialog: true, ..taken },
        UiUpdate::Hide => UiView { hide: true, ..taken },
        UiUpdate::Unhide => UiView { hide: false, ..taken },
        UiUpdate::AcutallyQuit => UiView { actually_close: true, ..taken },
    }
}

/// The state after the user chose to restart Discord: exactly one
/// `RestartDiscord` is handed to the answer channel, and the dialog closes.
pub open spec fn restart_clicked_spec(m: UiView) -> UiView {
    UiView {
        show_restart_discord_dialog: false,
        answers: m.answers.push(UiResult::RestartDiscord),
        ..m
    }
}

/// The state after the user chose to quit: closing now quits, and no answer
/// is sent.
pub open spec fn quit_clicked_spec(m: UiView) -> UiView {
    UiView { actually_close: true, ..m }
}

/// The number of restart requests among the updates.
pub open spec fn restart_requests(updates: Seq<UiUpdate>) -> nat
    decreases updates.len(),
{
    if updates.len() == 0 {
        0
    } else {
        restart_requests(updates.drop_last()) + if updates.last() == UiUpdate::AskRestart {
            1nat
        } else {
            0nat
        }
    }
}

/// Answers never outrun requests: the answers sent, plus one while the dialog
/// is open, are at most the restart requests taken in.
pub open spec fn answers_follow_requests(m: UiView) -> bool {
    m.answers.len() + (if m.show_restart_discord_dialog {
        1int
    } else {
        0int
    }) <= restart_requests(m.updates)
}

/// Whether a request to close the window is granted, and the state after it:
/// granted once quitting was asked for; otherwise the window is hidden
/// instead.
pub open spec fn close_event_spec(m: UiView) -> (bool, UiView) {
    if m.actually_close {
        (true, m)
    } else {
        (false, UiView { hide: true, ..m })
    }
}

impl Ui {
    /// A shown window titled "rphide v" and the version, with no dialog open,
    /// that hides rather than quits when closed, taking updates from `rx` and
    /// answering on `tx`. Every other method keeps both channels (its view
    /// clause fixes the whole view).
    pub fn default(rx: Receiver<UiUpdate>, tx: Sender<UiResult>, version: &str) -> (ui: Ui)
        ensures
            ui@ == (UiView {
                title: "rphide v"@ + version@,
                show_restart_discord_dialog: false,
                actually_close: false,
                hide: false,
                updates: Seq::empty(),
                answers: Seq::empty(),
                receiver: rx,
                sender: tx,
            }),
    {
        let title = <String as StringExecFns>::from_str("rphide v").concat(version);
        Ui {
            title,
            show_restart_discord_dialog: false,
            actually_close: false,
            hide: false,
            rx,
            answers: AnswerChannel::new(tx),
            updates: Ghost(Seq::empty()),
        }
    }

    /// Answers a request to close the window (see `close_event_spec`).
    pub fn on_close_event(&mut self) -> (close: bool)
        ensures
            (close, final(self)@) == close_event_spec(old(self)@),
    {
        if self.actually_close {
            true
        } else {
            self.hide = true;
            false
        }
    }

    /// Takes in an update (see `apply_update_spec`); true when it asks to
    /// quit, and the window is to be closed now.
    pub fn apply_update(&mut self, update: UiUpdate) -> (close_now: bool)
        ensures
            final(self)@ == apply_update_spec(old(self)@, update),
            close_now == (update == UiUpdate::AcutallyQuit),
    {
        self.updates = Ghost(self.updates@.push(update));
        match update {
            UiUpdate::AskRestart => {
                self.show_restart_discord_dialog = true;
                false
            },
            UiUpdate::Hide => {
                self.hide = true;
                false
            },
            UiUpdate::Unhide => {
                self.hide = false;
                false
            },
            UiUpdate::AcutallyQuit => {
                self.actually_close = true;
                true
            },
        }
    }

    /// Takes in the update waiting in the channel, if there is one, and
    /// returns it.
    pub fn receive_update(&mut self) -> (received: Option<UiUpdate>)
        ensures
            match received {
                Some(u) => final(self)@ == apply_update_spec(old(self)@, u),
                None => final(self)@ == old(self)@,
            },
    {
        let received = try_receive(&self.rx);
        match received {
            Some(u) => {
                self.apply_update(u);
            },
            None => {},
        }
        received
    }

    /// The user chose to restart Discord in the open dialog: `RestartDiscord`
    /// is handed to the answer channel and the dialog closes (see
    /// `restart_clicked_spec`). Returns whether the channel accepted it.
    pub fn restart_discord_clicked(&mut self) -> (sent: bool)
        requires
            old(self)@.show_restart_discord_dialog,
        ensures
            final(self)@ == restart_clicked_spec(old(self)@),
    {
        let sent = self.answers.send(UiResult::RestartDiscord);
        self.show_restart_discord_dialog = false;
        sent
    }

    /// The user chose to quit: closing the window now quits (see
    /// `quit_clicked_spec`).
    pub fn quit_clicked(&mut self)
        ensures
            final(self)@ == quit_clicked_spec(old(self)@),
    {
        self.actually_close = true;
    }

    /// The window title.
    pub fn title(&self) -> (t: &str)
        ensures
            t@ == self@.title,
    {
        self.title.as_str()
    }

    /// Whether the "restart Discord" dialog is open.
    pub fn show_restart_discord_dialog(&self) -> (b: bool)
        ensures
            b == self@.show_restart_discord_dialog,
    {
        self.show_restart_discord_dialog
    }

    /// Whether the window is to be shown.
    pub fn visible(&self) -> (b: bool)
        ensures
            b == !self@.hide,
    {
        !self.hide
    }
}

/// A new window has sent no answer and taken in no request; every step of
/// the window keeps answers from outrunning restart requests: an answer is
/// only sent from the open dialog, sending it closes the dialog, and only a
/// restart request opens it again, so between two answers a restart request
/// is always taken in.
pub proof fn lemma_answers_follow_requests(m: UiView, u: UiUpdate)
    requires
        answers_follow_requests(m),
    ensures
        answers_follow_requests(apply_update_spec(m, u)),
        answers_follow_requests(close_event_spec(m).1),
        answers_follow_requests(quit_clicked_spec(m)),
        m.show_restart_discord_dialog ==> answers_follow_requests(restart_clicked_spec(m)),
        restart_requests(Seq::<UiUpdate>::empty()) == 0,
        !restart_clicked_spec(m).show_restart_discord_dialog,
        !m.show_restart_discord_dialog && apply_update_spec(m, u).show_restart_discord_dialog
            ==> u == UiUpdate::AskRestart,
        close_event_spec(m).1.show_restart_discord_dialog == m.show_restart_discord_dialog,
        quit_clicked_spec(m).show_restart_discord_dialog == m.show_restart_discord_dialog,
        apply_update_spec(m, u).answers == m.answers,
        close_event_spec(m).1.answers == m.answers,
        quit_clicked_spec(m).answers == m.answers,
{
    assert(m.updates.push(u).drop_last() =~= m.updates);
}

/// Once quitting was asked for, closing the window is granted, whatever else
/// happened in between.
pub proof fn lemma_quit_then_close(m: UiView, later: Seq<WindowEvent>)
    ensures
        close_event_spec(run_events(apply_update_spec(m, UiUpdate::AcutallyQuit), later)).0,
{
    lemma_window_run(apply_update_spec(m, UiUpdate::AcutallyQuit), later);
}

/// Until quitting is asked for, closing the window only hides it, and the
/// window can be shown again.
pub proof fn lemma_close_hides_until_quit(m: UiView)
    requires
        !m.actually_close,
    ensures
        !close_event_spec(m).0,
        close_event_spec(m).1.hide,
        !apply_update_spec(close_event_spec(m).1, UiUpdate::Unhide).hide,
{
}

/// One thing that happens to the window: an update taken in, a request to
/// close it, or a click on one of the dialog's buttons.
pub enum WindowEvent {
    Update(UiUpdate),
    Close,
    RestartClicked,
    QuitClicked,
}

/// The state after one event.
pub open spec fn event_spec(m: UiView, e: WindowEvent) -> UiView {
    match e {
        WindowEvent::Update(u) => apply_update_spec(m, u),
        WindowEvent::Close => close_event_spec(m).1,
        WindowEvent::RestartClicked => restart_clicked_spec(m),
        WindowEvent::QuitClicked => quit_clicked_spec(m),
    }
}

/// The state after a sequence of events, in order.
pub open spec fn run_events(m: UiView, events: Seq<WindowEvent>) -> UiView
    decreases events.len(),
{
    if events.len() == 0 {
        m
    } else {
        event_spec(run_events(m, events.drop_last()), events.last())
    }
}

/// Every click on "Restart Discord" happens while the dialog is open, as
/// `restart_discord_clicked` requires.
pub open spec fn clicks_in_dialog(m: UiView, events: Seq<WindowEvent>) -> bool
    decreases events.len(),
{
    if events.len() == 0 {
        true
    } else {
        clicks_in_dialog(m, events.drop_last()) && (events.last() is RestartClicked
            ==> run_events(m, events.drop_last()).show_restart_discord_dialog)
    }
}

/// Over any interleaving of updates, close requests and clicks: once quitting
/// was asked for it stays asked for, and closing is then granted; the title
/// never changes; and, starting from a state where answers do not outrun
/// restart requests (a new window's), they never do.
pub proof fn lemma_window_run(m: UiView, events: Seq<WindowEvent>)
    ensures
        m.actually_close ==> run_events(m, events).actually_close,
        m.actually_close ==> close_event_spec(run_events(m, events)).0,
        run_events(m, events).title == m.title,
        answers_follow_requests(m) && clicks_in_dialog(m, events) ==> answers_follow_requests(
            run_events(m, events),
        ),
    decreases events.len(),
{
    if events.len() > 0 {
        let before = run_events(m, events.drop_last());
        lemma_window_run(m, events.drop_last());
        if answers_follow_requests(m) && clicks_in_dialog(m, events) {
            match events.last() {
                WindowEvent::Update(u) => lemma_answers_follow_requests(before, u),
                _ => lemma_answers_follow_requests(before, UiUpdate::Hide),
            }
        }
    }
}

/// Each update changes one flag and records itself: hide and unhide set only
/// whether the window is hidden, a restart request only opens the dialog, a
/// quit request only makes closing quit. The title, the answers and both
/// channels never change.
pub proof fn lemma_update_changes_one_flag(m: UiView, u: UiUpdate)
    ensures
        apply_update_spec(m, u).updates == m.updates.push(u),
        apply_update_spec(m, u).title == m.title,
        apply_update_spec(m, u).answers == m.answers,
        apply_update_spec(m, u).receiver == m.receiver,
        apply_update_spec(m, u).sender == m.sender,
        (u == UiUpdate::Hide || u == UiUpdate::Unhide) ==> {
            &&& apply_update_spec(m, u).hide == (u == UiUpdate::Hide)
            &&& apply_update_spec(m, u).show_restart_discord_dialog
                == m.show_restart_discord_dialog
            &&& apply_update_spec(m, u).actually_close == m.actually_close
        },
        u == UiUpdate::AskRestart ==> {
            &&& apply_update_spec(m, u).show_restart_discord_dialog
            &&& apply_update_spec(m, u).hide == m.hide
            &&& apply_update_spec(m, u).actually_close == m.actually_close
        },
        u == UiUpdate::AcutallyQuit ==> {
            &&& apply_update_spec(m, u).actually_close
            &&& apply_update_spec(m, u).hide == m.hide
            &&& apply_update_spec(m, u).show_restart_discord_dialog
                == m.show_restart_discord_dialog
        },
{
}

/// A close request is granted exactly when quitting was asked for, and then
/// changes nothing; a refused one only hides the window, so closing stays
/// refused: closing, showing the window again and closing again is refused
/// twice.
pub proof fn lemma_refused_close_only_hides(m: UiView)
    ensures
        close_event_spec(m).0 == m.actually_close,
        close_event_spec(m).0 ==> close_event_spec(m).1 == m,
        !close_event_spec(m).0 ==> {
            &&& close_event_spec(m).1.hide
            &&& !close_event_spec(m).1.actually_close
            &&& close_event_spec(m).1.show_restart_discord_dialog
                == m.show_restart_discord_dialog
            &&& close_event_spec(m).1.title == m.title
            &&& close_event_spec(m).1.updates == m.updates
            &&& close_event_spec(m).1.answers == m.answers
        },
        !m.actually_close ==> !close_event_spec(
            apply_update_spec(close_event_spec(m).1, UiUpdate::Unhide),
        ).0,
{
}

/// No event is a quit request or a click on the quit button.
pub open spec fn no_quit(events: Seq<WindowEvent>) -> bool {
    forall|k: int|
        0 <= k < events.len() ==> !(#[trigger] events[k] matches WindowEvent::Update(
            UiUpdate::AcutallyQuit,
        )) && !(events[k] is QuitClicked)
}

/// Until a quit request comes in or the quit button is clicked, whatever
/// else happens, closing the window is refused.
pub proof fn lemma_close_refused_until_quit(m: UiView, events: Seq<WindowEvent>)
    requires
        !m.actually_close,
        no_quit(events),
    ensures
        !run_events(m, events).actually_close,
        !close_event_spec(run_events(m, events)).0,
    decreases events.len(),
{
    if events.len() > 0 {
        let rest = events.drop_last();
        assert(no_quit(rest)) by {
            assert forall|k: int| 0 <= k < rest.len() implies !(#[trigger] rest[k] matches WindowEvent::Update(
                UiUpdate::AcutallyQuit,
            )) && !(rest[k] is QuitClicked) by {
                assert(rest[k] == events[k]);
            }
        }
        lemma_close_refused_until_quit(m, rest);
        assert(!(events[events.len() - 1] matches WindowEvent::Update(UiUpdate::AcutallyQuit)));
    }
}

} // verus!
