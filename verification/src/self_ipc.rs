//! The one-byte protocol between the first (primary) rphide process and
//! later (secondary) ones, and the paths of the files they share.
use crate::ui::UiUpdate;
use vstd::prelude::*;
use vstd::string::StringExecFns;

verus! {

/// Requests a secondary process sends to the primary one.
#[derive(Debug, Clone, Copy, PartialEq, Eq, Structural)]
pub enum Action {
    /// Announce itself and ask what to do.
    Knock,
    /// Hide the window.
    Hide,
    /// Show the window.
    Unhide,
    /// Quit the program.
    Quit,
}

impl Action {
    /// The byte that stands for the request.
    pub open spec fn spec_code(self) -> u8 {
        match self {
            Action::Knock => 0,
            Action::Hide => 1,
            Action::Unhide => 2,
            Action::Quit => 3,
        }
    }

    /// The request a byte stands for, if any.
    pub open spec fn spec_from_code(code: u8) -> Option<Action> {
        if code == 0 {
            Some(Action::Knock)
        } else if code == 1 {
            Some(Action::Hide)
        } else if code == 2 {
            Some(Action::Unhide)
        } else if code == 3 {
            Some(Action::Quit)
        } else {
            None
        }
    }

    pub fn code(self) -> (c: u8)
        ensures
            c == self.spec_code(),
    {
        match self {
            Action::Knock => 0,
            Action::Hide => 1,
            Action::Unhide => 2,
            Action::Quit => 3,
        }
    }

    pub fn from_code(code: u8) -> (a: Option<Action>)
        ensures
            a == Action::spec_from_code(code),
    {
        match code {
            0 => Some(Action::Knock),
            1 => Some(Action::Hide),
            2 => Some(Action::Unhide),
            3 => Some(Action::Quit),
            _ => None,
        }
    }
}

/// What the primary process tells a secondary one to do.
#[derive(Debug, Clone, Copy, PartialEq, Eq, Structural)]
pub enum SecondaryTask {
    /// Run the tray icon.
    Tray,
    /// Exit.
    Exit,
    /// The answer was not understood.
    Unknown,
}

impl SecondaryTask {
    /// The byte that stands for the task.
    pub open spec fn spec_code(self) -> u8 {
        match self {
            SecondaryTask::Tray => 0,
            SecondaryTask::Exit => 1,
            SecondaryTask::Unknown => 2,
        }
    }

    /// The task a byte stands for; bytes without a task of their own are not
    /// understood.
    pub open spec fn spec_from_code(code: u8) -> SecondaryTask {
        if code == 0 {
            SecondaryTask::Tray
        } else if code == 1 {
            SecondaryTask::Exit
        } else {
            SecondaryTask::Unknown
        }
    }

    pub fn code(self) -> (c: u8)
        ensures
            c == self.spec_code(),
    {
        match self {
            SecondaryTask::Tray => 0,
            SecondaryTask::Exit => 1,
            SecondaryTask::Unknown => 2,
        }
    }

    pub fn from_code(code: u8) -> (t: SecondaryTask)
        ensures
            t == SecondaryTask::spec_from_code(code),
    {
        match code {
            0 => SecondaryTask::Tray,
            1 => SecondaryTask::Exit,
            _ => SecondaryTask::Unknown,
        }
    }
}

/// Each request byte is read back as the request that was sent, and only the
/// four request bytes stand for a request.
pub proof fn lemma_action_code_roundtrip(a: Action, code: u8)
    ensures
        Action::spec_from_code(a.spec_code()) == Some(a),
        Action::spec_from_code(code) is Some <==> code < 4,
{
}

/// Each task byte is read back as the task that was sent.
pub proof fn lemma_task_code_roundtrip(t: SecondaryTask)
    ensures
        SecondaryTask::spec_from_code(t.spec_code()) == t,
{
}

/// What the window is told when the primary process receives a request: a
/// knock tells it nothing (it is answered on the connection instead).
pub open spec fn ui_update_for_spec(action: Action) -> Option<UiUpdate> {
    match action {
        Action::Knock => None,
        Action::Hide => Some(UiUpdate::Hide),
        Action::Unhide => Some(UiUpdate::Unhide),
        Action::Quit => Some(UiUpdate::AcutallyQuit),
    }
}

/// What the window is told for a request (see `ui_update_for_spec`).
pub fn ui_update_for(action: Action) -> (u: Option<UiUpdate>)
    ensures
        u == ui_update_for_spec(action),
{
    match action {
        Action::Knock => None,
        Action::Hide => Some(UiUpdate::Hide),
        Action::Unhide => Some(UiUpdate::Unhide),
        Action::Quit => Some(UiUpdate::AcutallyQuit),
    }
}

/// What the primary process does with a connection, by its first byte.
#[derive(Debug, Clone, Copy, PartialEq, Eq, Structural)]
pub enum PrimaryCommand {
    /// A knock: answer on the connection with `knock_reply`.
    AnswerKnock,
    /// Pass the update on to the window.
    Notify(UiUpdate),
    /// The byte stands for no request.
    Unknown,
}

/// A knock is answered, the other requests are passed on to the window, and
/// other bytes are not understood.
pub open spec fn primary_step_spec(code: u8) -> PrimaryCommand {
    match Action::spec_from_code(code) {
        Some(Action::Knock) => PrimaryCommand::AnswerKnock,
        Some(Action::Hide) => PrimaryCommand::Notify(UiUpdate::Hide),
        Some(Action::Unhide) => PrimaryCommand::Notify(UiUpdate::Unhide),
        Some(Action::Quit) => PrimaryCommand::Notify(UiUpdate::AcutallyQuit),
        None => PrimaryCommand::Unknown,
    }
}

/// What to do with a connection whose first byte is `code` (see
/// `primary_step_spec`).
pub fn primary_step(code: u8) -> (c: PrimaryCommand)
    ensures
        c == primary_step_spec(code),
{
    match Action::from_code(code) {
        // Only a knock tells the window nothing.
        Some(action) => match ui_update_for(action) {
            Some(update) => PrimaryCommand::Notify(update),
            None => PrimaryCommand::AnswerKnock,
        },
        None => PrimaryCommand::Unknown,
    }
}

/// The updates passed on to the window after connections whose first bytes
/// are `codes`, taken one after the other.
pub open spec fn updates_after(codes: Seq<u8>) -> Seq<UiUpdate>
    decreases codes.len(),
{
    if codes.len() == 0 {
        seq![]
    } else {
        let before = updates_after(codes.drop_last());
        match primary_step_spec(codes.last()) {
            PrimaryCommand::Notify(u) => before.push(u),
            _ => before,
        }
    }
}

/// The updates one first byte asks for: `Hide` for 1, `Unhide` for 2,
/// `AcutallyQuit` for 3, and none for any other byte.
pub open spec fn updates_for_byte(code: u8) -> Seq<UiUpdate> {
    if code == 1 {
        seq![UiUpdate::Hide]
    } else if code == 2 {
        seq![UiUpdate::Unhide]
    } else if code == 3 {
        seq![UiUpdate::AcutallyQuit]
    } else {
        seq![]
    }
}

/// Over any run of connections, the window is told exactly the updates that
/// the first bytes ask for, in connection order.
pub proof fn lemma_updates_follow_connections(codes: Seq<u8>)
    ensures
        updates_after(codes) == codes.map_values(|c: u8| updates_for_byte(c)).flatten(),
    decreases codes.len(),
{
    if codes.len() > 0 {
        let rest = codes.drop_last();
        lemma_updates_follow_connections(rest);
        let f = |c: u8| updates_for_byte(c);
        assert(codes.map_values(f) =~= rest.map_values(f).push(updates_for_byte(codes.last())));
        rest.map_values(f).lemma_flatten_push(updates_for_byte(codes.last()));
        let before = updates_after(rest);
        assert(before.push(UiUpdate::Hide) =~= before + seq![UiUpdate::Hide]);
        assert(before.push(UiUpdate::Unhide) =~= before + seq![UiUpdate::Unhide]);
        assert(before.push(UiUpdate::AcutallyQuit) =~= before + seq![UiUpdate::AcutallyQuit]);
        assert(before =~= before + Seq::<UiUpdate>::empty());
    }
}

/// How binding Discord's IPC socket went.
#[derive(Debug, Clone, Copy, PartialEq, Eq, Structural)]
pub enum BindOutcome {
    /// The socket is ours.
    Bound,
    /// Another process (Discord) holds the socket.
    InUse,
    /// Binding failed for another reason.
    Failed,
}

/// What to do after trying to bind Discord's IPC socket.
#[derive(Debug, Clone, Copy, PartialEq, Eq, Structural)]
pub enum OccupyAction {
    /// Keep the socket.
    Keep,
    /// Remove the socket file, bind again, then ask the user to restart
    /// Discord (`UiUpdate::AskRestart`) and wait for the answer.
    TakeOver,
    /// Give up with the error.
    GiveUp,
}

/// A bound socket is kept, one in use is taken over, and any other failure
/// is given up on.
pub fn occupy_step(outcome: BindOutcome) -> (a: OccupyAction)
    ensures
        a == match outcome {
            BindOutcome::Bound => OccupyAction::Keep,
            BindOutcome::InUse => OccupyAction::TakeOver,
            BindOutcome::Failed => OccupyAction::GiveUp,
        },
{
    match outcome {
        BindOutcome::Bound => OccupyAction::Keep,
        BindOutcome::InUse => OccupyAction::TakeOver,
        BindOutcome::Failed => OccupyAction::GiveUp,
    }
}

/// What happened last while taking over Discord's socket.
#[derive(Debug, Clone, Copy, PartialEq, Eq, Structural)]
pub enum TakeOverEvent {
    /// The socket was found in use; nothing done yet.
    Started,
    /// The socket file was removed.
    Removed,
    /// The socket file could not be removed.
    RemoveFailed,
    /// Occupying the socket was tried again (`occupy_step` from the start);
    /// its result is what the take-over returns.
    Retried,
    /// The window was asked to have the user restart Discord.
    Asked,
    /// The window answered, or its channel closed.
    Answered,
}

/// What to do next while taking over Discord's socket.
#[derive(Debug, Clone, Copy, PartialEq, Eq, Structural)]
pub enum TakeOverStep {
    /// Remove the socket file.
    RemoveSocket,
    /// Occupy the socket again, from the start.
    Retry,
    /// Send `UiUpdate::AskRestart` to the window: Discord must restart to
    /// open a new socket.
    AskRestart,
    /// Wait for the window's answer.
    AwaitAnswer,
    /// Return the result of the retry.
    Finish,
    /// Return the error of the removal.
    GiveUp,
}

/// The order of a take-over: remove the socket file (giving up when that
/// fails), occupy the socket again, ask the user to restart Discord, wait
/// for the answer, and finish with the result of the retry.
pub open spec fn take_over_step_spec(event: TakeOverEvent) -> TakeOverStep {
    match event {
        TakeOverEvent::Started => TakeOverStep::RemoveSocket,
        TakeOverEvent::Removed => TakeOverStep::Retry,
        TakeOverEvent::RemoveFailed => TakeOverStep::GiveUp,
        TakeOverEvent::Retried => TakeOverStep::AskRestart,
        TakeOverEvent::Asked => TakeOverStep::AwaitAnswer,
        TakeOverEvent::Answered => TakeOverStep::Finish,
    }
}

/// The next step of a take-over after `event` (see `take_over_step_spec`).
pub fn take_over_step(event: TakeOverEvent) -> (step: TakeOverStep)
    ensures
        step == take_over_step_spec(event),
{
    match event {
        TakeOverEvent::Started => TakeOverStep::RemoveSocket,
        TakeOverEvent::Removed => TakeOverStep::Retry,
        TakeOverEvent::RemoveFailed => TakeOverStep::GiveUp,
        TakeOverEvent::Retried => TakeOverStep::AskRestart,
        TakeOverEvent::Asked => TakeOverStep::AwaitAnswer,
        TakeOverEvent::Answered => TakeOverStep::Finish,
    }
}

/// The event that completing a step brings, when it goes well; finishing
/// and giving up end the take-over.
pub open spec fn done(step: TakeOverStep) -> Option<TakeOverEvent> {
    match step {
        TakeOverStep::RemoveSocket => Some(TakeOverEvent::Removed),
        TakeOverStep::Retry => Some(TakeOverEvent::Retried),
        TakeOverStep::AskRestart => Some(TakeOverEvent::Asked),
        TakeOverStep::AwaitAnswer => Some(TakeOverEvent::Answered),
        TakeOverStep::Finish => None,
        TakeOverStep::GiveUp => None,
    }
}

/// A take-over in which every step goes well removes the socket, retries,
/// asks for the restart only after the retry, waits for the answer, and
/// then finishes; a failed removal ends it at once.
pub proof fn lemma_take_over_order()
    ensures
        take_over_step_spec(TakeOverEvent::Started) == TakeOverStep::RemoveSocket,
        take_over_step_spec(done(TakeOverStep::RemoveSocket)->0) == TakeOverStep::Retry,
        take_over_step_spec(done(TakeOverStep::Retry)->0) == TakeOverStep::AskRestart,
        take_over_step_spec(done(TakeOverStep::AskRestart)->0) == TakeOverStep::AwaitAnswer,
        take_over_step_spec(done(TakeOverStep::AwaitAnswer)->0) == TakeOverStep::Finish,
        take_over_step_spec(TakeOverEvent::RemoveFailed) == TakeOverStep::GiveUp,
        done(TakeOverStep::Finish) is None,
        done(TakeOverStep::GiveUp) is None,
        forall|e: TakeOverEvent|
            #[trigger] take_over_step_spec(e) == TakeOverStep::AskRestart ==> e
                == TakeOverEvent::Retried,
{
}

/// The answer to a knock: run the tray icon when a tray process of this
/// program runs, exit otherwise.
pub fn knock_reply(tray_running: bool) -> (t: SecondaryTask)
    ensures
        t == (if tray_running {
            SecondaryTask::Tray
        } else {
            SecondaryTask::Exit
        }),
{
    if tray_running {
        SecondaryTask::Tray
    } else {
        SecondaryTask::Exit
    }
}

/// The value of a decimal digit.
pub open spec fn digit_value(c: char) -> int {
    c as int - 48
}

/// The character is an ASCII decimal digit.
pub open spec fn is_decimal_digit(c: char) -> bool {
    48 <= c as int <= 57
}

/// The number that decimal digits write.
pub open spec fn decimal_value(digits: Seq<char>) -> int
    decreases digits.len(),
{
    if digits.len() == 0 {
        0
    } else {
        decimal_value(digits.drop_last()) * 10 + digit_value(digits.last())
    }
}

/// The text without its leading `+` or `-`, if it has one.
pub open spec fn unsigned_part(text: Seq<char>) -> Seq<char> {
    if text.len() > 0 && (text[0] == '-' || text[0] == '+') {
        text.drop_first()
    } else {
        text
    }
}

/// Every character is an ASCII decimal digit.
pub open spec fn all_decimal_digits(digits: Seq<char>) -> bool {
    forall|i: int| 0 <= i < digits.len() ==> is_decimal_digit(#[trigger] digits[i])
}

/// The value the text writes, with its sign.
pub open spec fn signed_value(text: Seq<char>) -> int {
    if text.len() > 0 && text[0] == '-' {
        -decimal_value(unsigned_part(text))
    } else {
        decimal_value(unsigned_part(text))
    }
}

/// The `i32` that the text writes: an optional `+` or `-`, then one or more
/// ASCII decimal digits and nothing else, with a value that fits in `i32`.
pub open spec fn i32_from_text(text: Seq<char>) -> Option<i32> {
    if unsigned_part(text).len() > 0 && all_decimal_digits(unsigned_part(text)) && i32::MIN
        <= signed_value(text) <= i32::MAX {
        Some(signed_value(text) as i32)
    } else {
        None
    }
}

/// `str::parse::<i32>`: the number that the text writes in decimal (see
/// `i32_from_text`), and nothing when it writes none.
#[verifier::external_body]
fn parse_i32(text: &str) -> (n: Option<i32>)
    ensures
        n == i32_from_text(text@),
{
    text.parse::<i32>().ok()
}

/// The process id written in the tray's pid file, if the file holds one and
/// nothing else.
pub fn parse_pid(content: &str) -> (pid: Option<i32>)
    ensures
        pid == i32_from_text(content@),
{
    parse_i32(content)
}

/// A tray process of this program runs: the process with the id from the pid
/// file exists and has the name of this program.
pub fn tray_is_running(tray_process_name: Option<String>, own_name: &String) -> (r: bool)
    ensures
        r == (tray_process_name matches Some(n) && n@ == own_name@),
{
    match tray_process_name {
        Some(n) => n == *own_name,
        None => false,
    }
}

/// The first of the values that is set.
pub open spec fn first_set(values: Seq<Option<String>>) -> Option<Seq<char>>
    decreases values.len(),
{
    if values.len() == 0 {
        None
    } else {
        match values[0] {
            Some(s) => Some(s@),
            None => first_set(values.drop_first()),
        }
    }
}

/// The path of a file in the runtime directory: the first set of the
/// candidate directories (in rphide's order `XDG_RUNTIME_DIR`, `TMPDIR`,
/// `TMP`, `TEMP`), or `/tmp` when none is set, followed by `file_name`.
pub fn runtime_path(candidates: &Vec<Option<String>>, file_name: &str) -> (p: String)
    ensures
        p@ == (match first_set(candidates@) {
            Some(dir) => dir,
            None => "/tmp"@,
        }) + file_name@,
{
    let n: usize = candidates.len();
    let mut i: usize = 0;
    proof {
        assert(candidates@.skip(0) =~= candidates@);
    }
    while i < n
        invariant
            n == candidates@.len(),
            0 <= i <= n,
            first_set(candidates@) == first_set(candidates@.skip(i as int)),
        decreases n - i,
    {
        proof {
            assert(candidates@.skip(i as int).drop_first() =~= candidates@.skip(i + 1));
        }
        match &candidates[i] {
            Some(dir) => {
                let d = dir.clone();
                return d.concat(file_name);
            },
            None => {},
        }
        i = i + 1;
    }
    <String as StringExecFns>::from_str("/tmp").concat(file_name)
}

} // verus!
