//! The MangoWM socket protocol: one line of text to the socket, one JSON document
//! back.
//!
//! The socket path is the value of `MANGO_INSTANCE_SIGNATURE`. An exchange is
//! tried a few times, each time over a new connection: the caller carries out the
//! action of the current [`IpcState`] and reports its outcome to [`ipc_step`].

use vstd::prelude::*;
use vstd::string::*;

use crate::domain::error::{outcome, AppError, AppErrorView, VarError};

verus! {

/// The environment variable that holds the path of Mango's socket.
pub const SOCKET_VAR: &'static str = "MANGO_INSTANCE_SIGNATURE";

/// How often an exchange is tried.
pub const MAX_RETRIES: u32 = 3;

/// How long to wait before an exchange is tried again.
pub const RETRY_PAUSE_MILLIS: u64 = 100;

/// How long one read from or write to the socket may take.
pub const IPC_TIMEOUT_SECS: u64 = 5;

// ── the socket ─────────────────────────────────────────────────────────────

/// The socket path that the variable's value gives, if any.
pub open spec fn socket_of(var: Option<Vec<u8>>) -> Option<Vec<u8>> {
    match var {
        Some(path) if path@.len() > 0 => Some(path),
        _ => None,
    }
}

/// The socket path that the variable's value gives, or the error of its absence.
pub open spec fn socket_answer(var: Option<Vec<u8>>) -> Result<Vec<u8>, AppErrorView> {
    match socket_of(var) {
        Some(path) => Ok(path),
        None => Err(AppErrorView::CompositorEnvVar(SOCKET_VAR@, VarError::NotPresent)),
    }
}

/// The path of Mango's socket, out of the bytes of the environment variable's
/// value. An unset and an empty variable are the same error.
pub fn socket_path(var: Option<Vec<u8>>) -> (path: Result<Vec<u8>, AppError>)
    ensures
        outcome(path) == socket_answer(var),
        outcome(path) == match socket_of(var) {
            Some(path) => Ok(path),
            None => Err(AppErrorView::CompositorEnvVar(SOCKET_VAR@, VarError::NotPresent)),
        },
{
    match var {
        Some(path) => if path.len() > 0 {
            Ok(path)
        } else {
            Err(AppError::CompositorEnvVar(SOCKET_VAR, VarError::NotPresent))
        },
        None => Err(AppError::CompositorEnvVar(SOCKET_VAR, VarError::NotPresent)),
    }
}

// ── the exchange ───────────────────────────────────────────────────────────

/// What one attempt at an exchange is doing.
#[derive(Debug, Clone, Copy, PartialEq, Eq, Structural)]
pub enum IpcPhase {
    /// Waiting before a further attempt.
    Pausing,
    /// Connecting to the socket.
    Connecting,
    /// Writing the request.
    Sending,
    /// Reading the reply to its end.
    Receiving,
}

/// Where an exchange stands.
#[derive(Debug, Clone, Copy, PartialEq, Eq, Structural)]
pub struct IpcState {
    /// How many more attempts may follow the current one.
    pub retries_left: u32,
    /// What the current attempt is doing.
    pub phase: IpcPhase,
}

/// What is to be done next for an exchange.
#[derive(Debug, Clone, PartialEq, Eq)]
pub enum IpcAction {
    /// Wait for this many milliseconds.
    Pause(u64),
    /// Connect to the socket, and limit each later read and write to this many
    /// seconds; a limit that cannot be set is no failure.
    Connect(u64),
    /// Write this text.
    Send(String),
    /// Read to the end.
    Receive,
}

/// An [`IpcAction`] with its text as characters.
pub enum IpcActionView {
    Pause(u64),
    Connect(u64),
    Send(Seq<char>),
    Receive,
}

impl View for IpcAction {
    type V = IpcActionView;

    open spec fn view(&self) -> IpcActionView {
        match *self {
            IpcAction::Pause(millis) => IpcActionView::Pause(millis),
            IpcAction::Connect(secs) => IpcActionView::Connect(secs),
            IpcAction::Send(text) => IpcActionView::Send(text@),
            IpcAction::Receive => IpcActionView::Receive,
        }
    }
}

/// What follows an outcome.
#[derive(Debug)]
pub enum IpcNext {
    /// Go on from this state.
    Continue(IpcState),
    /// Stop, with the reply or the error.
    Finished(Result<Vec<u8>, AppError>),
}

/// An [`IpcNext`] with its reply as bytes and its error seen through its view.
pub enum IpcNextView {
    Continue(IpcState),
    Finished(Result<Seq<u8>, AppErrorView>),
}

impl View for IpcNext {
    type V = IpcNextView;

    open spec fn view(&self) -> IpcNextView {
        match *self {
            IpcNext::Continue(state) => IpcNextView::Continue(state),
            IpcNext::Finished(Ok(reply)) => IpcNextView::Finished(Ok(reply@)),
            IpcNext::Finished(Err(error)) => IpcNextView::Finished(Err(error@)),
        }
    }
}

/// The outcome of an action, with what was read as bytes.
pub open spec fn outcome_view(outcome: Result<Vec<u8>, std::io::Error>) -> Result<
    Seq<u8>,
    std::io::Error,
> {
    match outcome {
        Ok(bytes) => Ok(bytes@),
        Err(error) => Err(error),
    }
}

/// Where every exchange begins.
pub open spec fn ipc_begin() -> IpcState {
    IpcState { retries_left: (MAX_RETRIES - 1) as u32, phase: IpcPhase::Connecting }
}

/// What the state asks for, to put the request `cmd`.
pub open spec fn ipc_action(state: IpcState, cmd: Seq<char>) -> IpcActionView {
    match state.phase {
        IpcPhase::Pausing => IpcActionView::Pause(RETRY_PAUSE_MILLIS),
        IpcPhase::Connecting => IpcActionView::Connect(IPC_TIMEOUT_SECS),
        IpcPhase::Sending => IpcActionView::Send(cmd + "\n"@),
        IpcPhase::Receiving => IpcActionView::Receive,
    }
}

/// How messages name what failed in a phase.
pub open spec fn context(phase: IpcPhase) -> Seq<char> {
    match phase {
        IpcPhase::Pausing => ""@,
        IpcPhase::Connecting => "connecting to socket"@,
        IpcPhase::Sending => "writing to socket"@,
        IpcPhase::Receiving => "reading from socket"@,
    }
}

/// The error of an exchange whose last attempt failed in `phase`.
pub open spec fn ipc_error(
    cmd: Seq<char>,
    phase: IpcPhase,
    error: std::io::Error,
) -> AppErrorView {
    AppErrorView::CompositorIpc("mango: "@ + cmd + ": "@ + context(phase), error)
}

/// What follows the outcome of the state's action. A failure ends the attempt,
/// and the last attempt ends the exchange; a pause always succeeds.
pub open spec fn ipc_next(
    state: IpcState,
    cmd: Seq<char>,
    outcome: Result<Seq<u8>, std::io::Error>,
) -> IpcNextView {
    match (state.phase, outcome) {
        (IpcPhase::Pausing, _) => IpcNextView::Continue(
            IpcState { phase: IpcPhase::Connecting, ..state },
        ),
        (IpcPhase::Connecting, Ok(_)) => IpcNextView::Continue(
            IpcState { phase: IpcPhase::Sending, ..state },
        ),
        (IpcPhase::Sending, Ok(_)) => IpcNextView::Continue(
            IpcState { phase: IpcPhase::Receiving, ..state },
        ),
        (IpcPhase::Receiving, Ok(reply)) => IpcNextView::Finished(Ok(reply)),
        (phase, Err(error)) => if state.retries_left > 0 {
            IpcNextView::Continue(
                IpcState {
                    retries_left: (state.retries_left - 1) as u32,
                    phase: IpcPhase::Pausing,
                },
            )
        } else {
            IpcNextView::Finished(Err(ipc_error(cmd, phase, error)))
        },
    }
}

/// Begin an exchange.
pub fn ipc_start() -> (state: IpcState)
    ensures
        state == ipc_begin(),
{
    IpcState { retries_left: MAX_RETRIES - 1, phase: IpcPhase::Connecting }
}

impl IpcState {
    /// What is to be done next to put the request `cmd`.
    pub fn action(self, cmd: &str) -> (action: IpcAction)
        ensures
            action@ == ipc_action(self, cmd@),
    {
        match self.phase {
            IpcPhase::Pausing => IpcAction::Pause(RETRY_PAUSE_MILLIS),
            IpcPhase::Connecting => IpcAction::Connect(IPC_TIMEOUT_SECS),
            IpcPhase::Sending => {
                let mut line = cmd.to_owned();
                line.append("\n");
                IpcAction::Send(line)
            },
            IpcPhase::Receiving => IpcAction::Receive,
        }
    }
}

/// The words for what failed in a phase.
fn context_text(phase: IpcPhase) -> (text: &'static str)
    ensures
        text@ == context(phase),
{
    match phase {
        IpcPhase::Pausing => "",
        IpcPhase::Connecting => "connecting to socket",
        IpcPhase::Sending => "writing to socket",
        IpcPhase::Receiving => "reading from socket",
    }
}

/// Decide what follows the outcome of the state's action: what was read, which
/// only the last action looks at, or the error.
pub fn ipc_step(
    state: IpcState,
    cmd: &str,
    outcome: Result<Vec<u8>, std::io::Error>,
) -> (after: IpcNext)
    ensures
        after@ == ipc_next(state, cmd@, outcome_view(outcome)),
{
    match (state.phase, outcome) {
        (IpcPhase::Pausing, _) => IpcNext::Continue(
            IpcState { retries_left: state.retries_left, phase: IpcPhase::Connecting },
        ),
        (IpcPhase::Connecting, Ok(_)) => IpcNext::Continue(
            IpcState { retries_left: state.retries_left, phase: IpcPhase::Sending },
        ),
        (IpcPhase::Sending, Ok(_)) => IpcNext::Continue(
            IpcState { retries_left: state.retries_left, phase: IpcPhase::Receiving },
        ),
        (IpcPhase::Receiving, Ok(reply)) => IpcNext::Finished(Ok(reply)),
        (phase, Err(error)) => {
            if state.retries_left > 0 {
                IpcNext::Continue(
                    IpcState { retries_left: state.retries_left - 1, phase: IpcPhase::Pausing },
                )
            } else {
                let mut text = "mango: ".to_owned();
                text.append(cmd);
                text.append(": ");
                text.append(context_text(phase));
                IpcNext::Finished(Err(AppError::CompositorIpc(text, error)))
            }
        },
    }
}

// ── the reply ──────────────────────────────────────────────────────────────

/// `serde_json::Value`, a JSON document.
#[verifier::external_type_specification]
#[verifier::external_body]
pub struct ExValue(serde_json::Value);

/// The document, or the error, that `serde_json` makes of `bytes`.
pub uninterp spec fn parsed_json(bytes: Seq<u8>) -> Result<serde_json::Value, serde_json::Error>;

/// The members of a JSON object, by key; a value that is no object has none.
pub uninterp spec fn members(value: serde_json::Value) -> Map<Seq<char>, serde_json::Value>;

/// The text of a JSON string; a value that is no string has none.
pub uninterp spec fn text_of(value: serde_json::Value) -> Option<Seq<char>>;

/// `serde_json::from_slice` into a `Value`. The contract claims that the outcome
/// depends on the bytes alone, and leaves open which documents they hold.
#[verifier::external_body]
fn value_from_slice(bytes: &[u8]) -> (value: Result<serde_json::Value, serde_json::Error>)
    ensures
        value == parsed_json(bytes@),
{
    serde_json::from_slice(bytes)
}

/// `serde_json::Value::get` with a string index: the member of that key where the
/// value is an object that has one, and nothing otherwise.
#[verifier::external_body]
fn value_get<'a>(value: &'a serde_json::Value, key: &str) -> (member: Option<&'a serde_json::Value>)
    ensures
        match member {
            Some(found) => members(*value).contains_key(key@) && *found == members(*value)[key@],
            None => !members(*value).contains_key(key@),
        },
{
    value.get(key)
}

/// `serde_json::Value::as_str`: the text where the value is a string, and nothing
/// otherwise.
#[verifier::external_body]
fn value_as_str(value: &serde_json::Value) -> (text: Option<&str>)
    ensures
        match text {
            Some(found) => text_of(*value) == Some(found@),
            None => text_of(*value) is None,
        },
{
    value.as_str()
}

/// The error that a reply reports of itself: the text of its `error` member,
/// where it is an object with a string there.
pub open spec fn reported_error(reply: serde_json::Value) -> Option<Seq<char>> {
    if members(reply).contains_key("error"@) {
        text_of(members(reply)["error"@])
    } else {
        None
    }
}

/// The error of a request that Mango refused with `text`.
pub open spec fn refused(cmd: Seq<char>, text: Seq<char>) -> AppErrorView {
    AppErrorView::CompositorProtocol(cmd + ": "@ + text)
}

/// The error of a reply that could not be read as what was asked for.
pub open spec fn misread(cmd: Seq<char>, text: Seq<char>) -> AppErrorView {
    AppErrorView::CompositorProtocol("invalid response for "@ + cmd + ": "@ + text)
}

/// A reply to `cmd`, unless it reports an error.
pub open spec fn accepted(cmd: Seq<char>, reply: serde_json::Value) -> Result<
    serde_json::Value,
    AppErrorView,
> {
    match reported_error(reply) {
        Some(text) => Err(refused(cmd, text)),
        None => Ok(reply),
    }
}

/// The document that answers `cmd`, out of what the exchange gave.
pub open spec fn answer(cmd: Seq<char>, response: Result<Vec<u8>, AppError>) -> Result<
    serde_json::Value,
    AppErrorView,
> {
    match response {
        Err(error) => Err(error@),
        Ok(bytes) => match parsed_json(bytes@) {
            Err(error) => Err(AppErrorView::JsonParse("mango "@ + cmd, error)),
            Ok(reply) => accepted(cmd, reply),
        },
    }
}

/// The error of a request that Mango refused with `text`.
pub fn refusal(cmd: &str, text: &str) -> (error: AppError)
    ensures
        error@ == refused(cmd@, text@),
{
    let mut message = cmd.to_owned();
    message.append(": ");
    message.append(text);
    AppError::CompositorProtocol(message)
}

/// The error of a reply to `cmd` that could not be read as what was asked for, by
/// the text of the reader's error.
pub fn invalid_response(cmd: &str, text: &str) -> (error: AppError)
    ensures
        error@ == misread(cmd@, text@),
{
    let mut message = "invalid response for ".to_owned();
    message.append(cmd);
    message.append(": ");
    message.append(text);
    AppError::CompositorProtocol(message)
}

/// Let a reply to `cmd` pass unless it reports an error.
pub fn check_reply(cmd: &str, reply: serde_json::Value) -> (checked: Result<
    serde_json::Value,
    AppError,
>)
    ensures
        outcome(checked) == accepted(cmd@, reply),
{
    if let Some(member) = value_get(&reply, "error") {
        if let Some(error) = value_as_str(member) {
            return Err(refusal(cmd, error));
        }
    }
    Ok(reply)
}

/// Read the document that answers `cmd` out of what the exchange gave.
pub fn ipc_json(cmd: &str, response: Result<Vec<u8>, AppError>) -> (reply: Result<
    serde_json::Value,
    AppError,
>)
    ensures
        outcome(reply) == answer(cmd@, response),
{
    match response {
        Err(error) => Err(error),
        Ok(bytes) => match value_from_slice(bytes.as_slice()) {
            Err(error) => {
                let mut text = "mango ".to_owned();
                text.append(cmd);
                Err(AppError::JsonParse(text, error))
            },
            Ok(value) => check_reply(cmd, value),
        },
    }
}

/// The value of a reply to `cmd` that was read, or the error of one that could not
/// be.
pub open spec fn read_reply<T>(cmd: Seq<char>, parsed: Result<T, String>) -> Result<
    T,
    AppErrorView,
> {
    match parsed {
        Ok(value) => Ok(value),
        Err(text) => Err(misread(cmd, text@)),
    }
}

/// Report a reply to `cmd` that could not be read as what was asked for, with the
/// text of the reader's error.
pub fn parse_response<T>(cmd: &str, parsed: Result<T, String>) -> (response: Result<T, AppError>)
    ensures
        outcome(response) == read_reply(cmd@, parsed),
        outcome(response) == match parsed {
            Ok(value) => Ok(value),
            Err(text) => Err(misread(cmd@, text@)),
        },
{
    match parsed {
        Ok(value) => Ok(value),
        Err(text) => Err(invalid_response(cmd, text.as_str())),
    }
}

// ── laws ───────────────────────────────────────────────────────────────────

/// The outcome of one action.
pub type IpcOutcome = Result<Seq<u8>, std::io::Error>;

/// Where an exchange in `state` stands after `outcomes`.
pub open spec fn ipc_run(state: IpcState, cmd: Seq<char>, outcomes: Seq<IpcOutcome>) -> IpcNextView
    decreases outcomes.len(),
{
    if outcomes.len() == 0 {
        IpcNextView::Continue(state)
    } else {
        match ipc_next(state, cmd, outcomes[0]) {
            IpcNextView::Continue(after) => ipc_run(after, cmd, outcomes.skip(1)),
            end => end,
        }
    }
}

/// How many actions an exchange in `state` can still take at most.
pub open spec fn actions_left(state: IpcState) -> nat {
    4 * (state.retries_left as nat) + match state.phase {
        IpcPhase::Pausing => 4nat,
        IpcPhase::Connecting => 3nat,
        IpcPhase::Sending => 2nat,
        IpcPhase::Receiving => 1nat,
    }
}

/// Every action brings the end nearer, and the last one reaches it.
pub proof fn each_action_brings_the_end_nearer(state: IpcState, cmd: Seq<char>, outcome: IpcOutcome)
    ensures
        match ipc_next(state, cmd, outcome) {
            IpcNextView::Continue(after) => actions_left(after) < actions_left(state),
            IpcNextView::Finished(_) => true,
        },
        actions_left(state) >= 1,
{
}

/// An exchange ends, whatever happens, after at most eleven actions: three
/// attempts of three actions, and a pause before each but the first.
pub proof fn exchange_ends(cmd: Seq<char>, outcomes: Seq<IpcOutcome>)
    requires
        outcomes.len() >= 11,
    ensures
        ipc_run(ipc_begin(), cmd, outcomes) is Finished,
{
    run_ends(ipc_begin(), cmd, outcomes);
}

proof fn run_ends(state: IpcState, cmd: Seq<char>, outcomes: Seq<IpcOutcome>)
    requires
        outcomes.len() >= actions_left(state),
    ensures
        ipc_run(state, cmd, outcomes) is Finished,
    decreases outcomes.len(),
{
    each_action_brings_the_end_nearer(state, cmd, outcomes[0]);
    if let IpcNextView::Continue(after) = ipc_next(state, cmd, outcomes[0]) {
        run_ends(after, cmd, outcomes.skip(1));
    }
}

/// What one attempt at an exchange came to.
pub enum IpcAttempt {
    /// It failed in this phase.
    Failed(IpcPhase, std::io::Error),
    /// It brought this reply.
    Answered(Seq<u8>),
}

/// Whether an attempt failed, in a phase in which one can fail.
pub open spec fn attempt_failed(attempt: IpcAttempt) -> bool {
    attempt matches IpcAttempt::Failed(phase, _) && phase != IpcPhase::Pausing
}

/// The outcomes of the actions of one attempt.
pub open spec fn attempt_outcomes(attempt: IpcAttempt) -> Seq<IpcOutcome> {
    let done: IpcOutcome = Ok(Seq::empty());
    match attempt {
        IpcAttempt::Failed(IpcPhase::Sending, error) => seq![done, Err(error)],
        IpcAttempt::Failed(IpcPhase::Receiving, error) => seq![done, done, Err(error)],
        IpcAttempt::Failed(_, error) => seq![Err(error)],
        IpcAttempt::Answered(reply) => seq![done, done, Ok(reply)],
    }
}

/// The outcomes of attempts that follow each other, with a pause before each but
/// the first.
pub open spec fn attempts_outcomes(attempts: Seq<IpcAttempt>) -> Seq<IpcOutcome>
    decreases attempts.len(),
{
    if attempts.len() == 0 {
        Seq::empty()
    } else if attempts.len() == 1 {
        attempt_outcomes(attempts[0])
    } else {
        attempt_outcomes(attempts[0]) + (seq![Ok(Seq::empty())] + attempts_outcomes(
            attempts.skip(1),
        ))
    }
}

/// A run over two lists of outcomes is the run over the first, carried on over
/// the second where the first has not ended.
proof fn ipc_run_concat(
    state: IpcState,
    cmd: Seq<char>,
    first: Seq<IpcOutcome>,
    second: Seq<IpcOutcome>,
)
    ensures
        ipc_run(state, cmd, first + second) == match ipc_run(state, cmd, first) {
            IpcNextView::Continue(after) => ipc_run(after, cmd, second),
            end => end,
        },
    decreases first.len(),
{
    if first.len() == 0 {
        assert(first + second =~= second);
    } else {
        assert((first + second)[0] == first[0]);
        assert((first + second).skip(1) =~= first.skip(1) + second);
        if let IpcNextView::Continue(after) = ipc_next(state, cmd, first[0]) {
            ipc_run_concat(after, cmd, first.skip(1), second);
        }
    }
}

/// What one attempt does to an exchange that can be tried `retries` more times.
proof fn one_attempt(retries: u32, cmd: Seq<char>, attempt: IpcAttempt)
    requires
        attempt is Answered || attempt_failed(attempt),
    ensures
        ipc_run(
            IpcState { retries_left: retries, phase: IpcPhase::Connecting },
            cmd,
            attempt_outcomes(attempt),
        ) == match attempt {
            IpcAttempt::Answered(reply) => IpcNextView::Finished(Ok(reply)),
            IpcAttempt::Failed(phase, error) => if retries > 0 {
                IpcNextView::Continue(
                    IpcState { retries_left: (retries - 1) as u32, phase: IpcPhase::Pausing },
                )
            } else {
                IpcNextView::Finished(Err(ipc_error(cmd, phase, error)))
            },
        },
{
    reveal_with_fuel(ipc_run, 4);
    let outcomes = attempt_outcomes(attempt);
    if outcomes.len() > 1 {
        assert(outcomes.skip(1).skip(1) =~= outcomes.skip(2));
    }
    if outcomes.len() > 2 {
        assert(outcomes.skip(2).skip(1) =~= outcomes.skip(3));
    }
}

/// What a series of attempts, all but the last of which failed, does to an
/// exchange that can be tried `retries` more times.
proof fn attempts_from(retries: u32, cmd: Seq<char>, attempts: Seq<IpcAttempt>)
    requires
        1 <= attempts.len() <= retries + 1,
        forall|i: int| 0 <= i < attempts.len() - 1 ==> attempt_failed(#[trigger] attempts[i]),
        attempts.last() is Answered || attempt_failed(attempts.last()),
    ensures
        ipc_run(
            IpcState { retries_left: retries, phase: IpcPhase::Connecting },
            cmd,
            attempts_outcomes(attempts),
        ) == match attempts.last() {
            IpcAttempt::Answered(reply) => IpcNextView::Finished(Ok(reply)),
            IpcAttempt::Failed(phase, error) => if attempts.len() <= retries {
                IpcNextView::Continue(
                    IpcState {
                        retries_left: (retries - attempts.len()) as u32,
                        phase: IpcPhase::Pausing,
                    },
                )
            } else {
                IpcNextView::Finished(Err(ipc_error(cmd, phase, error)))
            },
        },
    decreases attempts.len(),
{
    one_attempt(retries, cmd, attempts[0]);
    if attempts.len() > 1 {
        let state = IpcState { retries_left: retries, phase: IpcPhase::Connecting };
        let pause: Seq<IpcOutcome> = seq![Ok(Seq::empty())];
        let rest = attempts_outcomes(attempts.skip(1));
        let paused = IpcState { retries_left: (retries - 1) as u32, phase: IpcPhase::Pausing };
        assert(attempt_failed(attempts[0]));
        ipc_run_concat(state, cmd, attempt_outcomes(attempts[0]), pause + rest);
        assert((pause + rest).skip(1) =~= rest);
        assert(attempts.skip(1).last() == attempts.last());
        assert forall|i: int| 0 <= i < attempts.skip(1).len() - 1 implies attempt_failed(
            #[trigger] attempts.skip(1)[i],
        ) by {
            assert(attempts.skip(1)[i] == attempts[i + 1]);
        }
        attempts_from((retries - 1) as u32, cmd, attempts.skip(1));
        assert(ipc_run(paused, cmd, pause + rest) == ipc_run(
            IpcState { retries_left: (retries - 1) as u32, phase: IpcPhase::Connecting },
            cmd,
            rest,
        ));
    }
}

/// The first attempt that brings a reply ends the exchange with that reply,
/// however the attempts before it failed.
pub proof fn first_reply_is_the_answer(cmd: Seq<char>, failures: Seq<IpcAttempt>, reply: Seq<u8>)
    requires
        failures.len() < MAX_RETRIES,
        forall|i: int| 0 <= i < failures.len() ==> attempt_failed(#[trigger] failures[i]),
    ensures
        ipc_run(
            ipc_begin(),
            cmd,
            attempts_outcomes(failures.push(IpcAttempt::Answered(reply))),
        ) == IpcNextView::Finished(Ok(reply)),
{
    attempts_from((MAX_RETRIES - 1) as u32, cmd, failures.push(IpcAttempt::Answered(reply)));
}

/// An exchange is tried again until the last attempt has failed; then it ends with
/// the error of that attempt.
pub proof fn last_failure_is_the_error(cmd: Seq<char>, failures: Seq<IpcAttempt>)
    requires
        1 <= failures.len() <= MAX_RETRIES,
        forall|i: int| 0 <= i < failures.len() ==> attempt_failed(#[trigger] failures[i]),
    ensures
        failures.len() < MAX_RETRIES ==> ipc_run(ipc_begin(), cmd, attempts_outcomes(failures))
            == IpcNextView::Continue(
            IpcState {
                retries_left: (MAX_RETRIES - 1 - failures.len()) as u32,
                phase: IpcPhase::Pausing,
            },
        ),
        failures.len() == MAX_RETRIES ==> (failures.last() matches IpcAttempt::Failed(phase, error)
            ==> ipc_run(ipc_begin(), cmd, attempts_outcomes(failures)) == IpcNextView::Finished(
            Err(ipc_error(cmd, phase, error)),
        )),
{
    attempts_from((MAX_RETRIES - 1) as u32, cmd, failures);
}

/// The first action of an exchange is to connect, without a pause; a pause comes
/// before every further attempt.
pub proof fn only_retries_are_paused_for(state: IpcState, cmd: Seq<char>, outcome: IpcOutcome)
    ensures
        ipc_action(ipc_begin(), cmd) == IpcActionView::Connect(IPC_TIMEOUT_SECS),
        ipc_next(state, cmd, outcome) matches IpcNextView::Continue(after) ==> (ipc_action(
            after,
            cmd,
        ) is Pause <==> after.retries_left < state.retries_left),
{
}

/// A reply that reports an error never passes, and one that passes is unchanged.
pub proof fn replies_pass_unchanged_or_not_at_all(cmd: Seq<char>, reply: serde_json::Value)
    ensures
        accepted(cmd, reply) is Ok <==> reported_error(reply) is None,
        accepted(cmd, reply) matches Ok(passed) ==> passed == reply,
{
}

/// What answers a request was received, is JSON, and reports no error.
pub proof fn answers_are_sound(cmd: Seq<char>, response: Result<Vec<u8>, AppError>)
    ensures
        answer(cmd, response) matches Ok(value) ==> (response matches Ok(bytes) && parsed_json(
            bytes@,
        ) == Ok::<serde_json::Value, serde_json::Error>(value) && reported_error(value) is None),
        response matches Ok(bytes) ==> (parsed_json(bytes@) is Err <==> answer(cmd, response)
            matches Err(AppErrorView::JsonParse(..))),
{
}

/// A value of the variable that is not empty is the path, byte for byte; an empty
/// or absent one is reported under the variable's name.
pub proof fn every_value_but_the_empty_one_is_a_path(value: Vec<u8>)
    ensures
        value@.len() > 0 ==> socket_of(Some(value)) == Some(value) && socket_answer(Some(value))
            == Ok::<Vec<u8>, AppErrorView>(value),
        value@.len() == 0 ==> socket_of(Some(value)) is None,
        socket_of(None) is None,
        value@.len() == 0 ==> socket_answer(Some(value)) == socket_answer(None),
        socket_answer(None) == Err::<Vec<u8>, AppErrorView>(
            AppErrorView::CompositorEnvVar("MANGO_INSTANCE_SIGNATURE"@, VarError::NotPresent),
        ),
{
}

/// Whatever the request, what is sent is one line that holds it: the request, and
/// after it the end of the line.
pub proof fn requests_are_sent_as_one_line(retries_left: u32, cmd: Seq<char>)
    ensures
        ipc_action(IpcState { retries_left, phase: IpcPhase::Sending }, cmd) matches
            IpcActionView::Send(text) && text.len() == cmd.len() + 1 && text.drop_last() == cmd
            && text.last() == '\n',
{
    reveal_strlit("\n");
    assert((cmd + "\n"@).drop_last() =~= cmd);
}

/// A pause takes a tenth of a second, a connection limits its reads and writes to
/// five seconds, and the reply is read to its end.
pub proof fn actions_have_their_times(retries_left: u32, cmd: Seq<char>)
    ensures
        ipc_action(IpcState { retries_left, phase: IpcPhase::Pausing }, cmd)
            == IpcActionView::Pause(100),
        ipc_action(IpcState { retries_left, phase: IpcPhase::Connecting }, cmd)
            == IpcActionView::Connect(5),
        ipc_action(IpcState { retries_left, phase: IpcPhase::Receiving }, cmd)
            == IpcActionView::Receive,
{
}

/// An exchange begins by connecting, and can be tried two more times.
pub proof fn exchanges_are_tried_three_times()
    ensures
        ipc_begin().phase == IpcPhase::Connecting,
        ipc_begin().retries_left + 1 == 3,
        MAX_RETRIES == 3,
{
}

/// An action that succeeds leads to the next one of the same attempt, whatever it
/// brought; the last one ends the exchange with the very bytes that were read.
pub proof fn success_goes_on_with_the_attempt(
    retries_left: u32,
    cmd: Seq<char>,
    bytes: Seq<u8>,
    outcome: IpcOutcome,
)
    ensures
        ipc_next(IpcState { retries_left, phase: IpcPhase::Pausing }, cmd, outcome)
            == IpcNextView::Continue(IpcState { retries_left, phase: IpcPhase::Connecting }),
        ipc_next(IpcState { retries_left, phase: IpcPhase::Connecting }, cmd, Ok(bytes))
            == IpcNextView::Continue(IpcState { retries_left, phase: IpcPhase::Sending }),
        ipc_next(IpcState { retries_left, phase: IpcPhase::Sending }, cmd, Ok(bytes))
            == IpcNextView::Continue(IpcState { retries_left, phase: IpcPhase::Receiving }),
        ipc_next(IpcState { retries_left, phase: IpcPhase::Receiving }, cmd, Ok(bytes))
            == IpcNextView::Finished(Ok(bytes)),
{
}

/// A failure is followed by a pause and one attempt fewer, as long as there is one;
/// the failure of the last attempt is reported with the request, in words for what
/// was being done, and with its own cause.
pub proof fn failures_are_retried_then_reported(
    state: IpcState,
    cmd: Seq<char>,
    error: std::io::Error,
)
    requires
        state.phase != IpcPhase::Pausing,
    ensures
        state.retries_left > 0 ==> (ipc_next(state, cmd, Err(error)) matches IpcNextView::Continue(
            after,
        ) && after.phase == IpcPhase::Pausing && after.retries_left + 1 == state.retries_left),
        state.retries_left == 0 && state.phase == IpcPhase::Connecting ==> ipc_next(
            state,
            cmd,
            Err(error),
        ) == IpcNextView::Finished(
            Err(
                AppErrorView::CompositorIpc(
                    "mango: "@ + cmd + ": "@ + "connecting to socket"@,
                    error,
                ),
            ),
        ),
        state.retries_left == 0 && state.phase == IpcPhase::Sending ==> ipc_next(
            state,
            cmd,
            Err(error),
        ) == IpcNextView::Finished(
            Err(
                AppErrorView::CompositorIpc(
                    "mango: "@ + cmd + ": "@ + "writing to socket"@,
                    error,
                ),
            ),
        ),
        state.retries_left == 0 && state.phase == IpcPhase::Receiving ==> ipc_next(
            state,
            cmd,
            Err(error),
        ) == IpcNextView::Finished(
            Err(
                AppErrorView::CompositorIpc(
                    "mango: "@ + cmd + ": "@ + "reading from socket"@,
                    error,
                ),
            ),
        ),
{
}

/// A document whose `error` member is a text is refused with that text, after the
/// request; every other document passes.
pub proof fn only_a_text_under_error_refuses(cmd: Seq<char>, reply: serde_json::Value)
    ensures
        members(reply).contains_key("error"@) ==> (text_of(members(reply)["error"@]) matches Some(
            text,
        ) ==> accepted(cmd, reply) == Err::<serde_json::Value, AppErrorView>(
            AppErrorView::CompositorProtocol(cmd + ": "@ + text),
        )),
        !members(reply).contains_key("error"@) || text_of(members(reply)["error"@]) is None
            ==> accepted(cmd, reply) == Ok::<serde_json::Value, AppErrorView>(reply),
{
}

/// Bytes that are no JSON are refused with the request and the parser's own error,
/// bytes that are a document stand or fall with it, and the error of a failed
/// exchange is handed on.
pub proof fn answers_come_from_the_bytes(cmd: Seq<char>, bytes: Vec<u8>, failure: AppError)
    ensures
        match parsed_json(bytes@) {
            Ok(reply) => answer(cmd, Ok(bytes)) == accepted(cmd, reply),
            Err(error) => answer(cmd, Ok(bytes)) == Err::<serde_json::Value, AppErrorView>(
                AppErrorView::JsonParse("mango "@ + cmd, error),
            ),
        },
        answer(cmd, Err(failure)) == Err::<serde_json::Value, AppErrorView>(failure@),
{
}

/// A value that was read is handed on; a reply that was not is reported with the
/// request and the reader's words, and a refused request with Mango's.
pub proof fn replies_are_reported_in_words<T>(cmd: Seq<char>, value: T, text: String)
    ensures
        read_reply(cmd, Ok::<T, String>(value)) == Ok::<T, AppErrorView>(value),
        read_reply(cmd, Err::<T, String>(text)) == Err::<T, AppErrorView>(
            AppErrorView::CompositorProtocol("invalid response for "@ + cmd + ": "@ + text@),
        ),
        misread(cmd, text@) == AppErrorView::CompositorProtocol(
            "invalid response for "@ + cmd + ": "@ + text@,
        ),
        refused(cmd, text@) == AppErrorView::CompositorProtocol(cmd + ": "@ + text@),
{
}

/// The views of actions, of outcomes and of what follows them keep everything.
pub proof fn ipc_views_keep_everything(
    action: IpcAction,
    after: IpcNext,
    bytes: Vec<u8>,
    error: std::io::Error,
)
    ensures
        match action {
            IpcAction::Pause(millis) => action@ == IpcActionView::Pause(millis),
            IpcAction::Connect(secs) => action@ == IpcActionView::Connect(secs),
            IpcAction::Send(text) => action@ == IpcActionView::Send(text@),
            IpcAction::Receive => action@ == IpcActionView::Receive,
        },
        match after {
            IpcNext::Continue(state) => after@ == IpcNextView::Continue(state),
            IpcNext::Finished(Ok(reply)) => after@ == IpcNextView::Finished(Ok(reply@)),
            IpcNext::Finished(Err(error)) => after@ == IpcNextView::Finished(Err(error@)),
        },
        outcome_view(Ok(bytes)) == Ok::<Seq<u8>, std::io::Error>(bytes@),
        outcome_view(Err(error)) == Err::<Seq<u8>, std::io::Error>(error),
{
}

} // verus!
