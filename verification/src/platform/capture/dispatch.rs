//! Driving a Wayland event queue until a condition holds or time runs out.
//!
//! Each round dispatches what has arrived, tests the condition, looks at the
//! clock, flushes, polls the connection for no longer than is left, and reads.
//! The caller carries out one phase at a time and reports the event; [`step`]
//! answers with the next phase or with the end.

use vstd::prelude::*;
use vstd::string::*;

use crate::domain::error::{AppError, AppErrorView};

verus! {

/// What is to be done next to the event queue.
#[derive(Debug, Clone, Copy, PartialEq, Eq, Structural)]
pub enum DispatchPhase {
    /// Dispatch the events that have been read.
    Dispatching,
    /// Test whether the condition holds.
    Checking,
    /// Measure how long it is until the deadline.
    Timing,
    /// Flush the requests; the poll after it may take this many milliseconds.
    Flushing(u16),
    /// Prepare a read and poll for at most this many milliseconds.
    Polling(u16),
    /// Read from the connection, if the read could be prepared. A read that could
    /// not be prepared counts as completed: there are events to dispatch.
    Reading,
}

/// What came of a phase.
#[derive(Debug)]
pub enum DispatchEvent {
    /// The phase succeeded.
    Completed,
    /// The read found that nothing has arrived. That is no failure: the compositor
    /// may yet respond.
    NothingRead,
    /// The phase failed, with the text of the error.
    Failed(String),
    /// Whether the condition holds.
    Predicate(bool),
    /// Nanoseconds until the deadline; zero once it has passed.
    Remaining(u128),
}

/// A [`DispatchEvent`] with its text as characters and its time as a number.
pub enum DispatchEventView {
    Completed,
    NothingRead,
    Failed(Seq<char>),
    Predicate(bool),
    Remaining(nat),
}

impl View for DispatchEvent {
    type V = DispatchEventView;

    open spec fn view(&self) -> DispatchEventView {
        match *self {
            DispatchEvent::Completed => DispatchEventView::Completed,
            DispatchEvent::NothingRead => DispatchEventView::NothingRead,
            DispatchEvent::Failed(text) => DispatchEventView::Failed(text@),
            DispatchEvent::Predicate(done) => DispatchEventView::Predicate(done),
            DispatchEvent::Remaining(nanos) => DispatchEventView::Remaining(nanos as nat),
        }
    }
}

/// What follows an event.
#[derive(Debug)]
pub enum DispatchNext {
    /// Go on with this phase.
    Continue(DispatchPhase),
    /// Stop, with this result.
    Finished(Result<(), AppError>),
}

/// A [`DispatchNext`] with its error seen through its view.
pub enum DispatchNextView {
    Continue(DispatchPhase),
    Finished(Result<(), AppErrorView>),
}

impl View for DispatchNext {
    type V = DispatchNextView;

    open spec fn view(&self) -> DispatchNextView {
        match *self {
            DispatchNext::Continue(phase) => DispatchNextView::Continue(phase),
            DispatchNext::Finished(Ok(_)) => DispatchNextView::Finished(Ok(())),
            DispatchNext::Finished(Err(error)) => DispatchNextView::Finished(Err(error@)),
        }
    }
}

/// The longest that one poll may take, in milliseconds, with `nanos` left: whole
/// milliseconds, and no more than a poll timeout holds.
pub open spec fn poll_millis(nanos: nat) -> nat {
    let millis = nanos / 1_000_000;
    if millis <= u16::MAX {
        millis
    } else {
        u16::MAX as nat
    }
}

/// The end of a capture to which the compositor has not responded in time.
pub open spec fn timed_out() -> DispatchNextView {
    DispatchNextView::Finished(
        Err(
            AppErrorView::Wayland(
                "Wayland capture timed out: compositor did not respond in time"@,
            ),
        ),
    )
}

/// The end after an operation failed with the text `error`.
pub open spec fn failed(operation: Seq<char>, error: Seq<char>) -> DispatchNextView {
    DispatchNextView::Finished(Err(AppErrorView::Wayland(operation + error)))
}

/// How messages name the operation of a phase; the two phases that perform none
/// have no name.
pub open spec fn operation(phase: DispatchPhase) -> Seq<char> {
    match phase {
        DispatchPhase::Dispatching => "Wayland dispatch failed: "@,
        DispatchPhase::Flushing(_) => "Wayland flush failed: "@,
        DispatchPhase::Polling(_) => "poll failed: "@,
        DispatchPhase::Reading => "Wayland read failed: "@,
        DispatchPhase::Checking | DispatchPhase::Timing => Seq::empty(),
    }
}

/// What follows `event` in `phase`. An event that is no answer to the phase
/// leaves it as it is.
pub open spec fn next(phase: DispatchPhase, event: DispatchEventView) -> DispatchNextView {
    match phase {
        DispatchPhase::Checking => match event {
            DispatchEventView::Predicate(true) => DispatchNextView::Finished(Ok(())),
            DispatchEventView::Predicate(false) => DispatchNextView::Continue(
                DispatchPhase::Timing,
            ),
            _ => DispatchNextView::Continue(phase),
        },
        DispatchPhase::Timing => match event {
            DispatchEventView::Remaining(nanos) => if nanos == 0 {
                timed_out()
            } else {
                DispatchNextView::Continue(DispatchPhase::Flushing(poll_millis(nanos) as u16))
            },
            _ => DispatchNextView::Continue(phase),
        },
        _ => match event {
            DispatchEventView::Completed => DispatchNextView::Continue(
                match phase {
                    DispatchPhase::Dispatching => DispatchPhase::Checking,
                    DispatchPhase::Flushing(millis) => DispatchPhase::Polling(millis),
                    DispatchPhase::Polling(_) => DispatchPhase::Reading,
                    _ => DispatchPhase::Dispatching,
                },
            ),
            DispatchEventView::NothingRead => DispatchNextView::Continue(
                match phase {
                    DispatchPhase::Reading => DispatchPhase::Dispatching,
                    _ => phase,
                },
            ),
            DispatchEventView::Failed(error) => failed(operation(phase), error),
            _ => DispatchNextView::Continue(phase),
        },
    }
}

/// The end after an operation failed with the text `error`.
fn failure(operation: &str, error: String) -> (end: DispatchNext)
    ensures
        end@ == failed(operation@, error@),
{
    let mut text = operation.to_owned();
    text.append(error.as_str());
    DispatchNext::Finished(Err(AppError::Wayland(text)))
}

/// The phase that a fresh event queue starts in.
pub open spec fn first_phase() -> DispatchPhase {
    DispatchPhase::Dispatching
}

/// The phase that a fresh event queue starts in.
pub fn start() -> (phase: DispatchPhase)
    ensures
        phase == first_phase(),
        phase == DispatchPhase::Dispatching,
{
    DispatchPhase::Dispatching
}

/// Decide what follows `event` in `phase`.
pub fn step(phase: DispatchPhase, event: DispatchEvent) -> (after: DispatchNext)
    ensures
        after@ == next(phase, event@),
{
    match (phase, event) {
        (DispatchPhase::Dispatching, DispatchEvent::Completed) => DispatchNext::Continue(
            DispatchPhase::Checking,
        ),
        (DispatchPhase::Dispatching, DispatchEvent::Failed(error)) => failure(
            "Wayland dispatch failed: ",
            error,
        ),
        (DispatchPhase::Checking, DispatchEvent::Predicate(done)) => if done {
            DispatchNext::Finished(Ok(()))
        } else {
            DispatchNext::Continue(DispatchPhase::Timing)
        },
        (DispatchPhase::Timing, DispatchEvent::Remaining(nanos)) => if nanos == 0 {
            DispatchNext::Finished(
                Err(
                    AppError::Wayland(
                        "Wayland capture timed out: compositor did not respond in time".to_owned(),
                    ),
                ),
            )
        } else {
            let millis: u128 = nanos / 1_000_000;
            let timeout: u16 = if millis <= u16::MAX as u128 {
                millis as u16
            } else {
                u16::MAX
            };
            DispatchNext::Continue(DispatchPhase::Flushing(timeout))
        },
        (DispatchPhase::Flushing(millis), DispatchEvent::Completed) => DispatchNext::Continue(
            DispatchPhase::Polling(millis),
        ),
        (DispatchPhase::Flushing(_), DispatchEvent::Failed(error)) => failure(
            "Wayland flush failed: ",
            error,
        ),
        (DispatchPhase::Polling(_), DispatchEvent::Completed) => DispatchNext::Continue(
            DispatchPhase::Reading,
        ),
        (DispatchPhase::Polling(_), DispatchEvent::Failed(error)) => failure(
            "poll failed: ",
            error,
        ),
        (
            DispatchPhase::Reading,
            DispatchEvent::Completed | DispatchEvent::NothingRead,
        ) => DispatchNext::Continue(DispatchPhase::Dispatching),
        (DispatchPhase::Reading, DispatchEvent::Failed(error)) => failure(
            "Wayland read failed: ",
            error,
        ),
        _ => DispatchNext::Continue(phase),
    }
}

// ── laws ───────────────────────────────────────────────────────────────────

/// Where a queue in `phase` stands after `events`.
pub open spec fn run(phase: DispatchPhase, events: Seq<DispatchEventView>) -> DispatchNextView
    decreases events.len(),
{
    if events.len() == 0 {
        DispatchNextView::Continue(phase)
    } else {
        match next(phase, events[0]) {
            DispatchNextView::Continue(after) => run(after, events.skip(1)),
            end => end,
        }
    }
}

/// A poll never outlasts the deadline, and waits unless less than a millisecond is
/// left.
pub proof fn poll_ends_before_the_deadline(nanos: nat)
    ensures
        poll_millis(nanos) * 1_000_000 <= nanos,
        poll_millis(nanos) <= u16::MAX,
        poll_millis(nanos) == 0 <==> nanos < 1_000_000,
{
}

/// A step succeeds exactly when the condition was tested and holds, and times out
/// exactly when the clock was read at the deadline.
pub proof fn ends_only_on_the_condition_or_the_clock(
    phase: DispatchPhase,
    event: DispatchEventView,
)
    ensures
        next(phase, event) == DispatchNextView::Finished(Ok(())) <==> phase
            == DispatchPhase::Checking && event == DispatchEventView::Predicate(true),
        phase == DispatchPhase::Timing ==> (next(phase, event) is Finished <==> event
            == DispatchEventView::Remaining(0)),
        phase == DispatchPhase::Timing && event == DispatchEventView::Remaining(0) ==> next(
            phase,
            event,
        ) == timed_out(),
{
}

/// One round in which the condition does not hold yet and nothing fails.
pub struct IdleRound {
    /// Nanoseconds that are left when the clock is read.
    pub left: nat,
    /// Whether anything was read; nothing is while the compositor is silent.
    pub read: bool,
}

/// The events of one idle round.
pub open spec fn idle_round(round: IdleRound) -> Seq<DispatchEventView> {
    seq![
        DispatchEventView::Completed,
        DispatchEventView::Predicate(false),
        DispatchEventView::Remaining(round.left),
        DispatchEventView::Completed,
        DispatchEventView::Completed,
        if round.read {
            DispatchEventView::Completed
        } else {
            DispatchEventView::NothingRead
        },
    ]
}

/// The events of idle rounds that follow each other.
pub open spec fn idle_rounds(rounds: Seq<IdleRound>) -> Seq<DispatchEventView>
    decreases rounds.len(),
{
    if rounds.len() == 0 {
        Seq::empty()
    } else {
        idle_round(rounds[0]) + idle_rounds(rounds.skip(1))
    }
}

/// A run over two lists of events is the run over the first, carried on over the
/// second where the first has not ended.
proof fn run_concat(
    phase: DispatchPhase,
    first: Seq<DispatchEventView>,
    second: Seq<DispatchEventView>,
)
    ensures
        run(phase, first + second) == match run(phase, first) {
            DispatchNextView::Continue(after) => run(after, second),
            end => end,
        },
    decreases first.len(),
{
    if first.len() == 0 {
        assert(first + second =~= second);
    } else {
        assert((first + second)[0] == first[0]);
        assert((first + second).skip(1) =~= first.skip(1) + second);
        if let DispatchNextView::Continue(after) = next(phase, first[0]) {
            run_concat(after, first.skip(1), second);
        }
    }
}

/// One idle round leads back to where it began.
proof fn idle_round_returns(round: IdleRound)
    requires
        round.left > 0,
    ensures
        run(DispatchPhase::Dispatching, idle_round(round)) == DispatchNextView::Continue(
            DispatchPhase::Dispatching,
        ),
{
    reveal_with_fuel(run, 7);
    let events = idle_round(round);
    assert(events.skip(1).skip(1) =~= events.skip(2));
    assert(events.skip(2).skip(1) =~= events.skip(3));
    assert(events.skip(3).skip(1) =~= events.skip(4));
    assert(events.skip(4).skip(1) =~= events.skip(5));
    assert(events.skip(5).skip(1) =~= events.skip(6));
}

/// While nothing fails and time is left, the queue is driven round after round.
proof fn idle_rounds_return(rounds: Seq<IdleRound>)
    requires
        forall|i: int| 0 <= i < rounds.len() ==> (#[trigger] rounds[i]).left > 0,
    ensures
        run(DispatchPhase::Dispatching, idle_rounds(rounds)) == DispatchNextView::Continue(
            DispatchPhase::Dispatching,
        ),
    decreases rounds.len(),
{
    if rounds.len() > 0 {
        idle_round_returns(rounds[0]);
        idle_rounds_return(rounds.skip(1));
        run_concat(DispatchPhase::Dispatching, idle_round(rounds[0]), idle_rounds(rounds.skip(1)));
    }
}

/// However many rounds it takes, and whether or not the compositor sends anything
/// in them, a queue that is driven until its condition holds ends well, and one
/// whose deadline passes first ends in the timeout error.
pub proof fn driven_until_done_or_late(rounds: Seq<IdleRound>)
    requires
        forall|i: int| 0 <= i < rounds.len() ==> (#[trigger] rounds[i]).left > 0,
    ensures
        run(
            DispatchPhase::Dispatching,
            idle_rounds(rounds) + seq![
                DispatchEventView::Completed,
                DispatchEventView::Predicate(true),
            ],
        ) == DispatchNextView::Finished(Ok(())),
        run(
            DispatchPhase::Dispatching,
            idle_rounds(rounds) + seq![
                DispatchEventView::Completed,
                DispatchEventView::Predicate(false),
                DispatchEventView::Remaining(0),
            ],
        ) == timed_out(),
{
    let done = seq![DispatchEventView::Completed, DispatchEventView::Predicate(true)];
    let late = seq![
        DispatchEventView::Completed,
        DispatchEventView::Predicate(false),
        DispatchEventView::Remaining(0),
    ];
    idle_rounds_return(rounds);
    run_concat(DispatchPhase::Dispatching, idle_rounds(rounds), done);
    run_concat(DispatchPhase::Dispatching, idle_rounds(rounds), late);
    reveal_with_fuel(run, 4);
    assert(late.skip(1).skip(1) =~= late.skip(2));
}

/// Whether the last of `events` ended the run.
pub open spec fn just_ended(phase: DispatchPhase, events: Seq<DispatchEventView>) -> bool {
    &&& events.len() > 0
    &&& run(phase, events.drop_last()) is Continue
    &&& run(phase, events) is Finished
}

/// The last event is a step from where the events before it led.
proof fn run_last(phase: DispatchPhase, events: Seq<DispatchEventView>)
    requires
        events.len() > 0,
    ensures
        run(phase, events) == match run(phase, events.drop_last()) {
            DispatchNextView::Continue(at) => next(at, events.last()),
            end => end,
        },
{
    let last = seq![events.last()];
    assert(events =~= events.drop_last() + last);
    run_concat(phase, events.drop_last(), last);
    reveal_with_fuel(run, 2);
}

/// A run that has ended was ended by one of its events, and nothing after that
/// event changed the result.
pub proof fn ended_runs_were_ended_by_an_event(
    phase: DispatchPhase,
    events: Seq<DispatchEventView>,
)
    requires
        run(phase, events) is Finished,
    ensures
        exists|count: int|
            0 < count <= events.len() && just_ended(phase, #[trigger] events.take(count)) && run(
                phase,
                events.take(count),
            ) == run(phase, events),
    decreases events.len(),
{
    let before = events.drop_last();
    run_last(phase, events);
    if run(phase, before) is Continue {
        assert(events.take(events.len() as int) =~= events);
    } else {
        ended_runs_were_ended_by_an_event(phase, before);
        let count = choose|count: int|
            0 < count <= before.len() && just_ended(phase, #[trigger] before.take(count)) && run(
                phase,
                before.take(count),
            ) == run(phase, before);
        assert(events.take(count) =~= before.take(count));
    }
}

/// A run that just succeeded was ended by testing the condition and finding that
/// it holds.
pub proof fn success_answers_the_test(phase: DispatchPhase, events: Seq<DispatchEventView>)
    requires
        just_ended(phase, events),
        run(phase, events) == DispatchNextView::Finished(Ok(())),
    ensures
        run(phase, events.drop_last()) == DispatchNextView::Continue(DispatchPhase::Checking),
        events.last() == DispatchEventView::Predicate(true),
{
    run_last(phase, events);
}

/// The timeout error is no failure of an operation, whatever the failure's text.
proof fn timeout_is_no_failure(phase: DispatchPhase, error: Seq<char>)
    requires
        phase != DispatchPhase::Checking,
        phase != DispatchPhase::Timing,
    ensures
        failed(operation(phase), error) != timed_out(),
{
    reveal_strlit("Wayland capture timed out: compositor did not respond in time");
    reveal_strlit("Wayland dispatch failed: ");
    reveal_strlit("Wayland flush failed: ");
    reveal_strlit("poll failed: ");
    reveal_strlit("Wayland read failed: ");
    let text = "Wayland capture timed out: compositor did not respond in time"@;
    assert(text[8] == 'c');
    assert((operation(phase) + error)[8] == operation(phase)[8]);
    assert((operation(phase) + error)[8] != 'c');
}

/// Whether the condition was tested by event `test`, did not hold, and only the
/// clock was asked for after that.
pub open spec fn last_test_failed(events: Seq<DispatchEventView>, test: int) -> bool {
    &&& 0 <= test < events.len()
    &&& events[test] == DispatchEventView::Predicate(false)
    &&& run(DispatchPhase::Dispatching, events.take(test)) == DispatchNextView::Continue(
        DispatchPhase::Checking,
    )
    &&& forall|i: int|
        test < i <= events.len() ==> run(DispatchPhase::Dispatching, #[trigger] events.take(i))
            == DispatchNextView::Continue(DispatchPhase::Timing)
}

/// The clock is read only after the condition was tested and did not hold.
proof fn timing_follows_a_failed_test(events: Seq<DispatchEventView>) -> (test: int)
    requires
        run(DispatchPhase::Dispatching, events) == DispatchNextView::Continue(
            DispatchPhase::Timing,
        ),
    ensures
        last_test_failed(events, test),
    decreases events.len(),
{
    let start = DispatchPhase::Dispatching;
    let before = events.drop_last();
    run_last(start, events);
    assert(events.take(events.len() as int) =~= events);
    assert(events.take(before.len() as int) =~= before);
    if run(start, before) == DispatchNextView::Continue(DispatchPhase::Timing) {
        let test = timing_follows_a_failed_test(before);
        assert(events.take(test) =~= before.take(test));
        assert forall|i: int| test < i <= events.len() implies run(start, #[trigger] events.take(i))
            == DispatchNextView::Continue(DispatchPhase::Timing) by {
            if i < events.len() {
                assert(events.take(i) =~= before.take(i));
            }
        }
        test
    } else {
        events.len() - 1
    }
}

/// A run that just timed out was ended by reading the clock at the deadline, and
/// the last test of the condition before that had found that it does not hold.
pub proof fn timeout_follows_a_failed_test(events: Seq<DispatchEventView>)
    requires
        just_ended(DispatchPhase::Dispatching, events),
        run(DispatchPhase::Dispatching, events) == timed_out(),
    ensures
        run(DispatchPhase::Dispatching, events.drop_last()) == DispatchNextView::Continue(
            DispatchPhase::Timing,
        ),
        events.last() == DispatchEventView::Remaining(0),
        exists|test: int| last_test_failed(events.drop_last(), test),
{
    let before = events.drop_last();
    run_last(DispatchPhase::Dispatching, events);
    if let DispatchNextView::Continue(at) = run(DispatchPhase::Dispatching, before) {
        if let DispatchEventView::Failed(error) = events.last() {
            if at != DispatchPhase::Checking && at != DispatchPhase::Timing {
                timeout_is_no_failure(at, error);
            }
        }
    }
    let test = timing_follows_a_failed_test(before);
    assert(last_test_failed(before, test));
}

/// A read that finds nothing leads back to dispatching, and never ends a run.
pub proof fn silence_is_no_failure(phase: DispatchPhase)
    ensures
        next(DispatchPhase::Reading, DispatchEventView::NothingRead) == DispatchNextView::Continue(
            DispatchPhase::Dispatching,
        ),
        next(phase, DispatchEventView::NothingRead) is Continue,
{
}

/// The first operation that fails ends the run, with its name and the text of its
/// error.
pub proof fn failures_end_the_run(
    phase: DispatchPhase,
    before: Seq<DispatchEventView>,
    at: DispatchPhase,
    error: Seq<char>,
)
    requires
        run(phase, before) == DispatchNextView::Continue(at),
        at != DispatchPhase::Checking,
        at != DispatchPhase::Timing,
    ensures
        run(phase, before + seq![DispatchEventView::Failed(error)]) == failed(
            operation(at),
            error,
        ),
{
    let event = DispatchEventView::Failed(error);
    run_concat(phase, before, seq![event]);
    reveal_with_fuel(run, 2);
}

/// Whether event `at` read the clock with `nanos` left, and the clock was not read
/// again after that.
pub open spec fn last_clock_reading(
    events: Seq<DispatchEventView>,
    at: int,
    nanos: nat,
) -> bool {
    &&& 0 <= at < events.len()
    &&& events[at] == DispatchEventView::Remaining(nanos)
    &&& run(DispatchPhase::Dispatching, events.take(at)) == DispatchNextView::Continue(
        DispatchPhase::Timing,
    )
    &&& forall|i: int|
        at < i <= events.len() ==> (run(DispatchPhase::Dispatching, #[trigger] events.take(i))
            matches DispatchNextView::Continue(phase) && phase != DispatchPhase::Timing)
}

/// A flush or a poll carries the milliseconds of the last reading of the clock.
proof fn time_comes_from_the_clock(events: Seq<DispatchEventView>, millis: u16) -> (reading: (
    int,
    nat,
))
    requires
        run(DispatchPhase::Dispatching, events) == DispatchNextView::Continue(
            DispatchPhase::Flushing(millis),
        ) || run(DispatchPhase::Dispatching, events) == DispatchNextView::Continue(
            DispatchPhase::Polling(millis),
        ),
    ensures
        last_clock_reading(events, reading.0, reading.1),
        reading.1 > 0,
        reading.1 / 1_000_000 <= 65535 ==> millis == reading.1 / 1_000_000,
        reading.1 / 1_000_000 > 65535 ==> millis == 65535,
    decreases events.len(),
{
    let first = DispatchPhase::Dispatching;
    let before = events.drop_last();
    run_last(first, events);
    assert(events.take(events.len() as int) =~= events);
    assert(events.take(before.len() as int) =~= before);
    if run(first, before) == DispatchNextView::Continue(DispatchPhase::Timing) {
        (events.len() - 1, events.last()->Remaining_0)
    } else {
        let (at, nanos) = time_comes_from_the_clock(before, millis);
        assert(events.take(at) =~= before.take(at));
        assert forall|i: int| at < i <= events.len() implies (run(first, #[trigger] events.take(i))
            matches DispatchNextView::Continue(phase) && phase != DispatchPhase::Timing) by {
            if i < events.len() {
                assert(events.take(i) =~= before.take(i));
            }
        }
        (at, nanos)
    }
}

/// In every run, a poll is asked for after a reading of the clock before the
/// deadline, and for the whole milliseconds that this last reading left, up to the
/// largest poll timeout: it never outlasts the deadline.
pub proof fn polls_are_bounded_by_the_clock(events: Seq<DispatchEventView>, millis: u16)
    requires
        run(DispatchPhase::Dispatching, events) == DispatchNextView::Continue(
            DispatchPhase::Polling(millis),
        ),
    ensures
        exists|at: int, nanos: nat| #[trigger]
            last_clock_reading(events, at, nanos) && nanos > 0 && millis * 1_000_000 <= nanos && (
            millis == 65535 || nanos < (millis + 1) * 1_000_000),
{
    let (at, nanos) = time_comes_from_the_clock(events, millis);
    assert(last_clock_reading(events, at, nanos));
}

/// A completed flush hands its milliseconds to the poll unchanged.
pub proof fn flushes_keep_the_poll_timeout(millis: u16)
    ensures
        next(DispatchPhase::Flushing(millis), DispatchEventView::Completed)
            == DispatchNextView::Continue(DispatchPhase::Polling(millis)),
{
}

/// Before the deadline, a reading of the clock leads to a flush, with as many whole
/// milliseconds for the poll as are left and a poll timeout holds.
pub proof fn clock_readings_set_the_poll_timeout(nanos: nat)
    requires
        nanos > 0,
    ensures
        next(DispatchPhase::Timing, DispatchEventView::Remaining(nanos)) matches
            DispatchNextView::Continue(DispatchPhase::Flushing(millis)) && millis * 1_000_000
            <= nanos && (millis == 65535 || nanos < (millis + 1) * 1_000_000),
{
}

/// Each operation that completes is followed by the next one of the round, and a
/// condition that does not hold by the clock.
pub proof fn rounds_go_through_every_phase(millis: u16)
    ensures
        next(DispatchPhase::Dispatching, DispatchEventView::Completed)
            == DispatchNextView::Continue(DispatchPhase::Checking),
        next(DispatchPhase::Checking, DispatchEventView::Predicate(false))
            == DispatchNextView::Continue(DispatchPhase::Timing),
        next(DispatchPhase::Checking, DispatchEventView::Predicate(true))
            == DispatchNextView::Finished(Ok(())),
        next(DispatchPhase::Polling(millis), DispatchEventView::Completed)
            == DispatchNextView::Continue(DispatchPhase::Reading),
        next(DispatchPhase::Reading, DispatchEventView::Completed) == DispatchNextView::Continue(
            DispatchPhase::Dispatching,
        ),
{
}

/// Every error names its operation in words and ends with the text of its cause;
/// the deadline has words of its own.
pub proof fn errors_say_what_failed(millis: u16, error: Seq<char>)
    ensures
        next(DispatchPhase::Dispatching, DispatchEventView::Failed(error))
            == DispatchNextView::Finished(
            Err(AppErrorView::Wayland("Wayland dispatch failed: "@ + error)),
        ),
        next(DispatchPhase::Flushing(millis), DispatchEventView::Failed(error))
            == DispatchNextView::Finished(
            Err(AppErrorView::Wayland("Wayland flush failed: "@ + error)),
        ),
        next(DispatchPhase::Polling(millis), DispatchEventView::Failed(error))
            == DispatchNextView::Finished(Err(AppErrorView::Wayland("poll failed: "@ + error))),
        next(DispatchPhase::Reading, DispatchEventView::Failed(error))
            == DispatchNextView::Finished(
            Err(AppErrorView::Wayland("Wayland read failed: "@ + error)),
        ),
        next(DispatchPhase::Timing, DispatchEventView::Remaining(0)) == DispatchNextView::Finished(
            Err(
                AppErrorView::Wayland(
                    "Wayland capture timed out: compositor did not respond in time"@,
                ),
            ),
        ),
{
}

/// An event that is no answer to what is being done changes nothing.
pub proof fn unasked_events_change_nothing(phase: DispatchPhase, event: DispatchEventView)
    requires
        match event {
            DispatchEventView::Predicate(_) => phase != DispatchPhase::Checking,
            DispatchEventView::Remaining(_) => phase != DispatchPhase::Timing,
            DispatchEventView::NothingRead => phase != DispatchPhase::Reading,
            DispatchEventView::Completed | DispatchEventView::Failed(_) => phase
                == DispatchPhase::Checking || phase == DispatchPhase::Timing,
        },
    ensures
        next(phase, event) == DispatchNextView::Continue(phase),
{
}

/// The views of events and of what follows them keep everything.
pub proof fn dispatch_views_keep_everything(event: DispatchEvent, after: DispatchNext)
    ensures
        match event {
            DispatchEvent::Completed => event@ == DispatchEventView::Completed,
            DispatchEvent::NothingRead => event@ == DispatchEventView::NothingRead,
            DispatchEvent::Failed(text) => event@ == DispatchEventView::Failed(text@),
            DispatchEvent::Predicate(done) => event@ == DispatchEventView::Predicate(done),
            DispatchEvent::Remaining(nanos) => event@ == DispatchEventView::Remaining(
                nanos as nat,
            ),
        },
        match after {
            DispatchNext::Continue(phase) => after@ == DispatchNextView::Continue(phase),
            DispatchNext::Finished(Ok(_)) => after@ == DispatchNextView::Finished(Ok(())),
            DispatchNext::Finished(Err(error)) => after@ == DispatchNextView::Finished(
                Err(error@),
            ),
        },
{
}

/// What has arrived is dispatched before anything else: nothing is tested, timed,
/// flushed, polled or read before a first dispatch has completed.
pub proof fn dispatching_comes_first(event: DispatchEventView)
    ensures
        first_phase() == DispatchPhase::Dispatching,
        event != DispatchEventView::Completed ==> (next(first_phase(), event)
            == DispatchNextView::Continue(first_phase()) || next(first_phase(), event) matches
            DispatchNextView::Finished(Err(_))),
{
}

} // verus!
