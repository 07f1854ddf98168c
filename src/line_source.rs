//! The line source worker: owns the serial connection for one run, reads lines,
//! and hands each record to the event stream and to the sound worker's queue.
use vstd::prelude::*;
use crate::fields::{parse_line, parse_record, texts};

verus! {

/// Where a line source worker stands in its run.
#[derive(Clone, Copy, Debug, PartialEq, Eq, Structural)]
pub enum LineState {
    /// Waiting for the serial port to open.
    Opening,
    /// About to consult the shutdown signal before the next read.
    Polling,
    /// A read is in flight.
    Reading,
    /// A record is being published and forwarded.
    Delivering,
    /// Done; no more reads and no more records.
    Finished,
}

/// What the surrounding loop reports to a line source worker.
#[derive(Clone, Debug)]
pub enum LineEvent {
    /// The serial port is open.
    Opened,
    /// The serial port could not be opened.
    OpenFailed,
    /// The shutdown signal was consulted.
    Polled { stop_requested: bool },
    /// A line was read, with its line end.
    LineRead(String),
    /// The read timed out with no line.
    ReadTimedOut,
    /// The read failed.
    ReadFailed,
    /// The record reached both the event stream and the queue.
    Delivered,
    /// Publishing the record to the event stream failed.
    PublishFailed,
    /// Forwarding the record to the queue failed: its consumer is gone.
    ForwardFailed,
}

/// What a line source worker asks the surrounding loop to do next.
#[derive(Clone, Debug)]
pub enum LineAction {
    /// Consult the shutdown signal and report it.
    Poll,
    /// Read one line, waiting at most the read timeout.
    Read,
    /// Publish the record to the event stream, then forward it to the queue.
    Deliver(Vec<String>),
    /// End the run.
    Finish,
}

/// A `LineAction` with its record seen as the text of each field.
pub enum LinePlan {
    Poll,
    Read,
    Deliver(Seq<Seq<char>>),
    Finish,
}

impl LineAction {
    pub open spec fn view(&self) -> LinePlan {
        match self {
            LineAction::Poll => LinePlan::Poll,
            LineAction::Read => LinePlan::Read,
            LineAction::Deliver(fields) => LinePlan::Deliver(texts(fields@)),
            LineAction::Finish => LinePlan::Finish,
        }
    }
}

/// The next state and plan of a line source worker in `state` on `event`. An
/// event that does not fit the state ends the run.
pub open spec fn line_step(state: LineState, event: LineEvent) -> (LineState, LinePlan) {
    match (state, event) {
        (LineState::Opening, LineEvent::Opened) => (LineState::Polling, LinePlan::Poll),
        (LineState::Polling, LineEvent::Polled { stop_requested }) => if stop_requested {
            (LineState::Finished, LinePlan::Finish)
        } else {
            (LineState::Reading, LinePlan::Read)
        },
        (LineState::Reading, LineEvent::LineRead(line)) => match parse_record(line@) {
            Some(fields) => (LineState::Delivering, LinePlan::Deliver(fields)),
            None => (LineState::Polling, LinePlan::Poll),
        },
        (LineState::Reading, LineEvent::ReadTimedOut) => (LineState::Polling, LinePlan::Poll),
        (LineState::Delivering, LineEvent::Delivered) => (LineState::Polling, LinePlan::Poll),
        _ => (LineState::Finished, LinePlan::Finish),
    }
}

/// The plans of a line source worker that starts in `state` and sees `events`.
pub open spec fn line_run(state: LineState, events: Seq<LineEvent>) -> Seq<LinePlan>
    decreases events.len(),
{
    if events.len() == 0 {
        Seq::empty()
    } else {
        let (next, plan) = line_step(state, events[0]);
        seq![plan] + line_run(next, events.drop_first())
    }
}

/// The decisions of one line source worker run.
pub struct LineSource {
    pub state: LineState,
}

impl LineSource {
    /// A worker at the start of a run, before the port is open.
    pub fn new() -> (r: LineSource)
        ensures
            r.state == LineState::Opening,
    {
        LineSource { state: LineState::Opening }
    }

    /// Takes in one event and says what to do next.
    pub fn step(&mut self, event: LineEvent) -> (action: LineAction)
        ensures
            (final(self).state, action@) == line_step(old(self).state, event),
    {
        match (self.state, event) {
            (LineState::Opening, LineEvent::Opened) => {
                self.state = LineState::Polling;
                LineAction::Poll
            },
            (LineState::Polling, LineEvent::Polled { stop_requested }) => {
                if stop_requested {
                    self.state = LineState::Finished;
                    LineAction::Finish
                } else {
                    self.state = LineState::Reading;
                    LineAction::Read
                }
            },
            (LineState::Reading, LineEvent::LineRead(line)) => match parse_line(line.as_str()) {
                Some(fields) => {
                    self.state = LineState::Delivering;
                    LineAction::Deliver(fields)
                },
                None => {
                    self.state = LineState::Polling;
                    LineAction::Poll
                },
            },
            (LineState::Reading, LineEvent::ReadTimedOut) => {
                self.state = LineState::Polling;
                LineAction::Poll
            },
            (LineState::Delivering, LineEvent::Delivered) => {
                self.state = LineState::Polling;
                LineAction::Poll
            },
            _ => {
                self.state = LineState::Finished;
                LineAction::Finish
            },
        }
    }

    /// Whether the run is over.
    pub fn is_finished(&self) -> (r: bool)
        ensures
            r == (self.state == LineState::Finished),
    {
        self.state == LineState::Finished
    }
}

/// Once finished, a line source worker stays finished: it neither reads nor
/// delivers again, whatever it is told.
pub proof fn law_finished_stays_quiet(events: Seq<LineEvent>)
    ensures
        line_run(LineState::Finished, events).len() == events.len(),
        forall|i: int|
            0 <= i < events.len() ==> #[trigger] line_run(LineState::Finished, events)[i]
                == LinePlan::Finish,
    decreases events.len(),
{
    if events.len() > 0 {
        law_finished_stays_quiet(events.drop_first());
    }
}

/// A line source worker that finds the shutdown signal set ends its run at
/// once, and delivers no record after that.
pub proof fn law_stop_ends_reading(later: Seq<LineEvent>)
    ensures
        ({
            let plans = line_run(
                LineState::Polling,
                seq![LineEvent::Polled { stop_requested: true }] + later,
            );
            &&& plans.len() == later.len() + 1
            &&& forall|i: int| 0 <= i < plans.len() ==> #[trigger] plans[i] == LinePlan::Finish
        }),
{
    let events = seq![LineEvent::Polled { stop_requested: true }] + later;
    assert(events.drop_first() =~= later);
    law_finished_stays_quiet(later);
    let plans = line_run(LineState::Polling, events);
    assert forall|i: int| 0 <= i < plans.len() implies #[trigger] plans[i] == LinePlan::Finish by {
        if i > 0 {
            assert(plans[i] == line_run(LineState::Finished, later)[i - 1]);
        }
    }
}

} // verus!
