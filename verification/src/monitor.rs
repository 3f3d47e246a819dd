//! One turn of the read loop.
//!
//! The caller reads from the device and reads the clock; [`Monitor::step`]
//! says what to do with what came: which text to write, what to report, and
//! whether to go on. Nothing that the device does ends the session but
//! silence after text, and that only where a timeout is configured.

use crate::decode::{head_of, piece_views, scan, Decoder, Head, Piece, PieceView};
use crate::idle::IdleTracker;
use vstd::prelude::*;

verus! {

/// What one attempt to read from the device gave.
#[derive(Debug)]
pub enum ReadEvent {
    /// These bytes arrived. There may be none.
    Data(Vec<u8>),
    /// Nothing arrived within the time allowed for one read.
    TimedOut,
    /// The read failed for another reason than time.
    Failed,
}

/// A [`ReadEvent`] as contracts speak of it.
pub enum ReadEventView {
    Data(Seq<u8>),
    TimedOut,
    Failed,
}

impl View for ReadEvent {
    type V = ReadEventView;

    open spec fn view(&self) -> ReadEventView {
        match self {
            ReadEvent::Data(bytes) => ReadEventView::Data(bytes@),
            ReadEvent::TimedOut => ReadEventView::TimedOut,
            ReadEvent::Failed => ReadEventView::Failed,
        }
    }
}

/// Whether the loop takes another turn.
#[derive(Clone, Copy, Debug, PartialEq, Eq, Structural)]
pub enum Decision {
    /// Read again.
    Continue,
    /// The idle timeout has fired: leave the loop and end normally.
    Stop,
}

/// What one turn of the loop asks of the caller.
#[derive(Debug)]
pub struct Step {
    /// What decoding found, in stream order: characters go to the output,
    /// malformed sequences are reported with their bytes.
    pub output: Vec<Piece>,
    /// Whether the failure of the read is to be reported. The loop goes on
    /// after it.
    pub report_failure: bool,
    /// Whether the loop takes another turn.
    pub decision: Decision,
}

/// A [`Step`] as contracts speak of it.
pub struct StepView {
    pub output: Seq<PieceView>,
    pub report_failure: bool,
    pub decision: Decision,
}

impl View for Step {
    type V = StepView;

    open spec fn view(&self) -> StepView {
        StepView {
            output: piece_views(self.output@),
            report_failure: self.report_failure,
            decision: self.decision,
        }
    }
}

/// Whether one of the pieces is a character.
pub open spec fn has_char(pieces: Seq<PieceView>) -> bool {
    exists|i: int| 0 <= i < pieces.len() && #[trigger] pieces[i] is Char
}

/// The state of a [`Monitor`] as contracts speak of it.
pub struct MonitorView {
    /// The silence after which the session ends, in milliseconds, if any.
    pub idle_timeout: Option<u64>,
    /// The bytes that the decoder holds back.
    pub held: Seq<u8>,
    /// What is remembered of the line's activity.
    pub tracker: IdleTracker,
}

impl MonitorView {
    /// The state at the start of a session.
    pub open spec fn initial(idle_timeout: Option<u64>) -> MonitorView {
        MonitorView { idle_timeout, held: Seq::empty(), tracker: IdleTracker::initial() }
    }

    /// Whether the state is one that a [`Monitor`] can be in: what is held
    /// back is a partial head.
    pub open spec fn is_valid(self) -> bool {
        head_of(self.held) == Head::Partial
    }

    /// What decoding finds when `event` comes in this state.
    pub open spec fn found(self, event: ReadEventView) -> Seq<PieceView> {
        match event {
            ReadEventView::Data(bytes) => scan(self.held + bytes).pieces,
            _ => Seq::empty(),
        }
    }

    /// The state after `event` came at `now`. A turn that brings at least
    /// one character marks the line as active at `now`; no other turn
    /// touches the tracker.
    pub open spec fn next(self, event: ReadEventView, now: u64) -> MonitorView {
        MonitorView {
            idle_timeout: self.idle_timeout,
            held: match event {
                ReadEventView::Data(bytes) => scan(self.held + bytes).rest,
                _ => self.held,
            },
            tracker: if has_char(self.found(event)) {
                self.tracker.recorded(now)
            } else {
                self.tracker
            },
        }
    }

    /// What the turn in which `event` came at `now` asks of the caller.
    pub open spec fn outcome(self, event: ReadEventView, now: u64) -> StepView {
        StepView {
            output: self.found(event),
            report_failure: event is Failed,
            decision: if self.next(event, now).tracker.is_expired(self.idle_timeout, now) {
                Decision::Stop
            } else {
                Decision::Continue
            },
        }
    }
}

/// Finds out whether one of the pieces is a character.
pub fn contains_char(pieces: &Vec<Piece>) -> (found: bool)
    ensures
        found == has_char(piece_views(pieces@)),
{
    let mut i: usize = 0;
    while i < pieces.len()
        invariant
            i <= pieces.len(),
            forall|j: int| 0 <= j < i ==> !(#[trigger] piece_views(pieces@)[j] is Char),
        decreases pieces.len() - i,
    {
        match &pieces[i] {
            Piece::Char(_) => {
                assert(piece_views(pieces@)[i as int] is Char);
                return true;
            },
            Piece::Malformed(_) => {},
        }
        i = i + 1;
    }
    false
}

/// The read loop's state: the configured timeout, the decoder and the idle
/// tracker.
#[derive(Debug)]
pub struct Monitor {
    idle_timeout: Option<u64>,
    decoder: Decoder,
    tracker: IdleTracker,
}

impl View for Monitor {
    type V = MonitorView;

    closed spec fn view(&self) -> MonitorView {
        MonitorView { idle_timeout: self.idle_timeout, held: self.decoder@, tracker: self.tracker }
    }
}

impl Monitor {
    /// A monitor at the start of a session: nothing received, nothing held
    /// back. `idle_timeout` is in milliseconds; without one the session
    /// never ends by itself.
    pub fn new(idle_timeout: Option<u64>) -> (monitor: Monitor)
        ensures
            monitor@ == MonitorView::initial(idle_timeout),
    {
        Monitor { idle_timeout, decoder: Decoder::new(), tracker: IdleTracker::new() }
    }

    /// The configured idle timeout, in milliseconds.
    pub fn idle_timeout(&self) -> (limit: Option<u64>)
        ensures
            limit == self@.idle_timeout,
    {
        self.idle_timeout
    }

    /// What is remembered of the line's activity.
    pub fn tracker(&self) -> (tracker: IdleTracker)
        ensures
            tracker == self@.tracker,
    {
        self.tracker
    }

    /// The bytes that the decoder holds back: a partial head.
    pub fn held(&self) -> (bytes: &[u8])
        ensures
            bytes@ == self@.held,
            self@.is_valid(),
    {
        self.decoder.pending()
    }

    /// Takes one turn of the loop: `event` is what the read gave, `now` the
    /// clock's reading in milliseconds after the read.
    ///
    /// Bytes are decoded together with what was held back. A timeout of the
    /// read is nothing to act on. A failed read is reported and the loop goes
    /// on. Whatever came, the turn ends the session exactly if a timeout is
    /// configured, a character has been received in this turn or before,
    /// and the last one came more than the timeout before `now`.
    pub fn step(&mut self, event: &ReadEvent, now: u64) -> (step: Step)
        ensures
            final(self)@ == old(self)@.next(event@, now),
            step@ == old(self)@.outcome(event@, now),
    {
        let mut output: Vec<Piece> = Vec::new();
        let mut report_failure = false;
        assert(piece_views(output@) =~= Seq::<PieceView>::empty());
        match event {
            ReadEvent::Data(bytes) => {
                output = self.decoder.feed(bytes.as_slice());
                if contains_char(&output) {
                    self.tracker.record(now);
                }
            },
            ReadEvent::TimedOut => {},
            ReadEvent::Failed => {
                report_failure = true;
            },
        }
        let decision = if self.tracker.expired(self.idle_timeout, now) {
            Decision::Stop
        } else {
            Decision::Continue
        };
        Step { output, report_failure, decision }
    }
}

} // verus!
