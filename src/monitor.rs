//! The integrity monitor: a state machine that holds a trusted baseline
//! digest and, on each polling cycle, decides from the artifact's current
//! reading whether to keep polling or to halt.
//!
//! Waiting on the interval timer and reading the artifact are done by the
//! caller; the monitor only takes the outcome of each read and returns the
//! signal of that cycle.

use vstd::prelude::*;
use crate::checksum::Digest;

verus! {

/// The three states of the monitor. `Halted` is terminal.
#[derive(Clone, Copy, Debug, PartialEq, Eq, Structural)]
pub enum MonitorState {
    Armed,
    Polling,
    Halted,
}

/// The outcome of one read of the monitored artifact by the checksum engine.
#[derive(Clone, Copy, Debug)]
pub enum Reading {
    /// The artifact was read and hashed to this digest.
    Read(Digest),
    /// The artifact could not be opened or read.
    Unreadable,
}

/// What the monitor emits at the end of a polling cycle.
#[derive(Clone, Copy, Debug, PartialEq, Eq)]
pub enum Signal {
    /// The current digest equals the trusted baseline.
    Intact,
    /// The current digest differs from the trusted baseline.
    Alert { expected: Digest, actual: Digest },
    /// The artifact could not be read.
    Unreadable,
}

/// Whether a reading is a digest equal to the trusted baseline.
pub open spec fn reading_matches(trusted: Digest, reading: Reading) -> bool {
    match reading {
        Reading::Read(d) => d@ == trusted@,
        Reading::Unreadable => false,
    }
}

/// The signal of a polling cycle that read `reading`.
pub open spec fn cycle_signal(trusted: Digest, reading: Reading) -> Signal {
    match reading {
        Reading::Read(d) => if d@ == trusted@ {
            Signal::Intact
        } else {
            Signal::Alert { expected: trusted, actual: d }
        },
        Reading::Unreadable => Signal::Unreadable,
    }
}

/// The state after a polling cycle that read `reading`.
pub open spec fn cycle_state(trusted: Digest, reading: Reading) -> MonitorState {
    if reading_matches(trusted, reading) {
        MonitorState::Polling
    } else {
        MonitorState::Halted
    }
}

/// The signals emitted and the final state when a monitor in `state` is
/// handed the readings `rs` one per cycle. A cycle runs only while the
/// monitor is polling; once it stops, the remaining readings are never taken.
pub open spec fn run_from(trusted: Digest, state: MonitorState, rs: Seq<Reading>) -> (Seq<
    Signal,
>, MonitorState)
    decreases rs.len(),
{
    if state != MonitorState::Polling || rs.len() == 0 {
        (Seq::empty(), state)
    } else {
        let rest = run_from(trusted, cycle_state(trusted, rs[0]), rs.drop_first());
        (seq![cycle_signal(trusted, rs[0])] + rest.0, rest.1)
    }
}

/// The integrity monitor of one artifact.
pub struct Monitor {
    trusted: Digest,
    path: String,
    interval_secs: u64,
    state: MonitorState,
}

impl Monitor {
    pub closed spec fn spec_trusted(&self) -> Digest {
        self.trusted
    }

    pub closed spec fn spec_path(&self) -> Seq<char> {
        self.path@
    }

    pub closed spec fn spec_interval_secs(&self) -> u64 {
        self.interval_secs
    }

    pub closed spec fn spec_state(&self) -> MonitorState {
        self.state
    }

    /// A monitor of the artifact at `path`, armed with the trusted baseline
    /// `trusted`, that polls every `interval_secs` seconds.
    pub fn new(trusted: Digest, path: String, interval_secs: u64) -> (m: Monitor)
        ensures
            m.spec_trusted() == trusted,
            m.spec_path() == path@,
            m.spec_interval_secs() == interval_secs,
            m.spec_state() == MonitorState::Armed,
    {
        Monitor { trusted, path, interval_secs, state: MonitorState::Armed }
    }

    /// Moves an armed monitor to polling; any other state is left as it is.
    pub fn start(&mut self)
        ensures
            final(self).spec_trusted() == old(self).spec_trusted(),
            final(self).spec_path() == old(self).spec_path(),
            final(self).spec_interval_secs() == old(self).spec_interval_secs(),
            final(self).spec_state() == (if old(self).spec_state() == MonitorState::Armed {
                MonitorState::Polling
            } else {
                old(self).spec_state()
            }),
    {
        if self.state == MonitorState::Armed {
            self.state = MonitorState::Polling;
        }
    }

    /// Whether a polling cycle is due: true exactly while the monitor polls.
    pub fn is_polling(&self) -> (r: bool)
        ensures
            r == (self.spec_state() == MonitorState::Polling),
    {
        self.state == MonitorState::Polling
    }

    /// Whether the monitor has stopped for good.
    pub fn is_halted(&self) -> (r: bool)
        ensures
            r == (self.spec_state() == MonitorState::Halted),
    {
        self.state == MonitorState::Halted
    }

    /// Ends a polling cycle with the reading the checksum engine produced.
    /// A polling monitor returns the cycle's signal and stays polling on a
    /// match, halting otherwise; a monitor that is not polling runs no
    /// cycle, returns `None` and is left unchanged.
    pub fn observe(&mut self, reading: Reading) -> (r: Option<Signal>)
        ensures
            final(self).spec_trusted() == old(self).spec_trusted(),
            final(self).spec_path() == old(self).spec_path(),
            final(self).spec_interval_secs() == old(self).spec_interval_secs(),
            old(self).spec_state() == MonitorState::Polling ==> r == Some(
                cycle_signal(old(self).spec_trusted(), reading),
            ) && final(self).spec_state() == cycle_state(old(self).spec_trusted(), reading),
            old(self).spec_state() != MonitorState::Polling ==> r == None::<Signal>
                && final(self).spec_state() == old(self).spec_state(),
    {
        if self.state != MonitorState::Polling {
            return None;
        }
        match reading {
            Reading::Read(current) => {
                if current == self.trusted {
                    Some(Signal::Intact)
                } else {
                    self.state = MonitorState::Halted;
                    Some(Signal::Alert { expected: self.trusted, actual: current })
                }
            },
            Reading::Unreadable => {
                self.state = MonitorState::Halted;
                Some(Signal::Unreadable)
            },
        }
    }
    /// Runs polling cycles on `readings` in order, one reading per cycle,
    /// for as long as the monitor polls, and returns the signals emitted.
    /// Readings after the cycle that halts the monitor are never taken.
    pub fn run_cycles(&mut self, readings: &[Reading]) -> (signals: Vec<Signal>)
        ensures
            final(self).spec_trusted() == old(self).spec_trusted(),
            final(self).spec_path() == old(self).spec_path(),
            final(self).spec_interval_secs() == old(self).spec_interval_secs(),
            (signals@, final(self).spec_state()) == run_from(
                old(self).spec_trusted(),
                old(self).spec_state(),
                readings@,
            ),
    {
        let ghost trusted = self.spec_trusted();
        let ghost whole = run_from(trusted, self.spec_state(), readings@);
        let mut signals: Vec<Signal> = Vec::new();
        let mut i: usize = 0;
        assert(readings@.subrange(0, readings@.len() as int) =~= readings@);
        assert(signals@ + whole.0 =~= whole.0);
        while i < readings.len() && self.is_polling()
            invariant
                i <= readings@.len(),
                self.spec_trusted() == trusted,
                self.spec_path() == old(self).spec_path(),
                self.spec_interval_secs() == old(self).spec_interval_secs(),
                whole.0 == signals@ + run_from(
                    trusted,
                    self.spec_state(),
                    readings@.subrange(i as int, readings@.len() as int),
                ).0,
                whole.1 == run_from(
                    trusted,
                    self.spec_state(),
                    readings@.subrange(i as int, readings@.len() as int),
                ).1,
            decreases readings@.len() - i,
        {
            let ghost tail = readings@.subrange(i as int, readings@.len() as int);
            assert(tail.drop_first() =~= readings@.subrange(i + 1, readings@.len() as int));
            assert(tail[0] == readings@[i as int]);
            let emitted = self.observe(readings[i]);
            if let Some(signal) = emitted {
                signals.push(signal);
            }
            i = i + 1;
            assert(whole.0 =~= signals@ + run_from(
                trusted,
                self.spec_state(),
                readings@.subrange(i as int, readings@.len() as int),
            ).0);
        }
        assert(signals@ + Seq::<Signal>::empty() =~= signals@);
        signals
    }
    /// The trusted baseline digest.
    pub fn trusted(&self) -> (r: Digest)
        ensures
            r == self.spec_trusted(),
    {
        self.trusted
    }

    /// The path of the monitored artifact.
    pub fn path(&self) -> (r: &str)
        ensures
            r@ == self.spec_path(),
    {
        self.path.as_str()
    }

    /// The polling interval, in seconds.
    pub fn interval_secs(&self) -> (r: u64)
        ensures
            r == self.spec_interval_secs(),
    {
        self.interval_secs
    }

    /// The current state.
    pub fn state(&self) -> (r: MonitorState)
        ensures
            r == self.spec_state(),
    {
        self.state
    }
}

/// Once the monitor has halted it runs no further cycle: whatever readings
/// are offered, it emits nothing and stays halted.
pub proof fn lemma_halted_is_final(trusted: Digest, rs: Seq<Reading>)
    ensures
        run_from(trusted, MonitorState::Halted, rs) == (Seq::<Signal>::empty(), MonitorState::Halted),
{
}

/// A polling monitor whose first `k` readings match the baseline and whose
/// reading `k` does not (a changed digest or an unreadable artifact) runs
/// exactly `k + 1` cycles: `k` intact ones, then the one that signals the
/// failure and halts. No reading after it is taken.
pub proof fn lemma_stops_after_first_failure(trusted: Digest, rs: Seq<Reading>, k: int)
    requires
        0 <= k < rs.len(),
        forall|j: int| 0 <= j < k ==> reading_matches(trusted, #[trigger] rs[j]),
        !reading_matches(trusted, rs[k]),
    ensures
        run_from(trusted, MonitorState::Polling, rs).1 == MonitorState::Halted,
        run_from(trusted, MonitorState::Polling, rs).0.len() == k + 1,
        run_from(trusted, MonitorState::Polling, rs).0[k] == cycle_signal(trusted, rs[k]),
        forall|j: int|
            0 <= j < k ==> #[trigger] run_from(trusted, MonitorState::Polling, rs).0[j]
                == Signal::Intact,
    decreases k,
{
    let rest = run_from(trusted, cycle_state(trusted, rs[0]), rs.drop_first());
    if k == 0 {
        lemma_halted_is_final(trusted, rs.drop_first());
    } else {
        assert(reading_matches(trusted, rs[0]));
        lemma_stops_after_first_failure(trusted, rs.drop_first(), k - 1);
    }
}

/// A polling monitor whose readings all match the baseline emits an intact
/// signal on every cycle and never leaves the polling state.
pub proof fn lemma_intact_cycles_keep_polling(trusted: Digest, rs: Seq<Reading>)
    requires
        forall|j: int| 0 <= j < rs.len() ==> reading_matches(trusted, #[trigger] rs[j]),
    ensures
        run_from(trusted, MonitorState::Polling, rs).1 == MonitorState::Polling,
        run_from(trusted, MonitorState::Polling, rs).0 == Seq::new(
            rs.len(),
            |j: int| Signal::Intact,
        ),
    decreases rs.len(),
{
    if rs.len() > 0 {
        assert(reading_matches(trusted, rs[0]));
        lemma_intact_cycles_keep_polling(trusted, rs.drop_first());
        assert(run_from(trusted, MonitorState::Polling, rs).0 =~= Seq::new(
            rs.len(),
            |j: int| Signal::Intact,
        ));
    } else {
        assert(run_from(trusted, MonitorState::Polling, rs).0 =~= Seq::new(
            rs.len(),
            |j: int| Signal::Intact,
        ));
    }
}

} // verus!
