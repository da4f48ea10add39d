use vstd::prelude::*;

use crate::Error;

verus! {

/// One entry of a pulse-train waveform: a first level held for `length1`
/// ticks, then a second level held for `length2` ticks. An entry with both
/// lengths zero ends the waveform.
#[derive(Clone, Copy, Debug, PartialEq, Eq, Structural)]
pub struct PulseCode {
    pub level1: bool,
    pub length1: u16,
    pub level2: bool,
    pub length2: u16,
}

/// Who holds the single pulse-train channel.
#[derive(Clone, Copy, Debug, PartialEq, Eq, Structural)]
pub enum ChannelState {
    /// Not configured yet, or lost after a failed transmission.
    Uninitialized,
    /// Configured and free for the next pulse.
    Idle,
    /// Handed to a transmission that has not been reclaimed.
    InFlight,
}

/// What the hardware reported about a submitted pulse.
#[derive(Clone, Copy, Debug, PartialEq, Eq, Structural)]
pub enum PulseOutcome {
    /// Configuring the channel was rejected; nothing was sent.
    ConfigFailed,
    /// The waveform was submitted and not waited for.
    Submitted,
    /// The transmission finished and the channel came back.
    Completed,
    /// Waiting for the transmission failed; the channel is lost.
    Failed,
}

/// A pulse for the hardware to emit: configure the channel first if
/// `configure`, transmit `codes`, and wait for the end if `wait`.
#[derive(Debug)]
pub struct PulseJob {
    pub configure: bool,
    pub codes: Vec<PulseCode>,
    pub wait: bool,
}

/// The end-of-waveform marker.
pub open spec fn end_marker() -> PulseCode {
    PulseCode { level1: false, length1: 0, level2: false, length2: 0 }
}

/// The waveform of a pulse: `high` ticks high then `low` ticks low; when
/// `high` is zero, a single high segment of `low` ticks. Always closed by
/// the end marker.
pub open spec fn waveform_spec(high: u16, low: u16) -> Seq<PulseCode> {
    if high > 0 {
        seq![PulseCode { level1: true, length1: high, level2: false, length2: low }, end_marker()]
    } else {
        seq![PulseCode { level1: true, length1: low, level2: false, length2: 0 }, end_marker()]
    }
}

/// Whether a new pulse may be submitted from channel state `s`; if so the
/// channel becomes in flight.
pub open spec fn acquire(s: ChannelState) -> Result<ChannelState, Error> {
    match s {
        ChannelState::InFlight => Err(Error::ChannelUnavailable),
        _ => Ok(ChannelState::InFlight),
    }
}

/// The channel state once the hardware has reported `o`.
pub open spec fn finish_state(o: PulseOutcome) -> ChannelState {
    match o {
        PulseOutcome::ConfigFailed => ChannelState::Uninitialized,
        PulseOutcome::Submitted => ChannelState::InFlight,
        PulseOutcome::Completed => ChannelState::Idle,
        PulseOutcome::Failed => ChannelState::Uninitialized,
    }
}

/// What the pulse call returns once the hardware has reported `o`, where
/// `waiting` says whether the pulse was to be waited for. A waited pulse
/// reported as only submitted is refused: the channel did not come back.
pub open spec fn finish_result(waiting: bool, o: PulseOutcome) -> Result<(), Error> {
    match o {
        PulseOutcome::ConfigFailed => Err(Error::Rmt),
        PulseOutcome::Failed => Err(Error::Rmt),
        PulseOutcome::Submitted => if waiting {
            Err(Error::Rmt)
        } else {
            Ok(())
        },
        PulseOutcome::Completed => Ok(()),
    }
}

impl Default for PulseCode {
    fn default() -> (r: PulseCode)
        ensures
            r == end_marker(),
    {
        PulseCode { level1: false, length1: 0, level2: false, length2: 0 }
    }
}

/// Build the two-entry waveform of a pulse.
pub fn waveform(high: u16, low: u16) -> (r: Vec<PulseCode>)
    ensures
        r@ == waveform_spec(high, low),
{
    if high > 0 {
        vec![
            PulseCode { level1: true, length1: high, level2: false, length2: low },
            PulseCode::default(),
        ]
    } else {
        vec![
            PulseCode { level1: true, length1: low, level2: false, length2: 0 },
            PulseCode::default(),
        ]
    }
}

/// The pulse generator: owns the state of the one pulse-train channel.
pub struct Rmt {
    pub state: ChannelState,
    /// Whether the pulse last handed out is to be waited for.
    pub waiting: bool,
}

impl Rmt {
    /// A generator whose channel is configured lazily on the first pulse.
    pub fn new() -> (r: Rmt)
        ensures
            r.state == ChannelState::Uninitialized,
            !r.waiting,
    {
        Rmt { state: ChannelState::Uninitialized, waiting: false }
    }

    /// Whether the channel has to be configured before the next pulse.
    pub fn ensure_channel(&self) -> (configure: bool)
        ensures
            configure == (self.state == ChannelState::Uninitialized),
    {
        match self.state {
            ChannelState::Uninitialized => true,
            _ => false,
        }
    }

    /// Take the channel for a pulse of `high` then `low` ticks. Fails fast
    /// with `ChannelUnavailable` while an earlier unwaited pulse holds it.
    pub fn pulse(&mut self, high: u16, low: u16, wait: bool) -> (r: Result<PulseJob, Error>)
        ensures
            acquire(old(self).state) is Err <==> r is Err,
            r is Err ==> r == Err::<PulseJob, Error>(Error::ChannelUnavailable) && final(self).state
                == old(self).state && final(self).waiting == old(self).waiting,
            r is Ok ==> {
                &&& Ok::<ChannelState, Error>(final(self).state) == acquire(old(self).state)
                &&& r->Ok_0.configure == (old(self).state == ChannelState::Uninitialized)
                &&& r->Ok_0.codes@ == waveform_spec(high, low)
                &&& r->Ok_0.wait == wait
                &&& final(self).waiting == wait
            },
    {
        if self.state == ChannelState::InFlight {
            return Err(Error::ChannelUnavailable);
        }
        let configure = self.ensure_channel();
        let codes = waveform(high, low);
        self.state = ChannelState::InFlight;
        self.waiting = wait;
        Ok(PulseJob { configure, codes, wait })
    }

    /// Record what the hardware reported for the pulse in flight, or for the
    /// end of an unwaited one being reclaimed.
    pub fn finish(&mut self, outcome: PulseOutcome) -> (r: Result<(), Error>)
        ensures
            final(self).state == finish_state(outcome),
            !final(self).waiting,
            r == finish_result(old(self).waiting, outcome),
    {
        let waiting = self.waiting;
        self.waiting = false;
        match outcome {
            PulseOutcome::ConfigFailed => {
                self.state = ChannelState::Uninitialized;
                Err(Error::Rmt)
            },
            PulseOutcome::Submitted => {
                self.state = ChannelState::InFlight;
                if waiting {
                    Err(Error::Rmt)
                } else {
                    Ok(())
                }
            },
            PulseOutcome::Completed => {
                self.state = ChannelState::Idle;
                Ok(())
            },
            PulseOutcome::Failed => {
                self.state = ChannelState::Uninitialized;
                Err(Error::Rmt)
            },
        }
    }
}

/// The waveform of a pulse with a nonzero high time starts with a high
/// segment of exactly that length; with a zero high time it is one high
/// segment of the low time and nothing else before the end marker.
pub proof fn lemma_waveform_shape(high: u16, low: u16)
    ensures
        waveform_spec(high, low).len() == 2,
        waveform_spec(high, low)[1] == end_marker(),
        waveform_spec(high, low)[0].level1,
        !waveform_spec(high, low)[0].level2,
        high > 0 ==> waveform_spec(high, low)[0].length1 == high && waveform_spec(high, low)[0].length2
            == low,
        high == 0 ==> waveform_spec(high, low)[0].length1 == low && waveform_spec(high, low)[0].length2
            == 0,
{
}

/// A pulse that is submitted without waiting keeps the channel: from any
/// state `s` in which a pulse is accepted, that pulse takes the channel, its
/// report as submitted is accepted, and the next pulse is then refused with
/// `ChannelUnavailable`. A reclaim that completes makes the channel
/// available again.
pub proof fn lemma_unwaited_pulse_blocks_next(s: ChannelState)
    requires
        acquire(s) is Ok,
    ensures
        acquire(s)->Ok_0 == ChannelState::InFlight,
        finish_result(false, PulseOutcome::Submitted) is Ok,
        acquire(finish_state(PulseOutcome::Submitted)) == Err::<ChannelState, Error>(
            Error::ChannelUnavailable,
        ),
        acquire(finish_state(PulseOutcome::Completed)) is Ok,
{
}

} // verus!
