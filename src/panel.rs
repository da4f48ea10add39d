use vstd::prelude::*;

use crate::config::{
    field_value, with_field, write_trace, ConfigRegister, ConfigWriter, Field, PinWrite,
};
use crate::pulse::{acquire, finish_state, waveform_spec, PulseJob, PulseOutcome, Rmt};
use crate::Error;

verus! {

/// Bytes of packed pixel data in one scanline.
pub const BYTES_PER_LINE: usize = 240;

/// Size of the row buffer handed to the parallel bus; the tail past one
/// scanline is padding the panel clocks out after the line.
pub const DMA_BUFFER_SIZE: usize = 248;

/// CPU cycles per microsecond at the core clock the delays are calibrated for.
pub const CYCLES_PER_MICROSECOND: u32 = 240;

/// Low time, in pulse ticks, that follows the output pulse of a row.
pub const ROW_PULSE_LOW: u16 = 50;

/// One step of a panel operation.
#[derive(Clone, Copy, Debug, PartialEq, Eq, Structural)]
pub enum Step {
    /// Change one register field in memory; nothing reaches the panel.
    Assign(Field, bool),
    /// Shift the register value out to the panel.
    Write,
    /// Busy-wait this many microseconds.
    Delay(u16),
    /// Emit a pulse of high ticks, then low ticks, waiting for it or not.
    Pulse(u16, u16, bool),
    /// Send the row buffer over the parallel bus and wait for the transfer.
    SendRow,
}

/// What the hardware has to do for one step.
#[derive(Debug)]
pub enum Action {
    /// Nothing: the step only changed software state.
    Nothing,
    /// Drive the configuration-bus lines in this order.
    Shift(Vec<PinWrite>),
    /// Busy-wait this many CPU cycles.
    Delay(u32),
    /// Emit this pulse, then report its outcome to `pulse_finished`.
    Pulse(PulseJob),
    /// Transfer these bytes, then report the result to `row_finished`.
    SendRow(Vec<u8>),
    /// The operation stops here with this error.
    Fail(Error),
}

/// The register value after one step.
pub open spec fn config_after_step(c: ConfigRegister, s: Step) -> ConfigRegister {
    match s {
        Step::Assign(f, v) => with_field(c, f, v),
        _ => c,
    }
}

/// The register value after a run of steps that all went through.
pub open spec fn config_after(c: ConfigRegister, steps: Seq<Step>) -> ConfigRegister
    decreases steps.len(),
{
    if steps.len() == 0 {
        c
    } else {
        config_after_step(config_after(c, steps.drop_last()), steps.last())
    }
}

/// Whether step `s` assigns field `f`.
pub open spec fn sets_field(s: Step, f: Field) -> bool {
    s is Assign && s->Assign_0 == f
}

/// Power-up: scan direction and rails on, negative rail before positive, each
/// given time to settle, then the start line.
pub open spec fn power_on_steps() -> Seq<Step> {
    seq![
        Step::Assign(Field::ScanDirection, true),
        Step::Assign(Field::PowerDisable, false),
        Step::Write,
        Step::Delay(100),
        Step::Assign(Field::NegPowerEnable, true),
        Step::Write,
        Step::Delay(500),
        Step::Assign(Field::PosPowerEnable, true),
        Step::Write,
        Step::Delay(100),
        Step::Assign(Field::Stv, true),
        Step::Write,
    ]
}

/// Power-down: positive rail off first, then negative, then the rails
/// disabled and the start line dropped.
pub open spec fn power_off_steps() -> Seq<Step> {
    seq![
        Step::Assign(Field::PosPowerEnable, false),
        Step::Write,
        Step::Delay(10),
        Step::Assign(Field::NegPowerEnable, false),
        Step::Write,
        Step::Delay(100),
        Step::Assign(Field::PowerDisable, true),
        Step::Write,
        Step::Assign(Field::Stv, false),
        Step::Write,
    ]
}

/// Frame start: mode on, the start-line strobe, four priming clocks and
/// output enabled. Every pulse is waited for.
pub open spec fn frame_start_steps() -> Seq<Step> {
    seq![
        Step::Assign(Field::Mode, true),
        Step::Write,
        Step::Pulse(10, 10, true),
        Step::Assign(Field::Stv, false),
        Step::Write,
        Step::Pulse(10000, 1000, true),
        Step::Assign(Field::Stv, true),
        Step::Write,
        Step::Pulse(10, 10, true),
        Step::Pulse(10, 10, true),
        Step::Pulse(10, 10, true),
        Step::Pulse(10, 10, true),
        Step::Assign(Field::OutputEnable, true),
        Step::Write,
        Step::Pulse(10, 10, true),
    ]
}

/// Latch the row shifted in last: latch enable raised then lowered.
pub open spec fn latch_row_steps() -> Seq<Step> {
    seq![
        Step::Assign(Field::LatchEnable, true),
        Step::Write,
        Step::Assign(Field::LatchEnable, false),
        Step::Write,
    ]
}

/// Advance the panel one scanline without new data.
pub open spec fn skip_steps() -> Seq<Step> {
    seq![Step::Pulse(45, 5, false)]
}

/// Output one row: latch the previous one, start the unwaited output pulse,
/// and send the row buffer.
pub open spec fn output_row_steps(output_time: u16) -> Seq<Step> {
    latch_row_steps() + seq![Step::Pulse(output_time, ROW_PULSE_LOW, false), Step::SendRow]
}

/// Frame end: output disabled, mode on, two closing clocks.
pub open spec fn frame_end_steps() -> Seq<Step> {
    seq![
        Step::Assign(Field::OutputEnable, false),
        Step::Write,
        Step::Assign(Field::Mode, true),
        Step::Write,
        Step::Pulse(10, 10, true),
        Step::Pulse(10, 10, true),
    ]
}

/// What a running sequence does next.
#[derive(Clone, Copy, Debug, PartialEq, Eq, Structural)]
pub enum Next {
    /// Carry out this step.
    Issue(Step),
    /// Every step went through.
    Done,
    /// A step failed: the sequence ends here with this error.
    Stop(Error),
}

/// Decide what follows in `steps` once everything before position `pos` has
/// run and the last step ended with `last`. After an error no further step is
/// issued; there is no retry.
pub fn advance(steps: &[Step], pos: usize, last: Result<(), Error>) -> (r: Next)
    ensures
        last is Err ==> r == Next::Stop(last->Err_0),
        last is Ok && pos < steps@.len() ==> r == Next::Issue(steps@[pos as int]),
        last is Ok && pos >= steps@.len() ==> r == Next::Done,
{
    match last {
        Err(e) => Next::Stop(e),
        Ok(()) => if pos < steps.len() {
            Next::Issue(steps[pos])
        } else {
            Next::Done
        },
    }
}

/// The panel driver: register state, pulse channel and row buffer.
pub struct Panel {
    pub cfg_writer: ConfigWriter,
    pub rmt: Rmt,
    pub buffer: Vec<u8>,
}

impl Panel {
    pub open spec fn wf(&self) -> bool {
        self.buffer@.len() == DMA_BUFFER_SIZE
    }

    /// A driver in the idle register state, with the pulse channel not yet
    /// configured and a zeroed row buffer.
    pub fn new() -> (r: Panel)
        ensures
            r.wf(),
            r.cfg_writer.config == crate::config::idle_register(),
            r.rmt.state == crate::pulse::ChannelState::Uninitialized,
            !r.rmt.waiting,
            forall|i: int| 0 <= i < DMA_BUFFER_SIZE ==> r.buffer@[i] == 0u8,
    {
        let mut buffer: Vec<u8> = Vec::new();
        let mut i: usize = 0;
        while i < DMA_BUFFER_SIZE
            invariant
                i <= DMA_BUFFER_SIZE,
                buffer@.len() == i,
                forall|k: int| 0 <= k < i ==> buffer@[k] == 0u8,
            decreases DMA_BUFFER_SIZE - i,
        {
            buffer.push(0u8);
            i = i + 1;
        }
        Panel { cfg_writer: ConfigWriter::new(), rmt: Rmt::new(), buffer }
    }

    /// The power-up sequence.
    pub fn power_on() -> (r: Vec<Step>)
        ensures
            r@ == power_on_steps(),
    {
        let r = vec![
            Step::Assign(Field::ScanDirection, true),
            Step::Assign(Field::PowerDisable, false),
            Step::Write,
            Step::Delay(100),
            Step::Assign(Field::NegPowerEnable, true),
            Step::Write,
            Step::Delay(500),
            Step::Assign(Field::PosPowerEnable, true),
            Step::Write,
            Step::Delay(100),
            Step::Assign(Field::Stv, true),
            Step::Write,
        ];
        assert(r@ =~= power_on_steps());
        r
    }

    /// The power-down sequence.
    pub fn power_off() -> (r: Vec<Step>)
        ensures
            r@ == power_off_steps(),
    {
        let r = vec![
            Step::Assign(Field::PosPowerEnable, false),
            Step::Write,
            Step::Delay(10),
            Step::Assign(Field::NegPowerEnable, false),
            Step::Write,
            Step::Delay(100),
            Step::Assign(Field::PowerDisable, true),
            Step::Write,
            Step::Assign(Field::Stv, false),
            Step::Write,
        ];
        assert(r@ =~= power_off_steps());
        r
    }

    /// The frame-start sequence.
    pub fn frame_start() -> (r: Vec<Step>)
        ensures
            r@ == frame_start_steps(),
    {
        let r = vec![
            Step::Assign(Field::Mode, true),
            Step::Write,
            Step::Pulse(10, 10, true),
            Step::Assign(Field::Stv, false),
            Step::Write,
            Step::Pulse(10000, 1000, true),
            Step::Assign(Field::Stv, true),
            Step::Write,
            Step::Pulse(10, 10, true),
            Step::Pulse(10, 10, true),
            Step::Pulse(10, 10, true),
            Step::Pulse(10, 10, true),
            Step::Assign(Field::OutputEnable, true),
            Step::Write,
            Step::Pulse(10, 10, true),
        ];
        assert(r@ =~= frame_start_steps());
        r
    }

    /// The row-latch sequence.
    pub fn latch_row() -> (r: Vec<Step>)
        ensures
            r@ == latch_row_steps(),
    {
        let r = vec![
            Step::Assign(Field::LatchEnable, true),
            Step::Write,
            Step::Assign(Field::LatchEnable, false),
            Step::Write,
        ];
        assert(r@ =~= latch_row_steps());
        r
    }

    /// The sequence that skips a row.
    pub fn skip() -> (r: Vec<Step>)
        ensures
            r@ == skip_steps(),
    {
        let r = vec![
            Step::Pulse(45, 5, false),
        ];
        assert(r@ =~= skip_steps());
        r
    }

    /// The sequence that outputs the row buffer, with the output pulse held
    /// high for `output_time` ticks.
    pub fn output_row(output_time: u16) -> (r: Vec<Step>)
        ensures
            r@ == output_row_steps(output_time),
    {
        let mut r = Self::latch_row();
        r.push(Step::Pulse(output_time, ROW_PULSE_LOW, false));
        r.push(Step::SendRow);
        assert(r@ =~= output_row_steps(output_time));
        r
    }

    /// The frame-end sequence.
    pub fn frame_end() -> (r: Vec<Step>)
        ensures
            r@ == frame_end_steps(),
    {
        let r = vec![
            Step::Assign(Field::OutputEnable, false),
            Step::Write,
            Step::Assign(Field::Mode, true),
            Step::Write,
            Step::Pulse(10, 10, true),
            Step::Pulse(10, 10, true),
        ];
        assert(r@ =~= frame_end_steps());
        r
    }

    /// Copy `data` over the start of the row buffer, leaving the rest as it was.
    pub fn set_buffer(&mut self, data: &[u8])
        requires
            old(self).wf(),
            data@.len() <= BYTES_PER_LINE,
        ensures
            final(self).wf(),
            final(self).buffer@ == data@ + old(self).buffer@.subrange(
                data@.len() as int,
                DMA_BUFFER_SIZE as int,
            ),
            final(self).cfg_writer.config == old(self).cfg_writer.config,
            final(self).rmt.state == old(self).rmt.state,
    {
        let mut i: usize = 0;
        while i < data.len()
            invariant
                i <= data@.len() <= BYTES_PER_LINE,
                self.buffer@.len() == DMA_BUFFER_SIZE,
                self.cfg_writer.config == old(self).cfg_writer.config,
                self.rmt.state == old(self).rmt.state,
                forall|k: int| 0 <= k < i ==> self.buffer@[k] == data@[k],
                forall|k: int| i <= k < DMA_BUFFER_SIZE ==> self.buffer@[k] == old(self).buffer@[k],
            decreases data@.len() - i,
        {
            self.buffer.set(i, data[i]);
            i = i + 1;
        }
        assert(self.buffer@ =~= data@ + old(self).buffer@.subrange(
            data@.len() as int,
            DMA_BUFFER_SIZE as int,
        ));
    }

    /// Carry out the software side of one step and say what the hardware
    /// has to do for it.
    pub fn step(&mut self, s: Step) -> (a: Action)
        ensures
            final(self).cfg_writer.config == config_after_step(old(self).cfg_writer.config, s),
            final(self).buffer@ == old(self).buffer@,
            !(s is Pulse) ==> final(self).rmt.waiting == old(self).rmt.waiting,
            match s {
                Step::Assign(_, _) => a is Nothing && final(self).rmt.state == old(self).rmt.state,
                Step::Write => {
                    &&& a is Shift
                    &&& a->Shift_0@ == write_trace(old(self).cfg_writer.config)
                    &&& final(self).rmt.state == old(self).rmt.state
                },
                Step::Delay(us) => {
                    &&& a is Delay
                    &&& a->Delay_0 == us * CYCLES_PER_MICROSECOND
                    &&& final(self).rmt.state == old(self).rmt.state
                },
                Step::Pulse(high, low, wait) => match acquire(old(self).rmt.state) {
                    Err(e) => {
                        &&& a is Fail
                        &&& a->Fail_0 == e
                        &&& final(self).rmt.state == old(self).rmt.state
                        &&& final(self).rmt.waiting == old(self).rmt.waiting
                    },
                    Ok(next) => {
                        &&& a is Pulse
                        &&& final(self).rmt.state == next
                        &&& a->Pulse_0.configure == (old(self).rmt.state
                            == crate::pulse::ChannelState::Uninitialized)
                        &&& a->Pulse_0.codes@ == waveform_spec(high, low)
                        &&& a->Pulse_0.wait == wait
                        &&& final(self).rmt.waiting == wait
                    },
                },
                Step::SendRow => {
                    &&& a is SendRow
                    &&& a->SendRow_0@ == old(self).buffer@
                    &&& final(self).rmt.state == old(self).rmt.state
                },
            },
    {
        match s {
            Step::Assign(f, v) => {
                self.cfg_writer.config.set(f, v);
                Action::Nothing
            },
            Step::Write => Action::Shift(self.cfg_writer.write()),
            Step::Delay(us) => Action::Delay(us as u32 * CYCLES_PER_MICROSECOND),
            Step::Pulse(high, low, wait) => match self.rmt.pulse(high, low, wait) {
                Ok(job) => Action::Pulse(job),
                Err(e) => Action::Fail(e),
            },
            Step::SendRow => Action::SendRow(self.buffer.clone()),
        }
    }

    /// Record the hardware's report on the last pulse, or on reclaiming an
    /// unwaited one. An error ends the operation in progress.
    pub fn pulse_finished(&mut self, outcome: PulseOutcome) -> (r: Result<(), Error>)
        ensures
            final(self).rmt.state == finish_state(outcome),
            !final(self).rmt.waiting,
            r == crate::pulse::finish_result(old(self).rmt.waiting, outcome),
            final(self).cfg_writer.config == old(self).cfg_writer.config,
            final(self).buffer@ == old(self).buffer@,
    {
        self.rmt.finish(outcome)
    }

    /// Record whether the row transfer went through.
    pub fn row_finished(&self, transferred: bool) -> (r: Result<(), Error>)
        ensures
            r == (if transferred {
                Ok::<(), Error>(())
            } else {
                Err(Error::Dma)
            }),
    {
        if transferred {
            Ok(())
        } else {
            Err(Error::Dma)
        }
    }
}

/// After a run of steps, a field holds the value of its last assignment in
/// the run, whatever the register held before.
pub proof fn lemma_last_assignment_wins(
    c: ConfigRegister,
    steps: Seq<Step>,
    i: int,
    f: Field,
    v: bool,
)
    requires
        0 <= i < steps.len(),
        steps[i] == Step::Assign(f, v),
        forall|j: int| i < j < steps.len() ==> !sets_field(#[trigger] steps[j], f),
    ensures
        field_value(config_after(c, steps), f) == v,
    decreases steps.len(),
{
    if i < steps.len() - 1 {
        let prefix = steps.drop_last();
        assert forall|j: int| i < j < prefix.len() implies !sets_field(#[trigger] prefix[j], f) by {
            assert(prefix[j] == steps[j]);
        }
        lemma_last_assignment_wins(c, prefix, i, f, v);
        assert(!sets_field(steps[steps.len() - 1], f));
    }
}

/// Powering up and then down leaves both rails off, the rails disabled and
/// the start line low, whatever the register held before.
pub proof fn lemma_power_cycle(c: ConfigRegister)
    ensures
        config_after(config_after(c, power_on_steps()), power_off_steps()).power_disable,
        !config_after(config_after(c, power_on_steps()), power_off_steps()).stv,
        !config_after(config_after(c, power_on_steps()), power_off_steps()).pos_power_enable,
        !config_after(config_after(c, power_on_steps()), power_off_steps()).neg_power_enable,
{
    let m = config_after(c, power_on_steps());
    let off = power_off_steps();
    assert forall|j: int| 0 < j < 10 implies !sets_field(#[trigger] off[j], Field::PosPowerEnable) by {
        if j == 1 {
        } else if j == 2 {
        } else if j == 3 {
        } else if j == 4 {
        } else if j == 5 {
        } else if j == 6 {
        } else if j == 7 {
        } else if j == 8 {
        } else {
        }
    }
    lemma_last_assignment_wins(m, off, 0, Field::PosPowerEnable, false);
    assert forall|j: int| 3 < j < 10 implies !sets_field(#[trigger] off[j], Field::NegPowerEnable) by {
        if j == 4 {
        } else if j == 5 {
        } else if j == 6 {
        } else if j == 7 {
        } else if j == 8 {
        } else {
        }
    }
    lemma_last_assignment_wins(m, off, 3, Field::NegPowerEnable, false);
    assert forall|j: int| 6 < j < 10 implies !sets_field(#[trigger] off[j], Field::PowerDisable) by {
        if j == 7 {
        } else if j == 8 {
        } else {
        }
    }
    lemma_last_assignment_wins(m, off, 6, Field::PowerDisable, true);
    assert forall|j: int| 8 < j < 10 implies !sets_field(#[trigger] off[j], Field::Stv) by {
        if j == 9 {
        }
    }
    lemma_last_assignment_wins(m, off, 8, Field::Stv, false);
}

/// A frame started and ended with no rows in between ends with output
/// disabled and mode on, whatever the register held before.
pub proof fn lemma_empty_frame(c: ConfigRegister)
    ensures
        !config_after(config_after(c, frame_start_steps()), frame_end_steps()).output_enable,
        config_after(config_after(c, frame_start_steps()), frame_end_steps()).mode,
{
    let m = config_after(c, frame_start_steps());
    let end = frame_end_steps();
    assert forall|j: int| 0 < j < 6 implies !sets_field(#[trigger] end[j], Field::OutputEnable) by {
        if j == 1 {
        } else if j == 2 {
        } else if j == 3 {
        } else if j == 4 {
        } else {
        }
    }
    lemma_last_assignment_wins(m, end, 0, Field::OutputEnable, false);
    assert forall|j: int| 2 < j < 6 implies !sets_field(#[trigger] end[j], Field::Mode) by {
        if j == 3 {
        } else if j == 4 {
        } else {
        }
    }
    lemma_last_assignment_wins(m, end, 2, Field::Mode, true);
}

} // verus!
