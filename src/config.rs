use vstd::prelude::*;

verus! {

/// The eight control bits of the panel's serial configuration register.
#[derive(Clone, Copy, Debug, PartialEq, Eq, Structural)]
pub struct ConfigRegister {
    pub latch_enable: bool,
    pub power_disable: bool,
    pub pos_power_enable: bool,
    pub neg_power_enable: bool,
    pub stv: bool,
    pub scan_direction: bool,
    pub mode: bool,
    pub output_enable: bool,
}

/// Names one field of [`ConfigRegister`].
#[derive(Clone, Copy, Debug, PartialEq, Eq, Structural)]
pub enum Field {
    LatchEnable,
    PowerDisable,
    PosPowerEnable,
    NegPowerEnable,
    Stv,
    ScanDirection,
    Mode,
    OutputEnable,
}

/// The three lines of the configuration bus.
#[derive(Clone, Copy, Debug, PartialEq, Eq, Structural)]
pub enum Line {
    Data,
    Clock,
    Strobe,
}

/// Drive one configuration-bus line to a level.
#[derive(Clone, Copy, Debug, PartialEq, Eq, Structural)]
pub struct PinWrite {
    pub line: Line,
    pub high: bool,
}

/// The safe power-up state: everything off but the rail disable and the start line.
pub open spec fn idle_register() -> ConfigRegister {
    ConfigRegister {
        latch_enable: false,
        power_disable: true,
        pos_power_enable: false,
        neg_power_enable: false,
        stv: true,
        scan_direction: false,
        mode: false,
        output_enable: false,
    }
}

/// The register's bits in the order they are shifted out, first bit first.
pub open spec fn shift_order(c: ConfigRegister) -> Seq<bool> {
    seq![
        c.output_enable,
        c.mode,
        c.scan_direction,
        c.stv,
        c.neg_power_enable,
        c.pos_power_enable,
        c.power_disable,
        c.latch_enable,
    ]
}

/// The value of one field.
pub open spec fn field_value(c: ConfigRegister, f: Field) -> bool {
    match f {
        Field::LatchEnable => c.latch_enable,
        Field::PowerDisable => c.power_disable,
        Field::PosPowerEnable => c.pos_power_enable,
        Field::NegPowerEnable => c.neg_power_enable,
        Field::Stv => c.stv,
        Field::ScanDirection => c.scan_direction,
        Field::Mode => c.mode,
        Field::OutputEnable => c.output_enable,
    }
}

/// `c` with field `f` set to `v` and every other field kept.
pub open spec fn with_field(c: ConfigRegister, f: Field, v: bool) -> ConfigRegister {
    match f {
        Field::LatchEnable => ConfigRegister { latch_enable: v, ..c },
        Field::PowerDisable => ConfigRegister { power_disable: v, ..c },
        Field::PosPowerEnable => ConfigRegister { pos_power_enable: v, ..c },
        Field::NegPowerEnable => ConfigRegister { neg_power_enable: v, ..c },
        Field::Stv => ConfigRegister { stv: v, ..c },
        Field::ScanDirection => ConfigRegister { scan_direction: v, ..c },
        Field::Mode => ConfigRegister { mode: v, ..c },
        Field::OutputEnable => ConfigRegister { output_enable: v, ..c },
    }
}

/// Line `line` driven to `high`.
pub open spec fn pin(line: Line, high: bool) -> PinWrite {
    PinWrite { line, high }
}

/// One bit on the bus: clock low, data to the bit's level, clock high (the
/// rising edge is where the panel samples).
pub open spec fn bit_writes(v: bool) -> Seq<PinWrite> {
    seq![pin(Line::Clock, false), pin(Line::Data, v), pin(Line::Clock, true)]
}

/// Everything `write` drives for register value `c`: strobe low, the eight
/// bits in shift order, strobe high.
pub open spec fn write_trace(c: ConfigRegister) -> Seq<PinWrite> {
    seq![
        pin(Line::Strobe, false),
        pin(Line::Clock, false),
        pin(Line::Data, c.output_enable),
        pin(Line::Clock, true),
        pin(Line::Clock, false),
        pin(Line::Data, c.mode),
        pin(Line::Clock, true),
        pin(Line::Clock, false),
        pin(Line::Data, c.scan_direction),
        pin(Line::Clock, true),
        pin(Line::Clock, false),
        pin(Line::Data, c.stv),
        pin(Line::Clock, true),
        pin(Line::Clock, false),
        pin(Line::Data, c.neg_power_enable),
        pin(Line::Clock, true),
        pin(Line::Clock, false),
        pin(Line::Data, c.pos_power_enable),
        pin(Line::Clock, true),
        pin(Line::Clock, false),
        pin(Line::Data, c.power_disable),
        pin(Line::Clock, true),
        pin(Line::Clock, false),
        pin(Line::Data, c.latch_enable),
        pin(Line::Clock, true),
        pin(Line::Strobe, true),
    ]
}

impl Default for ConfigRegister {
    fn default() -> (r: ConfigRegister)
        ensures
            r == idle_register(),
    {
        ConfigRegister {
            latch_enable: false,
            power_disable: true,
            pos_power_enable: false,
            neg_power_enable: false,
            stv: true,
            scan_direction: false,
            mode: false,
            output_enable: false,
        }
    }
}

impl ConfigRegister {
    /// Set one field, keeping the others.
    pub fn set(&mut self, f: Field, v: bool)
        ensures
            *final(self) == with_field(*old(self), f, v),
    {
        match f {
            Field::LatchEnable => self.latch_enable = v,
            Field::PowerDisable => self.power_disable = v,
            Field::PosPowerEnable => self.pos_power_enable = v,
            Field::NegPowerEnable => self.neg_power_enable = v,
            Field::Stv => self.stv = v,
            Field::ScanDirection => self.scan_direction = v,
            Field::Mode => self.mode = v,
            Field::OutputEnable => self.output_enable = v,
        }
    }
}

/// Holds the register value that software believes the panel has latched,
/// and turns it into the bit-banged bus sequence.
pub struct ConfigWriter {
    pub config: ConfigRegister,
}

impl ConfigWriter {
    /// A writer holding the idle register value.
    pub fn new() -> (r: ConfigWriter)
        ensures
            r.config == idle_register(),
    {
        ConfigWriter { config: ConfigRegister::default() }
    }

    /// The levels the three bus lines take when they are first claimed:
    /// data and clock high, strobe low.
    pub fn initial_levels() -> (r: Vec<PinWrite>)
        ensures
            r@ == seq![pin(Line::Data, true), pin(Line::Clock, true), pin(Line::Strobe, false)],
    {
        vec![
            PinWrite { line: Line::Data, high: true },
            PinWrite { line: Line::Clock, high: true },
            PinWrite { line: Line::Strobe, high: false },
        ]
    }

    /// The sequence of line levels that shifts the current register value
    /// into the panel.
    pub fn write(&self) -> (r: Vec<PinWrite>)
        ensures
            r@ == write_trace(self.config),
    {
        let c = self.config;
        let mut out: Vec<PinWrite> = Vec::new();
        out.push(PinWrite { line: Line::Strobe, high: false });
        Self::write_bool(&mut out, c.output_enable);
        Self::write_bool(&mut out, c.mode);
        Self::write_bool(&mut out, c.scan_direction);
        Self::write_bool(&mut out, c.stv);
        Self::write_bool(&mut out, c.neg_power_enable);
        Self::write_bool(&mut out, c.pos_power_enable);
        Self::write_bool(&mut out, c.power_disable);
        Self::write_bool(&mut out, c.latch_enable);
        out.push(PinWrite { line: Line::Strobe, high: true });
        assert(out@ =~= write_trace(c));
        out
    }

    /// Append the clock/data sequence for one bit.
    pub fn write_bool(out: &mut Vec<PinWrite>, v: bool)
        ensures
            final(out)@ == old(out)@ + bit_writes(v),
    {
        out.push(PinWrite { line: Line::Clock, high: false });
        out.push(PinWrite { line: Line::Data, high: v });
        out.push(PinWrite { line: Line::Clock, high: true });
        assert(final(out)@ =~= old(out)@ + bit_writes(v));
    }
}

/// Shifting out any register value drives exactly 26 line changes: strobe
/// low first and high last, and between them, for each of the eight bits in
/// shift order, clock low, data at the bit's level, clock high. The strobe
/// is touched nowhere else.
pub proof fn lemma_write_frames_eight_bits(c: ConfigRegister)
    ensures
        write_trace(c).len() == 26,
        write_trace(c)[0] == pin(Line::Strobe, false),
        write_trace(c)[25] == pin(Line::Strobe, true),
        forall|i: int|
            0 <= i < 8 ==> {
                &&& #[trigger] write_trace(c)[1 + 3 * i] == pin(Line::Clock, false)
                &&& write_trace(c)[2 + 3 * i] == pin(Line::Data, shift_order(c)[i])
                &&& write_trace(c)[3 + 3 * i] == pin(Line::Clock, true)
            },
        forall|k: int| 1 <= k < 25 ==> (#[trigger] write_trace(c)[k]).line != Line::Strobe,
{
    let t = write_trace(c);
    let s = shift_order(c);
    assert forall|i: int| 0 <= i < 8 implies {
        &&& #[trigger] t[1 + 3 * i] == pin(Line::Clock, false)
        &&& t[2 + 3 * i] == pin(Line::Data, s[i])
        &&& t[3 + 3 * i] == pin(Line::Clock, true)
    } by {
        if i == 0 {
        } else if i == 1 {
        } else if i == 2 {
        } else if i == 3 {
        } else if i == 4 {
        } else if i == 5 {
        } else if i == 6 {
        } else {
        }
    }
}

} // verus!
