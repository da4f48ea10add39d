use ed047tc1::{busy_delay, CycleClock};
use ed047tc1::config::{ConfigRegister, ConfigWriter, Line, PinWrite};
use ed047tc1::panel::{advance, Action, Next, Panel, Step, BYTES_PER_LINE, DMA_BUFFER_SIZE};
use ed047tc1::pulse::{waveform, ChannelState, PulseCode, PulseOutcome, Rmt};
use ed047tc1::Error;

fn pw(line: Line, high: bool) -> PinWrite {
    PinWrite { line, high }
}

/// Runs a sequence against hardware that always succeeds: waited pulses
/// complete, unwaited ones are submitted, row transfers go through.
fn run(panel: &mut Panel, steps: &[Step]) -> (Vec<Action>, Result<(), Error>) {
    let mut actions = Vec::new();
    let mut pos: usize = 0;
    let mut last: Result<(), Error> = Ok(());
    loop {
        match advance(steps, pos, last) {
            Next::Issue(s) => {
                let a = panel.step(s);
                last = match &a {
                    Action::Pulse(job) => panel.pulse_finished(if job.wait {
                        PulseOutcome::Completed
                    } else {
                        PulseOutcome::Submitted
                    }),
                    Action::SendRow(_) => panel.row_finished(true),
                    Action::Fail(e) => Err(*e),
                    _ => Ok(()),
                };
                actions.push(a);
                pos += 1;
            }
            Next::Done => return (actions, Ok(())),
            Next::Stop(e) => return (actions, Err(e)),
        }
    }
}

fn expected_trace(bits: [bool; 8]) -> Vec<PinWrite> {
    let mut v = vec![pw(Line::Strobe, false)];
    for b in bits {
        v.push(pw(Line::Clock, false));
        v.push(pw(Line::Data, b));
        v.push(pw(Line::Clock, true));
    }
    v.push(pw(Line::Strobe, true));
    v
}

#[test]
fn default_register_is_safe_idle() {
    let c = ConfigRegister::default();
    assert!(c.power_disable && c.stv && !c.scan_direction);
    assert!(!c.latch_enable && !c.pos_power_enable && !c.neg_power_enable);
    assert!(!c.mode && !c.output_enable);
}

#[test]
fn write_shifts_eight_bits_in_field_order() {
    let w = ConfigWriter::new();
    // output_enable, mode, scan_direction, stv, neg, pos, power_disable, latch
    let t = w.write();
    assert_eq!(t.len(), 26);
    assert_eq!(t, expected_trace([false, false, false, true, false, false, true, false]));
    let clock_rises = t.iter().filter(|p| **p == pw(Line::Clock, true)).count();
    assert_eq!(clock_rises, 8);
}

#[test]
fn write_follows_every_field() {
    let mut w = ConfigWriter::new();
    w.config = ConfigRegister {
        latch_enable: true,
        power_disable: false,
        pos_power_enable: true,
        neg_power_enable: false,
        stv: false,
        scan_direction: false,
        mode: true,
        output_enable: true,
    };
    assert_eq!(w.write(), expected_trace([true, true, false, false, false, true, false, true]));
}

#[test]
fn initial_levels_hold_strobe_low() {
    assert_eq!(
        ConfigWriter::initial_levels(),
        vec![pw(Line::Data, true), pw(Line::Clock, true), pw(Line::Strobe, false)]
    );
}

#[test]
fn waveform_with_high_time() {
    let w = waveform(10000, 1000);
    assert_eq!(w.len(), 2);
    assert_eq!(w[0], PulseCode { level1: true, length1: 10000, level2: false, length2: 1000 });
    assert_eq!(w[1], PulseCode::default());
    assert_eq!(w[1], PulseCode { level1: false, length1: 0, level2: false, length2: 0 });
}

#[test]
fn waveform_without_high_time_is_single_segment() {
    let w = waveform(0, 100);
    assert_eq!(w[0], PulseCode { level1: true, length1: 100, level2: false, length2: 0 });
    assert_eq!(w[1], PulseCode::default());
}

#[test]
fn unwaited_pulse_blocks_the_next() {
    let mut rmt = Rmt::new();
    let job = rmt.pulse(45, 5, false).unwrap();
    assert!(job.configure);
    assert!(!job.wait);
    assert_eq!(rmt.finish(PulseOutcome::Submitted), Ok(()));
    assert_eq!(rmt.state, ChannelState::InFlight);
    assert!(matches!(rmt.pulse(10, 10, true), Err(Error::ChannelUnavailable)));
    assert!(matches!(rmt.pulse(10, 10, false), Err(Error::ChannelUnavailable)));
    // reclaiming the channel makes it usable again, without reconfiguring
    assert_eq!(rmt.finish(PulseOutcome::Completed), Ok(()));
    let job = rmt.pulse(10, 10, true).unwrap();
    assert!(!job.configure);
}

#[test]
fn failed_configuration_is_reported_and_retried() {
    let mut rmt = Rmt::new();
    assert!(rmt.ensure_channel());
    let _ = rmt.pulse(10, 10, true).unwrap();
    assert_eq!(rmt.finish(PulseOutcome::ConfigFailed), Err(Error::Rmt));
    assert_eq!(rmt.state, ChannelState::Uninitialized);
    assert!(rmt.pulse(10, 10, true).unwrap().configure);
    assert_eq!(rmt.finish(PulseOutcome::Failed), Err(Error::Rmt));
    assert_eq!(rmt.state, ChannelState::Uninitialized);
}

#[test]
fn power_cycle_disables_rails_and_drops_start_line() {
    let mut p = Panel::new();
    let (_, r) = run(&mut p, &Panel::power_on());
    assert_eq!(r, Ok(()));
    let c = p.cfg_writer.config;
    assert!(c.scan_direction && !c.power_disable && c.neg_power_enable && c.pos_power_enable && c.stv);
    let (_, r) = run(&mut p, &Panel::power_off());
    assert_eq!(r, Ok(()));
    let c = p.cfg_writer.config;
    assert!(c.power_disable);
    assert!(!c.stv);
    assert!(!c.pos_power_enable && !c.neg_power_enable);
}

#[test]
fn power_on_delays_are_calibrated() {
    let mut p = Panel::new();
    let (actions, _) = run(&mut p, &Panel::power_on());
    let delays: Vec<u32> = actions
        .iter()
        .filter_map(|a| match a {
            Action::Delay(c) => Some(*c),
            _ => None,
        })
        .collect();
    assert_eq!(delays, vec![24000, 120000, 24000]);
    let mut p = Panel::new();
    let (actions, _) = run(&mut p, &Panel::power_off());
    let delays: Vec<u32> = actions
        .iter()
        .filter_map(|a| match a {
            Action::Delay(c) => Some(*c),
            _ => None,
        })
        .collect();
    assert_eq!(delays, vec![2400, 24000]);
}

#[test]
fn empty_frame_ends_with_output_disabled_and_mode_on() {
    let mut p = Panel::new();
    let (actions, r) = run(&mut p, &Panel::frame_start());
    assert_eq!(r, Ok(()));
    assert!(p.cfg_writer.config.output_enable);
    let jobs: Vec<(bool, u16, bool)> = actions
        .iter()
        .filter_map(|a| match a {
            Action::Pulse(j) => Some((j.configure, j.codes[0].length1, j.wait)),
            _ => None,
        })
        .collect();
    assert_eq!(jobs.len(), 7);
    assert_eq!(jobs[0], (true, 10, true));
    assert_eq!(jobs[1], (false, 10000, true));
    assert!(jobs.iter().all(|j| j.2));
    let (_, r) = run(&mut p, &Panel::frame_end());
    assert_eq!(r, Ok(()));
    assert!(!p.cfg_writer.config.output_enable);
    assert!(p.cfg_writer.config.mode);
    assert_eq!(p.rmt.state, ChannelState::Idle);
}

#[test]
fn output_row_latches_pulses_and_sends() {
    let mut p = Panel::new();
    p.set_buffer(&[0xFF; BYTES_PER_LINE]);
    let (actions, r) = run(&mut p, &Panel::output_row(100));
    assert_eq!(r, Ok(()));
    let shifts: Vec<&Vec<PinWrite>> = actions
        .iter()
        .filter_map(|a| match a {
            Action::Shift(t) => Some(t),
            _ => None,
        })
        .collect();
    assert_eq!(shifts.len(), 2);
    // latch_enable is the last bit shifted: index 23 is its data level
    assert_eq!(shifts[0][23], pw(Line::Data, true));
    assert_eq!(shifts[1][23], pw(Line::Data, false));
    let pulse = actions.iter().find_map(|a| match a {
        Action::Pulse(j) => Some(j),
        _ => None,
    });
    let pulse = pulse.unwrap();
    assert!(!pulse.wait);
    assert_eq!(pulse.codes[0], PulseCode { level1: true, length1: 100, level2: false, length2: 50 });
    match actions.last().unwrap() {
        Action::SendRow(bytes) => {
            assert_eq!(bytes.len(), DMA_BUFFER_SIZE);
            assert!(bytes[..BYTES_PER_LINE].iter().all(|b| *b == 0xFF));
            assert!(bytes[BYTES_PER_LINE..].iter().all(|b| *b == 0));
        }
        other => panic!("expected a row transfer, got {:?}", other),
    }
    assert!(!p.cfg_writer.config.latch_enable);
    assert_eq!(p.rmt.state, ChannelState::InFlight);
}

#[test]
fn second_row_without_reclaim_is_refused() {
    let mut p = Panel::new();
    let (_, r) = run(&mut p, &Panel::output_row(100));
    assert_eq!(r, Ok(()));
    let (actions, r) = run(&mut p, &Panel::output_row(100));
    assert_eq!(r, Err(Error::ChannelUnavailable));
    assert!(matches!(actions.last(), Some(Action::Fail(Error::ChannelUnavailable))));
    assert_eq!(p.pulse_finished(PulseOutcome::Completed), Ok(()));
    let (_, r) = run(&mut p, &Panel::skip());
    assert_eq!(r, Ok(()));
}

#[test]
fn skip_is_one_unwaited_pulse() {
    let steps = Panel::skip();
    assert_eq!(steps, vec![Step::Pulse(45, 5, false)]);
}

#[test]
fn failed_row_transfer_is_reported() {
    let p = Panel::new();
    assert_eq!(p.row_finished(false), Err(Error::Dma));
    assert_eq!(p.row_finished(true), Ok(()));
}

#[test]
fn short_buffer_overwrites_only_prefix() {
    let mut p = Panel::new();
    p.set_buffer(&[0xAA; BYTES_PER_LINE]);
    p.set_buffer(&[1, 2, 3]);
    assert_eq!(&p.buffer[..3], &[1, 2, 3]);
    assert!(p.buffer[3..BYTES_PER_LINE].iter().all(|b| *b == 0xAA));
    assert!(p.buffer[BYTES_PER_LINE..].iter().all(|b| *b == 0));
    p.set_buffer(&[]);
    assert_eq!(&p.buffer[..3], &[1, 2, 3]);
}

#[test]
fn busy_delay_elapses_after_wait() {
    assert!(!busy_delay(24000, 1000, 1000));
    assert!(!busy_delay(24000, 1000, 24999));
    assert!(busy_delay(24000, 1000, 25000));
    assert!(busy_delay(0, 5, 5));
    assert!(busy_delay(u32::MAX, 0, u64::MAX));
    assert!(!busy_delay(1, u64::MAX, u64::MAX));
}

#[test]
fn advance_stops_at_first_error() {
    let steps = Panel::skip();
    assert_eq!(advance(&steps, 0, Ok(())), Next::Issue(Step::Pulse(45, 5, false)));
    assert_eq!(advance(&steps, 1, Ok(())), Next::Done);
    assert_eq!(advance(&steps, 0, Err(Error::Rmt)), Next::Stop(Error::Rmt));
    assert_eq!(advance(&steps, 1, Err(Error::Dma)), Next::Stop(Error::Dma));
}

#[test]
fn failed_frame_start_issues_nothing_after_the_error() {
    let mut p = Panel::new();
    let steps = Panel::frame_start();
    // the first pulse cannot configure the channel
    let mut pos: usize = 0;
    let mut last: Result<(), Error> = Ok(());
    let mut issued = 0;
    let end = loop {
        match advance(&steps, pos, last) {
            Next::Issue(s) => {
                issued += 1;
                last = match p.step(s) {
                    Action::Pulse(_) => p.pulse_finished(PulseOutcome::ConfigFailed),
                    _ => Ok(()),
                };
                pos += 1;
            }
            other => break other,
        }
    };
    assert_eq!(end, Next::Stop(Error::Rmt));
    assert_eq!(issued, 3);
    assert!(p.cfg_writer.config.mode);
    assert!(!p.cfg_writer.config.output_enable);
    assert_eq!(p.rmt.state, ChannelState::Uninitialized);
}

#[test]
fn waited_pulse_reported_as_submitted_is_refused() {
    let mut rmt = Rmt::new();
    let job = rmt.pulse(10, 10, true).unwrap();
    assert!(job.wait);
    assert!(rmt.waiting);
    assert_eq!(rmt.finish(PulseOutcome::Submitted), Err(Error::Rmt));
    assert_eq!(rmt.state, ChannelState::InFlight);
    assert!(!rmt.waiting);
    let mut rmt = Rmt::new();
    let _ = rmt.pulse(45, 5, false).unwrap();
    assert_eq!(rmt.finish(PulseOutcome::Submitted), Ok(()));
}

#[test]
fn cycle_clock_counts_wraps() {
    let mut c = CycleClock::new(100);
    assert_eq!(c.observe(200), 200);
    assert_eq!(c.observe(u32::MAX), u32::MAX as u64);
    assert_eq!(c.observe(5), (1u64 << 32) + 5);
    assert_eq!(c.observe(5), (1u64 << 32) + 5);
    assert_eq!(c.observe(4), (2u64 << 32) + 4);
    assert_eq!(c.wraps, 2);
    assert_eq!(c.last, 4);
    let mut top = CycleClock { wraps: u32::MAX, last: 10 };
    assert_eq!(top.observe(20), ((u32::MAX as u64) << 32) + 20);
    assert_eq!(top.observe(0), 0);
    assert_eq!(top.wraps, 0);
}
