//! The driver run against a simulated converter.

use stm32_adc::adc::{BringUp, Convert, Phase, Teardown};
use stm32_adc::regs::{
    CCR_TSEN, CCR_VBATEN, CCR_VREFEN, CR_ADCAL, CR_ADDIS, CR_ADEN, CR_ADSTART, CR_ADSTP,
    IER_EOCIE, ISR_ADRDY, ISR_EOC, ISR_EOSMP,
};
use stm32_adc::{
    Action, Adc, InternalChannel, InterruptHandler, Reg, Resolution, SampleTime, VREF_INT,
};

/// A converter that behaves as the reference manual says, with knobs for how
/// long it takes over each request.
struct Bench {
    isr: u32,
    ier: u32,
    cr: u32,
    cfgr1: u32,
    smpr: u32,
    chselr: u32,
    dr: u32,
    ccr: u32,
    clock: bool,
    settled: bool,
    line: bool,
    /// Reads of the control register that still show calibration running.
    calibration_polls: u32,
    /// Enable requests that the converter ignores before it comes up.
    ignored_enables: u32,
    /// Reads of the control register that still show the stop pending.
    stop_polls: u32,
    /// Reads of the control register that still show the converter enabled.
    disable_polls: u32,
    /// Requests performed after the start of a conversion before it completes;
    /// `None` completes only when the task is suspended.
    latency: Option<u32>,
    converting: bool,
    since_start: u32,
    /// The level on each channel, as a twelve-bit code.
    levels: [u16; 19],
    callback: bool,
    woken: bool,
    wakes: u32,
    suspensions: u32,
    enable_writes: u32,
    log: Vec<Action>,
    /// Whether the completion enable was found set exactly while a conversion
    /// was outstanding, at every request.
    enable_tracks_outstanding: bool,
    armed: bool,
}

impl Bench {
    fn new() -> Bench {
        Bench {
            isr: 0xdead_beef,
            ier: 0xdead_beef,
            cr: 0x0000_0001,
            cfgr1: 0xffff_ffff,
            smpr: 7,
            chselr: 0x7ffff,
            dr: 0xffff,
            ccr: 0,
            clock: false,
            settled: false,
            line: false,
            calibration_polls: 0,
            ignored_enables: 0,
            stop_polls: 0,
            disable_polls: 0,
            latency: Some(0),
            converting: false,
            since_start: 0,
            levels: [0; 19],
            callback: false,
            woken: false,
            wakes: 0,
            suspensions: 0,
            enable_writes: 0,
            log: Vec::new(),
            enable_tracks_outstanding: true,
            armed: false,
        }
    }

    fn bits(&self) -> u32 {
        match (self.cfgr1 >> 3) & 3 {
            0 => 12,
            1 => 10,
            2 => 8,
            _ => 6,
        }
    }

    fn load(&mut self, reg: Reg) -> u32 {
        match reg {
            Reg::Isr => self.isr,
            Reg::Ier => self.ier,
            Reg::Cr => {
                if self.cr & CR_ADCAL != 0 {
                    if self.calibration_polls == 0 {
                        self.cr &= !CR_ADCAL;
                    } else {
                        self.calibration_polls -= 1;
                    }
                }
                if self.cr & CR_ADSTP != 0 {
                    if self.stop_polls == 0 {
                        self.cr &= !(CR_ADSTP | CR_ADSTART);
                        self.converting = false;
                    } else {
                        self.stop_polls -= 1;
                    }
                }
                if self.cr & CR_ADDIS != 0 {
                    if self.disable_polls == 0 {
                        self.cr &= !(CR_ADDIS | CR_ADEN);
                    } else {
                        self.disable_polls -= 1;
                    }
                }
                self.cr
            }
            Reg::Cfgr1 => self.cfgr1,
            Reg::Smpr => self.smpr,
            Reg::Chselr => self.chselr,
            Reg::Dr => {
                self.isr &= !ISR_EOC;
                self.dr
            }
            Reg::Ccr => self.ccr,
        }
    }

    fn store(&mut self, reg: Reg, word: u32) {
        match reg {
            Reg::Isr => self.isr &= !word,
            Reg::Ier => {
                self.ier = word;
                if word & IER_EOCIE != 0 {
                    self.armed = true;
                }
            }
            Reg::Cr => {
                let mut word = word;
                if word & CR_ADEN != 0 {
                    self.enable_writes += 1;
                    if self.ignored_enables > 0 {
                        self.ignored_enables -= 1;
                        word &= !CR_ADEN;
                    } else {
                        self.isr |= ISR_ADRDY;
                    }
                }
                if word & CR_ADSTART != 0 {
                    self.converting = true;
                    self.since_start = 0;
                }
                self.cr |= word;
            }
            Reg::Cfgr1 => self.cfgr1 = word,
            Reg::Smpr => self.smpr = word,
            Reg::Chselr => self.chselr = word,
            Reg::Dr => {}
            Reg::Ccr => self.ccr = word,
        }
    }

    /// The hardware completes the conversion and raises the interrupt, which
    /// the handler serves at once.
    fn complete(&mut self) {
        assert!(self.converting);
        assert_eq!(self.chselr.count_ones(), 1);
        let channel = self.chselr.trailing_zeros() as usize;
        self.converting = false;
        self.armed = false;
        self.cr &= !CR_ADSTART;
        self.dr = (self.levels[channel] >> (12 - self.bits())) as u32;
        self.isr |= ISR_EOC | ISR_EOSMP;
        if self.line && self.ier & IER_EOCIE != 0 {
            self.interrupt();
        }
    }

    fn interrupt(&mut self) {
        let mut handler = InterruptHandler::on_interrupt();
        let mut action = handler.pending();
        loop {
            let input = match action {
                Action::Idle => break,
                Action::Read(Reg::Dr) => panic!("the handler read the data register"),
                Action::Read(reg) => self.load(reg),
                Action::Write(reg, word) => {
                    self.store(reg, word);
                    0
                }
                Action::Wake => {
                    self.wakes += 1;
                    if self.callback {
                        self.woken = true;
                    }
                    0
                }
                other => panic!("the handler asked for {:?}", other),
            };
            action = handler.step(input);
        }
    }

    /// Performs one request of the driver and returns what to step it with.
    fn perform(&mut self, action: Action) -> u32 {
        if self.converting {
            if self.latency == Some(self.since_start) {
                self.complete();
            } else {
                self.since_start += 1;
            }
        }
        let outstanding = self.armed;
        if (self.ier & IER_EOCIE != 0) != outstanding && self.settled {
            self.enable_tracks_outstanding = false;
        }
        self.log.push(action);
        match action {
            Action::EnableClock => {
                self.clock = true;
                0
            }
            Action::DisableClock => {
                assert_eq!(self.cr & CR_ADEN, 0, "clock turned off with the converter enabled");
                self.clock = false;
                0
            }
            Action::ResetPeripheral => {
                self.settled = true;
                self.isr = 0;
                self.ier = 0;
                self.cr = 0;
                self.cfgr1 = 0;
                self.smpr = 0;
                self.chselr = 0;
                self.dr = 0;
                self.ccr = 0;
                0
            }
            Action::DelayUs(_) | Action::UnpendInterrupt => 0,
            Action::EnableInterrupt => {
                self.line = true;
                0
            }
            Action::Read(reg) => self.load(reg),
            Action::Write(reg, word) => {
                self.store(reg, word);
                0
            }
            Action::RegisterWaker => {
                self.callback = true;
                0
            }
            Action::Suspend => {
                self.suspensions += 1;
                if !self.woken {
                    assert!(self.converting, "the task sleeps and nothing will wake it");
                    self.complete();
                }
                assert!(self.woken, "the task sleeps and the completion did not wake it");
                self.woken = false;
                0
            }
            Action::Wake | Action::Sample(_) | Action::Idle => {
                panic!("the driver asked for {:?}", action)
            }
        }
    }

    /// Runs the driver until it has nothing in flight and returns its last
    /// answer.
    fn run(&mut self, adc: &mut Adc, first: Action) -> Action {
        let mut action = first;
        let mut steps = 0;
        loop {
            match action {
                Action::Idle | Action::Sample(_) => return action,
                _ => {}
            }
            assert_eq!(adc.pending(), action);
            let input = self.perform(action);
            action = adc.step(input);
            steps += 1;
            assert!(steps < 10_000, "the driver does not come to rest");
        }
    }

    fn bring_up(&mut self) -> Adc {
        let mut adc = Adc::new();
        let first = adc.pending();
        assert_eq!(self.run(&mut adc, first), Action::Idle);
        assert!(adc.is_ready());
        adc
    }

    fn read(&mut self, adc: &mut Adc, channel: u8) -> u16 {
        let first = adc.read(channel);
        match self.run(adc, first) {
            Action::Sample(code) => {
                assert!(adc.is_ready());
                code
            }
            other => panic!("a conversion ended with {:?}", other),
        }
    }

    fn read_internal<C: InternalChannel>(&mut self, adc: &mut Adc, channel: &mut C) -> u16 {
        let first = adc.read_internal(channel);
        match self.run(adc, first) {
            Action::Sample(code) => code,
            other => panic!("a conversion ended with {:?}", other),
        }
    }

    fn set_resolution(&mut self, adc: &mut Adc, resolution: Resolution) {
        let first = adc.set_resolution(resolution);
        assert_eq!(self.run(adc, first), Action::Idle);
        assert!(adc.is_ready());
    }
}

#[test]
fn bring_up_follows_the_sequence() {
    let mut bench = Bench::new();
    let adc = bench.bring_up();
    assert_eq!(adc.phase(), Phase::Ready);
    assert_eq!(
        bench.log,
        vec![
            Action::EnableClock,
            Action::ResetPeripheral,
            Action::DelayUs(1),
            Action::Read(Reg::Cfgr1),
            Action::Write(Reg::Cfgr1, 0),
            Action::Read(Reg::Cr),
            Action::Write(Reg::Cr, CR_ADCAL),
            Action::Read(Reg::Cr),
            Action::Read(Reg::Isr),
            Action::Read(Reg::Cr),
            Action::Write(Reg::Cr, CR_ADEN),
            Action::Read(Reg::Isr),
            Action::UnpendInterrupt,
            Action::EnableInterrupt,
        ]
    );
    assert!(bench.clock);
    assert!(bench.line);
    assert_eq!(bench.cr & CR_ADEN, CR_ADEN);
    assert_eq!(bench.ier & IER_EOCIE, 0);
}

#[test]
fn bring_up_waits_for_calibration() {
    let mut bench = Bench::new();
    bench.calibration_polls = 5;
    bench.bring_up();
    let polls = bench.log.iter().take_while(|a| **a != Action::Read(Reg::Isr)).filter(|a| {
        **a == Action::Read(Reg::Cr)
    }).count();
    // One read for the read-modify-write that requests calibration, then six
    // polls: five that find it running and the one that finds it done.
    assert_eq!(polls, 7);
}

#[test]
fn bring_up_repeats_the_enable_request_until_ready() {
    for ignored in 0..40u32 {
        let mut bench = Bench::new();
        bench.ignored_enables = ignored;
        bench.bring_up();
        assert_eq!(bench.enable_writes, ignored + 1);
        assert_eq!(bench.cr & CR_ADEN, CR_ADEN);
        let looks = bench.log.iter().filter(|a| **a == Action::Read(Reg::Isr)).count();
        // The probe for a stale ready flag, then one look per enable request.
        assert_eq!(looks as u32, 1 + ignored + 1);
        assert_eq!(bench.log.len() as u32, 14 + 3 * ignored);
    }
}

#[test]
fn bring_up_repeats_identical_enable_writes() {
    let mut bench = Bench::new();
    bench.ignored_enables = 3;
    bench.bring_up();
    let writes: Vec<&Action> = bench.log.iter().filter(|a| match a {
        Action::Write(Reg::Cr, w) => w & CR_ADEN != 0,
        _ => false,
    }).collect();
    assert_eq!(writes.len(), 4);
    for w in writes {
        assert_eq!(*w, Action::Write(Reg::Cr, CR_ADEN));
    }
}

#[test]
fn bring_up_clears_a_ready_flag_that_is_already_up() {
    let mut adc = Adc::new();
    assert_eq!(adc.pending(), Action::EnableClock);
    assert_eq!(adc.step(0), Action::ResetPeripheral);
    assert_eq!(adc.step(0), Action::DelayUs(1));
    assert_eq!(adc.step(0), Action::Read(Reg::Cfgr1));
    assert_eq!(adc.step(0x0000_1019), Action::Write(Reg::Cfgr1, 0x0000_1018));
    assert_eq!(adc.step(0), Action::Read(Reg::Cr));
    assert_eq!(adc.step(0), Action::Write(Reg::Cr, CR_ADCAL));
    assert_eq!(adc.step(0), Action::Read(Reg::Cr));
    assert_eq!(adc.step(CR_ADCAL), Action::Read(Reg::Cr));
    assert_eq!(adc.phase(), Phase::Calibrating(BringUp::CalibrationPoll));
    assert_eq!(adc.step(0), Action::Read(Reg::Isr));
    // The ready flag is up before the converter was enabled.
    assert_eq!(adc.step(ISR_ADRDY | ISR_EOSMP), Action::Read(Reg::Isr));
    assert_eq!(adc.step(ISR_ADRDY | ISR_EOSMP), Action::Write(Reg::Isr, ISR_ADRDY | ISR_EOSMP));
    assert_eq!(adc.step(0), Action::Read(Reg::Cr));
    assert_eq!(adc.step(0), Action::Write(Reg::Cr, CR_ADEN));
    assert_eq!(adc.step(0), Action::Read(Reg::Isr));
    assert_eq!(adc.step(0), Action::Read(Reg::Cr));
    assert_eq!(adc.step(0), Action::Write(Reg::Cr, CR_ADEN));
    assert_eq!(adc.step(0), Action::Read(Reg::Isr));
    assert_eq!(adc.step(ISR_ADRDY), Action::UnpendInterrupt);
    assert_eq!(adc.step(0), Action::EnableInterrupt);
    assert!(!adc.is_ready());
    assert_eq!(adc.step(0), Action::Idle);
    assert!(adc.is_ready());
}

#[test]
fn conversion_follows_the_sequence() {
    let mut bench = Bench::new();
    let mut adc = bench.bring_up();
    adc.set_sample_time(SampleTime::Cycles71_5);
    bench.levels[1] = 0x0abc;
    bench.latency = None;
    bench.log.clear();
    assert_eq!(bench.read(&mut adc, 1), 0x0abc);
    assert_eq!(
        bench.log,
        vec![
            Action::Write(Reg::Chselr, 1 << 1),
            Action::Read(Reg::Isr),
            Action::Write(Reg::Isr, ISR_ADRDY | ISR_EOC | ISR_EOSMP),
            Action::Read(Reg::Smpr),
            Action::Write(Reg::Smpr, 6),
            Action::Read(Reg::Ier),
            Action::Write(Reg::Ier, IER_EOCIE),
            Action::Read(Reg::Cr),
            Action::Write(Reg::Cr, CR_ADEN | CR_ADSTART),
            Action::RegisterWaker,
            Action::Read(Reg::Isr),
            Action::Suspend,
            Action::RegisterWaker,
            Action::Read(Reg::Isr),
            Action::Read(Reg::Dr),
        ]
    );
    assert_eq!(bench.isr & ISR_EOC, 0);
    assert_eq!(bench.ier & IER_EOCIE, 0);
}

#[test]
fn read_returns_a_value_within_the_resolution() {
    let mut bench = Bench::new();
    let mut adc = bench.bring_up();
    bench.levels[3] = 0x0fff;
    let code = bench.read(&mut adc, 3);
    assert!(code <= 4095);
    assert_eq!(code, 4095);
    bench.set_resolution(&mut adc, Resolution::EightBit);
    let code = bench.read(&mut adc, 3);
    assert!(code <= 255);
    assert_eq!(code, 255);
}

#[test]
fn every_resolution_bounds_the_raw_code() {
    let all = [
        (Resolution::TwelveBit, 4095u16, 12u32),
        (Resolution::TenBit, 1023, 10),
        (Resolution::EightBit, 255, 8),
        (Resolution::SixBit, 63, 6),
    ];
    for (resolution, max, bits) in all {
        let mut bench = Bench::new();
        let mut adc = bench.bring_up();
        bench.set_resolution(&mut adc, resolution);
        assert_eq!(bench.bits(), bits);
        assert_eq!(resolution.to_max_count(), max);
        for level in [0u16, 1, 0x0555, 0x0800, 0x0fff] {
            bench.levels[7] = level;
            let code = bench.read(&mut adc, 7);
            assert!(code <= max);
            assert_eq!(code, level >> (12 - bits));
        }
    }
}

#[test]
fn set_resolution_touches_only_its_field() {
    let all = [
        (Resolution::TwelveBit, 0u32),
        (Resolution::TenBit, 1),
        (Resolution::EightBit, 2),
        (Resolution::SixBit, 3),
    ];
    for (resolution, code) in all {
        let mut bench = Bench::new();
        let mut adc = bench.bring_up();
        bench.cfgr1 = 0xffff_ffe6;
        bench.log.clear();
        bench.set_resolution(&mut adc, resolution);
        assert_eq!(bench.cfgr1, 0xffff_ffe6 | (code << 3));
        assert_eq!(
            bench.log,
            vec![Action::Read(Reg::Cfgr1), Action::Write(Reg::Cfgr1, 0xffff_ffe6 | (code << 3))]
        );
        bench.cfgr1 = 0x0000_0018;
        bench.set_resolution(&mut adc, resolution);
        assert_eq!(bench.cfgr1, code << 3);
    }
}

#[test]
fn sample_time_is_applied_to_the_next_conversion() {
    let all = [
        (SampleTime::Cycles1_5, 0u32),
        (SampleTime::Cycles7_5, 1),
        (SampleTime::Cycles13_5, 2),
        (SampleTime::Cycles28_5, 3),
        (SampleTime::Cycles41_5, 4),
        (SampleTime::Cycles55_5, 5),
        (SampleTime::Cycles71_5, 6),
        (SampleTime::Cycles239_5, 7),
    ];
    let mut bench = Bench::new();
    let mut adc = bench.bring_up();
    assert_eq!(adc.sample_time(), SampleTime::Cycles1_5);
    for (sample_time, code) in all {
        adc.set_sample_time(sample_time);
        assert_eq!(adc.sample_time(), sample_time);
        assert!(adc.is_ready());
        bench.smpr = 0xffff_fff8 | 5;
        bench.read(&mut adc, 0);
        assert_eq!(bench.smpr, 0xffff_fff8 | code);
    }
}

#[test]
fn channel_selection_is_exclusive() {
    let mut bench = Bench::new();
    let mut adc = bench.bring_up();
    for first in 0..19u8 {
        for second in 0..19u8 {
            bench.read(&mut adc, first);
            assert_eq!(bench.chselr, 1 << first);
            bench.read(&mut adc, second);
            assert_eq!(bench.chselr, 1 << second);
            assert_eq!(bench.chselr.count_ones(), 1);
        }
    }
}

#[test]
fn internal_channels_read_independently() {
    let mut bench = Bench::new();
    let mut adc = bench.bring_up();
    bench.levels[18] = 0x0123;
    bench.levels[17] = 0x0456;
    bench.levels[16] = 0x0789;
    bench.log.clear();

    let (mut vbat, first) = adc.enable_vbat();
    assert_eq!(first, Action::Read(Reg::Ccr));
    assert_eq!(bench.run(&mut adc, first), Action::Idle);
    assert_eq!(bench.ccr, CCR_VBATEN);
    assert_eq!(bench.log, vec![Action::Read(Reg::Ccr), Action::Write(Reg::Ccr, CCR_VBATEN)]);

    bench.log.clear();
    let (mut vref, first) = adc.enable_vref();
    assert_eq!(bench.run(&mut adc, first), Action::Idle);
    assert_eq!(bench.ccr, CCR_VBATEN | CCR_VREFEN);
    assert_eq!(
        bench.log,
        vec![
            Action::Read(Reg::Ccr),
            Action::Write(Reg::Ccr, CCR_VBATEN | CCR_VREFEN),
            Action::DelayUs(10),
        ]
    );

    bench.log.clear();
    let (mut temperature, first) = adc.enable_temperature();
    assert_eq!(bench.run(&mut adc, first), Action::Idle);
    assert_eq!(bench.ccr, CCR_VBATEN | CCR_VREFEN | CCR_TSEN);
    assert_eq!(
        bench.log,
        vec![
            Action::Read(Reg::Ccr),
            Action::Write(Reg::Ccr, CCR_VBATEN | CCR_VREFEN | CCR_TSEN),
            Action::DelayUs(10),
        ]
    );

    assert_eq!(vbat.channel(), 18);
    assert_eq!(vref.channel(), 17);
    assert_eq!(temperature.channel(), 16);

    assert_eq!(bench.read_internal(&mut adc, &mut vbat), 0x0123);
    assert_eq!(bench.chselr, 1 << 18);
    assert_eq!(bench.read_internal(&mut adc, &mut vref), 0x0456);
    assert_eq!(bench.chselr, 1 << 17);
    assert_eq!(bench.read_internal(&mut adc, &mut temperature), 0x0789);
    assert_eq!(bench.chselr, 1 << 16);
    assert_eq!(bench.read_internal(&mut adc, &mut vbat), 0x0123);
    assert_eq!(bench.chselr, 1 << 18);
    assert_eq!(bench.ccr, CCR_VBATEN | CCR_VREFEN | CCR_TSEN);
}

#[test]
fn millivolts_from_the_reference_voltage() {
    let mut bench = Bench::new();
    let mut adc = bench.bring_up();
    bench.levels[17] = 1500;
    bench.levels[4] = 2048;
    let (mut vref, first) = adc.enable_vref();
    assert_eq!(bench.run(&mut adc, first), Action::Idle);
    let r_ref = bench.read_internal(&mut adc, &mut vref);
    let r_pin = bench.read(&mut adc, 4);
    assert_eq!(r_ref, 1500);
    assert_eq!(r_pin, 2048);
    let millivolts = u32::from(r_pin) * VREF_INT / u32::from(r_ref);
    assert_eq!(millivolts, 1679);
    assert!(millivolts.abs_diff(1680) <= 1);
}

#[test]
fn completion_before_registration_is_not_missed() {
    let mut bench = Bench::new();
    let mut adc = bench.bring_up();
    bench.levels[2] = 0x0321;
    // The conversion completes right after it was started, before the task
    // has registered its callback: the wake finds the slot empty.
    bench.callback = false;
    bench.latency = Some(0);
    bench.log.clear();
    assert_eq!(bench.read(&mut adc, 2), 0x0321);
    assert_eq!(bench.suspensions, 0);
    assert_eq!(bench.wakes, 1);
    assert!(!bench.woken);
    assert!(!bench.log.contains(&Action::Suspend));
    assert_eq!(bench.ier & IER_EOCIE, 0);
}

#[test]
fn completion_after_registration_resumes_once() {
    let mut bench = Bench::new();
    let mut adc = bench.bring_up();
    bench.levels[2] = 0x0321;
    // The conversion completes only once the task is suspended.
    bench.latency = None;
    assert_eq!(bench.read(&mut adc, 2), 0x0321);
    assert_eq!(bench.suspensions, 1);
    assert_eq!(bench.wakes, 1);
    assert!(!bench.woken);
    assert_eq!(bench.ier & IER_EOCIE, 0);
}

#[test]
fn completion_at_any_moment_resumes_the_task() {
    for latency in 0..8u32 {
        let mut bench = Bench::new();
        let mut adc = bench.bring_up();
        bench.levels[9] = 0x0200 + latency as u16;
        bench.latency = Some(latency);
        assert_eq!(bench.read(&mut adc, 9), 0x0200 + latency as u16);
        assert_eq!(bench.wakes, 1);
        assert!(bench.suspensions <= 1);
        assert_eq!(bench.ier & IER_EOCIE, 0);
        // A second conversion is not disturbed by what the first left behind.
        bench.levels[9] = 0x0111;
        assert_eq!(bench.read(&mut adc, 9), 0x0111);
        assert_eq!(bench.wakes, 2);
    }
}

#[test]
fn completion_between_look_and_suspension_is_not_missed() {
    let mut bench = Bench::new();
    let mut adc = bench.bring_up();
    bench.levels[5] = 0x0777;
    // Two requests follow the start before completion: the registration and
    // the look at the flag. The conversion completes just before the task
    // suspends, so the wake comes first and the suspension returns at once.
    bench.latency = Some(2);
    assert_eq!(bench.read(&mut adc, 5), 0x0777);
    assert_eq!(bench.suspensions, 1);
    assert_eq!(bench.wakes, 1);
}

#[test]
fn completion_enable_is_set_exactly_while_a_conversion_is_outstanding() {
    for latency in [Some(0), Some(1), Some(2), Some(3), None] {
        let mut bench = Bench::new();
        let mut adc = bench.bring_up();
        bench.latency = latency;
        for channel in [0u8, 18, 7] {
            bench.read(&mut adc, channel);
            assert_eq!(bench.ier & IER_EOCIE, 0);
        }
        bench.set_resolution(&mut adc, Resolution::TenBit);
        bench.read(&mut adc, 1);
        let first = adc.shutdown();
        assert_eq!(bench.run(&mut adc, first), Action::Idle);
        assert!(bench.enable_tracks_outstanding);
        assert_eq!(bench.ier & IER_EOCIE, 0);
    }
}

#[test]
fn teardown_follows_the_sequence() {
    let mut bench = Bench::new();
    let mut adc = bench.bring_up();
    bench.read(&mut adc, 0);
    bench.log.clear();
    let first = adc.shutdown();
    assert_eq!(first, Action::Read(Reg::Cr));
    assert_eq!(adc.phase(), Phase::Disabling(Teardown::Stop(stm32_adc::Rmw::Fetch)));
    assert_eq!(bench.run(&mut adc, first), Action::Idle);
    assert!(adc.is_disabled());
    assert_eq!(
        bench.log,
        vec![
            Action::Read(Reg::Cr),
            Action::Write(Reg::Cr, CR_ADEN | CR_ADSTP),
            Action::Read(Reg::Cr),
            Action::Read(Reg::Cr),
            Action::Write(Reg::Cr, CR_ADEN | CR_ADDIS),
            Action::Read(Reg::Cr),
            Action::DisableClock,
        ]
    );
    assert_eq!(bench.cr & CR_ADEN, 0);
    assert!(!bench.clock);
}

#[test]
fn teardown_waits_until_the_converter_is_disabled() {
    for polls in 0..20u32 {
        let mut bench = Bench::new();
        let mut adc = bench.bring_up();
        bench.read(&mut adc, 0);
        bench.stop_polls = polls;
        bench.disable_polls = 2 * polls;
        bench.log.clear();
        let first = adc.shutdown();
        assert_eq!(bench.run(&mut adc, first), Action::Idle);
        assert!(adc.is_disabled());
        assert!(!bench.clock);
        assert_eq!(bench.log.len() as u32, 7 + 3 * polls);
        assert_eq!(bench.log.last(), Some(&Action::DisableClock));
        assert_eq!(bench.log.iter().filter(|a| **a == Action::DisableClock).count(), 1);
    }
}

#[test]
fn teardown_is_final() {
    let mut bench = Bench::new();
    let mut adc = bench.bring_up();
    let first = adc.shutdown();
    assert_eq!(bench.run(&mut adc, first), Action::Idle);
    assert_eq!(adc.phase(), Phase::Disabled);
    assert!(!adc.is_ready());
    assert_eq!(adc.pending(), Action::Idle);
    assert_eq!(adc.step(0xffff_ffff), Action::Idle);
    assert_eq!(adc.phase(), Phase::Disabled);
    assert_eq!(adc.shutdown(), Action::Idle);
    assert_eq!(adc.phase(), Phase::Disabled);
}

#[test]
fn teardown_can_begin_in_the_middle_of_a_conversion() {
    let mut bench = Bench::new();
    let mut adc = bench.bring_up();
    bench.latency = None;
    let mut action = adc.read(6);
    while adc.phase() != Phase::Converting(Convert::Park) {
        let input = bench.perform(action);
        action = adc.step(input);
    }
    assert_eq!(bench.cr & CR_ADSTART, CR_ADSTART);
    let first = adc.shutdown();
    assert_eq!(first, Action::Read(Reg::Cr));
    // Asking again while teardown runs changes nothing.
    assert_eq!(adc.shutdown(), Action::Read(Reg::Cr));
    assert_eq!(adc.phase(), Phase::Disabling(Teardown::Stop(stm32_adc::Rmw::Fetch)));
    bench.stop_polls = 2;
    assert_eq!(bench.run(&mut adc, first), Action::Idle);
    assert!(adc.is_disabled());
    assert_eq!(bench.cr & (CR_ADSTART | CR_ADEN), 0);
    assert!(!bench.clock);
}

#[test]
fn a_resting_driver_answers_idle() {
    let mut bench = Bench::new();
    let mut adc = bench.bring_up();
    adc.set_sample_time(SampleTime::Cycles13_5);
    assert_eq!(adc.pending(), Action::Idle);
    assert_eq!(adc.step(0x1234_5678), Action::Idle);
    assert_eq!(adc.phase(), Phase::Ready);
    assert_eq!(adc.sample_time(), SampleTime::Cycles13_5);
}
