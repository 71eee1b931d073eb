//! The driver: bring-up, configuration, conversion and teardown as one state
//! machine.
//!
//! The driver never touches the hardware. At every moment it is either at
//! rest or has exactly one request in flight, which [`Phase::request`] names.
//! Its environment performs that request and calls [`Adc::step`] with the
//! word that was read, if the request was a read. The step decides what comes
//! next. All words written to registers are computed here.
//!
//! The model of the driver is [`State`]: the sample time and the phase. The
//! transition function is [`State::step`]; `Adc::step` computes it.

use vstd::prelude::*;

use crate::action::{Action, Rmw};
use crate::channel::{selection, InternalChannel, Temperature, Vbat, Vref, CHANNELS};
use crate::config::{Resolution, SampleTime};
use crate::regs::{
    is_set, probe, put, Reg, CCR_TSEN, CCR_VBATEN, CCR_VREFEN, CFGR1_DMAEN, CFGR1_RES, CFGR1_RES_SHIFT,
    CR_ADCAL, CR_ADDIS, CR_ADEN, CR_ADSTART, CR_ADSTP, DR_DATA, IER_EOCIE, ISR_ADRDY, ISR_EOC,
    ISR_EOSMP, SMPR_SMP,
};

verus! {

/// The supply voltage at which the factory calibration values were taken, in
/// millivolts.
pub const VDDA_CALIB_MV: u32 = 3300;

/// The nominal internal reference voltage, in millivolts.
pub const VREF_INT: u32 = 1230;

/// How long the converter's clock needs to stabilise after reset, in
/// microseconds.
pub const STABILISATION_US: u32 = 1;

/// How long the reference voltage and the temperature sensor need to start
/// up, in microseconds.
pub const STARTUP_US: u32 = 10;

/// A source inside the chip.
#[derive(Clone, Copy, Debug, PartialEq, Eq, Structural)]
pub enum Source {
    /// The battery voltage.
    Vbat,
    /// The internal reference voltage.
    Vref,
    /// The temperature sensor.
    Temperature,
}

impl Source {
    /// The switch of the source in the common configuration register.
    pub open spec fn switch(self) -> u32 {
        match self {
            Source::Vbat => CCR_VBATEN,
            Source::Vref => CCR_VREFEN,
            Source::Temperature => CCR_TSEN,
        }
    }

    /// Whether the driver waits for the source to start up after switching it
    /// on. It does not for the battery voltage: the caller has to let that
    /// one settle before sampling it.
    pub open spec fn waits(self) -> bool {
        self != Source::Vbat
    }

    fn mask(self) -> (m: u32)
        ensures
            m == self.switch(),
    {
        match self {
            Source::Vbat => CCR_VBATEN,
            Source::Vref => CCR_VREFEN,
            Source::Temperature => CCR_TSEN,
        }
    }
}

/// The steps of bring-up, each named after the request in flight.
#[derive(Clone, Copy, Debug, PartialEq, Eq, Structural)]
pub enum BringUp {
    /// Turning the clock on.
    ClockOn,
    /// Resetting the converter.
    Reset,
    /// Waiting for the clock to stabilise.
    Settle,
    /// Detaching the DMA controller.
    Dma(Rmw),
    /// Requesting calibration.
    Calibrate(Rmw),
    /// Reading the control register until calibration has ended.
    CalibrationPoll,
    /// Looking whether the ready flag is already up.
    ReadyProbe,
    /// Clearing a ready flag that was already up.
    ReadyClear(Rmw),
    /// Requesting the converter to be enabled.
    Enable(Rmw),
    /// Looking whether the converter is ready.
    EnablePoll,
    /// Clearing a pending interrupt.
    Unpend,
    /// Enabling the interrupt.
    IrqOn,
}

/// The steps of a change of configuration.
#[derive(Clone, Copy, Debug, PartialEq, Eq, Structural)]
pub enum Configure {
    /// Writing a resolution.
    Resolution(Resolution, Rmw),
    /// Switching a source on.
    Source(Source, Rmw),
    /// Waiting for a source to start up.
    Settle,
}

/// The steps of a conversion.
#[derive(Clone, Copy, Debug, PartialEq, Eq, Structural)]
pub enum Convert {
    /// Writing this word to the selection register.
    Select(u32),
    /// Clearing the flags of the previous conversion.
    ClearFlags(Rmw),
    /// Writing the sample time.
    SampleTime(Rmw),
    /// Enabling the completion interrupt.
    Arm(Rmw),
    /// Starting the conversion.
    Start(Rmw),
    /// Registering the resumption callback.
    Register,
    /// Looking whether the conversion has completed.
    Check,
    /// Suspended until the callback is invoked.
    Park,
    /// Reading the result.
    Fetch,
}

/// The steps of teardown.
#[derive(Clone, Copy, Debug, PartialEq, Eq, Structural)]
pub enum Teardown {
    /// Requesting a running conversion to stop.
    Stop(Rmw),
    /// Reading the control register until the stop has been acknowledged.
    StopPoll,
    /// Requesting the converter to be disabled.
    Disable(Rmw),
    /// Reading the control register until the converter is disabled.
    DisablePoll,
    /// Turning the clock off.
    ClockOff,
}

/// Where the driver stands.
#[derive(Clone, Copy, Debug, PartialEq, Eq, Structural)]
pub enum Phase {
    /// Being brought up.
    Calibrating(BringUp),
    /// At rest, waiting for a request.
    Ready,
    /// Ready, with a change of configuration in progress.
    Configuring(Configure),
    /// Converting.
    Converting(Convert),
    /// Being torn down.
    Disabling(Teardown),
    /// Torn down. Nothing leads out of this phase.
    Disabled,
}

/// The raw code that the data register `word` holds.
pub open spec fn raw_code(word: u32) -> u16 {
    (word & DR_DATA) as u16
}

impl BringUp {
    /// The request in flight.
    pub open spec fn request(self) -> Action {
        match self {
            BringUp::ClockOn => Action::EnableClock,
            BringUp::Reset => Action::ResetPeripheral,
            BringUp::Settle => Action::DelayUs(STABILISATION_US),
            BringUp::Dma(m) => m.request(Reg::Cfgr1),
            BringUp::Calibrate(m) => m.request(Reg::Cr),
            BringUp::CalibrationPoll => Action::Read(Reg::Cr),
            BringUp::ReadyProbe => Action::Read(Reg::Isr),
            BringUp::ReadyClear(m) => m.request(Reg::Isr),
            BringUp::Enable(m) => m.request(Reg::Cr),
            BringUp::EnablePoll => Action::Read(Reg::Isr),
            BringUp::Unpend => Action::UnpendInterrupt,
            BringUp::IrqOn => Action::EnableInterrupt,
        }
    }

    /// The phase that follows once the request has been performed and has
    /// returned `input`.
    ///
    /// Calibration is requested and then waited for. A ready flag that is
    /// already up is cleared. The enable request is written again after every
    /// look at the ready flag that finds it down: the converter may ignore an
    /// enable request that comes too soon after calibration.
    pub open spec fn advance(self, input: u32) -> Phase {
        match self {
            BringUp::ClockOn => Phase::Calibrating(BringUp::Reset),
            BringUp::Reset => Phase::Calibrating(BringUp::Settle),
            BringUp::Settle => Phase::Calibrating(BringUp::Dma(Rmw::Fetch)),
            BringUp::Dma(Rmw::Fetch) => Phase::Calibrating(
                BringUp::Dma(Rmw::Store(input & !CFGR1_DMAEN)),
            ),
            BringUp::Dma(Rmw::Store(_)) => Phase::Calibrating(BringUp::Calibrate(Rmw::Fetch)),
            BringUp::Calibrate(Rmw::Fetch) => Phase::Calibrating(
                BringUp::Calibrate(Rmw::Store(input | CR_ADCAL)),
            ),
            BringUp::Calibrate(Rmw::Store(_)) => Phase::Calibrating(BringUp::CalibrationPoll),
            BringUp::CalibrationPoll => if is_set(input, CR_ADCAL) {
                Phase::Calibrating(BringUp::CalibrationPoll)
            } else {
                Phase::Calibrating(BringUp::ReadyProbe)
            },
            BringUp::ReadyProbe => if is_set(input, ISR_ADRDY) {
                Phase::Calibrating(BringUp::ReadyClear(Rmw::Fetch))
            } else {
                Phase::Calibrating(BringUp::Enable(Rmw::Fetch))
            },
            BringUp::ReadyClear(Rmw::Fetch) => Phase::Calibrating(
                BringUp::ReadyClear(Rmw::Store(input | ISR_ADRDY)),
            ),
            BringUp::ReadyClear(Rmw::Store(_)) => Phase::Calibrating(BringUp::Enable(Rmw::Fetch)),
            BringUp::Enable(Rmw::Fetch) => Phase::Calibrating(
                BringUp::Enable(Rmw::Store(input | CR_ADEN)),
            ),
            BringUp::Enable(Rmw::Store(_)) => Phase::Calibrating(BringUp::EnablePoll),
            BringUp::EnablePoll => if is_set(input, ISR_ADRDY) {
                Phase::Calibrating(BringUp::Unpend)
            } else {
                Phase::Calibrating(BringUp::Enable(Rmw::Fetch))
            },
            BringUp::Unpend => Phase::Calibrating(BringUp::IrqOn),
            BringUp::IrqOn => Phase::Ready,
        }
    }

    fn pending(self) -> (action: Action)
        ensures
            action == self.request(),
    {
        match self {
            BringUp::ClockOn => Action::EnableClock,
            BringUp::Reset => Action::ResetPeripheral,
            BringUp::Settle => Action::DelayUs(STABILISATION_US),
            BringUp::Dma(m) => m.pending(Reg::Cfgr1),
            BringUp::Calibrate(m) | BringUp::Enable(m) => m.pending(Reg::Cr),
            BringUp::CalibrationPoll => Action::Read(Reg::Cr),
            BringUp::ReadyClear(m) => m.pending(Reg::Isr),
            BringUp::ReadyProbe | BringUp::EnablePoll => Action::Read(Reg::Isr),
            BringUp::Unpend => Action::UnpendInterrupt,
            BringUp::IrqOn => Action::EnableInterrupt,
        }
    }

    fn next(self, input: u32) -> (phase: Phase)
        ensures
            phase == self.advance(input),
    {
        let then = match self {
            BringUp::ClockOn => BringUp::Reset,
            BringUp::Reset => BringUp::Settle,
            BringUp::Settle => BringUp::Dma(Rmw::Fetch),
            BringUp::Dma(Rmw::Fetch) => BringUp::Dma(Rmw::Store(input & !CFGR1_DMAEN)),
            BringUp::Dma(Rmw::Store(_)) => BringUp::Calibrate(Rmw::Fetch),
            BringUp::Calibrate(Rmw::Fetch) => BringUp::Calibrate(Rmw::Store(input | CR_ADCAL)),
            BringUp::Calibrate(Rmw::Store(_)) => BringUp::CalibrationPoll,
            BringUp::CalibrationPoll => {
                if probe(input, CR_ADCAL) {
                    BringUp::CalibrationPoll
                } else {
                    BringUp::ReadyProbe
                }
            },
            BringUp::ReadyProbe => {
                if probe(input, ISR_ADRDY) {
                    BringUp::ReadyClear(Rmw::Fetch)
                } else {
                    BringUp::Enable(Rmw::Fetch)
                }
            },
            BringUp::ReadyClear(Rmw::Fetch) => BringUp::ReadyClear(Rmw::Store(input | ISR_ADRDY)),
            BringUp::ReadyClear(Rmw::Store(_)) => BringUp::Enable(Rmw::Fetch),
            BringUp::Enable(Rmw::Fetch) => BringUp::Enable(Rmw::Store(input | CR_ADEN)),
            BringUp::Enable(Rmw::Store(_)) => BringUp::EnablePoll,
            BringUp::EnablePoll => {
                if probe(input, ISR_ADRDY) {
                    BringUp::Unpend
                } else {
                    BringUp::Enable(Rmw::Fetch)
                }
            },
            BringUp::Unpend => BringUp::IrqOn,
            BringUp::IrqOn => {
                return Phase::Ready;
            },
        };
        Phase::Calibrating(then)
    }
}

impl Configure {
    /// The request in flight.
    pub open spec fn request(self) -> Action {
        match self {
            Configure::Resolution(_, m) => m.request(Reg::Cfgr1),
            Configure::Source(_, m) => m.request(Reg::Ccr),
            Configure::Settle => Action::DelayUs(STARTUP_US),
        }
    }

    /// The phase that follows once the request has been performed and has
    /// returned `input`.
    ///
    /// A resolution replaces the resolution field of the configuration
    /// register. A source is switched on by setting its bit; the driver then
    /// waits for the source to start up, unless it is the battery voltage.
    pub open spec fn advance(self, input: u32) -> Phase {
        match self {
            Configure::Resolution(resolution, Rmw::Fetch) => Phase::Configuring(
                Configure::Resolution(resolution, Rmw::Store(resolution.written(input))),
            ),
            Configure::Resolution(_, Rmw::Store(_)) => Phase::Ready,
            Configure::Source(source, Rmw::Fetch) => Phase::Configuring(
                Configure::Source(source, Rmw::Store(input | source.switch())),
            ),
            Configure::Source(source, Rmw::Store(_)) => if source.waits() {
                Phase::Configuring(Configure::Settle)
            } else {
                Phase::Ready
            },
            Configure::Settle => Phase::Ready,
        }
    }

    fn pending(self) -> (action: Action)
        ensures
            action == self.request(),
    {
        match self {
            Configure::Resolution(_, m) => m.pending(Reg::Cfgr1),
            Configure::Source(_, m) => m.pending(Reg::Ccr),
            Configure::Settle => Action::DelayUs(STARTUP_US),
        }
    }

    fn next(self, input: u32) -> (phase: Phase)
        ensures
            phase == self.advance(input),
    {
        match self {
            Configure::Resolution(resolution, Rmw::Fetch) => {
                let word = put(input, CFGR1_RES, resolution.bits() << CFGR1_RES_SHIFT);
                Phase::Configuring(Configure::Resolution(resolution, Rmw::Store(word)))
            },
            Configure::Source(source, Rmw::Fetch) => Phase::Configuring(
                Configure::Source(source, Rmw::Store(input | source.mask())),
            ),
            Configure::Source(Source::Vref, Rmw::Store(_)) | Configure::Source(
                Source::Temperature,
                Rmw::Store(_),
            ) => Phase::Configuring(Configure::Settle),
            Configure::Resolution(_, Rmw::Store(_)) | Configure::Source(
                Source::Vbat,
                Rmw::Store(_),
            ) | Configure::Settle => Phase::Ready,
        }
    }
}

impl Convert {
    /// The request in flight.
    pub open spec fn request(self) -> Action {
        match self {
            Convert::Select(word) => Action::Write(Reg::Chselr, word),
            Convert::ClearFlags(m) => m.request(Reg::Isr),
            Convert::SampleTime(m) => m.request(Reg::Smpr),
            Convert::Arm(m) => m.request(Reg::Ier),
            Convert::Start(m) => m.request(Reg::Cr),
            Convert::Register => Action::RegisterWaker,
            Convert::Check => Action::Read(Reg::Isr),
            Convert::Park => Action::Suspend,
            Convert::Fetch => Action::Read(Reg::Dr),
        }
    }

    /// The phase that follows once the request has been performed and has
    /// returned `input`.
    ///
    /// With the channel selected, the flags of the previous conversion are
    /// cleared, the sample time is written, the completion interrupt is
    /// enabled and the conversion is started. The task then registers its
    /// callback and only after that looks at the completion flag: if the flag
    /// is up it reads the result, if not it suspends, and when it is resumed
    /// it registers and looks again.
    pub open spec fn advance(self, sample_time: SampleTime, input: u32) -> Phase {
        match self {
            Convert::Select(_) => Phase::Converting(Convert::ClearFlags(Rmw::Fetch)),
            Convert::ClearFlags(Rmw::Fetch) => Phase::Converting(
                Convert::ClearFlags(Rmw::Store(input | ISR_EOC | ISR_EOSMP)),
            ),
            Convert::ClearFlags(Rmw::Store(_)) => Phase::Converting(
                Convert::SampleTime(Rmw::Fetch),
            ),
            Convert::SampleTime(Rmw::Fetch) => Phase::Converting(
                Convert::SampleTime(Rmw::Store(sample_time.written(input))),
            ),
            Convert::SampleTime(Rmw::Store(_)) => Phase::Converting(Convert::Arm(Rmw::Fetch)),
            Convert::Arm(Rmw::Fetch) => Phase::Converting(
                Convert::Arm(Rmw::Store(input | IER_EOCIE)),
            ),
            Convert::Arm(Rmw::Store(_)) => Phase::Converting(Convert::Start(Rmw::Fetch)),
            Convert::Start(Rmw::Fetch) => Phase::Converting(
                Convert::Start(Rmw::Store(input | CR_ADSTART)),
            ),
            Convert::Start(Rmw::Store(_)) => Phase::Converting(Convert::Register),
            Convert::Register => Phase::Converting(Convert::Check),
            Convert::Check => if is_set(input, ISR_EOC) {
                Phase::Converting(Convert::Fetch)
            } else {
                Phase::Converting(Convert::Park)
            },
            Convert::Park => Phase::Converting(Convert::Register),
            Convert::Fetch => Phase::Ready,
        }
    }

    fn pending(self) -> (action: Action)
        ensures
            action == self.request(),
    {
        match self {
            Convert::Select(word) => Action::Write(Reg::Chselr, word),
            Convert::ClearFlags(m) => m.pending(Reg::Isr),
            Convert::SampleTime(m) => m.pending(Reg::Smpr),
            Convert::Arm(m) => m.pending(Reg::Ier),
            Convert::Start(m) => m.pending(Reg::Cr),
            Convert::Register => Action::RegisterWaker,
            Convert::Check => Action::Read(Reg::Isr),
            Convert::Park => Action::Suspend,
            Convert::Fetch => Action::Read(Reg::Dr),
        }
    }

    fn next(self, sample_time: SampleTime, input: u32) -> (phase: Phase)
        ensures
            phase == self.advance(sample_time, input),
    {
        let then = match self {
            Convert::Select(_) => Convert::ClearFlags(Rmw::Fetch),
            Convert::ClearFlags(Rmw::Fetch) => Convert::ClearFlags(
                Rmw::Store(input | ISR_EOC | ISR_EOSMP),
            ),
            Convert::ClearFlags(Rmw::Store(_)) => Convert::SampleTime(Rmw::Fetch),
            Convert::SampleTime(Rmw::Fetch) => Convert::SampleTime(
                Rmw::Store(put(input, SMPR_SMP, sample_time.bits())),
            ),
            Convert::SampleTime(Rmw::Store(_)) => Convert::Arm(Rmw::Fetch),
            Convert::Arm(Rmw::Fetch) => Convert::Arm(Rmw::Store(input | IER_EOCIE)),
            Convert::Arm(Rmw::Store(_)) => Convert::Start(Rmw::Fetch),
            Convert::Start(Rmw::Fetch) => Convert::Start(Rmw::Store(input | CR_ADSTART)),
            Convert::Start(Rmw::Store(_)) | Convert::Park => Convert::Register,
            Convert::Register => Convert::Check,
            Convert::Check => {
                if probe(input, ISR_EOC) {
                    Convert::Fetch
                } else {
                    Convert::Park
                }
            },
            Convert::Fetch => {
                return Phase::Ready;
            },
        };
        Phase::Converting(then)
    }
}

impl Teardown {
    /// The request in flight.
    pub open spec fn request(self) -> Action {
        match self {
            Teardown::Stop(m) => m.request(Reg::Cr),
            Teardown::StopPoll => Action::Read(Reg::Cr),
            Teardown::Disable(m) => m.request(Reg::Cr),
            Teardown::DisablePoll => Action::Read(Reg::Cr),
            Teardown::ClockOff => Action::DisableClock,
        }
    }

    /// The phase that follows once the request has been performed and has
    /// returned `input`.
    ///
    /// A stop is requested and waited for, then the converter is asked to
    /// disable itself, and only when the control register shows it disabled
    /// is the clock turned off.
    pub open spec fn advance(self, input: u32) -> Phase {
        match self {
            Teardown::Stop(Rmw::Fetch) => Phase::Disabling(
                Teardown::Stop(Rmw::Store(input | CR_ADSTP)),
            ),
            Teardown::Stop(Rmw::Store(_)) => Phase::Disabling(Teardown::StopPoll),
            Teardown::StopPoll => if is_set(input, CR_ADSTP) {
                Phase::Disabling(Teardown::StopPoll)
            } else {
                Phase::Disabling(Teardown::Disable(Rmw::Fetch))
            },
            Teardown::Disable(Rmw::Fetch) => Phase::Disabling(
                Teardown::Disable(Rmw::Store(input | CR_ADDIS)),
            ),
            Teardown::Disable(Rmw::Store(_)) => Phase::Disabling(Teardown::DisablePoll),
            Teardown::DisablePoll => if is_set(input, CR_ADEN) {
                Phase::Disabling(Teardown::DisablePoll)
            } else {
                Phase::Disabling(Teardown::ClockOff)
            },
            Teardown::ClockOff => Phase::Disabled,
        }
    }

    fn pending(self) -> (action: Action)
        ensures
            action == self.request(),
    {
        match self {
            Teardown::Stop(m) | Teardown::Disable(m) => m.pending(Reg::Cr),
            Teardown::StopPoll | Teardown::DisablePoll => Action::Read(Reg::Cr),
            Teardown::ClockOff => Action::DisableClock,
        }
    }

    fn next(self, input: u32) -> (phase: Phase)
        ensures
            phase == self.advance(input),
    {
        let then = match self {
            Teardown::Stop(Rmw::Fetch) => Teardown::Stop(Rmw::Store(input | CR_ADSTP)),
            Teardown::Stop(Rmw::Store(_)) => Teardown::StopPoll,
            Teardown::StopPoll => {
                if probe(input, CR_ADSTP) {
                    Teardown::StopPoll
                } else {
                    Teardown::Disable(Rmw::Fetch)
                }
            },
            Teardown::Disable(Rmw::Fetch) => Teardown::Disable(Rmw::Store(input | CR_ADDIS)),
            Teardown::Disable(Rmw::Store(_)) => Teardown::DisablePoll,
            Teardown::DisablePoll => {
                if probe(input, CR_ADEN) {
                    Teardown::DisablePoll
                } else {
                    Teardown::ClockOff
                }
            },
            Teardown::ClockOff => {
                return Phase::Disabled;
            },
        };
        Phase::Disabling(then)
    }
}

impl Phase {
    /// The request in flight: what the environment has to perform before the
    /// next step. At rest it is [`Action::Idle`].
    pub open spec fn request(self) -> Action {
        match self {
            Phase::Calibrating(at) => at.request(),
            Phase::Configuring(at) => at.request(),
            Phase::Converting(at) => at.request(),
            Phase::Disabling(at) => at.request(),
            Phase::Ready | Phase::Disabled => Action::Idle,
        }
    }

    /// Whether the driver is at rest and takes requests.
    pub open spec fn is_ready(self) -> bool {
        self == Phase::Ready
    }
}

/// The model of the driver.
pub struct State {
    /// The sample time that the next conversion will use.
    pub sample_time: SampleTime,
    /// Where the driver stands.
    pub phase: Phase,
}

impl State {
    /// The driver as it is constructed: with the default sample time and the
    /// first request of bring-up in flight.
    pub open spec fn initial() -> State {
        State { sample_time: SampleTime::Cycles1_5, phase: Phase::Calibrating(BringUp::ClockOn) }
    }

    /// This state in another phase.
    pub open spec fn at(self, phase: Phase) -> State {
        State { phase, ..self }
    }

    /// The phase that follows once the request in flight has been performed
    /// and has returned `input`. At rest nothing changes.
    pub open spec fn advance(self, input: u32) -> Phase {
        match self.phase {
            Phase::Calibrating(at) => at.advance(input),
            Phase::Configuring(at) => at.advance(input),
            Phase::Converting(at) => at.advance(self.sample_time, input),
            Phase::Disabling(at) => at.advance(input),
            Phase::Ready => Phase::Ready,
            Phase::Disabled => Phase::Disabled,
        }
    }

    /// What a step answers: the raw code when the step has just read the
    /// result of a conversion, and the new request in flight otherwise.
    pub open spec fn reply(self, input: u32) -> Action {
        if self.phase == Phase::Converting(Convert::Fetch) {
            Action::Sample(raw_code(input))
        } else {
            self.advance(input).request()
        }
    }

    /// The transition function: the state and the answer after the request
    /// in flight has been performed and has returned `input`.
    pub open spec fn step(self, input: u32) -> (State, Action) {
        (self.at(self.advance(input)), self.reply(input))
    }

    /// The state after the driver has been stepped with each of `inputs` in
    /// turn.
    pub open spec fn fed(self, inputs: Seq<u32>) -> State
        decreases inputs.len(),
    {
        if inputs.len() == 0 {
            self
        } else {
            self.step(inputs[0]).0.fed(inputs.drop_first())
        }
    }

    /// The state after a conversion of the channel selected by `word` has
    /// been requested.
    pub open spec fn converting(self, word: u32) -> State {
        self.at(Phase::Converting(Convert::Select(word)))
    }

    /// The state after teardown has been requested: teardown begins, unless
    /// it has already begun or ended.
    pub open spec fn shutting_down(self) -> State {
        match self.phase {
            Phase::Disabling(_) | Phase::Disabled => self,
            _ => self.at(Phase::Disabling(Teardown::Stop(Rmw::Fetch))),
        }
    }
}

/// The driver of one converter.
///
/// There is one driver per converter, and whoever holds it exclusively holds
/// the converter: every operation takes `&mut self`.
#[derive(Debug)]
pub struct Adc {
    sample_time: SampleTime,
    phase: Phase,
}

impl View for Adc {
    type V = State;

    closed spec fn view(&self) -> State {
        State { sample_time: self.sample_time, phase: self.phase }
    }
}

impl Adc {
    /// Creates the driver and begins bring-up. The first request,
    /// [`Action::EnableClock`], is in flight; the driver is ready once
    /// [`Adc::step`] answers [`Action::Idle`].
    pub fn new() -> (adc: Adc)
        ensures
            adc@ == State::initial(),
    {
        Adc { sample_time: SampleTime::Cycles1_5, phase: Phase::Calibrating(BringUp::ClockOn) }
    }

    /// Where the driver stands.
    pub fn phase(&self) -> (phase: Phase)
        ensures
            phase == self@.phase,
    {
        self.phase
    }

    /// The sample time that the next conversion will use.
    pub fn sample_time(&self) -> (sample_time: SampleTime)
        ensures
            sample_time == self@.sample_time,
    {
        self.sample_time
    }

    /// Whether the driver is at rest and takes requests.
    pub fn is_ready(&self) -> (ready: bool)
        ensures
            ready == self@.phase.is_ready(),
    {
        match self.phase {
            Phase::Ready => true,
            _ => false,
        }
    }

    /// Whether the driver has been torn down.
    pub fn is_disabled(&self) -> (disabled: bool)
        ensures
            disabled == (self@.phase == Phase::Disabled),
    {
        match self.phase {
            Phase::Disabled => true,
            _ => false,
        }
    }

    /// The request in flight.
    pub fn pending(&self) -> (action: Action)
        ensures
            action == self@.phase.request(),
    {
        match self.phase {
            Phase::Calibrating(at) => at.pending(),
            Phase::Configuring(at) => at.pending(),
            Phase::Converting(at) => at.pending(),
            Phase::Disabling(at) => at.pending(),
            Phase::Ready | Phase::Disabled => Action::Idle,
        }
    }

    /// Takes the result of the request in flight and answers with the next
    /// one. `input` is the word that was read if the request was a read; it
    /// is ignored otherwise.
    pub fn step(&mut self, input: u32) -> (action: Action)
        ensures
            (final(self)@, action) == old(self)@.step(input),
    {
        let phase = match self.phase {
            Phase::Calibrating(at) => at.next(input),
            Phase::Configuring(at) => at.next(input),
            Phase::Converting(Convert::Fetch) => {
                self.phase = Phase::Ready;
                let word = input & DR_DATA;
                assert(word <= 0xffff) by (bit_vector)
                    requires
                        word == input & 0xffff,
                ;
                return Action::Sample(word as u16);
            },
            Phase::Converting(at) => at.next(self.sample_time, input),
            Phase::Disabling(at) => at.next(input),
            Phase::Ready => Phase::Ready,
            Phase::Disabled => Phase::Disabled,
        };
        self.phase = phase;
        self.pending()
    }

    /// Sets the sample time of the conversions that follow.
    pub fn set_sample_time(&mut self, sample_time: SampleTime)
        ensures
            final(self)@ == (State { sample_time, ..old(self)@ }),
    {
        self.sample_time = sample_time;
    }

    /// Begins writing `resolution` into the configuration register.
    pub fn set_resolution(&mut self, resolution: Resolution) -> (action: Action)
        requires
            old(self)@.phase.is_ready(),
        ensures
            final(self)@ == old(self)@.at(
                Phase::Configuring(Configure::Resolution(resolution, Rmw::Fetch)),
            ),
            action == Action::Read(Reg::Cfgr1),
    {
        self.phase = Phase::Configuring(Configure::Resolution(resolution, Rmw::Fetch));
        Action::Read(Reg::Cfgr1)
    }

    /// Begins switching the battery voltage on and hands out its token.
    ///
    /// The driver does not wait for this source to settle: the caller must
    /// not sample it before it has.
    pub fn enable_vbat(&mut self) -> (out: (Vbat, Action))
        requires
            old(self)@.phase.is_ready(),
        ensures
            final(self)@ == old(self)@.at(
                Phase::Configuring(Configure::Source(Source::Vbat, Rmw::Fetch)),
            ),
            out.1 == Action::Read(Reg::Ccr),
    {
        self.phase = Phase::Configuring(Configure::Source(Source::Vbat, Rmw::Fetch));
        (Vbat::grant(), Action::Read(Reg::Ccr))
    }

    /// Begins switching the internal reference voltage on and hands out its
    /// token. The driver is ready again once the source has started up.
    pub fn enable_vref(&mut self) -> (out: (Vref, Action))
        requires
            old(self)@.phase.is_ready(),
        ensures
            final(self)@ == old(self)@.at(
                Phase::Configuring(Configure::Source(Source::Vref, Rmw::Fetch)),
            ),
            out.1 == Action::Read(Reg::Ccr),
    {
        self.phase = Phase::Configuring(Configure::Source(Source::Vref, Rmw::Fetch));
        (Vref::grant(), Action::Read(Reg::Ccr))
    }

    /// Begins switching the temperature sensor on and hands out its token.
    /// The driver is ready again once the source has started up.
    pub fn enable_temperature(&mut self) -> (out: (Temperature, Action))
        requires
            old(self)@.phase.is_ready(),
        ensures
            final(self)@ == old(self)@.at(
                Phase::Configuring(Configure::Source(Source::Temperature, Rmw::Fetch)),
            ),
            out.1 == Action::Read(Reg::Ccr),
    {
        self.phase = Phase::Configuring(Configure::Source(Source::Temperature, Rmw::Fetch));
        (Temperature::grant(), Action::Read(Reg::Ccr))
    }

    /// Begins a conversion of `channel`, the channel of a pin that has been
    /// put into analog mode. The conversion has finished when [`Adc::step`]
    /// answers [`Action::Sample`].
    pub fn read(&mut self, channel: u8) -> (action: Action)
        requires
            old(self)@.phase.is_ready(),
            channel < CHANNELS,
        ensures
            final(self)@ == old(self)@.converting(selection(channel)),
            action == Action::Write(Reg::Chselr, selection(channel)),
    {
        self.read_channel(channel)
    }

    /// Begins a conversion of an internal source. The conversion has finished
    /// when [`Adc::step`] answers [`Action::Sample`].
    pub fn read_internal<C: InternalChannel>(&mut self, channel: &mut C) -> (action: Action)
        requires
            old(self)@.phase.is_ready(),
        ensures
            final(self)@ == old(self)@.converting(selection(old(channel).number())),
            action == Action::Write(Reg::Chselr, selection(old(channel).number())),
            *final(channel) == *old(channel),
    {
        let number = channel.channel();
        self.read_channel(number)
    }

    /// Begins teardown, whatever the driver was doing. The driver is torn
    /// down when [`Adc::step`] answers [`Action::Idle`]; nothing restarts it.
    pub fn shutdown(&mut self) -> (action: Action)
        ensures
            final(self)@ == old(self)@.shutting_down(),
            action == final(self)@.phase.request(),
    {
        match self.phase {
            Phase::Disabling(_) | Phase::Disabled => {},
            _ => {
                self.phase = Phase::Disabling(Teardown::Stop(Rmw::Fetch));
            },
        }
        self.pending()
    }

    fn read_channel(&mut self, channel: u8) -> (action: Action)
        requires
            channel < CHANNELS,
        ensures
            final(self)@ == old(self)@.converting(selection(channel)),
            action == Action::Write(Reg::Chselr, selection(channel)),
    {
        let word = crate::channel::select(channel);
        self.phase = Phase::Converting(Convert::Select(word));
        Action::Write(Reg::Chselr, word)
    }
}

} // verus!
