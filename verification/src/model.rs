//! The converter as the driver sees it, and the driver running against it.
//!
//! [`Registers`] says what a load and a store do to each register.
//! [`System`] puts the driver, the registers, the interrupt line and the wake
//! slot together, and [`System::next`] says what can happen: the task
//! performs the request in flight and steps the driver, the client asks the
//! resting driver for something, or the hardware finishes what it was asked
//! to do. The completion interrupt is taken to be served as soon as it is
//! raised, and the interrupt line to be the converter's alone.
//!
//! What is proved of the driver is proved of every state that these steps
//! can reach: see [`System::inv`] and the lemmas after it.

use vstd::prelude::*;

use crate::action::{Action, Rmw};
use crate::adc::{raw_code, BringUp, Configure, Convert, Phase, Source, State, Teardown};
use crate::channel::{selection, CHANNELS};
use crate::config::{Resolution, SampleTime};
use crate::interrupt::served;
use crate::regs::{
    is_set, Reg, CR_ADCAL, CR_ADDIS, CR_ADEN, CR_ADSTART, CR_ADSTP, IER_EOCIE, ISR_ADRDY,
    ISR_EOC, ISR_EOSMP,
};

verus! {

/// What the registers hold.
pub struct Registers {
    pub isr: u32,
    pub ier: u32,
    pub cr: u32,
    pub cfgr1: u32,
    pub smpr: u32,
    pub chselr: u32,
    pub dr: u32,
    pub ccr: u32,
}

impl Registers {
    /// The registers after a reset.
    pub open spec fn reset() -> Registers {
        Registers { isr: 0, ier: 0, cr: 0, cfgr1: 0, smpr: 0, chselr: 0, dr: 0, ccr: 0 }
    }

    /// The word that a load of `reg` returns.
    pub open spec fn load(self, reg: Reg) -> u32 {
        match reg {
            Reg::Isr => self.isr,
            Reg::Ier => self.ier,
            Reg::Cr => self.cr,
            Reg::Cfgr1 => self.cfgr1,
            Reg::Smpr => self.smpr,
            Reg::Chselr => self.chselr,
            Reg::Dr => self.dr,
            Reg::Ccr => self.ccr,
        }
    }

    /// The registers after a load of `reg`. Loading the data register takes
    /// the completion flag down; no other load changes anything.
    pub open spec fn after_load(self, reg: Reg) -> Registers {
        match reg {
            Reg::Dr => Registers { isr: self.isr & !ISR_EOC, ..self },
            _ => self,
        }
    }

    /// The registers after a store of `word` to `reg`. A store to the status
    /// register takes down the flags written as one. A store to the control
    /// register raises the requests written as one. The data register is
    /// read-only. Every other register holds what was stored last.
    pub open spec fn store(self, reg: Reg, word: u32) -> Registers {
        match reg {
            Reg::Isr => Registers { isr: self.isr & !word, ..self },
            Reg::Ier => Registers { ier: word, ..self },
            Reg::Cr => Registers { cr: self.cr | word, ..self },
            Reg::Cfgr1 => Registers { cfgr1: word, ..self },
            Reg::Smpr => Registers { smpr: word, ..self },
            Reg::Chselr => Registers { chselr: word, ..self },
            Reg::Dr => self,
            Reg::Ccr => Registers { ccr: word, ..self },
        }
    }
}

/// Something that happens to the system.
pub enum Event {
    /// The task performs the request in flight and steps the driver with
    /// this word.
    Task(u32),
    /// The client asks for a conversion of this channel.
    Convert(u8),
    /// The client sets the resolution.
    SetResolution(Resolution),
    /// The client switches a source on.
    Enable(Source),
    /// The client sets the sample time.
    SetSampleTime(SampleTime),
    /// The client lets go of the driver.
    Shutdown,
    /// The hardware completes the running conversion with this result.
    Completed(u16),
    /// The hardware ends calibration.
    Calibrated,
    /// The hardware reports that it is enabled.
    CameUp,
    /// The hardware acknowledges the stop request.
    Stopped,
    /// The hardware disables the converter.
    WentDown,
}

/// The driver, the converter, the interrupt line and the wake slot.
pub struct System {
    /// The driver.
    pub adc: State,
    /// The registers of the converter.
    pub regs: Registers,
    /// The resolution that was configured last.
    pub resolution: Resolution,
    /// Whether the completion interrupt is enabled at the interrupt
    /// controller.
    pub line: bool,
    /// Whether the wake slot holds a callback.
    pub callback: bool,
    /// Whether the callback has been invoked since the task last suspended.
    pub woken: bool,
    /// How often the handler has invoked the callback since the conversion
    /// was asked for.
    pub signals: nat,
}

impl System {
    /// Whether the completion interrupt is raised.
    pub open spec fn raised(self) -> bool {
        self.line && is_set(self.regs.isr, ISR_EOC) && is_set(self.regs.ier, IER_EOCIE)
    }

    /// The system after the handler has served the interrupt, if it is
    /// raised.
    pub open spec fn serve(self) -> System {
        if self.raised() {
            System {
                regs: Registers { ier: served(self.regs.isr, self.regs.ier).0, ..self.regs },
                woken: self.woken || self.callback,
                signals: self.signals + 1,
                ..self
            }
        } else {
            self
        }
    }

    /// The system after the task has performed the request in flight, before
    /// the driver is stepped.
    pub open spec fn performed(self) -> System {
        match self.adc.phase.request() {
            Action::Read(reg) => System { regs: self.regs.after_load(reg), ..self },
            Action::Write(reg, word) => System {
                regs: self.regs.store(reg, word),
                resolution: match self.adc.phase {
                    Phase::Configuring(Configure::Resolution(r, _)) => r,
                    _ => self.resolution,
                },
                ..self
            },
            Action::ResetPeripheral => System {
                regs: Registers::reset(),
                resolution: Resolution::TwelveBit,
                ..self
            },
            Action::EnableInterrupt => System { line: true, ..self },
            Action::RegisterWaker => System { callback: true, ..self },
            Action::Suspend => System { woken: false, ..self },
            _ => self,
        }
    }

    /// Whether `event` can happen.
    pub open spec fn enabled(self, event: Event) -> bool {
        match event {
            Event::Task(input) => match self.adc.phase.request() {
                Action::Read(reg) => input == self.regs.load(reg),
                Action::Suspend => self.woken,
                Action::Idle => false,
                _ => true,
            },
            Event::Convert(channel) => self.adc.phase.is_ready() && channel < CHANNELS,
            Event::SetResolution(_) | Event::Enable(_) | Event::SetSampleTime(_) | Event::Shutdown =>
                self.adc.phase.is_ready(),
            Event::Completed(data) => is_set(self.regs.cr, CR_ADSTART) && data
                <= Resolution::held(self.regs.cfgr1).max_code(),
            Event::Calibrated => is_set(self.regs.cr, CR_ADCAL),
            Event::CameUp => is_set(self.regs.cr, CR_ADEN),
            Event::Stopped => is_set(self.regs.cr, CR_ADSTP),
            Event::WentDown => is_set(self.regs.cr, CR_ADDIS),
        }
    }

    /// The system after `event`, the interrupt served if the event raised it.
    pub open spec fn next(self, event: Event) -> System {
        let after = match event {
            Event::Task(input) => System { adc: self.adc.step(input).0, ..self.performed() },
            Event::Convert(channel) => System {
                adc: self.adc.converting(selection(channel)),
                signals: 0,
                ..self
            },
            Event::SetResolution(resolution) => System {
                adc: self.adc.at(
                    Phase::Configuring(Configure::Resolution(resolution, Rmw::Fetch)),
                ),
                ..self
            },
            Event::Enable(source) => System {
                adc: self.adc.at(Phase::Configuring(Configure::Source(source, Rmw::Fetch))),
                ..self
            },
            Event::SetSampleTime(sample_time) => System {
                adc: State { sample_time, ..self.adc },
                ..self
            },
            Event::Shutdown => System { adc: self.adc.shutting_down(), ..self },
            Event::Completed(data) => System {
                regs: Registers {
                    isr: self.regs.isr | (ISR_EOC | ISR_EOSMP),
                    cr: self.regs.cr & !CR_ADSTART,
                    dr: data as u32,
                    ..self.regs
                },
                ..self
            },
            Event::Calibrated => System {
                regs: Registers { cr: self.regs.cr & !CR_ADCAL, ..self.regs },
                ..self
            },
            Event::CameUp => System {
                regs: Registers { isr: self.regs.isr | ISR_ADRDY, ..self.regs },
                ..self
            },
            Event::Stopped => System {
                regs: Registers { cr: self.regs.cr & !(CR_ADSTP | CR_ADSTART), ..self.regs },
                ..self
            },
            Event::WentDown => System {
                regs: Registers { cr: self.regs.cr & !(CR_ADDIS | CR_ADEN), ..self.regs },
                ..self
            },
        };
        after.serve()
    }

    /// Whether the system is as it is when the driver has just been created:
    /// nothing is known of the converter.
    pub open spec fn fresh(self) -> bool {
        self.adc == State::initial()
    }
}

/// Whether the reset of bring-up has been performed: from then on the
/// registers are known.
pub open spec fn settled(phase: Phase) -> bool {
    phase != Phase::Calibrating(BringUp::ClockOn) && phase != Phase::Calibrating(BringUp::Reset)
}

/// Whether the driver has enabled the completion interrupt for the
/// conversion in progress.
pub open spec fn armed(phase: Phase) -> bool {
    match phase {
        Phase::Converting(Convert::Start(_)) => true,
        _ => started(phase),
    }
}

/// Whether the driver has started the conversion in progress.
pub open spec fn started(phase: Phase) -> bool {
    match phase {
        Phase::Converting(Convert::Register) | Phase::Converting(Convert::Check) | Phase::Converting(
            Convert::Park,
        ) | Phase::Converting(Convert::Fetch) => true,
        _ => false,
    }
}

/// Whether the task has registered its callback for the conversion in
/// progress.
pub open spec fn registered(phase: Phase) -> bool {
    match phase {
        Phase::Converting(Convert::Check) | Phase::Converting(Convert::Park) | Phase::Converting(
            Convert::Fetch,
        ) => true,
        _ => false,
    }
}

/// Whether teardown has not begun.
pub open spec fn live(phase: Phase) -> bool {
    !(phase is Disabling) && phase != Phase::Disabled
}

/// Whether `word` raises none of the requests to start, stop or disable.
pub open spec fn quiet(word: u32) -> bool {
    !is_set(word, CR_ADSTART) && !is_set(word, CR_ADSTP) && !is_set(word, CR_ADDIS)
}

impl System {
    /// Whether a conversion is outstanding: the driver has armed one and the
    /// hardware has not completed it.
    pub open spec fn outstanding(self) -> bool {
        armed(self.adc.phase) && !is_set(self.regs.isr, ISR_EOC)
    }

    /// Whether the task is suspended with nothing on the way to resume it.
    pub open spec fn asleep(self) -> bool {
        self.adc.phase == Phase::Converting(Convert::Park) && !self.woken
    }

    /// What holds of the word that the driver is about to store: it raises
    /// only the request it is meant to raise, it enables the completion
    /// interrupt when it arms, and it keeps or sets the resolution.
    pub open spec fn store_ok(self) -> bool {
        match self.adc.phase {
            Phase::Calibrating(BringUp::Calibrate(Rmw::Store(w))) => quiet(w),
            Phase::Calibrating(BringUp::Enable(Rmw::Store(w))) => quiet(w),
            Phase::Calibrating(BringUp::Dma(Rmw::Store(w))) => Resolution::held(w)
                == self.resolution,
            Phase::Configuring(Configure::Resolution(r, Rmw::Store(w))) => Resolution::held(w)
                == r,
            Phase::Converting(Convert::Arm(Rmw::Store(w))) => is_set(w, IER_EOCIE),
            Phase::Converting(Convert::Start(Rmw::Store(w))) => is_set(w, CR_ADSTART) && !is_set(
                w,
                CR_ADSTP,
            ) && !is_set(w, CR_ADDIS),
            Phase::Disabling(Teardown::Stop(Rmw::Store(w))) => !is_set(w, CR_ADSTART),
            Phase::Disabling(Teardown::Disable(Rmw::Store(w))) => !is_set(w, CR_ADSTART),
            _ => true,
        }
    }

    /// What holds in every state the system can reach, once the converter
    /// has been reset.
    pub open spec fn inv(self) -> bool {
        let phase = self.adc.phase;
        let r = self.regs;
        let eoc = is_set(r.isr, ISR_EOC);
        settled(phase) ==> {
            &&& is_set(r.ier, IER_EOCIE) == self.outstanding()
            &&& is_set(r.cr, CR_ADSTART) == (started(phase) && !eoc)
            &&& eoc ==> started(phase)
            &&& phase == Phase::Converting(Convert::Fetch) ==> eoc
            &&& live(phase) ==> !is_set(r.cr, CR_ADSTP) && !is_set(r.cr, CR_ADDIS)
            &&& self.store_ok()
            &&& Resolution::held(r.cfgr1) == self.resolution
            &&& !(phase is Calibrating) ==> self.line
            &&& registered(phase) ==> self.callback
            &&& phase == Phase::Converting(Convert::Park) && eoc ==> self.woken
            &&& phase is Converting ==> self.signals == (if eoc {
                1nat
            } else {
                0nat
            })
            &&& phase == Phase::Disabling(Teardown::ClockOff) || phase == Phase::Disabled
                ==> !is_set(r.cr, CR_ADEN)
            &&& started(phase) && eoc ==> raw_code(r.dr) <= self.resolution.max_code()
        }
    }
}

proof fn lemma_resolution_facts()
    ensures
        Resolution::held(0) == Resolution::TwelveBit,
        forall|word: u32| #[trigger]
            Resolution::held(word & !crate::regs::CFGR1_DMAEN) == Resolution::held(word),
        forall|data: u16| #[trigger] raw_code(data as u32) == data,
{
    assert((0u32 & 0x18) >> 3 == 0) by (bit_vector);
    assert forall|word: u32| #[trigger]
        Resolution::held(word & !crate::regs::CFGR1_DMAEN) == Resolution::held(word) by {
        assert((word & !0x1) & 0x18 == word & 0x18) by (bit_vector);
    }
    assert forall|data: u16| #[trigger] raw_code(data as u32) == data by {
        assert((data as u32) & 0xffff == data as u32) by (bit_vector);
    }
}

/// The invariant holds when the driver has just been created, whatever the
/// converter was left in.
pub proof fn lemma_inv_initially(sys: System)
    requires
        sys.fresh(),
    ensures
        sys.inv(),
{
}

proof fn lemma_inv_task(sys: System, input: u32)
    requires
        sys.inv(),
        sys.enabled(Event::Task(input)),
    ensures
        sys.next(Event::Task(input)).inv(),
{
    crate::regs::lemma_flags();
    lemma_resolution_facts();
    match sys.adc.phase {
        Phase::Configuring(Configure::Resolution(r, Rmw::Fetch)) => {
            r.lemma_written_is_held(input);
        },
        _ => {},
    }
}

proof fn lemma_inv_client(sys: System, event: Event)
    requires
        sys.inv(),
        sys.enabled(event),
        event is Convert || event is SetResolution || event is Enable || event is SetSampleTime
            || event is Shutdown,
    ensures
        sys.next(event).inv(),
{
}

proof fn lemma_inv_hardware(sys: System, event: Event)
    requires
        sys.inv(),
        sys.enabled(event),
        event is Completed || event is Calibrated || event is CameUp || event is Stopped
            || event is WentDown,
    ensures
        sys.next(event).inv(),
{
    crate::regs::lemma_flags();
    lemma_resolution_facts();
}

/// Every step keeps the invariant.
pub proof fn lemma_inv_step(sys: System, event: Event)
    requires
        sys.inv(),
        sys.enabled(event),
    ensures
        sys.next(event).inv(),
{
    match event {
        Event::Task(input) => lemma_inv_task(sys, input),
        Event::Convert(_) | Event::SetResolution(_) | Event::Enable(_) | Event::SetSampleTime(_)
        | Event::Shutdown => lemma_inv_client(sys, event),
        _ => lemma_inv_hardware(sys, event),
    }
}

impl System {
    /// Whether `events` can happen one after the other, starting here.
    pub open spec fn admits(self, events: Seq<Event>) -> bool
        decreases events.len(),
    {
        events.len() > 0 ==> self.enabled(events[0]) && self.next(events[0]).admits(
            events.drop_first(),
        )
    }

    /// The system after `events` have happened one after the other.
    pub open spec fn after(self, events: Seq<Event>) -> System
        decreases events.len(),
    {
        if events.len() == 0 {
            self
        } else {
            self.next(events[0]).after(events.drop_first())
        }
    }
}

/// The invariant holds in every state the system can reach from the moment
/// the driver is created.
pub proof fn lemma_inv_always(start: System, events: Seq<Event>)
    requires
        start.fresh(),
        start.admits(events),
    ensures
        start.after(events).inv(),
{
    lemma_inv_initially(start);
    lemma_inv_kept(start, events);
}

proof fn lemma_inv_kept(sys: System, events: Seq<Event>)
    requires
        sys.inv(),
        sys.admits(events),
    ensures
        sys.after(events).inv(),
    decreases events.len(),
{
    if events.len() > 0 {
        lemma_inv_step(sys, events[0]);
        lemma_inv_kept(sys.next(events[0]), events.drop_first());
    }
}

} // verus!
