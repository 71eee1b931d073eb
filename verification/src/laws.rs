//! What holds of the driver, whatever the hardware and the client do.
//!
//! Each lemma speaks of a system that started with a freshly created driver
//! and has gone through any sequence of events that [`System::admits`], or of
//! the driver alone.

use vstd::prelude::*;

use crate::action::{Action, Rmw};
use crate::adc::{BringUp, Convert, Phase, Source, State, Teardown, STARTUP_US};
use crate::channel::{lemma_selection_is_exclusive, selection, selects, CHANNELS};
use crate::config::{Resolution, SampleTime};
use crate::model::{lemma_inv_always, settled, Event, Registers, System};
use crate::regs::{
    is_set, lemma_flags, Reg, CR_ADCAL, CR_ADEN, CR_ADSTART, CR_ADSTP, IER_EOCIE, ISR_ADRDY,
    ISR_EOC,
};

verus! {

/// A raw code never exceeds what the configured resolution allows: when a
/// step answers with a sample, the sample is at most two to the power of the
/// width of the resolution held by the configuration register, less one.
pub proof fn lemma_sample_within_resolution(
    start: System,
    events: Seq<Event>,
    input: u32,
    code: u16,
)
    requires
        start.fresh(),
        start.admits(events),
        start.after(events).enabled(Event::Task(input)),
        start.after(events).adc.step(input).1 == Action::Sample(code),
    ensures
        code <= Resolution::held(start.after(events).regs.cfgr1).max_code(),
        code + 1 <= vstd::arithmetic::power2::pow2(
            Resolution::held(start.after(events).regs.cfgr1).width(),
        ),
{
    lemma_inv_always(start, events);
    vstd::arithmetic::power2::lemma2_to64();
}

/// The configuration register holds the resolution that was set last, or
/// twelve bits if none was set since the reset.
pub proof fn lemma_resolution_is_held(start: System, events: Seq<Event>)
    requires
        start.fresh(),
        start.admits(events),
        settled(start.after(events).adc.phase),
    ensures
        Resolution::held(start.after(events).regs.cfgr1) == start.after(events).resolution,
{
    lemma_inv_always(start, events);
}

/// Setting the resolution, with nothing else happening meanwhile, replaces
/// the resolution field of the configuration register, leaves every other
/// bit of every register as it was, and leaves the driver ready.
pub proof fn lemma_set_resolution_takes_effect(sys: System, resolution: Resolution, ack: u32)
    requires
        sys.inv(),
        sys.adc.phase.is_ready(),
    ensures
        ({
            let then = sys.next(Event::SetResolution(resolution)).next(
                Event::Task(sys.regs.cfgr1),
            ).next(Event::Task(ack));
            &&& sys.next(Event::SetResolution(resolution)).enabled(Event::Task(sys.regs.cfgr1))
            &&& sys.next(Event::SetResolution(resolution)).next(
                Event::Task(sys.regs.cfgr1),
            ).enabled(Event::Task(ack))
            &&& then.adc == sys.adc
            &&& then.regs == (Registers { cfgr1: resolution.written(sys.regs.cfgr1), ..sys.regs })
            &&& Resolution::held(then.regs.cfgr1) == resolution
            &&& then.resolution == resolution
        }),
{
    lemma_flags();
    resolution.lemma_written_is_held(sys.regs.cfgr1);
}

/// Switching a source on, with nothing else happening meanwhile, sets the
/// switch of the source in the common configuration register and changes
/// nothing else. For the reference voltage and the temperature sensor the
/// driver then asks for the start-up delay before it is ready; for the
/// battery voltage it is ready at once.
pub proof fn lemma_enable_takes_effect(sys: System, source: Source, ack: u32, slept: u32)
    requires
        sys.inv(),
        sys.adc.phase.is_ready(),
    ensures
        ({
            let fetch = sys.next(Event::Enable(source));
            let store = fetch.next(Event::Task(sys.regs.ccr));
            let stored = store.next(Event::Task(ack));
            &&& fetch.enabled(Event::Task(sys.regs.ccr))
            &&& store.enabled(Event::Task(ack))
            &&& stored.regs == (Registers { ccr: sys.regs.ccr | source.switch(), ..sys.regs })
            &&& is_set(stored.regs.ccr, source.switch())
            &&& !source.waits() ==> stored.adc == sys.adc
            &&& source.waits() ==> {
                &&& stored.adc.phase.request() == Action::DelayUs(STARTUP_US)
                &&& stored.enabled(Event::Task(slept))
                &&& stored.next(Event::Task(slept)).adc == sys.adc
                &&& stored.next(Event::Task(slept)).regs == stored.regs
            }
        }),
{
    lemma_flags();
    let switch = source.switch();
    assert(is_set(sys.regs.ccr | switch, switch)) by {
        assert(is_set(switch, switch)) by {
            assert(0x0040_0000u32 & 0x0040_0000u32 != 0) by (bit_vector);
            assert(0x0080_0000u32 & 0x0080_0000u32 != 0) by (bit_vector);
            assert(0x0100_0000u32 & 0x0100_0000u32 != 0) by (bit_vector);
        }
    }
}

/// A conversion applies the sample time: once the driver has read the
/// sampling-time register and written it back, with nothing else happening
/// meanwhile, the register holds the sample time of the driver, and every bit
/// outside that field is as it was.
pub proof fn lemma_conversion_applies_sample_time(sys: System, ack: u32)
    requires
        sys.inv(),
        sys.adc.phase == Phase::Converting(Convert::SampleTime(Rmw::Fetch)),
    ensures
        ({
            let then = sys.next(Event::Task(sys.regs.smpr)).next(Event::Task(ack));
            &&& sys.enabled(Event::Task(sys.regs.smpr))
            &&& sys.next(Event::Task(sys.regs.smpr)).enabled(Event::Task(ack))
            &&& then.regs == (Registers {
                smpr: sys.adc.sample_time.written(sys.regs.smpr),
                ..sys.regs
            })
            &&& SampleTime::held(then.regs.smpr) == sys.adc.sample_time
            &&& then.adc.phase == Phase::Converting(Convert::Arm(Rmw::Fetch))
        }),
{
    lemma_flags();
    sys.adc.sample_time.lemma_written_is_held(sys.regs.smpr);
}

/// Channel selection is exclusive. Whatever the selection register held,
/// once channel `first` and then channel `second` have been selected it has
/// the bit of `second` set and no other: a selection replaces the one before
/// it and never adds to it.
pub proof fn lemma_selection_replaces(regs: Registers, first: u8, second: u8, other: u8)
    requires
        first < CHANNELS,
        second < CHANNELS,
        other < CHANNELS,
    ensures
        regs.store(Reg::Chselr, selection(first)).store(Reg::Chselr, selection(second)).chselr
            == selection(second),
        selects(
            regs.store(Reg::Chselr, selection(first)).store(Reg::Chselr, selection(second)).chselr,
            other,
        ) <==> other == second,
{
    lemma_selection_is_exclusive(second, other);
}

/// A request for a conversion writes the selection register as a whole, with
/// the one bit of the channel, before anything else happens.
pub proof fn lemma_conversion_selects(sys: System, channel: u8, ack: u32, other: u8)
    requires
        sys.inv(),
        sys.adc.phase.is_ready(),
        channel < CHANNELS,
        other < CHANNELS,
    ensures
        sys.next(Event::Convert(channel)).adc.phase.request() == Action::Write(
            Reg::Chselr,
            selection(channel),
        ),
        sys.next(Event::Convert(channel)).next(Event::Task(ack)).regs.chselr == selection(
            channel,
        ),
        selects(sys.next(Event::Convert(channel)).next(Event::Task(ack)).regs.chselr, other)
            <==> other == channel,
{
    lemma_flags();
    lemma_selection_is_exclusive(channel, other);
}

/// The completion interrupt is enabled if and only if a conversion is
/// outstanding: the driver has armed one and the hardware has not completed
/// it.
pub proof fn lemma_interrupt_enabled_iff_outstanding(start: System, events: Seq<Event>)
    requires
        start.fresh(),
        start.admits(events),
        settled(start.after(events).adc.phase),
    ensures
        is_set(start.after(events).regs.ier, IER_EOCIE) <==> start.after(events).outstanding(),
        !(start.after(events).adc.phase is Converting) ==> !is_set(
            start.after(events).regs.ier,
            IER_EOCIE,
        ),
{
    lemma_inv_always(start, events);
}

/// No wakeup is missed. Whenever the task is suspended with nothing on the
/// way to resume it, the conversion is still running, its completion
/// interrupt is enabled at the converter and at the interrupt controller, and
/// the callback is in the wake slot; and the completion, when it comes,
/// resumes the task. A completion that comes before the task has looked at
/// the flag keeps the task from suspending at all.
pub proof fn lemma_no_missed_wakeup(start: System, events: Seq<Event>, data: u16, input: u32)
    requires
        start.fresh(),
        start.admits(events),
    ensures
        start.after(events).asleep() ==> {
            &&& is_set(start.after(events).regs.cr, CR_ADSTART)
            &&& !is_set(start.after(events).regs.isr, ISR_EOC)
            &&& is_set(start.after(events).regs.ier, IER_EOCIE)
            &&& start.after(events).line
            &&& start.after(events).callback
        },
        start.after(events).asleep() && start.after(events).enabled(Event::Completed(data))
            ==> !start.after(events).next(Event::Completed(data)).asleep(),
        start.after(events).adc.phase == Phase::Converting(Convert::Check) && is_set(
            start.after(events).regs.isr,
            ISR_EOC,
        ) && start.after(events).enabled(Event::Task(input)) ==> start.after(events).next(
            Event::Task(input),
        ).adc.phase == Phase::Converting(Convert::Fetch),
{
    lemma_inv_always(start, events);
    lemma_flags();
}

/// The handler signals once per conversion: while a conversion is in
/// progress it has invoked the callback once if the conversion has
/// completed, and not at all if it has not.
pub proof fn lemma_signalled_once(start: System, events: Seq<Event>)
    requires
        start.fresh(),
        start.admits(events),
        start.after(events).adc.phase is Converting,
    ensures
        start.after(events).signals == (if is_set(start.after(events).regs.isr, ISR_EOC) {
            1nat
        } else {
            0nat
        }),
{
    lemma_inv_always(start, events);
}

/// Teardown turns the clock off only after the converter is disabled: when
/// the request to turn the clock off is in flight, and ever after, the
/// enable flag of the control register is down.
pub proof fn lemma_disabled_before_clock_off(start: System, events: Seq<Event>)
    requires
        start.fresh(),
        start.admits(events),
        start.after(events).adc.phase.request() == Action::DisableClock
            || start.after(events).adc.phase == Phase::Disabled,
    ensures
        !is_set(start.after(events).regs.cr, CR_ADEN),
{
    lemma_inv_always(start, events);
}

/// The driver asks for the clock to be turned off in one situation only:
/// it has just read the control register and found the enable flag down.
pub proof fn lemma_clock_off_follows_disabled(state: State, input: u32)
    requires
        state.step(input).1 == Action::DisableClock,
    ensures
        state.phase == Phase::Disabling(Teardown::DisablePoll),
        !is_set(input, CR_ADEN),
{
}

/// The flag that the driver waits to see down in a phase in which it does
/// nothing but read the control register, and the phase that follows: the
/// end of calibration, the acknowledgement of the stop, and the converter
/// being disabled.
pub open spec fn awaited(phase: Phase) -> Option<(u32, Phase)> {
    match phase {
        Phase::Calibrating(BringUp::CalibrationPoll) => Some(
            (CR_ADCAL, Phase::Calibrating(BringUp::ReadyProbe)),
        ),
        Phase::Disabling(Teardown::StopPoll) => Some(
            (CR_ADSTP, Phase::Disabling(Teardown::Disable(Rmw::Fetch))),
        ),
        Phase::Disabling(Teardown::DisablePoll) => Some(
            (CR_ADEN, Phase::Disabling(Teardown::ClockOff)),
        ),
        _ => None,
    }
}

/// A wait on the control register ends with the first read that finds the
/// flag down, however many reads found it up before, and it does not end
/// earlier.
pub proof fn lemma_poll_ends(state: State, inputs: Seq<u32>, polls: nat, flag: u32, then: Phase)
    requires
        awaited(state.phase) == Some((flag, then)),
        inputs.len() == polls + 1,
        forall|i: int| 0 <= i < polls ==> is_set(#[trigger] inputs[i], flag),
        !is_set(inputs[polls as int], flag),
    ensures
        state.fed(inputs).phase == then,
        state.fed(inputs.take(polls as int)).phase == state.phase,
    decreases polls,
{
    let rest = inputs.drop_first();
    let looked = state.step(inputs[0]).0;
    assert(state.fed(inputs) == looked.fed(rest));
    if polls == 0 {
        assert(rest.len() == 0);
        assert(inputs.take(0).len() == 0);
    } else {
        assert(is_set(inputs[0], flag));
        assert(looked.phase == state.phase);
        assert forall|i: int| 0 <= i < polls - 1 implies is_set(#[trigger] rest[i], flag) by {
            assert(rest[i] == inputs[i + 1]);
        }
        lemma_poll_ends(looked, rest, (polls - 1) as nat, flag, then);
        let head = inputs.take(polls as int);
        assert(head.drop_first() == rest.take(polls - 1));
        assert(head[0] == inputs[0]);
        assert(state.fed(head) == looked.fed(head.drop_first()));
    }
}

/// The word that the `i`-th look at the ready flag returns, when every look
/// that finds the flag down is followed by a read and a write of the control
/// register.
pub open spec fn look(inputs: Seq<u32>, i: int) -> u32 {
    inputs[3 * i]
}

/// The wait for the converter to come up ends as soon as the ready flag is
/// up, however long that takes: if the flag is down at the first `retries`
/// looks and up at the next, the driver has left the wait after exactly
/// those looks, having written the enable request again after each look that
/// found the flag down.
pub proof fn lemma_enable_retry_ends(state: State, inputs: Seq<u32>, retries: nat)
    requires
        state.phase == Phase::Calibrating(BringUp::EnablePoll),
        inputs.len() == 3 * retries + 1,
        forall|i: int| 0 <= i < retries ==> !is_set(#[trigger] look(inputs, i), ISR_ADRDY),
        is_set(look(inputs, retries as int), ISR_ADRDY),
    ensures
        state.fed(inputs).phase == Phase::Calibrating(BringUp::Unpend),
        state.fed(inputs).sample_time == state.sample_time,
    decreases retries,
{
    if retries == 0 {
        assert(look(inputs, 0) == inputs[0]);
        assert(inputs.drop_first().len() == 0);
        assert(state.fed(inputs) == state.step(inputs[0]).0.fed(inputs.drop_first()));
    } else {
        let a = inputs.drop_first();
        let b = a.drop_first();
        let c = b.drop_first();
        let looked = state.step(inputs[0]).0;
        let fetched = looked.step(a[0]).0;
        let stored = fetched.step(b[0]).0;
        assert(!is_set(look(inputs, 0), ISR_ADRDY));
        assert(looked.phase == Phase::Calibrating(BringUp::Enable(Rmw::Fetch)));
        assert(fetched.phase == Phase::Calibrating(BringUp::Enable(Rmw::Store(a[0] | CR_ADEN))));
        assert(stored.phase == Phase::Calibrating(BringUp::EnablePoll));
        assert(state.fed(inputs) == looked.fed(a));
        assert(looked.fed(a) == fetched.fed(b));
        assert(fetched.fed(b) == stored.fed(c));
        assert forall|i: int| 0 <= i < retries - 1 implies !is_set(
            #[trigger] look(c, i),
            ISR_ADRDY,
        ) by {
            assert(look(c, i) == look(inputs, i + 1));
        }
        assert(look(c, retries - 1) == look(inputs, retries as int));
        lemma_enable_retry_ends(stored, c, (retries - 1) as nat);
    }
}

/// Writing the enable request again changes nothing that writing it once
/// did not: the retries of bring-up are harmless.
pub proof fn lemma_enable_is_idempotent(regs: Registers, word: u32)
    ensures
        is_set(word | CR_ADEN, CR_ADEN),
        regs.store(Reg::Cr, word | CR_ADEN).store(Reg::Cr, word | CR_ADEN) == regs.store(
            Reg::Cr,
            word | CR_ADEN,
        ),
{
    let cr = regs.cr;
    assert((word | 1) & 1 != 0) by (bit_vector);
    assert((cr | (word | 1)) | (word | 1) == cr | (word | 1)) by (bit_vector);
}

} // verus!
