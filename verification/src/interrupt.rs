//! The handler of the completion interrupt.
//!
//! The handler runs in interrupt context, between any two steps of the
//! driver. It looks at the completion flag. If the flag is down the interrupt
//! is spurious and the handler returns. If it is up, the handler disables the
//! completion interrupt, so that it cannot fire again before the task has
//! taken the result, and invokes the callback in the wake slot. It never
//! reads the data register.
//!
//! Like the driver, the handler names one request at a time and is told what
//! came back.

use vstd::prelude::*;

use crate::action::{Action, Rmw};
use crate::regs::{is_set, probe, Reg, IER_EOCIE, ISR_EOC};

verus! {

/// Where the handler stands.
#[derive(Clone, Copy, Debug, PartialEq, Eq, Structural)]
pub enum Service {
    /// Reading the status register.
    Probe,
    /// Disabling the completion interrupt.
    Disarm(Rmw),
    /// Invoking the callback.
    Wake,
    /// Returned.
    Done,
}

impl Service {
    /// The request in flight.
    pub open spec fn request(self) -> Action {
        match self {
            Service::Probe => Action::Read(Reg::Isr),
            Service::Disarm(m) => m.request(Reg::Ier),
            Service::Wake => Action::Wake,
            Service::Done => Action::Idle,
        }
    }

    /// Where the handler stands once the request has been performed and has
    /// returned `input`.
    pub open spec fn advance(self, input: u32) -> Service {
        match self {
            Service::Probe => if is_set(input, ISR_EOC) {
                Service::Disarm(Rmw::Fetch)
            } else {
                Service::Done
            },
            Service::Disarm(Rmw::Fetch) => Service::Disarm(Rmw::Store(input & !IER_EOCIE)),
            Service::Disarm(Rmw::Store(_)) => Service::Wake,
            Service::Wake => Service::Done,
            Service::Done => Service::Done,
        }
    }
}

/// What one run of the handler does, as a whole: given the status and the
/// interrupt enables it finds, the interrupt enables it leaves and whether it
/// invokes the callback.
pub open spec fn served(isr: u32, ier: u32) -> (u32, bool) {
    if is_set(isr, ISR_EOC) {
        (ier & !IER_EOCIE, true)
    } else {
        (ier, false)
    }
}

/// The handler of the completion interrupt.
#[derive(Debug)]
pub struct InterruptHandler {
    at: Service,
}

impl View for InterruptHandler {
    type V = Service;

    closed spec fn view(&self) -> Service {
        self.at
    }
}

impl InterruptHandler {
    /// Enters the handler. The first request, a read of the status register,
    /// is in flight; the handler has returned once [`InterruptHandler::step`]
    /// answers [`Action::Idle`].
    pub fn on_interrupt() -> (handler: InterruptHandler)
        ensures
            handler@ == Service::Probe,
    {
        InterruptHandler { at: Service::Probe }
    }

    /// The request in flight.
    pub fn pending(&self) -> (action: Action)
        ensures
            action == self@.request(),
    {
        match self.at {
            Service::Probe => Action::Read(Reg::Isr),
            Service::Disarm(m) => m.pending(Reg::Ier),
            Service::Wake => Action::Wake,
            Service::Done => Action::Idle,
        }
    }

    /// Takes the result of the request in flight and answers with the next
    /// one. `input` is the word that was read if the request was a read; it
    /// is ignored otherwise.
    pub fn step(&mut self, input: u32) -> (action: Action)
        ensures
            final(self)@ == old(self)@.advance(input),
            action == final(self)@.request(),
    {
        self.at = match self.at {
            Service::Probe => {
                if probe(input, ISR_EOC) {
                    Service::Disarm(Rmw::Fetch)
                } else {
                    Service::Done
                }
            },
            Service::Disarm(Rmw::Fetch) => Service::Disarm(Rmw::Store(input & !IER_EOCIE)),
            Service::Disarm(Rmw::Store(_)) => Service::Wake,
            Service::Wake | Service::Done => Service::Done,
        };
        self.pending()
    }
}

/// A run of the handler does what [`served`] says and nothing else. On a
/// spurious interrupt it returns after the one read. Otherwise it reads the
/// interrupt enables, writes them back without the completion enable, invokes
/// the callback and returns. `isr` and `ier` are the words the two reads
/// return; `a` and `b` stand for whatever the write and the wake return.
pub proof fn lemma_handler_serves(isr: u32, ier: u32, a: u32, b: u32)
    ensures
        Service::Probe.request() == Action::Read(Reg::Isr),
        !served(isr, ier).1 ==> Service::Probe.advance(isr) == Service::Done,
        served(isr, ier).1 ==> ({
            let fetch = Service::Probe.advance(isr);
            let store = fetch.advance(ier);
            let wake = store.advance(a);
            &&& fetch.request() == Action::Read(Reg::Ier)
            &&& store.request() == Action::Write(Reg::Ier, served(isr, ier).0)
            &&& wake.request() == Action::Wake
            &&& wake.advance(b) == Service::Done
        }),
        is_set(isr, ISR_EOC) ==> !is_set(served(isr, ier).0, IER_EOCIE),
{
    crate::regs::lemma_clear(ier, IER_EOCIE, IER_EOCIE);
}

} // verus!
