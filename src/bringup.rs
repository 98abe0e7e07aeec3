//! The bring-up controller: a state machine from inert radio to a ready
//! network interface.
//!
//! The controller never touches hardware itself. Each call to
//! [`Controller::step`] takes what just happened (an [`Event`], stamped with
//! a millisecond clock reading) and returns what must be done next (an
//! [`Action`]). The program around it performs the action and reports the
//! result as the next event. Timeouts are decided here, from the clock
//! readings and the bounds in the configuration.
use vstd::prelude::*;
use crate::config::{BringUpConfig, Mode};

verus! {

/// An IPv4 address as four octets, most significant first.
#[derive(Clone, Copy, Debug, PartialEq, Eq, Structural)]
pub struct Ipv4Addr {
    pub a: u8,
    pub b: u8,
    pub c: u8,
    pub d: u8,
}

impl Ipv4Addr {
    /// `0.0.0.0` stands for "no address yet".
    pub open spec fn assigned(&self) -> bool {
        !(self.a == 0 && self.b == 0 && self.c == 0 && self.d == 0)
    }

    pub fn new(a: u8, b: u8, c: u8, d: u8) -> (r: Ipv4Addr)
        ensures
            r == (Ipv4Addr { a, b, c, d }),
    {
        Ipv4Addr { a, b, c, d }
    }

    pub fn is_assigned(&self) -> (r: bool)
        ensures
            r == self.assigned(),
    {
        !(self.a == 0 && self.b == 0 && self.c == 0 && self.d == 0)
    }
}

/// Where a bring-up attempt stands.
#[derive(Clone, Copy, Debug, PartialEq, Eq, Structural)]
pub enum Phase {
    Idle,
    Configuring,
    Starting,
    Associating,
    AcquiringAddress,
    Ready,
    Failed,
}

/// Why a bring-up attempt failed.
#[derive(Clone, Copy, Debug, PartialEq, Eq, Structural)]
pub enum BringUpError {
    /// The settings were refused before any hardware was touched.
    ConfigInvalid,
    /// The named network was not joined within the bound.
    AssociationTimeout,
    /// The network was joined but no address came within the bound.
    AddressAcquisitionTimeout,
    /// The interface could not be configured or started.
    HardwareFault,
}

/// A usable interface.
#[derive(Clone, Copy, Debug, PartialEq, Eq, Structural)]
pub enum ReadyInterface {
    /// Joined a network and was given this address.
    Station { address: Ipv4Addr },
    /// Hosting a network; the device hands out the addresses itself.
    Hosting,
}

/// What the radio reported.
#[derive(Clone, Copy, Debug)]
pub enum Event {
    /// The caller asks for the interface to be brought up.
    Begin,
    /// The settings were applied to the interface.
    ConfigApplied,
    /// The interface reports that it has started.
    Started,
    /// Applying the settings or starting the interface failed.
    HardwareError,
    /// The station joined the named network.
    Associated,
    /// The station's network interface came up with this address.
    AddressAssigned(Ipv4Addr),
    /// Time passed with nothing to report.
    Tick,
}

/// What must be done next.
#[derive(Clone, Copy, Debug)]
pub enum Action {
    /// Apply the configuration to the interface, in this mode.
    Configure(Mode),
    /// Start the interface.
    Start,
    /// Ask to join the named network; report back no later than the deadline.
    Associate { deadline_ms: u64 },
    /// Wait for an address; report back no later than the deadline.
    AwaitAddress { deadline_ms: u64 },
    /// Keep waiting for the same thing; report back no later than the deadline.
    Wait { deadline_ms: u64 },
    /// The attempt is over.
    Finish(Result<ReadyInterface, BringUpError>),
    /// The event does not belong to this phase; nothing changed.
    Refuse,
}

/// The clock reading at which a phase that began at `since_ms` and may last
/// `bound_ms` runs out; saturates at the clock's limit.
pub open spec fn deadline(since_ms: u64, bound_ms: u64) -> u64 {
    if since_ms + bound_ms <= u64::MAX {
        (since_ms + bound_ms) as u64
    } else {
        u64::MAX
    }
}

pub open spec fn timed_out(since_ms: u64, bound_ms: u64, at_ms: u64) -> bool {
    at_ms >= deadline(since_ms, bound_ms)
}

/// One move of the machine: from the phase, the clock reading at which the
/// current waiting phase began, and an event seen at `at_ms`, to the next
/// phase, the next such reading and the action.
pub open spec fn transition(cfg: BringUpConfig, phase: Phase, since_ms: u64, at_ms: u64, e: Event) -> (
    Phase,
    u64,
    Action,
) {
    let refuse = (phase, since_ms, Action::Refuse);
    let hardware_fault = (Phase::Failed, since_ms, Action::Finish(Err(BringUpError::HardwareFault)));
    match phase {
        Phase::Idle => match e {
            Event::Begin => if cfg.valid() {
                (Phase::Configuring, since_ms, Action::Configure(cfg.mode))
            } else {
                (Phase::Failed, since_ms, Action::Finish(Err(BringUpError::ConfigInvalid)))
            },
            _ => refuse,
        },
        Phase::Configuring => match e {
            Event::ConfigApplied => (Phase::Starting, since_ms, Action::Start),
            Event::HardwareError => hardware_fault,
            _ => refuse,
        },
        Phase::Starting => match e {
            Event::Started => if cfg.mode == Mode::Station {
                (
                    Phase::Associating,
                    at_ms,
                    Action::Associate { deadline_ms: deadline(at_ms, cfg.association_timeout_ms) },
                )
            } else {
                (Phase::Ready, since_ms, Action::Finish(Ok(ReadyInterface::Hosting)))
            },
            Event::HardwareError => hardware_fault,
            _ => refuse,
        },
        Phase::Associating => match e {
            Event::Begin => refuse,
            _ => if timed_out(since_ms, cfg.association_timeout_ms, at_ms) {
                (Phase::Failed, since_ms, Action::Finish(Err(BringUpError::AssociationTimeout)))
            } else if e is Associated {
                (
                    Phase::AcquiringAddress,
                    at_ms,
                    Action::AwaitAddress { deadline_ms: deadline(at_ms, cfg.address_timeout_ms) },
                )
            } else {
                (
                    phase,
                    since_ms,
                    Action::Wait { deadline_ms: deadline(since_ms, cfg.association_timeout_ms) },
                )
            },
        },
        Phase::AcquiringAddress => match e {
            Event::Begin => refuse,
            _ => if timed_out(since_ms, cfg.address_timeout_ms, at_ms) {
                (
                    Phase::Failed,
                    since_ms,
                    Action::Finish(Err(BringUpError::AddressAcquisitionTimeout)),
                )
            } else if e matches Event::AddressAssigned(a) && a.assigned() {
                (
                    Phase::Ready,
                    since_ms,
                    Action::Finish(Ok(ReadyInterface::Station { address: e->AddressAssigned_0 })),
                )
            } else {
                (
                    phase,
                    since_ms,
                    Action::Wait { deadline_ms: deadline(since_ms, cfg.address_timeout_ms) },
                )
            },
        },
        Phase::Ready | Phase::Failed => refuse,
    }
}

fn deadline_of(since_ms: u64, bound_ms: u64) -> (r: u64)
    ensures
        r == deadline(since_ms, bound_ms),
{
    since_ms.saturating_add(bound_ms)
}

/// Drives one bring-up attempt. A controller is made for one attempt: once it
/// has left `Idle` it never returns there.
#[derive(Debug)]
pub struct Controller {
    config: BringUpConfig,
    phase: Phase,
    since_ms: u64,
}

impl Controller {
    pub closed spec fn config_spec(&self) -> BringUpConfig {
        self.config
    }

    pub closed spec fn phase_spec(&self) -> Phase {
        self.phase
    }

    /// Clock reading at which the current waiting phase began.
    pub closed spec fn since_spec(&self) -> u64 {
        self.since_ms
    }

    /// What every reachable state satisfies: past `Idle`, only a valid
    /// configuration gets anywhere but `Failed`, and only a station waits for
    /// a network or an address.
    pub open spec fn wf(&self) -> bool {
        &&& !self.config_spec().valid() ==> (self.phase_spec() == Phase::Idle || self.phase_spec()
            == Phase::Failed)
        &&& (self.phase_spec() == Phase::Associating || self.phase_spec()
            == Phase::AcquiringAddress) ==> self.config_spec().mode == Mode::Station
    }

    /// The move that `step` makes on this controller.
    pub open spec fn next(&self, at_ms: u64, e: Event) -> (Phase, u64, Action) {
        transition(self.config_spec(), self.phase_spec(), self.since_spec(), at_ms, e)
    }

    /// A controller that has not yet touched the radio.
    pub fn new(config: BringUpConfig) -> (r: Controller)
        ensures
            r.config_spec() == config,
            r.phase_spec() == Phase::Idle,
            r.since_spec() == 0,
            r.wf(),
    {
        Controller { config, phase: Phase::Idle, since_ms: 0 }
    }

    /// Takes the event seen at clock reading `at_ms` and returns what must
    /// be done next.
    pub fn step(&mut self, at_ms: u64, event: Event) -> (r: Action)
        requires
            old(self).wf(),
        ensures
            (final(self).phase_spec(), final(self).since_spec(), r) == old(self).next(at_ms, event),
            final(self).config_spec() == old(self).config_spec(),
            final(self).wf(),
    {
        let refuse = Action::Refuse;
        let hardware_fault = Action::Finish(Err(BringUpError::HardwareFault));
        match self.phase {
            Phase::Idle => match event {
                Event::Begin => if self.config.is_valid() {
                    self.phase = Phase::Configuring;
                    Action::Configure(self.config.mode)
                } else {
                    self.phase = Phase::Failed;
                    Action::Finish(Err(BringUpError::ConfigInvalid))
                },
                _ => refuse,
            },
            Phase::Configuring => match event {
                Event::ConfigApplied => {
                    self.phase = Phase::Starting;
                    Action::Start
                },
                Event::HardwareError => {
                    self.phase = Phase::Failed;
                    hardware_fault
                },
                _ => refuse,
            },
            Phase::Starting => match event {
                Event::Started => match self.config.mode {
                    Mode::Station => {
                        self.phase = Phase::Associating;
                        self.since_ms = at_ms;
                        Action::Associate {
                            deadline_ms: deadline_of(at_ms, self.config.association_timeout_ms),
                        }
                    },
                    Mode::AccessPoint => {
                        self.phase = Phase::Ready;
                        Action::Finish(Ok(ReadyInterface::Hosting))
                    },
                },
                Event::HardwareError => {
                    self.phase = Phase::Failed;
                    hardware_fault
                },
                _ => refuse,
            },
            Phase::Associating => {
                let limit = deadline_of(self.since_ms, self.config.association_timeout_ms);
                match event {
                    Event::Begin => refuse,
                    _ => if at_ms >= limit {
                        self.phase = Phase::Failed;
                        Action::Finish(Err(BringUpError::AssociationTimeout))
                    } else if let Event::Associated = event {
                        self.phase = Phase::AcquiringAddress;
                        self.since_ms = at_ms;
                        Action::AwaitAddress {
                            deadline_ms: deadline_of(at_ms, self.config.address_timeout_ms),
                        }
                    } else {
                        Action::Wait { deadline_ms: limit }
                    },
                }
            },
            Phase::AcquiringAddress => {
                let limit = deadline_of(self.since_ms, self.config.address_timeout_ms);
                match event {
                    Event::Begin => refuse,
                    Event::AddressAssigned(address) if at_ms < limit && address.is_assigned() => {
                        self.phase = Phase::Ready;
                        Action::Finish(Ok(ReadyInterface::Station { address }))
                    },
                    _ => if at_ms >= limit {
                        self.phase = Phase::Failed;
                        Action::Finish(Err(BringUpError::AddressAcquisitionTimeout))
                    } else {
                        Action::Wait { deadline_ms: limit }
                    },
                }
            },
            Phase::Ready | Phase::Failed => refuse,
        }
    }

    pub fn config(&self) -> (r: &BringUpConfig)
        ensures
            *r == self.config_spec(),
    {
        &self.config
    }

    pub fn phase(&self) -> (r: Phase)
        ensures
            r == self.phase_spec(),
    {
        self.phase
    }
}

/// A station with a valid configuration ends only in one of two ways: ready
/// with an assigned address, obtained before the address deadline, or with
/// an association timeout, an address timeout or a hardware fault. Once a
/// waiting phase's deadline has passed, any event ends the attempt with that
/// phase's timeout, so no attempt outlives its bounds.
pub proof fn lemma_station_outcomes(c: Controller, at_ms: u64, e: Event)
    requires
        c.wf(),
        c.config_spec().valid(),
        c.config_spec().mode == Mode::Station,
    ensures
        c.next(at_ms, e).2 matches Action::Finish(Ok(ready)) ==> {
            &&& ready matches ReadyInterface::Station { address }
            &&& address.assigned()
            &&& c.phase_spec() == Phase::AcquiringAddress
            &&& at_ms < deadline(c.since_spec(), c.config_spec().address_timeout_ms)
        },
        c.next(at_ms, e).2 matches Action::Finish(Err(err)) ==> {
            ||| err == BringUpError::AssociationTimeout
            ||| err == BringUpError::AddressAcquisitionTimeout
            ||| err == BringUpError::HardwareFault
        },
        c.phase_spec() == Phase::Associating && !(e is Begin) && timed_out(
            c.since_spec(),
            c.config_spec().association_timeout_ms,
            at_ms,
        ) ==> c.next(at_ms, e) == (
            Phase::Failed,
            c.since_spec(),
            Action::Finish(Err(BringUpError::AssociationTimeout)),
        ),
        c.phase_spec() == Phase::AcquiringAddress && !(e is Begin) && timed_out(
            c.since_spec(),
            c.config_spec().address_timeout_ms,
            at_ms,
        ) ==> c.next(at_ms, e) == (
            Phase::Failed,
            c.since_spec(),
            Action::Finish(Err(BringUpError::AddressAcquisitionTimeout)),
        ),
{
}

/// A hosted network is ready exactly when the interface reports that it has
/// started, with no address to wait for: an access point never enters the
/// association or address phases, and is never ready before `Started`.
pub proof fn lemma_access_point_ready(c: Controller, at_ms: u64, e: Event)
    requires
        c.wf(),
        c.config_spec().mode == Mode::AccessPoint,
    ensures
        c.next(at_ms, e).2 matches Action::Finish(Ok(ready)) ==> {
            &&& ready == ReadyInterface::Hosting
            &&& c.phase_spec() == Phase::Starting
            &&& e is Started
        },
        c.phase_spec() == Phase::Starting && e is Started ==> c.next(at_ms, e).2 == Action::Finish(
            Ok(ReadyInterface::Hosting),
        ),
        c.next(at_ms, e).0 != Phase::Associating,
        c.next(at_ms, e).0 != Phase::AcquiringAddress,
{
}

/// A station configuration without a network name is refused before the
/// radio is touched: `Begin` ends the attempt with `ConfigInvalid`, and no
/// event ever leads to configuring or starting the interface.
pub proof fn lemma_unnamed_station_refused(c: Controller, at_ms: u64, e: Event)
    requires
        c.wf(),
        c.config_spec().mode == Mode::Station,
        c.config_spec().ssid@.len() == 0,
    ensures
        c.next(at_ms, e).2 is Refuse || c.next(at_ms, e).2 == Action::Finish(
            Err(BringUpError::ConfigInvalid),
        ),
        c.next(at_ms, e).0 == Phase::Idle || c.next(at_ms, e).0 == Phase::Failed,
        c.phase_spec() == Phase::Idle && e is Begin ==> c.next(at_ms, e).2 == Action::Finish(
            Err(BringUpError::ConfigInvalid),
        ),
{
}

/// Bring-up is attempted once: asking again on a controller that has left
/// `Idle` is refused and changes nothing, and no move leads back to `Idle`.
pub proof fn lemma_begin_once(c: Controller, at_ms: u64, e: Event)
    requires
        c.phase_spec() != Phase::Idle,
    ensures
        c.next(at_ms, Event::Begin) == (c.phase_spec(), c.since_spec(), Action::Refuse),
        c.next(at_ms, e).0 != Phase::Idle,
{
}

} // verus!
