//! Service bootstrap: what follows a bring-up attempt.
//!
//! A page is served only once the network is ready. The bootstrap hands out
//! the one route to register, or the status to exit with, and keeps count of
//! what it has had registered.
use vstd::prelude::*;
use crate::bringup::{BringUpError, ReadyInterface};
use crate::page::{index_html, page_of, INDEX_CONTENT};

verus! {

/// Path of the one page.
pub const INDEX_PATH: &'static str = "/";

/// Content type of the one page.
pub const HTML_CONTENT_TYPE: &'static str = "text/html";

/// Status of a successful response.
pub const STATUS_OK: u16 = 200;

/// Process status after a bring-up that failed.
pub const FAILURE_EXIT_CODE: i32 = 1;

/// Request methods a route can be registered for.
#[derive(Clone, Copy, Debug, PartialEq, Eq, Structural)]
pub enum Method {
    Get,
    Head,
    Post,
    Put,
    Delete,
}

/// A route to register with the HTTP responder.
#[derive(Clone, Debug)]
pub struct Route {
    pub method: Method,
    pub path: String,
}

/// A complete response.
#[derive(Clone, Debug)]
pub struct Response {
    pub status: u16,
    pub content_type: String,
    pub body: String,
}

/// The route of the index page.
pub fn index_route() -> (r: Route)
    ensures
        r.method == Method::Get,
        r.path@ == INDEX_PATH@,
{
    Route { method: Method::Get, path: String::from_str(INDEX_PATH) }
}

/// What the index route answers.
pub fn index_response() -> (r: Response)
    ensures
        r.status == STATUS_OK,
        r.content_type@ == HTML_CONTENT_TYPE@,
        r.body@ == page_of(INDEX_CONTENT@),
{
    Response {
        status: STATUS_OK,
        content_type: String::from_str(HTML_CONTENT_TYPE),
        body: index_html(),
    }
}

/// Where the bootstrap stands.
#[derive(Clone, Copy, Debug, PartialEq, Eq, Structural)]
pub enum ServicePhase {
    /// Bring-up has not reported yet.
    AwaitingNetwork,
    /// The network is ready and the page is served.
    Serving,
    /// Bring-up failed; the process is to exit.
    Halted,
}

/// What the program must do after hearing from bring-up.
#[derive(Clone, Debug)]
pub enum Directive {
    /// Register this route with the HTTP responder, then stay alive.
    Register(Route),
    /// Exit the process with this status.
    Exit(i32),
    /// Nothing: the outcome came in a phase that does not expect one.
    Ignore,
}

/// Phase and number of registered routes after hearing `outcome` in
/// `phase`, having registered `registered` routes so far.
pub open spec fn after_outcome(
    phase: ServicePhase,
    registered: nat,
    outcome: Result<ReadyInterface, BringUpError>,
) -> (ServicePhase, nat) {
    if phase == ServicePhase::AwaitingNetwork {
        if outcome is Ok {
            (ServicePhase::Serving, registered + 1)
        } else {
            (ServicePhase::Halted, registered)
        }
    } else {
        (phase, registered)
    }
}

/// Sequences bring-up and serving.
#[derive(Debug)]
pub struct Bootstrap {
    phase: ServicePhase,
    registered: usize,
}

impl Bootstrap {
    pub closed spec fn phase_spec(&self) -> ServicePhase {
        self.phase
    }

    pub closed spec fn registered_spec(&self) -> nat {
        self.registered as nat
    }

    /// Routes are registered only once the network is ready, and then one.
    pub open spec fn wf(&self) -> bool {
        self.registered_spec() == if self.phase_spec() == ServicePhase::Serving {
            1nat
        } else {
            0nat
        }
    }

    pub fn new() -> (r: Bootstrap)
        ensures
            r.phase_spec() == ServicePhase::AwaitingNetwork,
            r.registered_spec() == 0,
            r.wf(),
    {
        Bootstrap { phase: ServicePhase::AwaitingNetwork, registered: 0 }
    }

    pub fn phase(&self) -> (r: ServicePhase)
        ensures
            r == self.phase_spec(),
    {
        self.phase
    }

    /// How many routes the responder has been told to register.
    pub fn routes_registered(&self) -> (r: usize)
        ensures
            r == self.registered_spec(),
    {
        self.registered
    }

    /// Takes the outcome of bring-up: on a ready network, the index route
    /// is to be registered; on a failure, the process is to exit.
    pub fn on_bring_up(&mut self, outcome: &Result<ReadyInterface, BringUpError>) -> (r: Directive)
        requires
            old(self).wf(),
        ensures
            (final(self).phase_spec(), final(self).registered_spec()) == after_outcome(
                old(self).phase_spec(),
                old(self).registered_spec(),
                *outcome,
            ),
            final(self).wf(),
            old(self).phase_spec() == ServicePhase::AwaitingNetwork && outcome is Ok ==> (
            r matches Directive::Register(route) && route.method == Method::Get && route.path@
                == INDEX_PATH@),
            old(self).phase_spec() == ServicePhase::AwaitingNetwork && outcome is Err ==> (
            r matches Directive::Exit(code) && code == FAILURE_EXIT_CODE),
            old(self).phase_spec() != ServicePhase::AwaitingNetwork ==> r is Ignore,
    {
        match self.phase {
            ServicePhase::AwaitingNetwork => match outcome {
                Ok(_) => {
                    self.phase = ServicePhase::Serving;
                    self.registered = 1;
                    Directive::Register(index_route())
                },
                Err(_) => {
                    self.phase = ServicePhase::Halted;
                    Directive::Exit(FAILURE_EXIT_CODE)
                },
            },
            _ => Directive::Ignore,
        }
    }
}

/// No route is registered before bring-up reports a ready network; exactly
/// one is once it has; none after a failure; and no later outcome adds
/// another.
pub proof fn lemma_route_after_ready(b: Bootstrap, outcome: Result<ReadyInterface, BringUpError>)
    requires
        b.wf(),
    ensures
        b.phase_spec() != ServicePhase::Serving ==> b.registered_spec() == 0,
        b.phase_spec() == ServicePhase::AwaitingNetwork ==> after_outcome(
            b.phase_spec(),
            b.registered_spec(),
            outcome,
        ).1 == if outcome is Ok {
            1nat
        } else {
            0nat
        },
        after_outcome(b.phase_spec(), b.registered_spec(), outcome).1 <= 1,
{
}

} // verus!
