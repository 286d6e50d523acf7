//! The lifecycle of a server and the registry of its connection handlers.
//!
//! A server is created idle, runs from the entry of its accept loop until a
//! stop is asked for, then drains while its handlers are joined, and is
//! stopped once they all are. Handlers are registered only while it runs and
//! leave the registry only when a stop takes them out to be joined.

use vstd::prelude::*;

verus! {

/// Where a server is in its life.
#[derive(Clone, Copy, Debug, PartialEq, Eq, Structural)]
pub enum Phase {
    /// Created, its accept loop not entered yet.
    Idle,
    /// Accepting connections.
    Running,
    /// Asked to stop; its handlers are being joined.
    Draining,
    /// Every handler joined.
    Stopped,
}

/// What a `Lifecycle` is in contracts.
pub struct LifecycleView<H> {
    pub phase: Phase,
    /// The handles registered and not yet taken out, oldest first.
    pub handlers: Seq<H>,
}

/// The phase of a server together with the handles of its live handlers.
///
/// `H` is whatever joins one handler; the lifecycle only stores the handles.
pub struct Lifecycle<H> {
    phase: Phase,
    handlers: Vec<H>,
}

impl<H> View for Lifecycle<H> {
    type V = LifecycleView<H>;

    closed spec fn view(&self) -> LifecycleView<H> {
        LifecycleView { phase: self.phase, handlers: self.handlers@ }
    }
}

impl<H> Lifecycle<H> {
    /// Handlers are held only while the server runs.
    #[verifier::type_invariant]
    spec fn holds_handlers_only_while_running(self) -> bool {
        self.handlers@.len() > 0 ==> self.phase == Phase::Running
    }

    /// An idle server without handlers.
    pub fn new() -> (lifecycle: Self)
        ensures
            lifecycle@.phase == Phase::Idle,
            lifecycle@.handlers.len() == 0,
    {
        Lifecycle { phase: Phase::Idle, handlers: Vec::new() }
    }

    /// The current phase.
    pub fn phase(&self) -> (phase: Phase)
        ensures
            phase == self@.phase,
            phase != Phase::Running ==> self@.handlers.len() == 0,
    {
        proof {
            use_type_invariant(self);
        }
        self.phase
    }

    /// Whether the accept loop and the handlers are to go on.
    pub fn is_running(&self) -> (running: bool)
        ensures
            running == (self@.phase == Phase::Running),
    {
        self.phase == Phase::Running
    }

    /// The number of handlers registered and not yet taken out.
    pub fn live_handlers(&self) -> (count: usize)
        ensures
            count == self@.handlers.len(),
            self@.phase != Phase::Running ==> count == 0,
    {
        proof {
            use_type_invariant(self);
        }
        self.handlers.len()
    }

    /// Entry of the accept loop. An idle or stopped server starts to run; a
    /// running one goes on; one that drains stays as it is until it is
    /// stopped. The result says whether the server runs after the call.
    pub fn start(&mut self) -> (running: bool)
        ensures
            final(self)@.handlers == old(self)@.handlers,
            final(self)@.phase == (if old(self)@.phase == Phase::Draining {
                Phase::Draining
            } else {
                Phase::Running
            }),
            running == (old(self)@.phase != Phase::Draining),
    {
        match self.phase {
            Phase::Draining => false,
            _ => {
                self.phase = Phase::Running;
                true
            },
        }
    }

    /// Registers the handle of a handler that was started for a new
    /// connection. A server that does not run takes no handler: the handle
    /// comes back, for the caller to join.
    pub fn register(&mut self, handler: H) -> (refused: Option<H>)
        ensures
            final(self)@.phase == old(self)@.phase,
            old(self)@.phase == Phase::Running ==> refused is None
                && final(self)@.handlers == old(self)@.handlers.push(handler),
            old(self)@.phase != Phase::Running ==> refused == Some(handler)
                && final(self)@.handlers == old(self)@.handlers,
    {
        if self.phase == Phase::Running {
            let mut handlers: Vec<H> = Vec::new();
            core::mem::swap(&mut self.handlers, &mut handlers);
            handlers.push(handler);
            core::mem::swap(&mut self.handlers, &mut handlers);
            None
        } else {
            Some(handler)
        }
    }

    /// Asks the server to stop. A running server starts to drain and hands
    /// out every registered handle, oldest first, for the caller to join. In
    /// any other phase nothing changes and nothing is handed out, so a second
    /// call is harmless. After the call the server does not run and its
    /// registry is empty.
    pub fn stop(&mut self) -> (to_join: Vec<H>)
        ensures
            to_join@ == old(self)@.handlers,
            final(self)@.handlers.len() == 0,
            final(self)@.phase != Phase::Running,
            final(self)@.phase == (if old(self)@.phase == Phase::Running {
                Phase::Draining
            } else {
                old(self)@.phase
            }),
    {
        proof {
            use_type_invariant(&*self);
        }
        let mut taken: Vec<H> = Vec::new();
        if self.phase == Phase::Running {
            core::mem::swap(&mut self.handlers, &mut taken);
            self.phase = Phase::Draining;
        }
        taken
    }

    /// Told that every handle that `stop` handed out was joined: a draining
    /// server is stopped. In any other phase nothing changes.
    pub fn finish(&mut self)
        ensures
            final(self)@.handlers == old(self)@.handlers,
            final(self)@.phase == (if old(self)@.phase == Phase::Draining {
                Phase::Stopped
            } else {
                old(self)@.phase
            }),
    {
        proof {
            use_type_invariant(&*self);
        }
        if self.phase == Phase::Draining {
            self.phase = Phase::Stopped;
        }
    }
}

} // verus!
