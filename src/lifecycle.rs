//! The server's startup and shutdown, as a state machine: the driver performs
//! the action of each phase and reports what came of it as an event.

use vstd::prelude::*;

verus! {

/// The loopback port the server listens on.
pub const LISTEN_PORT: u16 = 8080;

/// The runtime environment the server runs in.
#[derive(Clone, Copy, Debug, PartialEq, Eq, Structural)]
pub enum Environment {
    Development,
    Production,
}

/// The default log filter of an environment: verbose in development.
pub fn default_log_level(env: Environment) -> (r: &'static str)
    ensures
        env == Environment::Development ==> r@ == "debug"@,
        env == Environment::Production ==> r@ == "info"@,
{
    match env {
        Environment::Development => "debug",
        Environment::Production => "info",
    }
}

/// Where the server stands in its life.
#[derive(Clone, Copy, Debug, PartialEq, Eq, Structural)]
pub enum ServerPhase {
    /// Nothing done yet.
    Init,
    /// The configuration is loaded.
    Configured,
    /// The connection pool is open.
    PoolOpen,
    /// The registry and router are built and the listener is bound.
    Listening,
    /// Serving has ended; the process is shutting down with `exit_code`.
    ShuttingDown { exit_code: i32 },
    /// The process ends with `exit_code`.
    Terminated { exit_code: i32 },
}

/// What the driver reports after performing a phase's action.
#[derive(Clone, Copy, Debug, PartialEq, Eq, Structural)]
pub enum LifecycleEvent {
    ConfigLoaded,
    PoolOpened,
    ListenerBound,
    /// Serving stopped, cleanly or not.
    ServeEnded { graceful: bool },
    ShutdownComplete,
    /// The action failed.
    Failed,
}

/// What the driver does in a phase.
#[derive(Clone, Copy, Debug, PartialEq, Eq, Structural)]
pub enum LifecycleAction {
    LoadConfig,
    OpenPool,
    /// Build the registry and the router, then bind the listener.
    BindListener,
    Serve,
    ShutDown,
    Exit { code: i32 },
}

/// The exit code of a failure.
pub const EXIT_FAILURE: i32 = 1;

/// The position of a phase along the lifecycle; phases never move back.
pub open spec fn rank(p: ServerPhase) -> nat {
    match p {
        ServerPhase::Init => 0,
        ServerPhase::Configured => 1,
        ServerPhase::PoolOpen => 2,
        ServerPhase::Listening => 3,
        ServerPhase::ShuttingDown { .. } => 4,
        ServerPhase::Terminated { .. } => 5,
    }
}

/// The phase after `event` in phase `p`. An event that does not belong to the
/// phase changes nothing.
pub open spec fn next_phase(p: ServerPhase, event: LifecycleEvent) -> ServerPhase {
    match (p, event) {
        (ServerPhase::Init, LifecycleEvent::ConfigLoaded) => ServerPhase::Configured,
        (ServerPhase::Configured, LifecycleEvent::PoolOpened) => ServerPhase::PoolOpen,
        (ServerPhase::PoolOpen, LifecycleEvent::ListenerBound) => ServerPhase::Listening,
        (ServerPhase::Init, LifecycleEvent::Failed) => ServerPhase::Terminated {
            exit_code: EXIT_FAILURE,
        },
        (ServerPhase::Configured, LifecycleEvent::Failed) => ServerPhase::Terminated {
            exit_code: EXIT_FAILURE,
        },
        (ServerPhase::PoolOpen, LifecycleEvent::Failed) => ServerPhase::Terminated {
            exit_code: EXIT_FAILURE,
        },
        (ServerPhase::Listening, LifecycleEvent::ServeEnded { graceful }) => {
            ServerPhase::ShuttingDown { exit_code: if graceful { 0 } else { EXIT_FAILURE } }
        },
        (ServerPhase::Listening, LifecycleEvent::Failed) => ServerPhase::ShuttingDown {
            exit_code: EXIT_FAILURE,
        },
        (ServerPhase::ShuttingDown { exit_code }, LifecycleEvent::ShutdownComplete) => {
            ServerPhase::Terminated { exit_code }
        },
        (ServerPhase::ShuttingDown { .. }, LifecycleEvent::Failed) => ServerPhase::Terminated {
            exit_code: EXIT_FAILURE,
        },
        _ => p,
    }
}

/// The action the driver performs in phase `p`.
pub open spec fn phase_action(p: ServerPhase) -> LifecycleAction {
    match p {
        ServerPhase::Init => LifecycleAction::LoadConfig,
        ServerPhase::Configured => LifecycleAction::OpenPool,
        ServerPhase::PoolOpen => LifecycleAction::BindListener,
        ServerPhase::Listening => LifecycleAction::Serve,
        ServerPhase::ShuttingDown { .. } => LifecycleAction::ShutDown,
        ServerPhase::Terminated { exit_code } => LifecycleAction::Exit { code: exit_code },
    }
}

impl ServerPhase {
    /// The phase after `event`.
    pub fn step(self, event: LifecycleEvent) -> (r: ServerPhase)
        ensures
            r == next_phase(self, event),
            rank(r) >= rank(self),
            rank(self) < 3 && event == LifecycleEvent::Failed ==> r == (ServerPhase::Terminated {
                exit_code: EXIT_FAILURE,
            }),
            self is Terminated ==> r == self,
    {
        match (self, event) {
            (ServerPhase::Init, LifecycleEvent::ConfigLoaded) => ServerPhase::Configured,
            (ServerPhase::Configured, LifecycleEvent::PoolOpened) => ServerPhase::PoolOpen,
            (ServerPhase::PoolOpen, LifecycleEvent::ListenerBound) => ServerPhase::Listening,
            (ServerPhase::Init, LifecycleEvent::Failed)
            | (ServerPhase::Configured, LifecycleEvent::Failed)
            | (ServerPhase::PoolOpen, LifecycleEvent::Failed) => ServerPhase::Terminated {
                exit_code: EXIT_FAILURE,
            },
            (ServerPhase::Listening, LifecycleEvent::ServeEnded { graceful }) => {
                ServerPhase::ShuttingDown { exit_code: if graceful { 0 } else { EXIT_FAILURE } }
            },
            (ServerPhase::Listening, LifecycleEvent::Failed) => ServerPhase::ShuttingDown {
                exit_code: EXIT_FAILURE,
            },
            (ServerPhase::ShuttingDown { exit_code }, LifecycleEvent::ShutdownComplete) => {
                ServerPhase::Terminated { exit_code }
            },
            (ServerPhase::ShuttingDown { .. }, LifecycleEvent::Failed) => ServerPhase::Terminated {
                exit_code: EXIT_FAILURE,
            },
            _ => self,
        }
    }

    /// The action the driver performs in this phase.
    pub fn action(self) -> (r: LifecycleAction)
        ensures
            r == phase_action(self),
    {
        match self {
            ServerPhase::Init => LifecycleAction::LoadConfig,
            ServerPhase::Configured => LifecycleAction::OpenPool,
            ServerPhase::PoolOpen => LifecycleAction::BindListener,
            ServerPhase::Listening => LifecycleAction::Serve,
            ServerPhase::ShuttingDown { .. } => LifecycleAction::ShutDown,
            ServerPhase::Terminated { exit_code } => LifecycleAction::Exit { code: exit_code },
        }
    }
}

/// A failure before the server listens ends the process with a non-zero
/// exit code; only a graceful end of serving followed by a completed
/// shutdown ends it with 0.
pub proof fn lemma_startup_failure_exits_nonzero(p: ServerPhase)
    requires
        rank(p) < 3,
    ensures
        phase_action(next_phase(p, LifecycleEvent::Failed)) == (LifecycleAction::Exit {
            code: EXIT_FAILURE,
        }),
        EXIT_FAILURE != 0,
{
}

} // verus!
