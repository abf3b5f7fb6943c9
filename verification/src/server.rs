//! Running the server: in which order its tasks start and stop.
//!
//! The callback handler starts first. The main listener is bound next, with
//! or without TLS; the readiness listener is bound only once the main one is.
//! When both listeners have stopped cleanly the callback handler is told to
//! stop and is waited for. When a listener fails the run ends with its error
//! at once.

use vstd::prelude::*;

verus! {

/// Where a run stands: the piece of work whose outcome is awaited.
#[derive(Clone, Debug, PartialEq, Eq)]
pub enum RunStage {
    /// Nothing was started yet.
    Created,
    /// The callback handler is being started.
    CallbackHandler,
    /// The main listener is being bound.
    Api,
    /// The readiness listener is being bound.
    Readiness,
    /// Both listeners serve.
    Serving,
    /// The callback handler is being told to stop.
    Signalling,
    /// The callback handler is being waited for.
    Draining,
    /// The run is over.
    Stopped(Exit),
}

/// How a run ended.
#[derive(Clone, Debug, PartialEq, Eq)]
pub enum Exit {
    Clean,
    /// A piece of work failed; the text is its error.
    Failed(String),
}

/// How the piece of work the machine asked for went.
#[derive(Clone, Debug, PartialEq, Eq)]
pub enum RunEvent {
    Done,
    /// It ended with an error.
    Failed(String),
}

/// The next piece of outside work.
#[derive(Clone, Debug, PartialEq, Eq)]
pub enum RunAction {
    /// Start the task of the callback handler.
    SpawnCallbackHandler,
    /// Bind the main listener.
    BindApi { with_tls: bool },
    /// Bind the readiness listener, always without TLS.
    BindReadiness,
    /// Wait until both listeners have stopped.
    AwaitListeners,
    /// Tell the callback handler to stop.
    SignalCallbackHandler,
    /// Wait for the task of the callback handler.
    AwaitCallbackHandler,
    /// Return.
    Exit(Exit),
}

/// The state of a run.
#[derive(Clone, Debug, PartialEq, Eq)]
pub struct Run {
    pub with_tls: bool,
    pub stage: RunStage,
}

impl Exit {
    /// A copy of the exit.
    pub fn duplicate(&self) -> (copy: Exit)
        ensures
            copy == *self,
    {
        match self {
            Exit::Clean => Exit::Clean,
            Exit::Failed(text) => Exit::Failed(text.clone()),
        }
    }
}

impl Run {
    /// The run before anything was started.
    pub open spec fn initial(with_tls: bool) -> Run {
        Run { with_tls, stage: RunStage::Created }
    }

    /// The action that a stage stands for; none before the start.
    pub open spec fn action(self) -> Option<RunAction> {
        match self.stage {
            RunStage::Created => None,
            RunStage::CallbackHandler => Some(RunAction::SpawnCallbackHandler),
            RunStage::Api => Some(RunAction::BindApi { with_tls: self.with_tls }),
            RunStage::Readiness => Some(RunAction::BindReadiness),
            RunStage::Serving => Some(RunAction::AwaitListeners),
            RunStage::Signalling => Some(RunAction::SignalCallbackHandler),
            RunStage::Draining => Some(RunAction::AwaitCallbackHandler),
            RunStage::Stopped(exit) => Some(RunAction::Exit(exit)),
        }
    }

    /// The run after an event. A failure ends the run at whichever stage it
    /// is reported.
    pub open spec fn next(self, event: RunEvent) -> Run {
        Run {
            with_tls: self.with_tls,
            stage: match self.stage {
                RunStage::Stopped(exit) => RunStage::Stopped(exit),
                stage => match event {
                    RunEvent::Failed(text) => RunStage::Stopped(Exit::Failed(text)),
                    RunEvent::Done => match stage {
                        RunStage::Created => RunStage::CallbackHandler,
                        RunStage::CallbackHandler => RunStage::Api,
                        RunStage::Api => RunStage::Readiness,
                        RunStage::Readiness => RunStage::Serving,
                        RunStage::Serving => RunStage::Signalling,
                        RunStage::Signalling => RunStage::Draining,
                        RunStage::Draining => RunStage::Stopped(Exit::Clean),
                        RunStage::Stopped(exit) => RunStage::Stopped(exit),
                    },
                },
            },
        }
    }

    /// A run that has not started.
    pub fn new(with_tls: bool) -> (run: Run)
        ensures
            run == Run::initial(with_tls),
    {
        Run { with_tls, stage: RunStage::Created }
    }

    /// Takes the outcome of the work that was asked for and answers with the
    /// next action. The first call, with [`RunEvent::Done`], starts the run.
    pub fn step(&mut self, event: RunEvent) -> (action: RunAction)
        ensures
            *final(self) == old(self).next(event),
            Some(action) == final(self).action(),
    {
        let over = match &self.stage {
            RunStage::Stopped(_) => true,
            _ => false,
        };
        if !over {
            self.stage = match event {
                RunEvent::Failed(text) => RunStage::Stopped(Exit::Failed(text)),
                RunEvent::Done => match &self.stage {
                    RunStage::Created => RunStage::CallbackHandler,
                    RunStage::CallbackHandler => RunStage::Api,
                    RunStage::Api => RunStage::Readiness,
                    RunStage::Readiness => RunStage::Serving,
                    RunStage::Serving => RunStage::Signalling,
                    RunStage::Signalling => RunStage::Draining,
                    RunStage::Draining => RunStage::Stopped(Exit::Clean),
                    RunStage::Stopped(exit) => RunStage::Stopped(exit.duplicate()),
                },
            };
        }
        match &self.stage {
            RunStage::Created => RunAction::SpawnCallbackHandler,
            RunStage::CallbackHandler => RunAction::SpawnCallbackHandler,
            RunStage::Api => RunAction::BindApi { with_tls: self.with_tls },
            RunStage::Readiness => RunAction::BindReadiness,
            RunStage::Serving => RunAction::AwaitListeners,
            RunStage::Signalling => RunAction::SignalCallbackHandler,
            RunStage::Draining => RunAction::AwaitCallbackHandler,
            RunStage::Stopped(exit) => RunAction::Exit(exit.duplicate()),
        }
    }
}

/// The callback handler is told to stop only after both listeners have
/// stopped, and only where they stopped cleanly: a step leads to the
/// signalling stage from the serving stage alone, and by a clean stop alone.
pub proof fn law_callback_handler_outlives_listeners(run: Run, event: RunEvent)
    requires
        run.next(event).stage is Signalling,
    ensures
        run.stage is Serving,
        event is Done,
{
}

/// The readiness listener is bound only once the main listener is.
pub proof fn law_readiness_follows_api(run: Run, event: RunEvent)
    requires
        run.next(event).stage is Readiness,
    ensures
        run.stage is Api,
        event is Done,
{
}

/// A failure ends the run with its error at once: after a listener failed
/// the callback handler is not told to stop.
pub proof fn law_failure_ends_run(run: Run, text: String)
    requires
        !(run.stage is Stopped),
    ensures
        run.next(RunEvent::Failed(text)).stage == RunStage::Stopped(Exit::Failed(text)),
{
}

} // verus!
