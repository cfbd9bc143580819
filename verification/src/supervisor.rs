//! Decisions of the speech-to-text worker supervisor: the worker's command
//! line, the status published around each spawn, and the replay of the
//! request in flight when the worker dies.
//!
//! The supervisor itself awaits the child, sleeps and spawns; after each of
//! those it hands the outcome to `SupervisorCore`, which says what to
//! publish and what to send again.
use vstd::prelude::*;
use crate::stt::SttStatus;
use crate::text::{concat_str, str_to_string};

verus! {

/// Pause between a worker's exit and its respawn.
pub const RESPAWN_DELAY_MS: u64 = 500;

/// How many times the request in flight is sent again after a respawn.
pub const MAX_REPLAY_ATTEMPTS: usize = 1;

/// How to start the local worker.
#[derive(Debug, Clone)]
pub struct SupervisorConfig {
    pub worker_binary: String,
    pub model_path: String,
    pub language: String,
    /// Backend identifier published in the status.
    pub backend: String,
}

#[derive(Debug, Clone, PartialEq, Eq)]
pub enum SupervisorError {
    Spawn(String),
    Handshake(String),
    Worker(String),
}

pub open spec fn supervisor_error_message(e: SupervisorError) -> Seq<char> {
    match e {
        SupervisorError::Spawn(m) => "failed to spawn worker: "@ + m@,
        SupervisorError::Handshake(m) => "handshake failed: "@ + m@,
        SupervisorError::Worker(m) => "worker error: "@ + m@,
    }
}

impl SupervisorError {
    /// The error's message.
    pub fn message(&self) -> (r: String)
        ensures
            r@ == supervisor_error_message(*self),
    {
        match self {
            SupervisorError::Spawn(m) => concat_str("failed to spawn worker: ", m.as_str()),
            SupervisorError::Handshake(m) => concat_str("handshake failed: ", m.as_str()),
            SupervisorError::Worker(m) => concat_str("worker error: ", m.as_str()),
        }
    }
}

/// A request handed to the worker and not answered yet.
#[derive(Debug, Clone)]
pub struct InFlight<T> {
    pub request_id: String,
    pub samples: Vec<T>,
    pub initial_prompt: String,
    pub audio_path: Option<String>,
    pub started_at_ms: u64,
}

/// What the supervisor does once a respawn after the worker's death has
/// been tried.
pub enum RespawnStep<T> {
    /// The new worker is up: publish `status`, send `replay` to it if there
    /// is one, and watch the new worker.
    Resume { status: SttStatus, replay: Option<InFlight<T>> },
    /// The respawn failed: publish `status` and stop watching.
    Stop { status: SttStatus },
}

/// The request kept for replay after the worker answers (`answered`) or not.
pub open spec fn pending_after_answer<T>(p: Option<InFlight<T>>, answered: bool) -> Option<
    InFlight<T>,
> {
    if answered {
        None
    } else {
        p
    }
}

/// The request sent again after a respawn that succeeded (`up`) or not.
pub open spec fn replayed<T>(p: Option<InFlight<T>>, up: bool) -> Option<InFlight<T>> {
    if up {
        p
    } else {
        None
    }
}

/// The request kept for replay after a respawn that succeeded (`up`) or not.
pub open spec fn pending_after_respawn<T>(p: Option<InFlight<T>>, up: bool) -> Option<
    InFlight<T>,
> {
    if up {
        None
    } else {
        p
    }
}

/// The supervisor's state between outside events.
pub struct SupervisorCore<T> {
    pub cfg: SupervisorConfig,
    /// The request that would be replayed if the worker died now.
    pub last_inflight: Option<InFlight<T>>,
}

impl<T> SupervisorCore<T> {
    pub open spec fn pending(&self) -> Option<InFlight<T>> {
        self.last_inflight
    }

    pub fn new(cfg: SupervisorConfig) -> (r: Self)
        ensures
            r.cfg == cfg,
            r.pending() is None,
    {
        SupervisorCore { cfg, last_inflight: None }
    }

    /// Arguments of the worker process: `--model <path> --language <lang>`.
    pub fn worker_args(&self) -> (r: Vec<String>)
        ensures
            r@.len() == 4,
            r@[0]@ == "--model"@,
            r@[1]@ == self.cfg.model_path@,
            r@[2]@ == "--language"@,
            r@[3]@ == self.cfg.language@,
    {
        let mut v: Vec<String> = Vec::new();
        v.push(str_to_string("--model"));
        v.push(self.cfg.model_path.clone());
        v.push(str_to_string("--language"));
        v.push(self.cfg.language.clone());
        v
    }

    /// Status published while the worker boots.
    pub fn boot_status(&self) -> (r: SttStatus)
        ensures
            r matches SttStatus::Loading { backend } && backend@ == self.cfg.backend@,
    {
        SttStatus::Loading { backend: self.cfg.backend.clone() }
    }

    /// Status published once a spawn and handshake have ended: `Ready` with
    /// the model the worker reported, or `Error` with the failure's message.
    pub fn spawn_status(&self, outcome: &Result<String, SupervisorError>) -> (r: SttStatus)
        ensures
            match outcome {
                Ok(model_id) => (r matches SttStatus::Ready { backend, model_id: m } && backend@
                    == self.cfg.backend@ && m@ == model_id@),
                Err(e) => (r matches SttStatus::Error { message } && message@
                    == supervisor_error_message(*e)),
            },
    {
        match outcome {
            Ok(model_id) => SttStatus::Ready {
                backend: self.cfg.backend.clone(),
                model_id: model_id.clone(),
            },
            Err(e) => SttStatus::Error { message: e.message() },
        }
    }

    /// Status published when the worker exits.
    pub fn exit_status(&self) -> (r: SttStatus)
        ensures
            r matches SttStatus::Restarting { backend } && backend@ == self.cfg.backend@,
    {
        SttStatus::Restarting { backend: self.cfg.backend.clone() }
    }

    /// Record a request before it is sent, so that it can be replayed.
    pub fn begin_request(&mut self, inflight: InFlight<T>)
        ensures
            final(self).cfg == old(self).cfg,
            final(self).pending() == Some(inflight),
    {
        self.last_inflight = Some(inflight);
    }

    /// The worker answered the request (`answered`), or the request failed
    /// and stays recorded for replay.
    pub fn end_request(&mut self, answered: bool)
        ensures
            final(self).cfg == old(self).cfg,
            final(self).pending() == pending_after_answer(old(self).pending(), answered),
    {
        if answered {
            self.last_inflight = None;
        }
    }

    /// Decide after a respawn: on success publish `Ready`, hand out the
    /// recorded request (once) and go on; on failure publish
    /// `respawn failed: <error>` and stop.
    pub fn after_respawn(&mut self, outcome: Result<String, SupervisorError>) -> (r: RespawnStep<T>)
        ensures
            final(self).cfg == old(self).cfg,
            final(self).pending() == pending_after_respawn(old(self).pending(), outcome is Ok),
            match outcome {
                Ok(model_id) => (r matches RespawnStep::Resume { status, replay } && replay
                    == replayed(old(self).pending(), true) && (status matches SttStatus::Ready {
                    backend, model_id: m } && backend@ == old(self).cfg.backend@ && m@
                    == model_id@)),
                Err(e) => (r matches RespawnStep::Stop { status } && (status matches SttStatus::Error {
                    message } && message@ == "respawn failed: "@ + supervisor_error_message(e))),
            },
    {
        match outcome {
            Ok(model_id) => {
                let replay = self.last_inflight.take();
                RespawnStep::Resume {
                    status: SttStatus::Ready { backend: self.cfg.backend.clone(), model_id },
                    replay,
                }
            },
            Err(e) => {
                let m = e.message();
                RespawnStep::Stop {
                    status: SttStatus::Error { message: concat_str("respawn failed: ", m.as_str()) },
                }
            },
        }
    }
}

/// Error of a request when no worker is connected.
pub fn no_client_error() -> (r: SupervisorError)
    ensures
        r matches SupervisorError::Worker(m) && m@ == "no client (worker down)"@,
{
    SupervisorError::Worker(str_to_string("no client (worker down)"))
}

/// Error of a request the worker did not answer: the channel closed under
/// it (`closed`), or the worker reported `message`.
pub fn request_error(closed: bool, message: &str) -> (r: SupervisorError)
    ensures
        closed ==> (r matches SupervisorError::Worker(m) && m@ == "worker closed mid-request"@),
        !closed ==> (r matches SupervisorError::Worker(m) && m@ == message@),
{
    if closed {
        SupervisorError::Worker(str_to_string("worker closed mid-request"))
    } else {
        SupervisorError::Worker(str_to_string(message))
    }
}

/// A request recorded before the worker dies is sent again after the
/// first successful respawn, and never a second time.
pub proof fn lemma_replay_at_most_once<T>(p: Option<InFlight<T>>)
    ensures
        replayed(p, true) == p,
        replayed(pending_after_respawn(p, true), true) is None,
        pending_after_respawn(p, false) == p,
{
}

/// A request the worker answered is never replayed.
pub proof fn lemma_answered_not_replayed<T>(p: Option<InFlight<T>>)
    ensures
        replayed(pending_after_answer(p, true), true) is None,
{
}

} // verus!
