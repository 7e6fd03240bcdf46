use vstd::prelude::*;

use crate::error::{DirectoryError, Result};
use crate::principal::Principal;

verus! {

/// Where an authentication by bind stands on its pooled connection.
#[derive(Debug, Clone, Copy, PartialEq, Eq, Structural)]
pub enum BindPhase {
    /// Waiting for the outcome of binding as the end user.
    UserBind,
    /// Waiting for the outcome of binding back as the service identity;
    /// `accepted` records whether the directory took the user's secret.
    ServiceBind { accepted: bool },
    /// Waiting for the record of the authenticated user.
    Lookup,
    /// The caller has been answered.
    Done,
}

/// What the adapter observed after performing the last action.
#[derive(Debug)]
pub enum BindEvent {
    /// Outcome of binding as the end user: the directory's result code, or
    /// a fault of the connection.
    UserBound(core::result::Result<u32, DirectoryError>),
    /// Outcome of binding back as the service identity.
    ServiceBound(Result<()>),
    /// Outcome of looking up the authenticated user.
    Found(Result<Option<Principal>>),
}

/// What the adapter must do next.
#[derive(Debug)]
pub enum BindAction {
    /// Bind the connection with the caller's identity and secret.
    BindUser,
    /// Bind the connection with the service identity again.
    BindService,
    /// Look up the record of the authenticated user.
    LookUp,
    /// Answer the caller. The connection goes back to the pool when
    /// `reusable` holds and is discarded otherwise.
    Answer { result: Result<Option<Principal>>, reusable: bool },
}

/// The decisions of authenticating a user by binding a pooled connection
/// with the user's credentials.
#[derive(Debug)]
pub struct BindAuth {
    pub phase: BindPhase,
}

/// The phase and action that follow `event` in `phase`.
pub open spec fn next(phase: BindPhase, event: BindEvent) -> (BindPhase, BindAction) {
    match (phase, event) {
        (BindPhase::UserBind, BindEvent::UserBound(Ok(rc))) => (
            BindPhase::ServiceBind { accepted: rc == 0 },
            BindAction::BindService,
        ),
        (BindPhase::UserBind, BindEvent::UserBound(Err(e))) => (
            BindPhase::Done,
            BindAction::Answer { result: Err(e), reusable: false },
        ),
        (BindPhase::ServiceBind { accepted }, BindEvent::ServiceBound(Ok(()))) => if accepted {
            (BindPhase::Lookup, BindAction::LookUp)
        } else {
            (BindPhase::Done, BindAction::Answer { result: Ok(None), reusable: true })
        },
        (BindPhase::ServiceBind { .. }, BindEvent::ServiceBound(Err(e))) => (
            BindPhase::Done,
            BindAction::Answer { result: Err(e), reusable: false },
        ),
        (BindPhase::Lookup, BindEvent::Found(r)) => (
            BindPhase::Done,
            BindAction::Answer { result: r, reusable: true },
        ),
        // not reached while `awaits(phase, event)` holds
        (p, _) => (p, BindAction::BindUser),
    }
}

/// Whether `event` is the outcome awaited in `phase`.
pub open spec fn awaits(phase: BindPhase, event: BindEvent) -> bool {
    match phase {
        BindPhase::UserBind => event is UserBound,
        BindPhase::ServiceBind { .. } => event is ServiceBound,
        BindPhase::Lookup => event is Found,
        BindPhase::Done => false,
    }
}

impl BindAuth {
    /// Starts an authentication: the first action binds as the user.
    pub fn new() -> (r: (BindAuth, BindAction))
        ensures
            r.0.phase == BindPhase::UserBind,
            r.1 is BindUser,
    {
        (BindAuth { phase: BindPhase::UserBind }, BindAction::BindUser)
    }

    /// Whether `event` is the outcome this authentication waits for.
    pub fn accepts(&self, event: &BindEvent) -> (r: bool)
        ensures
            r == awaits(self.phase, *event),
    {
        match self.phase {
            BindPhase::UserBind => matches!(event, BindEvent::UserBound(_)),
            BindPhase::ServiceBind { .. } => matches!(event, BindEvent::ServiceBound(_)),
            BindPhase::Lookup => matches!(event, BindEvent::Found(_)),
            BindPhase::Done => false,
        }
    }

    /// Takes in the outcome of the last action and decides the next one.
    pub fn step(&mut self, event: BindEvent) -> (a: BindAction)
        requires
            awaits(old(self).phase, event),
        ensures
            (final(self).phase, a) == next(old(self).phase, event),
    {
        match event {
            BindEvent::UserBound(Ok(rc)) => {
                self.phase = BindPhase::ServiceBind { accepted: rc == 0 };
                BindAction::BindService
            },
            BindEvent::UserBound(Err(e)) => {
                self.phase = BindPhase::Done;
                BindAction::Answer { result: Err(e), reusable: false }
            },
            BindEvent::ServiceBound(Ok(())) => {
                let accepted = match self.phase {
                    BindPhase::ServiceBind { accepted } => accepted,
                    _ => false,
                };
                if accepted {
                    self.phase = BindPhase::Lookup;
                    BindAction::LookUp
                } else {
                    self.phase = BindPhase::Done;
                    BindAction::Answer { result: Ok(None), reusable: true }
                }
            },
            BindEvent::ServiceBound(Err(e)) => {
                self.phase = BindPhase::Done;
                BindAction::Answer { result: Err(e), reusable: false }
            },
            BindEvent::Found(r) => {
                self.phase = BindPhase::Done;
                BindAction::Answer { result: r, reusable: true }
            },
        }
    }
}

/// A secret that the directory refuses (a non-zero result code of the user's
/// bind) never yields a principal: once the service identity is back the
/// caller gets `Ok(None)`, and otherwise the error of the service bind.
pub proof fn lemma_refused_secret_is_none(rc: u32, service: Result<()>)
    requires
        rc != 0,
    ensures
        ({
            let (p, a) = next(BindPhase::UserBind, BindEvent::UserBound(Ok(rc)));
            let (q, b) = next(p, BindEvent::ServiceBound(service));
            &&& a is BindService
            &&& q == BindPhase::Done
            &&& b is Answer
            &&& !(b->result matches Ok(Some(_)))
            &&& (service is Ok ==> b == BindAction::Answer { result: Ok(None), reusable: true })
        }),
{
}

/// A fault while binding as the user (the backend is unreachable, the
/// connection dropped) is answered with that very error, never with
/// `Ok(None)`, and the connection is discarded.
pub proof fn lemma_fault_is_error(e: DirectoryError)
    ensures
        next(BindPhase::UserBind, BindEvent::UserBound(Err(e))) == (
            BindPhase::Done,
            BindAction::Answer { result: Err(e), reusable: false },
        ),
{
}

/// A connection goes back to the pool only after its service identity was
/// restored: an answer that keeps the connection follows a successful
/// service bind, or the lookup that comes after one.
pub proof fn lemma_reused_only_as_service(phase: BindPhase, event: BindEvent)
    requires
        awaits(phase, event),
    ensures
        ({
            let a = next(phase, event).1;
            (a matches BindAction::Answer { reusable: true, .. }) ==> (
                phase is Lookup || (phase is ServiceBind && event matches BindEvent::ServiceBound(Ok(_))))
        }),
{
}

} // verus!
