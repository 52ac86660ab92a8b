//! The slot that owns the host's single live session.

use vstd::prelude::*;
use crate::trigger::Trigger;

verus! {

/// The host's session slot: either empty or holding the one live session.
///
/// `S` is the caller's handle to a live connection; the registry never looks
/// inside it. Holding the handle in a variant makes a second simultaneous
/// session unrepresentable.
#[derive(Debug)]
pub enum Registry<S> {
    /// No connection is installed; sends are dropped.
    NoSession,
    /// The one live connection.
    Active(S),
}

/// What a call of [`Registry::send`] did.
#[derive(Clone, Copy, Debug, PartialEq, Eq, Structural)]
pub enum SendOutcome {
    /// No session was installed, so nothing was written.
    Skipped,
    /// The write to the active session succeeded.
    Delivered,
    /// The write failed and the session was evicted.
    Evicted,
}

/// Whether `write` may be called for a send of `trigger` on `before`: it must
/// accept the installed session, if there is one, and the trigger's byte.
pub open spec fn can_send<S, W: FnOnce(&S, u8) -> bool>(
    before: Registry<S>,
    trigger: Trigger,
    write: W,
) -> bool {
    before.write_for(trigger) matches Some((session, byte)) ==> call_requires(
        write,
        (&session, byte),
    )
}

/// Whether a send of `trigger` through `write` may take the registry from
/// `before` to `after` and report `outcome`.
///
/// With no session installed nothing is written, the registry is unchanged
/// and the send is skipped. Otherwise `write` was called once, on the
/// installed session and the trigger's byte; the session stays if the write
/// succeeded and is evicted if it failed.
pub open spec fn sent<S, W: FnOnce(&S, u8) -> bool>(
    before: Registry<S>,
    trigger: Trigger,
    write: W,
    after: Registry<S>,
    outcome: SendOutcome,
) -> bool {
    match before.write_for(trigger) {
        None => after == before && outcome == SendOutcome::Skipped,
        Some((session, byte)) => {
            let delivered = outcome == SendOutcome::Delivered;
            &&& call_ensures(write, (&session, byte), delivered)
            &&& after == before.after_send(delivered)
            &&& outcome == before.outcome_of_send(delivered)
        },
    }
}

impl<S> Registry<S> {
    /// The installed session, if any.
    pub open spec fn session(self) -> Option<S> {
        match self {
            Registry::NoSession => None,
            Registry::Active(s) => Some(s),
        }
    }

    /// The write that a send of `trigger` attempts: the target session and the
    /// byte, or nothing when no session is installed.
    pub open spec fn write_for(self, trigger: Trigger) -> Option<(S, u8)> {
        match self {
            Registry::NoSession => None,
            Registry::Active(s) => Some((s, trigger.spec_byte())),
        }
    }

    /// The registry after a send whose write, if one was attempted, succeeded
    /// exactly when `delivered` holds.
    pub open spec fn after_send(self, delivered: bool) -> Registry<S> {
        match self {
            Registry::NoSession => Registry::NoSession,
            Registry::Active(s) => if delivered {
                Registry::Active(s)
            } else {
                Registry::NoSession
            },
        }
    }

    /// What a send reports when its write, if one was attempted, succeeded
    /// exactly when `delivered` holds.
    pub open spec fn outcome_of_send(self, delivered: bool) -> SendOutcome {
        match self {
            Registry::NoSession => SendOutcome::Skipped,
            Registry::Active(_) => if delivered {
                SendOutcome::Delivered
            } else {
                SendOutcome::Evicted
            },
        }
    }

    /// The registry after installing `new_session`.
    pub open spec fn after_install(self, new_session: S) -> Registry<S> {
        Registry::Active(new_session)
    }

    /// The registry after installing each of `sessions` in turn.
    pub open spec fn after_installs(self, sessions: Seq<S>) -> Registry<S>
        decreases sessions.len(),
    {
        if sessions.len() == 0 {
            self
        } else {
            self.after_installs(sessions.drop_last()).after_install(sessions.last())
        }
    }

    /// The sessions handed back for closing while installing each of
    /// `sessions` in turn, in the order in which they were evicted.
    pub open spec fn evicted_by_installs(self, sessions: Seq<S>) -> Seq<S>
        decreases sessions.len(),
    {
        if sessions.len() == 0 {
            Seq::empty()
        } else {
            let earlier = self.evicted_by_installs(sessions.drop_last());
            match self.after_installs(sessions.drop_last()).session() {
                None => earlier,
                Some(superseded) => earlier.push(superseded),
            }
        }
    }

    /// The registry after one send per entry of `delivered`, where each entry
    /// says whether that send's write, if one was attempted, succeeded.
    pub open spec fn after_sends(self, delivered: Seq<bool>) -> Registry<S>
        decreases delivered.len(),
    {
        if delivered.len() == 0 {
            self
        } else {
            self.after_sends(delivered.drop_last()).after_send(delivered.last())
        }
    }

    /// The writes attempted while sending each of `triggers` in turn, where
    /// `delivered` says of each send whether its write, if any, succeeded.
    pub open spec fn writes_during(self, triggers: Seq<Trigger>, delivered: Seq<bool>) -> Seq<
        (S, u8),
    >
        recommends
            triggers.len() == delivered.len(),
        decreases triggers.len(),
    {
        if triggers.len() == 0 {
            Seq::empty()
        } else {
            let earlier = self.writes_during(triggers.drop_last(), delivered.drop_last());
            match self.after_sends(delivered.drop_last()).write_for(triggers.last()) {
                None => earlier,
                Some(write) => earlier.push(write),
            }
        }
    }

    /// An empty registry.
    pub fn new() -> (r: Self)
        ensures
            r == Registry::<S>::NoSession,
    {
        Registry::NoSession
    }

    /// Whether a session is installed.
    pub fn current(&self) -> (active: bool)
        ensures
            active == (*self is Active),
    {
        match self {
            Registry::NoSession => false,
            Registry::Active(_) => true,
        }
    }

    /// Installs `new_session` as the one live session and hands back the
    /// session it supersedes, which the caller must close.
    #[must_use]
    pub fn install(&mut self, new_session: S) -> (evicted: Option<S>)
        ensures
            *final(self) == old(self).after_install(new_session),
            evicted == old(self).session(),
    {
        let mut previous = Registry::Active(new_session);
        core::mem::swap(self, &mut previous);
        match previous {
            Registry::NoSession => None,
            Registry::Active(old_session) => Some(old_session),
        }
    }

    /// Pushes `trigger` to the live session, if there is one.
    ///
    /// `write` performs the transport write of one byte to a session and says
    /// whether it succeeded. With no session installed nothing happens. A
    /// failed write evicts the session; the failure is reported in the outcome
    /// and never as an error.
    pub fn send<W: FnOnce(&S, u8) -> bool>(&mut self, trigger: Trigger, write: W) -> (outcome:
        SendOutcome)
        requires
            can_send(*old(self), trigger, write),
        ensures
            sent(*old(self), trigger, write, *final(self), outcome),
    {
        let delivered = match self {
            Registry::NoSession => {
                return SendOutcome::Skipped;
            },
            Registry::Active(session) => write(session, trigger.byte()),
        };
        if delivered {
            SendOutcome::Delivered
        } else {
            *self = Registry::NoSession;
            SendOutcome::Evicted
        }
    }
}

/// However many sessions are installed one after another, the registry ends
/// up holding exactly the last of them, every earlier one (and the session
/// that was installed before the first, if any) has been handed back for
/// closing in the order of arrival, and a send then goes to the last one
/// alone.
pub proof fn lemma_installs_leave_one_session<S>(
    registry: Registry<S>,
    sessions: Seq<S>,
    trigger: Trigger,
)
    requires
        sessions.len() >= 1,
    ensures
        registry.after_installs(sessions) == Registry::Active(sessions.last()),
        registry.evicted_by_installs(sessions) =~= match registry.session() {
            None => sessions.drop_last(),
            Some(first) => seq![first] + sessions.drop_last(),
        },
        registry.after_installs(sessions).write_for(trigger) == Some(
            (sessions.last(), trigger.spec_byte()),
        ),
    decreases sessions.len(),
{
    let before = sessions.drop_last();
    if before.len() >= 1 {
        lemma_installs_leave_one_session(registry, before, trigger);
        assert(before.drop_last().push(before.last()) =~= before);
        assert(registry.evicted_by_installs(sessions) =~= registry.evicted_by_installs(
            before,
        ).push(before.last()));
    } else {
        assert(registry.after_installs(before) == registry);
        assert(registry.evicted_by_installs(before) =~= Seq::<S>::empty());
    }
}

/// A send on an empty registry is skipped and leaves the registry empty,
/// whatever the trigger and whatever `write` would have done.
pub proof fn lemma_send_without_session_is_noop<S, W: FnOnce(&S, u8) -> bool>(
    trigger: Trigger,
    write: W,
    after: Registry<S>,
    outcome: SendOutcome,
)
    requires
        sent(Registry::<S>::NoSession, trigger, write, after, outcome),
    ensures
        after == Registry::<S>::NoSession,
        outcome == SendOutcome::Skipped,
{
}

/// A send whose write cannot succeed evicts the session, and the send after
/// it is skipped and leaves the registry empty.
pub proof fn lemma_failed_send_evicts<S, W: FnOnce(&S, u8) -> bool, V: FnOnce(&S, u8) -> bool>(
    session: S,
    first: Trigger,
    failing: W,
    between: Registry<S>,
    first_outcome: SendOutcome,
    second: Trigger,
    write: V,
    after: Registry<S>,
    second_outcome: SendOutcome,
)
    requires
        !call_ensures(failing, (&session, first.spec_byte()), true),
        sent(Registry::Active(session), first, failing, between, first_outcome),
        sent(between, second, write, after, second_outcome),
    ensures
        first_outcome == SendOutcome::Evicted,
        between == Registry::<S>::NoSession,
        second_outcome == SendOutcome::Skipped,
        after == Registry::<S>::NoSession,
{
}

/// Any number of sends on an empty registry attempt no write at all and
/// leave the registry empty.
pub proof fn lemma_sends_without_session<S>(triggers: Seq<Trigger>, delivered: Seq<bool>)
    requires
        triggers.len() == delivered.len(),
    ensures
        Registry::<S>::NoSession.after_sends(delivered) == Registry::<S>::NoSession,
        Registry::<S>::NoSession.writes_during(triggers, delivered) == Seq::<(S, u8)>::empty(),
    decreases triggers.len(),
{
    if triggers.len() > 0 {
        lemma_sends_without_session::<S>(triggers.drop_last(), delivered.drop_last());
    }
}

/// During any run of sends that begins with `session` installed, every write
/// goes to that session and to no other, and the session is still installed
/// at the end exactly if no write failed.
pub proof fn lemma_sends_reach_only_the_active_session<S>(
    session: S,
    triggers: Seq<Trigger>,
    delivered: Seq<bool>,
)
    requires
        triggers.len() == delivered.len(),
    ensures
        forall|i: int|
            0 <= i < Registry::Active(session).writes_during(triggers, delivered).len()
                ==> (#[trigger] Registry::Active(session).writes_during(triggers, delivered)[i]).0
                == session,
        Registry::Active(session).after_sends(delivered) == if forall|i: int|
            0 <= i < delivered.len() ==> delivered[i] {
            Registry::Active(session)
        } else {
            Registry::<S>::NoSession
        },
    decreases triggers.len(),
{
    if triggers.len() > 0 {
        let earlier = delivered.drop_last();
        lemma_sends_reach_only_the_active_session(session, triggers.drop_last(), earlier);
        if forall|i: int| 0 <= i < delivered.len() ==> delivered[i] {
            assert forall|i: int| 0 <= i < earlier.len() implies earlier[i] by {
                assert(earlier[i] == delivered[i]);
            }
        } else if delivered.last() {
            let bad = choose|i: int| 0 <= i < delivered.len() && !delivered[i];
            assert(!earlier[bad]);
        }
        let start = Registry::Active(session);
        let writes = start.writes_during(triggers, delivered);
        let before = start.writes_during(triggers.drop_last(), earlier);
        assert forall|i: int| 0 <= i < writes.len() implies (#[trigger] writes[i]).0
            == session by {
            if i < before.len() {
                assert(writes[i] == before[i]);
            }
        }
    }
}

} // verus!
