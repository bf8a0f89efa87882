//! The lifecycle: start, stop, restart, status — with at most one live
//! instance.
//!
//! The controller owns the single slot that stores the running instance's
//! handle; callers must go through it rather than spawn listeners
//! directly.  Each operation is planned as a sequence of actions the
//! shell performs in order; a ledger model counts the bound listeners an
//! action sequence leaves behind, taking a broadcast shutdown as observed
//! by the old instance (its accept loop checks the signal, biased, before
//! any further accept).

use vstd::prelude::*;

verus! {

/// The single slot holding the running instance's handle, if any.
pub struct LifecycleController<H> {
    slot: Option<H>,
}

impl<H> LifecycleController<H> {
    /// The stored handle.
    pub closed spec fn stored(&self) -> Option<H> {
        self.slot
    }

    /// A controller with nothing running.
    pub fn new() -> (c: Self)
        ensures
            c.stored() is None,
    {
        LifecycleController { slot: None }
    }

    /// A borrow of the stored handle, for the shell to probe liveness.
    pub fn stored_ref(&self) -> (h: Option<&H>)
        ensures
            h is Some <==> self.stored() is Some,
            h matches Some(x) ==> self.stored() == Some(*x),
    {
        self.slot.as_ref()
    }

    /// Whether a start may proceed: it may not exactly when a stored
    /// instance exists and is still alive — then the caller is told
    /// "already running" and nothing is spawned.
    pub fn start_gate(&self, stored_alive: bool) -> (proceed: bool)
        ensures
            proceed == !(self.stored() is Some && stored_alive),
    {
        match &self.slot {
            Some(_) => !stored_alive,
            None => true,
        }
    }

    /// Stores the handle of a freshly spawned instance.
    pub fn install(&mut self, h: H)
        ensures
            final(self).stored() == Some(h),
    {
        self.slot = Some(h);
    }

    /// Empties the slot, handing the old handle out to be awaited; the
    /// handle is discarded unconditionally even if that await times out.
    pub fn take(&mut self) -> (h: Option<H>)
        ensures
            final(self).stored() is None,
            h == old(self).stored(),
    {
        self.slot.take()
    }

    /// Whether the proxy counts as running: a handle is stored and the
    /// shell observed it unfinished.  This is task liveness, not a
    /// verified accept-capable socket.
    pub fn status(&self, stored_alive: bool) -> (r: bool)
        ensures
            r == (self.stored() is Some && stored_alive),
    {
        match &self.slot {
            Some(_) => stored_alive,
            None => false,
        }
    }
}

/// One step of a lifecycle operation, performed by the shell in order.
#[derive(Clone, Copy, Debug, PartialEq, Eq, Structural)]
pub enum LifecycleAction {
    /// Broadcast the shutdown signal to the running instance's tasks.
    Broadcast,
    /// Await the old instance up to the shutdown wait, then drop its
    /// handle either way.
    AwaitOld,
    /// Spawn a new instance: acceptor, health monitor and refresher
    /// under one shutdown subscription, then wait the warm-up delay.
    Spawn,
    /// Ask the collaborator to route the system through the proxy;
    /// failure fails the operation but does not undo a spawned instance.
    EnableOsProxy,
    /// Ask the collaborator for the firewall rules; failure is logged
    /// only.
    AddFirewallRules,
    /// Ask the collaborator to stop routing through the proxy.
    DisableOsProxy,
    /// Ask the collaborator to drop the firewall rules.
    RemoveFirewallRules,
}

/// What a start call reports.
#[derive(Clone, Copy, Debug, PartialEq, Eq, Structural)]
pub enum StartReply {
    /// An instance was alive already; nothing was done.
    AlreadyRunning,
    /// A new instance was spawned.
    Started,
}

/// How many bound listeners remain after one action: a broadcast stops
/// the running instance's accept loop, a spawn binds one listener, the
/// rest touch none.
pub open spec fn apply_action(listeners: nat, a: LifecycleAction) -> nat {
    match a {
        LifecycleAction::Broadcast => 0,
        LifecycleAction::Spawn => listeners + 1,
        _ => listeners,
    }
}

/// The listeners remaining after a whole action sequence.
pub open spec fn listeners_after(listeners: nat, acts: Seq<LifecycleAction>) -> nat
    decreases acts.len(),
{
    if acts.len() == 0 {
        listeners
    } else {
        listeners_after(apply_action(listeners, acts[0]), acts.drop_first())
    }
}

/// The actions of a start: nothing when already running, else spawn and
/// configure.
pub open spec fn spec_start_actions(already_running: bool) -> Seq<LifecycleAction> {
    if already_running {
        seq![]
    } else {
        seq![
            LifecycleAction::Spawn,
            LifecycleAction::EnableOsProxy,
            LifecycleAction::AddFirewallRules,
        ]
    }
}

/// The actions of a stop.
pub open spec fn spec_stop_actions() -> Seq<LifecycleAction> {
    seq![
        LifecycleAction::Broadcast,
        LifecycleAction::AwaitOld,
        LifecycleAction::DisableOsProxy,
        LifecycleAction::RemoveFirewallRules,
    ]
}

/// The actions of a restart: the old instance is shut down and awaited
/// before the new one is spawned, so the new bind happens only after the
/// old listener released the port.
pub open spec fn spec_restart_actions() -> Seq<LifecycleAction> {
    seq![
        LifecycleAction::Broadcast,
        LifecycleAction::AwaitOld,
        LifecycleAction::Spawn,
        LifecycleAction::EnableOsProxy,
        LifecycleAction::AddFirewallRules,
    ]
}

/// Plans a start: `already_running` says a stored instance is still
/// alive.
pub fn start_plan(already_running: bool) -> (p: (StartReply, Vec<LifecycleAction>))
    ensures
        p.1@ == spec_start_actions(already_running),
        p.0 == (if already_running {
            StartReply::AlreadyRunning
        } else {
            StartReply::Started
        }),
{
    if already_running {
        (StartReply::AlreadyRunning, Vec::new())
    } else {
        (
            StartReply::Started,
            vec![
                LifecycleAction::Spawn,
                LifecycleAction::EnableOsProxy,
                LifecycleAction::AddFirewallRules,
            ],
        )
    }
}

/// Plans a stop.
pub fn stop_plan() -> (p: Vec<LifecycleAction>)
    ensures
        p@ == spec_stop_actions(),
{
    vec![
        LifecycleAction::Broadcast,
        LifecycleAction::AwaitOld,
        LifecycleAction::DisableOsProxy,
        LifecycleAction::RemoveFirewallRules,
    ]
}

/// Plans a restart.
pub fn restart_plan() -> (p: Vec<LifecycleAction>)
    ensures
        p@ == spec_restart_actions(),
{
    vec![
        LifecycleAction::Broadcast,
        LifecycleAction::AwaitOld,
        LifecycleAction::Spawn,
        LifecycleAction::EnableOsProxy,
        LifecycleAction::AddFirewallRules,
    ]
}

/// Law: from a well-formed state — at most one listener, with
/// `already_running` true exactly when one is live — a start never
/// yields a second listener: it changes nothing when one runs, and
/// leaves exactly one otherwise.
pub proof fn lemma_start_single_listener(listeners: nat, already_running: bool)
    requires
        listeners <= 1,
        already_running <==> listeners == 1,
    ensures
        listeners_after(listeners, spec_start_actions(already_running)) <= 1,
        already_running ==> listeners_after(listeners, spec_start_actions(already_running))
            == listeners,
        !already_running ==> listeners_after(listeners, spec_start_actions(already_running)) == 1,
{
    reveal_with_fuel(listeners_after, 5);
    let s = spec_start_actions(already_running);
    if !already_running {
        assert(s.drop_first() =~= seq![
            LifecycleAction::EnableOsProxy,
            LifecycleAction::AddFirewallRules,
        ]);
        assert(s.drop_first().drop_first() =~= seq![LifecycleAction::AddFirewallRules]);
        assert(s.drop_first().drop_first().drop_first() =~= Seq::<LifecycleAction>::empty());
    }
}

/// Law: a stop leaves no listener, whatever ran before.
pub proof fn lemma_stop_no_listener(listeners: nat)
    ensures
        listeners_after(listeners, spec_stop_actions()) == 0,
{
    reveal_with_fuel(listeners_after, 6);
    let s = spec_stop_actions();
    assert(s.drop_first() =~= seq![
        LifecycleAction::AwaitOld,
        LifecycleAction::DisableOsProxy,
        LifecycleAction::RemoveFirewallRules,
    ]);
    assert(s.drop_first().drop_first() =~= seq![
        LifecycleAction::DisableOsProxy,
        LifecycleAction::RemoveFirewallRules,
    ]);
    assert(s.drop_first().drop_first().drop_first() =~= seq![
        LifecycleAction::RemoveFirewallRules,
    ]);
    assert(s.drop_first().drop_first().drop_first().drop_first()
        =~= Seq::<LifecycleAction>::empty());
}

/// Law: a restart leaves exactly one listener from any prior state,
/// running or stopped; the old instance is gone before the new spawn.
pub proof fn lemma_restart_exactly_one(listeners: nat)
    ensures
        listeners_after(listeners, spec_restart_actions()) == 1,
{
    reveal_with_fuel(listeners_after, 7);
    let s = spec_restart_actions();
    assert(s.drop_first() =~= seq![
        LifecycleAction::AwaitOld,
        LifecycleAction::Spawn,
        LifecycleAction::EnableOsProxy,
        LifecycleAction::AddFirewallRules,
    ]);
    assert(s.drop_first().drop_first() =~= seq![
        LifecycleAction::Spawn,
        LifecycleAction::EnableOsProxy,
        LifecycleAction::AddFirewallRules,
    ]);
    assert(s.drop_first().drop_first().drop_first() =~= seq![
        LifecycleAction::EnableOsProxy,
        LifecycleAction::AddFirewallRules,
    ]);
    assert(s.drop_first().drop_first().drop_first().drop_first() =~= seq![
        LifecycleAction::AddFirewallRules,
    ]);
    assert(s.drop_first().drop_first().drop_first().drop_first().drop_first()
        =~= Seq::<LifecycleAction>::empty());
}

} // verus!
