//! Bookkeeping of one tunnel direction.
//!
//! A tunnel runs two independent directional copy loops.  Each read either
//! yields a chunk — forwarded unmodified — or ends the direction: a
//! zero-byte read is an orderly close, a lapse of the idle timeout or an
//! I/O error ends it too.  Either direction finishing ends the whole
//! tunnel; the other side is abandoned, first-finisher-wins.

use vstd::prelude::*;

verus! {

/// What one read on a tunnel direction produced.
#[derive(Debug)]
pub enum TunnelEvent {
    /// A chunk of bytes arrived.
    Data(Vec<u8>),
    /// The peer closed its side: a zero-byte read.
    Eof,
    /// Nothing arrived within the idle timeout.
    TimedOut,
    /// The read failed.
    Failed,
}

/// Why a direction ended.
#[derive(Clone, Copy, Debug, PartialEq, Eq, Structural)]
pub enum CloseReason {
    /// Orderly close: the peer finished.
    Orderly,
    /// The idle timeout lapsed.
    Idle,
    /// A read or write error.
    Error,
}

/// One direction of a tunnel: whether it has ended, and the stream of
/// bytes it has relayed so far.
pub struct TunnelDir {
    /// Why this direction ended, once it has.
    pub closed: Option<CloseReason>,
    /// Every byte relayed by this direction, in order.
    pub forwarded: Ghost<Seq<u8>>,
}

/// Ghost mirror of `TunnelEvent`.
pub enum SpecEvent {
    Data(Seq<u8>),
    Eof,
    TimedOut,
    Failed,
}

/// Ghost state of one direction.
pub struct DirModel {
    pub closed: Option<CloseReason>,
    pub forwarded: Seq<u8>,
}

/// The ghost state a direction is in.
pub open spec fn model_of(d: &TunnelDir) -> DirModel {
    DirModel { closed: d.closed, forwarded: d.forwarded@ }
}

/// The ghost event an observed event stands for.
pub open spec fn spec_event(ev: &TunnelEvent) -> SpecEvent {
    match ev {
        TunnelEvent::Data(chunk) => SpecEvent::Data(chunk@),
        TunnelEvent::Eof => SpecEvent::Eof,
        TunnelEvent::TimedOut => SpecEvent::TimedOut,
        TunnelEvent::Failed => SpecEvent::Failed,
    }
}

/// One step of a direction: a chunk is forwarded unchanged and appended
/// to the relayed stream; any other event closes the direction; an
/// ended direction sees nothing further.
pub open spec fn step_model(m: DirModel, ev: SpecEvent) -> (DirModel, Option<Seq<u8>>) {
    if m.closed is Some {
        (m, None)
    } else {
        match ev {
            SpecEvent::Data(chunk) => (
                DirModel { closed: None, forwarded: m.forwarded + chunk },
                Some(chunk),
            ),
            SpecEvent::Eof => (DirModel { closed: Some(CloseReason::Orderly), ..m }, None),
            SpecEvent::TimedOut => (DirModel { closed: Some(CloseReason::Idle), ..m }, None),
            SpecEvent::Failed => (DirModel { closed: Some(CloseReason::Error), ..m }, None),
        }
    }
}

/// A direction run through a whole event sequence, in order.
pub open spec fn run_model(m: DirModel, evs: Seq<SpecEvent>) -> DirModel
    decreases evs.len(),
{
    if evs.len() == 0 {
        m
    } else {
        run_model(step_model(m, evs[0]).0, evs.drop_first())
    }
}

/// The bytes an open direction relays out of `evs`: the concatenation
/// of the data chunks before the first closing event.
pub open spec fn relayed_of(evs: Seq<SpecEvent>) -> Seq<u8>
    decreases evs.len(),
{
    if evs.len() == 0 {
        Seq::empty()
    } else {
        match evs[0] {
            SpecEvent::Data(chunk) => chunk + relayed_of(evs.drop_first()),
            _ => Seq::empty(),
        }
    }
}

/// Why the first closing event among `evs` closes, if there is one.
pub open spec fn first_close(evs: Seq<SpecEvent>) -> Option<CloseReason>
    decreases evs.len(),
{
    if evs.len() == 0 {
        None
    } else {
        match evs[0] {
            SpecEvent::Data(_) => first_close(evs.drop_first()),
            SpecEvent::Eof => Some(CloseReason::Orderly),
            SpecEvent::TimedOut => Some(CloseReason::Idle),
            SpecEvent::Failed => Some(CloseReason::Error),
        }
    }
}

/// Law: over any whole event sequence, an open direction relays exactly
/// the bytes read before the first closing event, unmodified and in
/// order, and ends with precisely that event's reason — an idle timeout
/// among them terminates the direction, and with it the tunnel.
pub proof fn lemma_relay_stream(m: DirModel, evs: Seq<SpecEvent>)
    requires
        m.closed is None,
    ensures
        run_model(m, evs).forwarded == m.forwarded + relayed_of(evs),
        run_model(m, evs).closed == first_close(evs),
    decreases evs.len(),
{
    if evs.len() == 0 {
        assert(m.forwarded + relayed_of(evs) =~= m.forwarded);
    } else {
        let (m1, _) = step_model(m, evs[0]);
        match evs[0] {
            SpecEvent::Data(chunk) => {
                lemma_relay_stream(m1, evs.drop_first());
                assert(m1.forwarded + relayed_of(evs.drop_first()) =~= m.forwarded + relayed_of(
                    evs,
                ));
            },
            _ => {
                lemma_closed_stays(m1, evs.drop_first());
                assert(m.forwarded + relayed_of(evs) =~= m.forwarded);
            },
        }
    }
}

/// A direction that has ended neither relays nor changes further.
pub proof fn lemma_closed_stays(m: DirModel, evs: Seq<SpecEvent>)
    requires
        m.closed is Some,
    ensures
        run_model(m, evs) == m,
    decreases evs.len(),
{
    if evs.len() > 0 {
        lemma_closed_stays(m, evs.drop_first());
    }
}

/// Whether the tunnel as a whole is over: either direction ending ends
/// it.
pub open spec fn tunnel_finished(a: &TunnelDir, b: &TunnelDir) -> bool {
    a.closed is Some || b.closed is Some
}

impl TunnelDir {
    /// A fresh direction: open, nothing relayed yet.
    pub fn new() -> (d: TunnelDir)
        ensures
            d.closed is None,
            d.forwarded@ == Seq::<u8>::empty(),
    {
        TunnelDir { closed: None, forwarded: Ghost(Seq::empty()) }
    }

    /// Advances this direction by one read: a chunk is handed back for
    /// writing, byte for byte as it was read; anything else closes the
    /// direction with its reason and nothing is written.
    pub fn on_read(&mut self, ev: TunnelEvent) -> (w: Option<Vec<u8>>)
        requires
            old(self).closed is None,
        ensures
            model_of(final(self)) == step_model(model_of(old(self)), spec_event(&ev)).0,
            (w matches Some(out) ==> step_model(model_of(old(self)), spec_event(&ev)).1 == Some(
                out@,
            )) && (w is None ==> step_model(model_of(old(self)), spec_event(&ev)).1 is None),
            ev matches TunnelEvent::Data(chunk) ==> (w matches Some(out) && out@ == chunk@
                && final(self).closed is None
                && final(self).forwarded@ == old(self).forwarded@ + chunk@),
            ev is Eof ==> w is None && final(self).closed == Some(CloseReason::Orderly)
                && final(self).forwarded@ == old(self).forwarded@,
            ev is TimedOut ==> w is None && final(self).closed == Some(CloseReason::Idle)
                && final(self).forwarded@ == old(self).forwarded@,
            ev is Failed ==> w is None && final(self).closed == Some(CloseReason::Error)
                && final(self).forwarded@ == old(self).forwarded@,
    {
        match ev {
            TunnelEvent::Data(chunk) => {
                self.forwarded = Ghost(self.forwarded@ + chunk@);
                Some(chunk)
            },
            TunnelEvent::Eof => {
                self.closed = Some(CloseReason::Orderly);
                None
            },
            TunnelEvent::TimedOut => {
                self.closed = Some(CloseReason::Idle);
                None
            },
            TunnelEvent::Failed => {
                self.closed = Some(CloseReason::Error);
                None
            },
        }
    }
}

/// Law: one direction ending ends the whole tunnel, whatever the other
/// direction was doing.  In particular a direction idle past the timeout
/// — closed with the `Idle` reason — terminates the tunnel.
pub proof fn lemma_one_side_ends_tunnel(a: &TunnelDir, b: &TunnelDir)
    requires
        a.closed is Some,
    ensures
        tunnel_finished(a, b),
        tunnel_finished(b, a),
{
}

} // verus!
