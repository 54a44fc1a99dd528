//! The session broker: the single-threaded owner of the bus connection
//! and of every live pad.
//!
//! Producer threads submit requests into one totally-ordered stream; the
//! broker applies them strictly one at a time, in arrival order, and is
//! the only caller of driver operations. An allocation hands back the
//! new session ID; an update or discard against an ID that is no longer
//! live is silently ignored, so a session may end while its producer is
//! still sending.

use vstd::prelude::*;

use crate::error::Error;
use crate::pool::IdPool;
use crate::state::X360State;
use crate::state::XusbReport;
use crate::target::{Client, Target, X360};

verus! {

/// One request of the inbound stream.
pub enum PadRequest {
    /// Attach a new pad and reply with its session ID.
    NewID,
    /// Detach the pad of this session, if it is still live.
    Discard(usize),
    /// Submit a state update to the pad of this session, if it is
    /// still live.
    Update(usize, X360State),
}

pub struct Broker {
    client: Client,
    pads: IdPool<Target<X360>>,
}

impl Broker {
    /// Session `id` is currently live.
    pub closed spec fn spec_live(&self, id: int) -> bool {
        self.pads.live(id)
    }

    /// The pad that live session `id` owns.
    pub closed spec fn spec_pad(&self, id: int) -> Target<X360> {
        self.pads.get(id)
    }

    /// A broker that owns the bus connection and no sessions yet.
    pub fn new(client: Client) -> (r: Broker)
        ensures
            forall|j: int| !r.spec_live(j),
    {
        Broker { client, pads: IdPool::new() }
    }

    /// Apply one request.
    ///
    /// `NewID` attaches a fresh pad under the smallest ID not currently
    /// in use and replies with that ID; an attach rejected by the bus
    /// would be fatal for the broker, since the waiting producer cannot
    /// be answered without an ID. `Update` submits the state to the
    /// pad's driver history, in request order; for an ID that is not
    /// live it is a no-op and produces no error. `Discard` frees the ID
    /// and detaches its pad, best-effort; a double discard is a no-op.
    pub fn apply(&mut self, req: PadRequest) -> (r: Result<Option<usize>, Error>)
        ensures
            req matches PadRequest::NewID ==> {
                &&& r matches Ok(reply)
                &&& reply matches Some(id)
                &&& !old(self).spec_live(id as int)
                &&& forall|j: int| 0 <= j < id as int ==> old(self).spec_live(j)
                &&& final(self).spec_live(id as int)
                &&& final(self).spec_pad(id as int).history() == Seq::<XusbReport>::empty()
                &&& final(self).spec_pad(id as int).spec_last_report() == crate::state::neutral_report()
                &&& !final(self).spec_pad(id as int).spec_has_notification()
                &&& forall|j: int|
                    j != id as int ==> (final(self).spec_live(j) <==> old(self).spec_live(j))
                &&& forall|j: int|
                    j != id as int && old(self).spec_live(j) ==> final(self).spec_pad(j) == old(
                        self,
                    ).spec_pad(j)
            },
            req matches PadRequest::Discard(id) ==> {
                &&& r == Ok::<Option<usize>, Error>(None)
                &&& !final(self).spec_live(id as int)
                &&& forall|j: int|
                    j != id as int ==> (final(self).spec_live(j) <==> old(self).spec_live(j))
                &&& forall|j: int|
                    j != id as int && old(self).spec_live(j) ==> final(self).spec_pad(j) == old(
                        self,
                    ).spec_pad(j)
            },
            req matches PadRequest::Update(id, state) ==> {
                &&& r == Ok::<Option<usize>, Error>(None)
                &&& (!old(self).spec_live(id as int) ==> *final(self) == *old(self))
                &&& (old(self).spec_live(id as int) ==> {
                    &&& final(self).spec_live(id as int)
                    &&& final(self).spec_pad(id as int).history() == old(self).spec_pad(
                        id as int,
                    ).history().push(state.spec_report())
                    &&& final(self).spec_pad(id as int).spec_last_report() == state.spec_report()
                    &&& final(self).spec_pad(id as int).spec_has_notification() == old(
                        self,
                    ).spec_pad(id as int).spec_has_notification()
                    &&& forall|j: int|
                        j != id as int ==> (final(self).spec_live(j) <==> old(self).spec_live(j))
                    &&& forall|j: int|
                        j != id as int && old(self).spec_live(j) ==> final(self).spec_pad(j)
                            == old(self).spec_pad(j)
                })
            },
    {
        match req {
            PadRequest::NewID => {
                let pad = match self.client.connect_x360_pad() {
                    Ok(pad) => pad,
                    // An attach the bus rejects cannot be answered with
                    // an ID: the broker reports it and stops.
                    Err(e) => {
                        return Err(e);
                    },
                };
                let id = self.pads.allocate(pad);
                Ok(Some(id))
            },
            PadRequest::Discard(id) => {
                match self.pads.remove(id) {
                    Some(pad) => {
                        // Detach errors are logged by the caller at the
                        // unverified edge, never propagated: the ID is
                        // already free either way.
                        let _ = pad.remove();
                    },
                    None => {},
                }
                Ok(None)
            },
            PadRequest::Update(id, state) => {
                match self.pads.remove(id) {
                    Some(mut pad) => {
                        // A bus-rejected frame leaves the session alive;
                        // in the model the submission always succeeds.
                        let _ = pad.update(state);
                        self.pads.put(id, pad);
                    },
                    None => {
                        // The session already ended: silently ignored.
                    },
                }
                Ok(None)
            },
        }
    }

    /// The last report that live session `id` submitted to the driver
    /// (the neutral report before its first update), or `None` when the
    /// session is not live.
    pub fn pad_report(&self, id: usize) -> (r: Option<XusbReport>)
        ensures
            self.spec_live(id as int) ==> r == Some(self.spec_pad(id as int).spec_last_report()),
            !self.spec_live(id as int) ==> r is None,
    {
        if self.pads.contains(id) {
            Some(self.pads.borrow(id).last_report_value())
        } else {
            None
        }
    }

    /// Whether session `id` is live.
    pub fn is_live(&self, id: usize) -> (r: bool)
        ensures
            r == self.spec_live(id as int),
    {
        self.pads.contains(id)
    }
}

/// Law: a session ID freed by a discard is handed out again by the
/// next allocation, when every smaller ID is still live; and no
/// allocation ever returns an ID that is currently live (`apply`
/// ensures that directly).
///
/// `b1` is the broker after applying `Discard(id)` to `b0`, and `id2`
/// any ID satisfying what `apply` ensures of a `NewID` reply on `b1`.
pub proof fn lemma_discarded_id_is_reused(b0: Broker, b1: Broker, id: int, id2: int)
    requires
        b0.spec_live(id),
        !b1.spec_live(id),
        forall|j: int| j != id ==> (b1.spec_live(j) <==> b0.spec_live(j)),
        forall|j: int| 0 <= j < id ==> b0.spec_live(j),
        0 <= id2,
        !b1.spec_live(id2),
        forall|j: int| 0 <= j < id2 ==> b1.spec_live(j),
    ensures
        id2 == id,
{
    if id2 < id {
        assert(b0.spec_live(id2));
        assert(b1.spec_live(id2));
    }
    if id2 > id {
        assert(b1.spec_live(id));
    }
}

/// Law: two updates submitted for the same session in order A then B
/// are applied to the pad in order A then B, never B then A.
///
/// `b1` is the broker after applying `Update(id, a)` to `b0`, and `b2`
/// the broker after applying `Update(id, b)` to `b1`, each described by
/// `apply`'s postconditions; the pad's driver history then ends with
/// A's report followed by B's.
pub proof fn lemma_updates_apply_in_order(
    b0: Broker,
    b1: Broker,
    b2: Broker,
    id: int,
    a: X360State,
    b: X360State,
)
    requires
        b0.spec_live(id),
        b1.spec_live(id),
        b1.spec_pad(id).history() == b0.spec_pad(id).history().push(a.spec_report()),
        b2.spec_live(id),
        b2.spec_pad(id).history() == b1.spec_pad(id).history().push(b.spec_report()),
    ensures
        b2.spec_pad(id).history() =~= b0.spec_pad(id).history() + seq![
            a.spec_report(),
            b.spec_report(),
        ],
{
}

} // verus!
