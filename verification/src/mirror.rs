//! What a connected client's mirror of the device set looks like.
//!
//! A client starts from the snapshot it received on connection and then
//! applies every update of its stream in order: a `CreateDevice` adds the
//! identifier, a `DestroyDevice` removes it, everything else leaves the
//! mirror alone.  The laws here say that such a mirror tracks the server's
//! registry exactly, and that a destroyed identifier cannot be the subject
//! of an event again before it has been re-announced.

use vstd::prelude::*;

use crate::update::UpdateView;

verus! {

/// The set of device identifiers a client holds after applying `stream` to
/// a mirror that started as `start`.
pub open spec fn mirror_after(start: Set<int>, stream: Seq<UpdateView>) -> Set<int>
    decreases stream.len(),
{
    if stream.len() == 0 {
        start
    } else {
        let rest = mirror_after(start, stream.drop_last());
        match stream.last() {
            UpdateView::CreateDevice { id, .. } => rest.insert(id),
            UpdateView::DestroyDevice { id } => rest.remove(id),
            _ => rest,
        }
    }
}

/// Mirror consistency.  `lives[k]` is the server's set of live device
/// identifiers when the `k`-th update of the stream was emitted; the core
/// emits a `CreateDevice` exactly when it adds that identifier and a
/// `DestroyDevice` exactly when it removes it, and nothing else moves the
/// registry.  Then the client's mirror — its snapshot plus the creations of
/// its stream minus the destructions — equals the server's live set after
/// every prefix.
pub proof fn lemma_mirror_consistency(
    start: Set<int>,
    stream: Seq<UpdateView>,
    lives: Seq<Set<int>>,
    k: int,
)
    requires
        lives.len() == stream.len() + 1,
        lives[0] == start,
        forall|m: int|
            0 <= m < stream.len() ==> lives[m + 1] == (match #[trigger] stream[m] {
                UpdateView::CreateDevice { id, .. } => lives[m].insert(id),
                UpdateView::DestroyDevice { id } => lives[m].remove(id),
                _ => lives[m],
            }),
        0 <= k <= stream.len(),
    ensures
        mirror_after(start, stream.take(k)) == lives[k],
    decreases k,
{
    if k == 0 {
        assert(stream.take(0) =~= Seq::<UpdateView>::empty());
    } else {
        lemma_mirror_consistency(start, stream, lives, k - 1);
        assert(stream.take(k).drop_last() =~= stream.take(k - 1));
        assert(stream.take(k).last() == stream[k - 1]);
    }
}

/// An identifier absent from the mirror stays absent until a
/// `CreateDevice` announces it.
proof fn lemma_absent_stays_absent(
    start: Set<int>,
    stream: Seq<UpdateView>,
    id: int,
    a: int,
    b: int,
)
    requires
        0 <= a <= b <= stream.len(),
        !mirror_after(start, stream.take(a)).contains(id),
        forall|k: int|
            a <= k < b ==> !((#[trigger] stream[k]) matches UpdateView::CreateDevice {
                id: cid,
                ..
            } && cid == id),
    ensures
        !mirror_after(start, stream.take(b)).contains(id),
    decreases b - a,
{
    if a < b {
        assert(stream.take(a + 1).drop_last() =~= stream.take(a));
        assert(stream.take(a + 1).last() == stream[a]);
        lemma_absent_stays_absent(start, stream, id, a + 1, b);
    }
}

/// Identifier non-reuse in flight.  Suppose every event in the stream names
/// an identifier that the mirror holds at that point — which the core
/// guarantees, because it only routes events of live devices and the stream
/// preserves order.  Then after a `DestroyDevice` for `id`, no event for
/// `id` appears until a new `CreateDevice` for `id` has been seen.
pub proof fn lemma_no_stale_events(
    start: Set<int>,
    stream: Seq<UpdateView>,
    id: int,
    i: int,
    j: int,
)
    requires
        forall|k: int|
            0 <= k < stream.len() ==> ((#[trigger] stream[k]) matches UpdateView::Event {
                id: eid,
                ..
            } ==> mirror_after(start, stream.take(k)).contains(eid)),
        0 <= i < j < stream.len(),
        stream[i] == (UpdateView::DestroyDevice { id }),
        stream[j] matches UpdateView::Event { id: eid, .. } && eid == id,
    ensures
        exists|k: int|
            i < k < j && ((#[trigger] stream[k]) matches UpdateView::CreateDevice {
                id: cid,
                ..
            } && cid == id),
{
    if !(exists|k: int|
        i < k < j && ((#[trigger] stream[k]) matches UpdateView::CreateDevice {
            id: cid,
            ..
        } && cid == id)) {
        assert(stream.take(i + 1).drop_last() =~= stream.take(i));
        assert(stream.take(i + 1).last() == stream[i]);
        assert(!mirror_after(start, stream.take(i + 1)).contains(id));
        lemma_absent_stays_absent(start, stream, id, i + 1, j);
        assert(false);
    }
}

} // verus!
