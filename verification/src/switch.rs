//! The switching state machine: decides, for every captured event, which
//! machine receives it.
//!
//! Target `0` is the local machine; target `t > 0` is the client in registry
//! slot `t - 1`.  A configured chord of keys (`switch_keys`) rotates through
//! the existing targets; further chords (`goto_keys`) jump to a fixed target,
//! are scanned in insertion order, and win over the rotation.  After a jump
//! or rotation the machine keeps routing chord events to the pre-switch
//! target until every chord key has been released, so key-downs and key-ups
//! land on the same machine.

use vstd::prelude::*;

use crate::clients::{occupied_count, spec_target_exists, ClientRegistry, ClientSlot};
use crate::event::Event;
use crate::key::Key;
use crate::keyset::KeySet;
use crate::sync::SyncEvent;

verus! {

/// One direct-jump chord and its target.
pub struct GotoEntry {
    pub keys: KeySet,
    pub target: usize,
}

/// The switching state.
pub struct SwitchState {
    /// The active target.
    pub current: usize,
    /// The target before the last switch; chord key-ups drain there.
    pub previous: usize,
    /// True from a switch until the chord is fully released.
    pub changed: bool,
    /// The chord keys currently held.
    pub pressed: KeySet,
    /// The rotation chord.
    pub switch_keys: KeySet,
    /// The direct-jump chords, in insertion order.
    pub goto_keys: Vec<GotoEntry>,
    /// Union of the rotation chord and every jump chord.
    pub all_switch_keys: KeySet,
    /// Whether chord events are still delivered to the routed target.
    pub propagate_switch_keys: bool,
}

/// The mathematical image of the switching state.
pub struct SwitchView {
    pub current: int,
    pub previous: int,
    pub changed: bool,
    pub pressed: Set<Key>,
    pub switch_keys: Set<Key>,
    pub goto_keys: Seq<(Set<Key>, int)>,
    pub all_switch_keys: Set<Key>,
    pub propagate_switch_keys: bool,
}

impl View for SwitchState {
    type V = SwitchView;

    open spec fn view(&self) -> SwitchView {
        SwitchView {
            current: self.current as int,
            previous: self.previous as int,
            changed: self.changed,
            pressed: self.pressed@,
            switch_keys: self.switch_keys@,
            goto_keys: self.goto_keys@.map_values(|e: GotoEntry| (e.keys@, e.target as int)),
            all_switch_keys: self.all_switch_keys@,
            propagate_switch_keys: self.propagate_switch_keys,
        }
    }
}

/// Internal soundness of the switching state: held keys are chord keys, the
/// chords are non-empty subsets of their union, and the drain mark can only
/// stand while part of a chord is held.
pub open spec fn switch_wf(s: SwitchView) -> bool {
    &&& s.pressed.subset_of(s.all_switch_keys)
    &&& s.switch_keys.subset_of(s.all_switch_keys)
    &&& s.switch_keys != Set::<Key>::empty()
    &&& forall|i: int|
        0 <= i < s.goto_keys.len() ==> (#[trigger] s.goto_keys[i]).0.subset_of(
            s.all_switch_keys,
        )
    &&& forall|i: int|
        0 <= i < s.goto_keys.len() ==> (#[trigger] s.goto_keys[i]).0 != Set::<Key>::empty()
    &&& forall|i: int| 0 <= i < s.goto_keys.len() ==> (#[trigger] s.goto_keys[i]).1 >= 0
    &&& s.changed ==> s.pressed != Set::<Key>::empty()
    &&& s.current >= 0
    &&& s.previous >= 0
}

/// Whether the event presses or releases a chord key.
pub open spec fn spec_press(s: SwitchView, ev: Event) -> bool {
    ev matches Event::Key(ke) && s.all_switch_keys.contains(ke.key)
}

/// The held chord keys after the event.
pub open spec fn spec_pressed_after(s: SwitchView, ev: Event) -> Set<Key> {
    match ev {
        Event::Key(ke) => if s.all_switch_keys.contains(ke.key) {
            if ke.down {
                s.pressed.insert(ke.key)
            } else {
                s.pressed.remove(ke.key)
            }
        } else {
            s.pressed
        },
        _ => s.pressed,
    }
}

/// The target of the first jump chord, from position `i` on, that is fully
/// held and whose target exists.
pub open spec fn spec_goto_from(
    gotos: Seq<(Set<Key>, int)>,
    pressed: Set<Key>,
    clients: Seq<ClientSlot>,
    i: int,
) -> Option<int>
    decreases gotos.len() - i,
{
    if i < 0 || i >= gotos.len() {
        None
    } else if spec_target_exists(clients, gotos[i].1) && gotos[i].0.subset_of(pressed) {
        Some(gotos[i].1)
    } else {
        spec_goto_from(gotos, pressed, clients, i + 1)
    }
}

/// One or more rotation steps from `cur`: step to the next index modulo one
/// past the allocated slot count, until the target exists.  The local
/// machine, target `0`, always exists, so the walk never needs more fuel
/// than one full cycle.
pub open spec fn spec_rotate_from(cur: int, clients: Seq<ClientSlot>, fuel: nat) -> int
    decreases fuel,
{
    if fuel == 0 {
        0
    } else {
        let next = (cur + 1) % (occupied_count(clients) + 1) as int;
        if spec_target_exists(clients, next) {
            next
        } else {
            spec_rotate_from(next, clients, (fuel - 1) as nat)
        }
    }
}

/// Where the rotation chord moves `cur`.
pub open spec fn spec_rotate(cur: int, clients: Seq<ClientSlot>) -> int {
    spec_rotate_from(cur, clients, (occupied_count(clients) + 1) as nat)
}

/// The target a switch in this step would select: the first matching jump
/// chord, or the rotation when the rotation chord is fully held.  `None`
/// when the event switches nothing.
pub open spec fn spec_switch_target(
    s: SwitchView,
    clients: Seq<ClientSlot>,
    ev: Event,
) -> Option<int> {
    if !spec_press(s, ev) || s.changed {
        None
    } else {
        let pressed = spec_pressed_after(s, ev);
        match spec_goto_from(s.goto_keys, pressed, clients, 0) {
            Some(t) => Some(t),
            None => if s.switch_keys.subset_of(pressed) {
                Some(spec_rotate(s.current, clients))
            } else {
                None
            },
        }
    }
}

/// The switching state after processing one event.
pub open spec fn spec_step(s: SwitchView, clients: Seq<ClientSlot>, ev: Event) -> SwitchView {
    if !spec_press(s, ev) {
        s
    } else {
        let pressed = spec_pressed_after(s, ev);
        if s.changed {
            SwitchView { pressed, changed: pressed != Set::<Key>::empty(), ..s }
        } else {
            match spec_switch_target(s, clients, ev) {
                Some(t) => SwitchView {
                    current: t,
                    previous: s.current,
                    changed: true,
                    pressed,
                    ..s
                },
                None => SwitchView { pressed, ..s },
            }
        }
    }
}

/// Where the event is delivered: to the pre-switch target while a chord is
/// draining, and to the active target otherwise.  A switch in this very step
/// keeps the event on the old target.
pub open spec fn spec_route_target(s: SwitchView, ev: Event) -> int {
    if spec_press(s, ev) && s.changed {
        s.previous
    } else {
        s.current
    }
}

/// Whether the event is swallowed: it is a chord event and chord events are
/// not propagated.
pub open spec fn spec_discards(s: SwitchView, ev: Event) -> bool {
    spec_press(s, ev) && !s.propagate_switch_keys
}

/// The routing decision for one event.
pub enum Route {
    /// The event is a chord event and chord propagation is off: deliver
    /// nothing.
    Discard,
    /// Deliver `events` to `target` (`0` the local machine, `t > 0` the
    /// client in slot `t - 1`).  A delivered chord event carries a trailing
    /// synchronization barrier so downstream writers commit across the
    /// switch boundary.
    Deliver { target: usize, events: Vec<Event> },
}

impl SwitchState {
    /// A fresh state routing to the local machine, with the given chords.
    pub fn new(
        switch_keys: KeySet,
        goto_keys: Vec<GotoEntry>,
        propagate_switch_keys: bool,
    ) -> (r: SwitchState)
        requires
            switch_keys@ != Set::<Key>::empty(),
            forall|i: int|
                0 <= i < goto_keys@.len() ==> (#[trigger] goto_keys@[i]).keys@
                    != Set::<Key>::empty(),
        ensures
            switch_wf(r@),
            r@.current == 0,
            r@.previous == 0,
            r@.changed == false,
            r@.pressed == Set::<Key>::empty(),
            r@.switch_keys == switch_keys@,
            r@.propagate_switch_keys == propagate_switch_keys,
            r@.goto_keys == goto_keys@.map_values(|e: GotoEntry| (e.keys@, e.target as int)),
            r@.all_switch_keys == switch_keys@.union(
                goto_combo_union(goto_keys@.map_values(|e: GotoEntry| (e.keys@, e.target as int))),
            ),
    {
        let mut all = KeySet::new();
        all.extend(&switch_keys);
        let mut i: usize = 0;
        while i < goto_keys.len()
            invariant
                i <= goto_keys@.len(),
                all@ == switch_keys@.union(
                    goto_combo_union_upto(
                        goto_keys@.map_values(|e: GotoEntry| (e.keys@, e.target as int)),
                        i as int,
                    ),
                ),
            decreases goto_keys.len() - i,
        {
            all.extend(&goto_keys[i].keys);
            proof {
                assert(all@ =~= switch_keys@.union(
                    goto_combo_union_upto(
                        goto_keys@.map_values(|e: GotoEntry| (e.keys@, e.target as int)),
                        i + 1,
                    ),
                ));
            }
            i += 1;
        }
        let r = SwitchState {
            current: 0,
            previous: 0,
            changed: false,
            pressed: KeySet::new(),
            switch_keys,
            goto_keys,
            all_switch_keys: all,
            propagate_switch_keys,
        };
        proof {
            let gv = r.goto_keys@.map_values(|e: GotoEntry| (e.keys@, e.target as int));
            assert forall|j: int| 0 <= j < gv.len() implies (#[trigger] gv[j]).0.subset_of(r@.all_switch_keys) by {
                lemma_goto_combo_union_upto_contains(gv, j);
            }
            assert(r@.switch_keys.subset_of(r@.all_switch_keys));
            assert(goto_combo_union_upto(gv, gv.len() as int) == goto_combo_union(gv));
        }
        r
    }

    /// Process one captured event: update the held-chord set, switch the
    /// active target when a chord completed, and say where (and whether) the
    /// event is delivered.
    ///
    /// The state moves exactly as `spec_step` says; a switch never happens
    /// while a chord is draining; the chosen target always exists; and the
    /// decision follows the propagation flag and `spec_route_target`.
    pub fn on_event(&mut self, clients: &ClientRegistry, event: &Event) -> (r: Route)
        requires
            switch_wf(old(self)@),
            clients.wf(),
            clients.slots@.len() < usize::MAX,
            spec_target_exists(clients.slots@, old(self)@.current),
        ensures
            final(self)@ == spec_step(old(self)@, clients.slots@, *event),
            switch_wf(final(self)@),
            spec_target_exists(clients.slots@, final(self)@.current),
            spec_discards(old(self)@, *event) ==> r is Discard,
            !spec_discards(old(self)@, *event) ==> (r matches Route::Deliver { target, events }
                && target as int == spec_route_target(old(self)@, *event)
                && events@ == (if spec_press(old(self)@, *event) {
                    seq![*event, Event::Sync(SyncEvent::All)]
                } else {
                    seq![*event]
                })),
    {
        let ghost s0 = self@;
        let ev = *event;
        let mut press = false;
        if let Event::Key(ke) = ev {
            if self.all_switch_keys.contains(ke.key) {
                press = true;
                if ke.down {
                    self.pressed.insert(ke.key);
                } else {
                    self.pressed.remove(ke.key);
                }
            }
        }
        proof {
            assert(press == spec_press(s0, ev));
            assert(self.pressed@ == spec_pressed_after(s0, ev));
        }

        let mut target = self.current;
        if press {
            if self.changed {
                target = self.previous;
                if self.pressed.is_empty() {
                    self.changed = false;
                }
            } else {
                let goto = self.find_goto_target(clients);
                match goto {
                    Some(t) => {
                        self.previous = self.current;
                        self.current = t;
                        self.changed = true;
                    },
                    None => {
                        if self.switch_keys.is_subset_of(&self.pressed) {
                            let n = clients.occupied_len();
                            proof {
                                crate::clients::lemma_occupied_count_le_len(clients.slots@);
                            }
                            let next = Self::rotate(self.current, clients, n, n + 1);
                            proof {
                                lemma_rotate_reaches_existing(
                                    self.current as int,
                                    clients.slots@,
                                    (n + 1) as nat,
                                );
                            }
                            self.previous = self.current;
                            self.current = next;
                            self.changed = true;
                        }
                    },
                }
            }
        }

        proof {
            assert(self@ == spec_step(s0, clients.slots@, ev));
            lemma_step_wf(s0, clients.slots@, ev);
        }

        if press && !self.propagate_switch_keys {
            return Route::Discard;
        }
        let mut events: Vec<Event> = Vec::new();
        events.push(ev);
        if press {
            events.push(Event::Sync(SyncEvent::All));
            proof {
                assert(events@ =~= seq![ev, Event::Sync(SyncEvent::All)]);
            }
        }
        Route::Deliver { target, events }
    }

    /// The first fully-held jump chord whose target exists, by insertion
    /// order.
    #[verifier::loop_isolation(false)]
    fn find_goto_target(&self, clients: &ClientRegistry) -> (r: Option<usize>)
        requires
            forall|i: int|
                0 <= i < self@.goto_keys.len() ==> (#[trigger] self@.goto_keys[i]).1 >= 0,
        ensures
            match r {
                Some(t) => Some(t as int) == spec_goto_from(
                    self@.goto_keys,
                    self.pressed@,
                    clients.slots@,
                    0,
                ),
                None => spec_goto_from(self@.goto_keys, self.pressed@, clients.slots@, 0)
                    is None,
            },
    {
        let ghost gotos = self@.goto_keys;
        let mut i: usize = 0;
        while i < self.goto_keys.len()
            invariant
                i <= self.goto_keys@.len(),
                forall|j: int|
                    0 <= j < i ==> !(spec_target_exists(clients.slots@, (#[trigger] gotos[j]).1)
                        && gotos[j].0.subset_of(self.pressed@)),
            decreases self.goto_keys.len() - i,
        {
            let entry = &self.goto_keys[i];
            proof {
                assert(gotos[i as int] == (entry.keys@, entry.target as int));
            }
            if clients.target_exists(entry.target) && entry.keys.is_subset_of(&self.pressed) {
                proof {
                    lemma_goto_from_skip(gotos, self.pressed@, clients.slots@, i as int);
                }
                return Some(entry.target);
            }
            i += 1;
        }
        proof {
            lemma_goto_from_skip(gotos, self.pressed@, clients.slots@, self.goto_keys@.len() as int);
        }
        None
    }

    /// One or more rotation steps; mirrors `spec_rotate_from`.
    fn rotate(cur: usize, clients: &ClientRegistry, n: usize, fuel: usize) -> (r: usize)
        requires
            n == occupied_count(clients.slots@),
            n < usize::MAX,
            cur < usize::MAX,
        ensures
            r as int == spec_rotate_from(cur as int, clients.slots@, fuel as nat),
            r <= n,
        decreases fuel,
    {
        if fuel == 0 {
            0
        } else {
            let next = (cur + 1) % (n + 1);
            if clients.target_exists(next) {
                next
            } else {
                Self::rotate(next, clients, n, fuel - 1)
            }
        }
    }
}

/// The union of every jump chord before position `i`.
pub open spec fn goto_combo_union_upto(gotos: Seq<(Set<Key>, int)>, i: int) -> Set<Key>
    decreases i,
{
    if i <= 0 {
        Set::empty()
    } else {
        goto_combo_union_upto(gotos, i - 1).union(gotos[i - 1].0)
    }
}

/// The union of every jump chord.
pub open spec fn goto_combo_union(gotos: Seq<(Set<Key>, int)>) -> Set<Key> {
    goto_combo_union_upto(gotos, gotos.len() as int)
}

/// Every chord is inside the union of chords up to any later position.
proof fn lemma_goto_combo_union_upto_contains(gotos: Seq<(Set<Key>, int)>, j: int)
    requires
        0 <= j < gotos.len(),
    ensures
        gotos[j].0.subset_of(goto_combo_union_upto(gotos, gotos.len() as int)),
    decreases gotos.len(),
{
    lemma_goto_combo_union_upto_monotone(gotos, j + 1, gotos.len() as int);
}

/// The chord union only grows with its bound.
proof fn lemma_goto_combo_union_upto_monotone(gotos: Seq<(Set<Key>, int)>, i: int, j: int)
    requires
        0 <= i <= j,
    ensures
        goto_combo_union_upto(gotos, i).subset_of(goto_combo_union_upto(gotos, j)),
    decreases j - i,
{
    if i < j {
        lemma_goto_combo_union_upto_monotone(gotos, i, j - 1);
    }
}

/// Skipping over positions that match nothing does not change the scan.
proof fn lemma_goto_from_skip(
    gotos: Seq<(Set<Key>, int)>,
    pressed: Set<Key>,
    clients: Seq<ClientSlot>,
    i: int,
)
    requires
        0 <= i <= gotos.len(),
        forall|j: int|
            0 <= j < i ==> !(spec_target_exists(clients, (#[trigger] gotos[j]).1)
                && gotos[j].0.subset_of(pressed)),
    ensures
        spec_goto_from(gotos, pressed, clients, 0) == spec_goto_from(gotos, pressed, clients, i),
    decreases i,
{
    if i > 0 {
        lemma_goto_from_skip(gotos, pressed, clients, i - 1);
    }
}

/// A set other than the empty set has a member.
proof fn lemma_nonempty_has_member<A>(s: Set<A>)
    requires
        s != Set::<A>::empty(),
    ensures
        exists|x: A| s.contains(x),
{
    if !(exists|x: A| s.contains(x)) {
        assert(s =~= Set::empty());
    }
}

/// A successful jump scan returns the target of some fully-held chord that
/// exists.
proof fn lemma_goto_from_props(
    gotos: Seq<(Set<Key>, int)>,
    pressed: Set<Key>,
    clients: Seq<ClientSlot>,
    i: int,
)
    ensures
        spec_goto_from(gotos, pressed, clients, i) matches Some(t) ==> exists|j: int|
            i <= j < gotos.len() && (#[trigger] gotos[j]).1 == t && gotos[j].0.subset_of(pressed)
                && spec_target_exists(clients, t),
    decreases gotos.len() - i,
{
    if i < 0 || i >= gotos.len() {
    } else if spec_target_exists(clients, gotos[i].1) && gotos[i].0.subset_of(pressed) {
        assert(i <= i < gotos.len() && gotos[i].1 == gotos[i].1
            && gotos[i].0.subset_of(pressed) && spec_target_exists(clients, gotos[i].1));
    } else {
        lemma_goto_from_props(gotos, pressed, clients, i + 1);
    }
}

/// One step of the machine keeps it sound, and keeps the active target
/// existing.
pub proof fn lemma_step_wf(s: SwitchView, clients: Seq<ClientSlot>, ev: Event)
    requires
        switch_wf(s),
        spec_target_exists(clients, s.current),
    ensures
        switch_wf(spec_step(s, clients, ev)),
        spec_target_exists(clients, spec_step(s, clients, ev).current),
{
    let s2 = spec_step(s, clients, ev);
    let pressed = spec_pressed_after(s, ev);
    if spec_press(s, ev) {
        assert(pressed.subset_of(s.all_switch_keys));
        if !s.changed {
            match spec_switch_target(s, clients, ev) {
                Some(t) => {
                    match spec_goto_from(s.goto_keys, pressed, clients, 0) {
                        Some(g) => {
                            lemma_goto_from_props(s.goto_keys, pressed, clients, 0);
                            let j = choose|j: int|
                                0 <= j < s.goto_keys.len() && (#[trigger] s.goto_keys[j]).1 == g
                                    && s.goto_keys[j].0.subset_of(pressed)
                                    && spec_target_exists(clients, g);
                            lemma_nonempty_has_member(s.goto_keys[j].0);
                            let x = choose|x: Key| s.goto_keys[j].0.contains(x);
                            assert(pressed.contains(x));
                        },
                        None => {
                            lemma_nonempty_has_member(s.switch_keys);
                            let x = choose|x: Key| s.switch_keys.contains(x);
                            assert(pressed.contains(x));
                            lemma_rotate_reaches_existing(
                                s.current,
                                clients,
                                (occupied_count(clients) + 1) as nat,
                            );
                        },
                    }
                },
                None => {},
            }
        }
    }
}

/// With enough fuel the rotation lands on an existing target: the local
/// machine, target `0`, comes up within one full cycle and always exists.
proof fn lemma_rotate_reaches_existing(cur: int, clients: Seq<ClientSlot>, fuel: nat)
    requires
        cur >= 0,
        fuel >= occupied_count(clients) + 1 - (cur % ((occupied_count(clients) + 1) as int)),
    ensures
        spec_target_exists(clients, spec_rotate_from(cur, clients, fuel)),
    decreases fuel,
{
    let m = occupied_count(clients) + 1;
    vstd::arithmetic::div_mod::lemma_fundamental_div_mod(cur, m as int);
    let next = (cur + 1) % (m as int);
    if cur % (m as int) == m - 1 {
        assert(cur + 1 == (m as int) * (cur / (m as int)) + (m as int));
        assert((m as int) * (cur / (m as int)) + (m as int) == (m as int) * (cur / (m as int) + 1))
            by (nonlinear_arith);
        vstd::arithmetic::div_mod::lemma_mod_multiples_basic(cur / (m as int) + 1, m as int);
        assert(next == 0);
    } else {
        vstd::arithmetic::div_mod::lemma_fundamental_div_mod_converse(
            cur + 1,
            m as int,
            cur / (m as int),
            cur % (m as int) + 1,
        );
        assert(next == cur % (m as int) + 1);
        if !spec_target_exists(clients, next) {
            vstd::arithmetic::div_mod::lemma_small_mod(next as nat, m);
            lemma_rotate_reaches_existing(next, clients, (fuel - 1) as nat);
        }
    }
}

/// The state after a whole sequence of events.
pub open spec fn spec_run(s: SwitchView, clients: Seq<ClientSlot>, evs: Seq<Event>) -> SwitchView
    decreases evs.len(),
{
    if evs.len() == 0 {
        s
    } else {
        spec_run(spec_step(s, clients, evs[0]), clients, evs.drop_first())
    }
}

/// The state after the first `i` events.
pub open spec fn spec_state_at(
    s: SwitchView,
    clients: Seq<ClientSlot>,
    evs: Seq<Event>,
    i: int,
) -> SwitchView {
    spec_run(s, clients, evs.take(i))
}

/// Appending one event to a run is one more step.
proof fn lemma_run_push(s: SwitchView, clients: Seq<ClientSlot>, evs: Seq<Event>, ev: Event)
    ensures
        spec_run(s, clients, evs.push(ev)) == spec_step(spec_run(s, clients, evs), clients, ev),
    decreases evs.len(),
{
    if evs.len() == 0 {
        assert(evs.push(ev).drop_first() =~= evs);
        assert(evs.push(ev)[0] == ev);
        assert(spec_run(s, clients, evs.push(ev)) == spec_run(
            spec_step(s, clients, ev),
            clients,
            evs,
        ));
        assert(spec_run(spec_step(s, clients, ev), clients, evs) == spec_step(
            spec_run(s, clients, evs),
            clients,
            ev,
        ));
    } else {
        assert(evs.push(ev).drop_first() =~= evs.drop_first().push(ev));
        assert(evs.push(ev)[0] == evs[0]);
        assert(spec_run(s, clients, evs.push(ev)) == spec_run(
            spec_step(s, clients, evs[0]),
            clients,
            evs.drop_first().push(ev),
        ));
        lemma_run_push(spec_step(s, clients, evs[0]), clients, evs.drop_first(), ev);
    }
}

/// The state after `i + 1` events is one step past the state after `i`.
proof fn lemma_state_at_step(s: SwitchView, clients: Seq<ClientSlot>, evs: Seq<Event>, i: int)
    requires
        0 <= i < evs.len(),
    ensures
        spec_state_at(s, clients, evs, i + 1) == spec_step(
            spec_state_at(s, clients, evs, i),
            clients,
            evs[i],
        ),
{
    assert(evs.take(i + 1) =~= evs.take(i).push(evs[i]));
    lemma_run_push(s, clients, evs.take(i), evs[i]);
}

/// While the machine drains a chord, a step moves neither the active nor
/// the pre-switch target, and the drain goes on unless the chord is now
/// fully released.
proof fn lemma_step_frozen(s: SwitchView, clients: Seq<ClientSlot>, ev: Event)
    requires
        switch_wf(s),
        s.changed,
    ensures
        spec_step(s, clients, ev).current == s.current,
        spec_step(s, clients, ev).previous == s.previous,
        spec_pressed_after(s, ev) != Set::<Key>::empty() ==> spec_step(s, clients, ev).changed,
{
}

/// A step that moves the active target is a switch: it happens only outside
/// a drain, starts one, and remembers the old target.
pub proof fn lemma_step_switch_marks(s: SwitchView, clients: Seq<ClientSlot>, ev: Event)
    ensures
        spec_step(s, clients, ev).current != s.current ==> (!s.changed && spec_step(
            s,
            clients,
            ev,
        ).changed && spec_step(s, clients, ev).previous == s.current),
{
}

/// Soundness holds at every point of a run.
pub proof fn lemma_run_wf(s: SwitchView, clients: Seq<ClientSlot>, evs: Seq<Event>, i: int)
    requires
        switch_wf(s),
        spec_target_exists(clients, s.current),
        0 <= i <= evs.len(),
    ensures
        switch_wf(spec_state_at(s, clients, evs, i)),
        spec_target_exists(clients, spec_state_at(s, clients, evs, i).current),
    decreases i,
{
    if i == 0 {
        assert(evs.take(0) =~= Seq::<Event>::empty());
    } else {
        lemma_run_wf(s, clients, evs, i - 1);
        lemma_state_at_step(s, clients, evs, i - 1);
        lemma_step_wf(spec_state_at(s, clients, evs, i - 1), clients, evs[i - 1]);
    }
}

/// As long as part of the chord stays held, a drain keeps the active and
/// pre-switch targets pinned.
proof fn lemma_drain_pins_targets(
    s: SwitchView,
    clients: Seq<ClientSlot>,
    evs: Seq<Event>,
    i: int,
    j: int,
)
    requires
        switch_wf(s),
        spec_target_exists(clients, s.current),
        0 <= i <= j <= evs.len(),
        spec_state_at(s, clients, evs, i).changed,
        forall|m: int|
            i < m <= j ==> (#[trigger] spec_state_at(s, clients, evs, m)).pressed
                != Set::<Key>::empty(),
    ensures
        spec_state_at(s, clients, evs, j).changed,
        spec_state_at(s, clients, evs, j).current == spec_state_at(s, clients, evs, i).current,
        spec_state_at(s, clients, evs, j).previous == spec_state_at(s, clients, evs, i).previous,
    decreases j - i,
{
    if i < j {
        let si = spec_state_at(s, clients, evs, i);
        lemma_run_wf(s, clients, evs, i);
        lemma_state_at_step(s, clients, evs, i);
        lemma_step_frozen(si, clients, evs[i]);
        assert(spec_state_at(s, clients, evs, i + 1).pressed != Set::<Key>::empty());
        assert(spec_state_at(s, clients, evs, i + 1).pressed == spec_pressed_after(si, evs[i]))
            by {
            if !spec_press(si, evs[i]) {
            }
        };
        lemma_drain_pins_targets(s, clients, evs, i + 1, j);
    }
}

/// Between any two moments at which no chord key is held, the active target
/// changes at most once: two switches, at steps `i` and `j`, force a moment
/// strictly between them with the chord fully released.
pub proof fn lemma_at_most_one_switch(
    s: SwitchView,
    clients: Seq<ClientSlot>,
    evs: Seq<Event>,
    i: int,
    j: int,
)
    requires
        switch_wf(s),
        spec_target_exists(clients, s.current),
        0 <= i < j < evs.len(),
        spec_state_at(s, clients, evs, i + 1).current != spec_state_at(
            s,
            clients,
            evs,
            i,
        ).current,
        spec_state_at(s, clients, evs, j + 1).current != spec_state_at(
            s,
            clients,
            evs,
            j,
        ).current,
    ensures
        exists|m: int|
            i < m <= j && (#[trigger] spec_state_at(s, clients, evs, m)).pressed == Set::<
                Key,
            >::empty(),
{
    if !(exists|m: int|
        i < m <= j && (#[trigger] spec_state_at(s, clients, evs, m)).pressed == Set::<
            Key,
        >::empty()) {
        lemma_state_at_step(s, clients, evs, i);
        lemma_step_switch_marks(spec_state_at(s, clients, evs, i), clients, evs[i]);
        lemma_drain_pins_targets(s, clients, evs, i + 1, j);
        lemma_run_wf(s, clients, evs, j);
        lemma_state_at_step(s, clients, evs, j);
        lemma_step_frozen(spec_state_at(s, clients, evs, j), clients, evs[j]);
        assert(false);
    }
}

/// After a switch at step `i`, while part of the chord stays held, every
/// chord event is routed to the pre-switch target — the machine that saw
/// the chord go down — and not to the new one.
pub proof fn lemma_keyups_drain_to_pre_switch_target(
    s: SwitchView,
    clients: Seq<ClientSlot>,
    evs: Seq<Event>,
    i: int,
    m: int,
)
    requires
        switch_wf(s),
        spec_target_exists(clients, s.current),
        0 <= i < m < evs.len(),
        spec_state_at(s, clients, evs, i + 1).current != spec_state_at(
            s,
            clients,
            evs,
            i,
        ).current,
        forall|k: int|
            i < k <= m ==> (#[trigger] spec_state_at(s, clients, evs, k)).pressed != Set::<
                Key,
            >::empty(),
    ensures
        spec_state_at(s, clients, evs, m).changed,
        spec_press(spec_state_at(s, clients, evs, m), evs[m]) ==> spec_route_target(
            spec_state_at(s, clients, evs, m),
            evs[m],
        ) == spec_state_at(s, clients, evs, i).current,
{
    lemma_state_at_step(s, clients, evs, i);
    lemma_step_switch_marks(spec_state_at(s, clients, evs, i), clients, evs[i]);
    lemma_drain_pins_targets(s, clients, evs, i + 1, m);
}

/// The propagation flag and the routing rule: a chord event is swallowed
/// exactly when propagation is off; when it is on, a switch-press is routed
/// to the pre-switch target, a draining press to the chord's origin, and
/// every other event to the active target.
pub proof fn lemma_propagation_flag(s: SwitchView, clients: Seq<ClientSlot>, ev: Event)
    ensures
        spec_press(s, ev) && !s.propagate_switch_keys ==> spec_discards(s, ev),
        spec_press(s, ev) && s.propagate_switch_keys ==> !spec_discards(s, ev),
        spec_step(s, clients, ev).current != s.current ==> spec_route_target(s, ev) == s.current,
        spec_press(s, ev) && s.changed ==> spec_route_target(s, ev) == s.previous,
        !spec_press(s, ev) ==> !spec_discards(s, ev) && spec_route_target(s, ev) == s.current,
{
}

} // verus!
