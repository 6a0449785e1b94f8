//! The swipe gesture on an item card: pointer samples become a horizontal drag,
//! the drag arms an action once it passes the threshold, and releasing the
//! pointer commits whatever was armed last.

use crate::item::ItemId;
use vstd::prelude::*;

verus! {

/// Horizontal travel, in pixels, that arms an action.
pub const SWIPE_THRESHOLD: i64 = 80;

/// What a finished swipe does to the item.
#[derive(Clone, Copy, Debug, PartialEq, Eq, Structural)]
pub enum SwipeAction {
    /// Swiped right: the item was eaten.
    Consume,
    /// Swiped left: the item was thrown away.
    Discard,
}

/// A pointer event on the card; positions are horizontal, in pixels.
#[derive(Clone, Copy, Debug, PartialEq, Eq, Structural)]
pub enum PointerEvent {
    Down(i32),
    Move(i32),
    Up,
    Cancel,
    Leave,
}

/// What the card reports to the list that holds it.
#[derive(Clone, Copy, Debug, PartialEq, Eq, Structural)]
pub enum Notification {
    Consume(ItemId),
    Discard(ItemId),
}

/// How the card moves back into place.
#[derive(Clone, Copy, Debug, PartialEq, Eq, Structural)]
pub enum Transition {
    /// While dragging the card follows the pointer with no animation.
    Immediate,
    /// Otherwise it glides back to rest.
    SnapBack,
}

/// The tracking state of one card.
#[derive(Clone, Copy, Debug, PartialEq, Eq, Structural)]
pub struct GestureState {
    pub drag_offset: i64,
    pub start_x: i32,
    pub is_dragging: bool,
    pub pending: Option<SwipeAction>,
}

/// The action that a drag by `offset` pixels arms.
pub open spec fn classify(offset: int) -> Option<SwipeAction> {
    if offset >= SWIPE_THRESHOLD {
        Some(SwipeAction::Consume)
    } else if offset <= -SWIPE_THRESHOLD {
        Some(SwipeAction::Discard)
    } else {
        None
    }
}

/// The state of a card at rest.
pub open spec fn neutral() -> GestureState {
    GestureState { drag_offset: 0, start_x: 0, is_dragging: false, pending: None }
}

/// The armed action agrees with the offset, and a card at rest is neutral.
pub open spec fn well_formed(s: GestureState) -> bool {
    &&& s.pending == classify(s.drag_offset as int)
    &&& !s.is_dragging ==> s == neutral()
}

/// The notification that committing `pending` sends for item `id`.
pub open spec fn commit(id: ItemId, pending: Option<SwipeAction>) -> Option<Notification> {
    match pending {
        Some(SwipeAction::Consume) => Some(Notification::Consume(id)),
        Some(SwipeAction::Discard) => Some(Notification::Discard(id)),
        None => None,
    }
}

/// One event applied to the card of item `id`: the next state, and what is reported.
pub open spec fn step(id: ItemId, s: GestureState, ev: PointerEvent) -> (GestureState, Option<Notification>) {
    match ev {
        PointerEvent::Down(x) => (
            GestureState { drag_offset: 0, start_x: x, is_dragging: true, pending: None },
            None,
        ),
        PointerEvent::Move(x) => if s.is_dragging {
            (
                GestureState {
                    drag_offset: (x - s.start_x) as i64,
                    pending: classify(x - s.start_x),
                    ..s
                },
                None,
            )
        } else {
            (s, None)
        },
        PointerEvent::Up | PointerEvent::Cancel => if s.is_dragging {
            (neutral(), commit(id, s.pending))
        } else {
            (s, None)
        },
        PointerEvent::Leave => if s.is_dragging {
            (neutral(), None)
        } else {
            (s, None)
        },
    }
}

/// The notifications held by an optional one.
pub open spec fn reported(n: Option<Notification>) -> Seq<Notification> {
    match n {
        Some(x) => seq![x],
        None => Seq::empty(),
    }
}

/// A run of events from state `s`: the final state and every notification, in order.
pub open spec fn run(id: ItemId, s: GestureState, evs: Seq<PointerEvent>) -> (GestureState, Seq<Notification>)
    decreases evs.len(),
{
    if evs.len() == 0 {
        (s, Seq::empty())
    } else {
        let (mid, sent) = run(id, s, evs.drop_last());
        let (last, n) = step(id, mid, evs.last());
        (last, sent + reported(n))
    }
}

/// A drag: pointer down at `start`, then a move to each of `moves`.
pub open spec fn drag(start: i32, moves: Seq<i32>) -> Seq<PointerEvent> {
    seq![PointerEvent::Down(start)] + moves.map_values(|x: i32| PointerEvent::Move(x))
}

/// The offset that a drag last recorded.
pub open spec fn final_offset(start: i32, moves: Seq<i32>) -> int {
    if moves.len() == 0 {
        0
    } else {
        moves.last() - start
    }
}

/// The opacity of the action hint, in 80ths: linear in the distance dragged, up to full.
pub open spec fn reveal_of(offset: int) -> int {
    let d = if offset < 0 { -offset } else { offset };
    if d < SWIPE_THRESHOLD { d } else { SWIPE_THRESHOLD as int }
}

/// After a drag the card is dragging, with the offset of the last move armed as it says,
/// and nothing has been reported.
proof fn lemma_drag(id: ItemId, s: GestureState, start: i32, moves: Seq<i32>)
    ensures
        run(id, s, drag(start, moves)) == (
            GestureState {
                drag_offset: final_offset(start, moves) as i64,
                start_x: start,
                is_dragging: true,
                pending: classify(final_offset(start, moves)),
            },
            Seq::<Notification>::empty(),
        ),
    decreases moves.len(),
{
    let evs = drag(start, moves);
    if moves.len() == 0 {
        assert(evs.drop_last() =~= Seq::<PointerEvent>::empty());
        assert(run(id, s, evs.drop_last()) == (s, Seq::<Notification>::empty()));
        assert(Seq::<Notification>::empty() + Seq::<Notification>::empty() =~= Seq::<Notification>::empty());
    } else {
        let rest = moves.drop_last();
        lemma_drag(id, s, start, rest);
        assert(evs.drop_last() =~= drag(start, rest));
        assert(evs.last() == PointerEvent::Move(moves.last()));
        assert(Seq::<Notification>::empty() + Seq::<Notification>::empty() =~= Seq::<Notification>::empty());
    }
}

/// Releasing (or cancelling) a drag that last recorded less than the threshold either
/// way reports nothing and leaves the card neutral.
pub proof fn lemma_short_drag_is_silent(
    id: ItemId,
    s: GestureState,
    start: i32,
    moves: Seq<i32>,
    release: PointerEvent,
)
    requires
        release == PointerEvent::Up || release == PointerEvent::Cancel,
        -SWIPE_THRESHOLD < final_offset(start, moves) < SWIPE_THRESHOLD,
    ensures
        run(id, s, drag(start, moves).push(release)) == (neutral(), Seq::<Notification>::empty()),
{
    lemma_drag(id, s, start, moves);
    assert(drag(start, moves).push(release).drop_last() =~= drag(start, moves));
    assert(Seq::<Notification>::empty() + Seq::<Notification>::empty() =~= Seq::<Notification>::empty());
}

/// Releasing (or cancelling) a drag that last recorded at least the threshold to the
/// right reports exactly one consumption of the card's item and leaves the card neutral.
pub proof fn lemma_right_drag_consumes(
    id: ItemId,
    s: GestureState,
    start: i32,
    moves: Seq<i32>,
    release: PointerEvent,
)
    requires
        release == PointerEvent::Up || release == PointerEvent::Cancel,
        final_offset(start, moves) >= SWIPE_THRESHOLD,
    ensures
        run(id, s, drag(start, moves).push(release)) == (neutral(), seq![Notification::Consume(id)]),
{
    lemma_drag(id, s, start, moves);
    assert(drag(start, moves).push(release).drop_last() =~= drag(start, moves));
    assert(Seq::<Notification>::empty() + seq![Notification::Consume(id)] =~= seq![
        Notification::Consume(id),
    ]);
}

/// Releasing (or cancelling) a drag that last recorded at least the threshold to the
/// left reports exactly one discarding of the card's item and leaves the card neutral.
pub proof fn lemma_left_drag_discards(
    id: ItemId,
    s: GestureState,
    start: i32,
    moves: Seq<i32>,
    release: PointerEvent,
)
    requires
        release == PointerEvent::Up || release == PointerEvent::Cancel,
        final_offset(start, moves) <= -SWIPE_THRESHOLD,
    ensures
        run(id, s, drag(start, moves).push(release)) == (neutral(), seq![Notification::Discard(id)]),
{
    lemma_drag(id, s, start, moves);
    assert(drag(start, moves).push(release).drop_last() =~= drag(start, moves));
    assert(Seq::<Notification>::empty() + seq![Notification::Discard(id)] =~= seq![
        Notification::Discard(id),
    ]);
}

/// The pointer leaving the card in the middle of a drag reports nothing and leaves the
/// card neutral, however far the drag had gone.
pub proof fn lemma_leave_cancels(id: ItemId, s: GestureState, start: i32, moves: Seq<i32>)
    ensures
        run(id, s, drag(start, moves).push(PointerEvent::Leave)) == (
            neutral(),
            Seq::<Notification>::empty(),
        ),
{
    lemma_drag(id, s, start, moves);
    assert(drag(start, moves).push(PointerEvent::Leave).drop_last() =~= drag(start, moves));
    assert(Seq::<Notification>::empty() + Seq::<Notification>::empty() =~= Seq::<Notification>::empty());
}

/// Every run of events from a well-formed state ends in a well-formed state: the armed
/// action always agrees with the offset, and a card at rest is neutral.
pub proof fn lemma_runs_stay_well_formed(id: ItemId, s: GestureState, evs: Seq<PointerEvent>)
    requires
        well_formed(s),
    ensures
        well_formed(run(id, s, evs).0),
    decreases evs.len(),
{
    if evs.len() > 0 {
        lemma_runs_stay_well_formed(id, s, evs.drop_last());
    }
}

/// The hint's opacity never falls as the drag gets longer, equals the distance dragged
/// up to the threshold, and is full beyond it.
pub proof fn lemma_reveal_monotone(a: int, b: int)
    ensures
        (if a < 0 { -a } else { a }) <= (if b < 0 { -b } else { b }) ==> reveal_of(a) <= reveal_of(b),
        -SWIPE_THRESHOLD <= a <= SWIPE_THRESHOLD ==> reveal_of(a) == (if a < 0 { -a } else { a }),
        (a >= SWIPE_THRESHOLD || a <= -SWIPE_THRESHOLD) ==> reveal_of(a) == SWIPE_THRESHOLD,
        0 <= reveal_of(a) <= SWIPE_THRESHOLD,
{
}

/// What a swipe controller holds, as plain values.
pub struct SwipeView {
    pub id: ItemId,
    pub state: GestureState,
}

/// The gesture tracker of one card, bound to the item the card shows.
pub struct SwipeController {
    id: ItemId,
    state: GestureState,
}

impl View for SwipeController {
    type V = SwipeView;

    closed spec fn view(&self) -> SwipeView {
        SwipeView { id: self.id, state: self.state }
    }
}

impl SwipeController {
    #[verifier::type_invariant]
    spec fn consistent(self) -> bool {
        well_formed(self.state)
    }

    /// A controller at rest for the card of item `id`.
    pub fn new(id: ItemId) -> (r: SwipeController)
        ensures
            r@.id == id,
            r@.state == neutral(),
    {
        SwipeController {
            id,
            state: GestureState { drag_offset: 0, start_x: 0, is_dragging: false, pending: None },
        }
    }

    /// The item the card shows.
    pub fn item_id(&self) -> (r: ItemId)
        ensures
            r == self@.id,
    {
        self.id
    }

    /// The current tracking state, which always satisfies `well_formed`.
    pub fn state(&self) -> (r: GestureState)
        ensures
            r == self@.state,
            well_formed(r),
    {
        proof {
            use_type_invariant(self);
        }
        self.state
    }

    /// Applies one pointer event, returning what it reports.
    pub fn handle(&mut self, ev: PointerEvent) -> (r: Option<Notification>)
        ensures
            final(self)@.id == old(self)@.id,
            (final(self)@.state, r) == step(old(self)@.id, old(self)@.state, ev),
    {
        proof {
            use_type_invariant(&*self);
        }
        let rest = GestureState { drag_offset: 0, start_x: 0, is_dragging: false, pending: None };
        match ev {
            PointerEvent::Down(x) => {
                self.state = GestureState { drag_offset: 0, start_x: x, is_dragging: true, pending: None };
                None
            },
            PointerEvent::Move(x) => {
                if self.state.is_dragging {
                    let offset: i64 = x as i64 - self.state.start_x as i64;
                    let pending = if offset >= SWIPE_THRESHOLD {
                        Some(SwipeAction::Consume)
                    } else if offset <= -SWIPE_THRESHOLD {
                        Some(SwipeAction::Discard)
                    } else {
                        None
                    };
                    self.state = GestureState {
                        drag_offset: offset,
                        start_x: self.state.start_x,
                        is_dragging: true,
                        pending,
                    };
                }
                None
            },
            PointerEvent::Up | PointerEvent::Cancel => {
                if self.state.is_dragging {
                    let sent = match self.state.pending {
                        Some(SwipeAction::Consume) => Some(Notification::Consume(self.id)),
                        Some(SwipeAction::Discard) => Some(Notification::Discard(self.id)),
                        None => None,
                    };
                    self.state = rest;
                    sent
                } else {
                    None
                }
            },
            PointerEvent::Leave => {
                if self.state.is_dragging {
                    self.state = rest;
                }
                None
            },
        }
    }

    /// Pointer pressed at `x`: tracking starts (or starts over) from there.
    pub fn pointer_down(&mut self, x: i32)
        ensures
            final(self)@.id == old(self)@.id,
            final(self)@.state == step(old(self)@.id, old(self)@.state, PointerEvent::Down(x)).0,
    {
        self.handle(PointerEvent::Down(x));
    }

    /// Pointer moved to `x`: while dragging, the offset and the armed action follow it.
    pub fn pointer_move(&mut self, x: i32)
        ensures
            final(self)@.id == old(self)@.id,
            final(self)@.state == step(old(self)@.id, old(self)@.state, PointerEvent::Move(x)).0,
    {
        self.handle(PointerEvent::Move(x));
    }

    /// Pointer released: the armed action, if any, is reported and the card comes to rest.
    pub fn pointer_up(&mut self) -> (r: Option<Notification>)
        ensures
            final(self)@.id == old(self)@.id,
            (final(self)@.state, r) == step(old(self)@.id, old(self)@.state, PointerEvent::Up),
    {
        self.handle(PointerEvent::Up)
    }

    /// The platform cancelled the pointer: handled as a release.
    pub fn pointer_cancel(&mut self) -> (r: Option<Notification>)
        ensures
            final(self)@.id == old(self)@.id,
            (final(self)@.state, r) == step(old(self)@.id, old(self)@.state, PointerEvent::Cancel),
    {
        self.handle(PointerEvent::Cancel)
    }

    /// Pointer left the card: any drag is dropped without a report.
    pub fn pointer_leave(&mut self)
        ensures
            final(self)@.id == old(self)@.id,
            final(self)@.state == step(old(self)@.id, old(self)@.state, PointerEvent::Leave).0,
    {
        self.handle(PointerEvent::Leave);
    }

    /// Applies a run of events in order, returning everything they report.
    pub fn handle_all(&mut self, evs: &Vec<PointerEvent>) -> (r: Vec<Notification>)
        ensures
            final(self)@.id == old(self)@.id,
            (final(self)@.state, r@) == run(old(self)@.id, old(self)@.state, evs@),
    {
        let mut sent: Vec<Notification> = Vec::new();
        let mut i: usize = 0;
        while i < evs.len()
            invariant
                0 <= i <= evs@.len(),
                self@.id == old(self)@.id,
                (self@.state, sent@) == run(old(self)@.id, old(self)@.state, evs@.subrange(0, i as int)),
            decreases evs@.len() - i,
        {
            let ghost before = sent@;
            let n = self.handle(evs[i]);
            match n {
                Some(x) => sent.push(x),
                None => {},
            }
            proof {
                assert(evs@.subrange(0, i + 1).drop_last() =~= evs@.subrange(0, i as int));
                assert(sent@ =~= before + reported(n));
            }
            i += 1;
        }
        proof {
            assert(evs@.subrange(0, evs@.len() as int) =~= evs@);
        }
        sent
    }

    /// The non-pointer path to eating the item: reports it at once and leaves the
    /// gesture alone.
    pub fn consume_now(&self) -> (r: Notification)
        ensures
            r == Notification::Consume(self@.id),
    {
        Notification::Consume(self.id)
    }

    /// The non-pointer path to throwing the item away: reports it at once and leaves
    /// the gesture alone.
    pub fn discard_now(&self) -> (r: Notification)
        ensures
            r == Notification::Discard(self@.id),
    {
        Notification::Discard(self.id)
    }

    /// The current horizontal offset of the card, in pixels.
    pub fn drag_offset(&self) -> (r: i64)
        ensures
            r == self@.state.drag_offset,
    {
        self.state.drag_offset
    }

    /// Whether a drag is under way.
    pub fn is_dragging(&self) -> (r: bool)
        ensures
            r == self@.state.is_dragging,
    {
        self.state.is_dragging
    }

    /// The action that releasing now would commit.
    pub fn pending_action(&self) -> (r: Option<SwipeAction>)
        ensures
            r == self@.state.pending,
            r == classify(self@.state.drag_offset as int),
    {
        proof {
            use_type_invariant(self);
        }
        self.state.pending
    }

    /// The opacity of the action hints, in 80ths of full.
    pub fn reveal_level(&self) -> (r: i64)
        ensures
            r == reveal_of(self@.state.drag_offset as int),
    {
        proof {
            use_type_invariant(self);
        }
        let off = self.state.drag_offset;
        if off >= SWIPE_THRESHOLD || off <= -SWIPE_THRESHOLD {
            SWIPE_THRESHOLD
        } else if off < 0 {
            -off
        } else {
            off
        }
    }

    /// How the card moves: with the pointer while dragging, gliding back otherwise.
    pub fn transition(&self) -> (r: Transition)
        ensures
            r == (if self@.state.is_dragging { Transition::Immediate } else { Transition::SnapBack }),
    {
        if self.state.is_dragging {
            Transition::Immediate
        } else {
            Transition::SnapBack
        }
    }
}

impl Transition {
    /// The style value for the card's movement.
    pub fn css(&self) -> (r: &'static str)
        ensures
            *self == Transition::Immediate ==> r@ == "none"@,
            *self == Transition::SnapBack ==> r@ == "transform 200ms ease-out"@,
    {
        match self {
            Transition::Immediate => "none",
            Transition::SnapBack => "transform 200ms ease-out",
        }
    }
}

} // verus!
