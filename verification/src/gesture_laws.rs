//! What holds of whole gestures.
//!
//! Gestures run at the same time, so a view gets their readings mixed. The laws here are about such
//! mixed sequences of readings, from any state of the view. Amounts are exact values, before
//! rounding, in multiples of 2^-1074; they mean what they say where all readings are finite.

use crate::float::Float;
use crate::geometry::{Point, Scalar};
use crate::gesture::{
    difference, pan_step, pinch_step, rotation_step, zero, LastDeltas, RecognizerState,
};
use vstd::prelude::*;

verus! {

/// A reading of one of the recognizers.
pub enum Reading {
    Pinch(RecognizerState, Float),
    Rotation(RecognizerState, Float),
    Pan(RecognizerState, Point),
}

/// A quantity that a gesture changes.
pub enum Quantity {
    Scale,
    Angle,
    X,
    Y,
}

impl Quantity {
    /// What a view remembers of the quantity.
    pub open spec fn remembered(self, deltas: LastDeltas) -> int {
        match self {
            Quantity::Scale => deltas.pinch.units(),
            Quantity::Angle => deltas.rotation.units(),
            Quantity::X => deltas.pan.x.units(),
            Quantity::Y => deltas.pan.y.units(),
        }
    }

    /// By how much the report on a reading changes the quantity. Angles are taken in radians, as
    /// they are before the sign is changed.
    pub open spec fn reported(self, before: LastDeltas, reading: Reading) -> int {
        match (self, reading) {
            (Quantity::Scale, Reading::Pinch(state, scale)) => {
                pinch_step(before, state, scale).delta.units()
            },
            (Quantity::Angle, Reading::Rotation(state, rotation)) => {
                rotation_step(before, state, rotation).delta.units()
            },
            (Quantity::X, Reading::Pan(state, translation)) => {
                pan_step(before, state, translation).delta.x.units()
            },
            (Quantity::Y, Reading::Pan(state, translation)) => {
                pan_step(before, state, translation).delta.y.units()
            },
            _ => 0,
        }
    }

    /// Whether the reading leaves the gesture that changes this quantity under way: it is a
    /// movement of that gesture, or it belongs to another one and is not a pinch broken off during
    /// a rotation.
    pub open spec fn continues_through(self, reading: Reading) -> bool {
        match (self, reading) {
            (Quantity::Scale, Reading::Pinch(state, _)) => state is Changed,
            (Quantity::Angle, Reading::Rotation(state, _)) => state is Changed,
            (Quantity::Angle, Reading::Pinch(state, _)) => {
                state.is_under_way() && !state.is_broken_off()
            },
            (Quantity::X, Reading::Pan(state, _)) => state is Changed,
            (Quantity::Y, Reading::Pan(state, _)) => state is Changed,
            _ => true,
        }
    }

    /// Whether the gesture that changes this quantity stays under way for all of the readings.
    pub open spec fn continues_through_all(self, readings: Seq<Reading>) -> bool {
        forall|i: int| 0 <= i < readings.len() ==> self.continues_through(#[trigger] readings[i])
    }

    /// By how much the reports on some readings change the quantity altogether.
    pub open spec fn total(self, before: LastDeltas, readings: Seq<Reading>) -> int
        decreases readings.len(),
    {
        if readings.len() == 0 {
            0
        } else {
            self.total(before, readings.drop_last()) + self.reported(
                after_all(before, readings.drop_last()),
                readings.last(),
            )
        }
    }
}

impl Reading {
    /// Whether the recognizer is in a state that a view expects.
    pub open spec fn is_expected(self) -> bool {
        match self {
            Reading::Pinch(state, _) => state.is_under_way(),
            Reading::Rotation(state, _) => state.is_under_way(),
            Reading::Pan(state, _) => state.is_under_way(),
        }
    }
}

/// What a view remembers after a reading.
pub open spec fn after(before: LastDeltas, reading: Reading) -> LastDeltas {
    match reading {
        Reading::Pinch(state, scale) => pinch_step(before, state, scale).after,
        Reading::Rotation(state, rotation) => rotation_step(before, state, rotation).after,
        Reading::Pan(state, translation) => pan_step(before, state, translation).after,
    }
}

/// What a view remembers after some readings.
pub open spec fn after_all(before: LastDeltas, readings: Seq<Reading>) -> LastDeltas
    decreases readings.len(),
{
    if readings.len() == 0 {
        before
    } else {
        after(after_all(before, readings.drop_last()), readings.last())
    }
}

/// The readings of a gesture: the one it begins with, those during it, and the one it stops with.
pub open spec fn gesture(first: Reading, during: Seq<Reading>, last: Reading) -> Seq<Reading> {
    seq![first] + during + seq![last]
}

/// While a gesture is under way, its reports add up to the way from the reading that was
/// remembered to the reading that is remembered now, whatever other gestures do.
pub proof fn law_reports_add_up(quantity: Quantity, before: LastDeltas, readings: Seq<Reading>)
    requires
        quantity.continues_through_all(readings),
    ensures
        quantity.total(before, readings) == quantity.remembered(after_all(before, readings))
            - quantity.remembered(before),
    decreases readings.len(),
{
    if readings.len() > 0 {
        let earlier = readings.drop_last();
        assert(quantity.continues_through_all(earlier)) by {
            assert forall|i: int| 0 <= i < earlier.len() implies quantity.continues_through(
                #[trigger] earlier[i],
            ) by {
                assert(earlier[i] == readings[i]);
            }
        }
        law_reports_add_up(quantity, before, earlier);
        assert(quantity.continues_through(readings[readings.len() - 1]));
    }
}

/// The total and the memory at the end of a gesture, from those before its last reading.
proof fn lemma_gesture(
    quantity: Quantity,
    before: LastDeltas,
    first: Reading,
    during: Seq<Reading>,
    last: Reading,
)
    requires
        quantity.continues_through_all(during),
    ensures
        quantity.total(before, gesture(first, during, last)) == quantity.reported(before, first)
            + quantity.remembered(after_all(after(before, first), during)) - quantity.remembered(
            after(before, first),
        ) + quantity.reported(after_all(after(before, first), during), last),
        after_all(before, gesture(first, during, last)) == after(
            after_all(after(before, first), during),
            last,
        ),
{
    let whole = gesture(first, during, last);
    assert(whole.drop_last() =~= seq![first] + during);
    assert(whole.last() == last);
    lemma_first_reading(quantity, before, first, during);
    law_reports_add_up(quantity, after(before, first), during);
}

/// The first of some readings can be taken in by itself.
proof fn lemma_first_reading(
    quantity: Quantity,
    before: LastDeltas,
    first: Reading,
    rest: Seq<Reading>,
)
    ensures
        after_all(before, seq![first] + rest) == after_all(after(before, first), rest),
        quantity.total(before, seq![first] + rest) == quantity.reported(before, first)
            + quantity.total(after(before, first), rest),
    decreases rest.len(),
{
    let whole = seq![first] + rest;
    if rest.len() == 0 {
        assert(whole.drop_last() =~= Seq::empty());
        assert(whole.last() == first);
        reveal_with_fuel(after_all, 2);
        reveal_with_fuel(Quantity::total, 2);
    } else {
        assert(whole.drop_last() =~= seq![first] + rest.drop_last());
        assert(whole.last() == rest.last());
        lemma_first_reading(quantity, before, first, rest.drop_last());
    }
}

/// A recognizer calls in five states. Two of them break the gesture off.
pub proof fn law_states(state: RecognizerState)
    ensures
        state.is_under_way() <==> !(state is Possible || state is Other),
        state.is_broken_off() <==> state is Cancelled || state is Failed,
{
}

/// A movement of a pinch, its last one too, is reported as the scale that was read less the scale
/// that was remembered, whatever the two are. The scale that was read is remembered, and at the end
/// none; nothing else changes.
pub proof fn law_pinch_moves(before: LastDeltas, state: RecognizerState, scale: Float)
    requires
        state is Changed || state is Ended,
    ensures
        pinch_step(before, state, scale).phase is Moved,
        pinch_step(before, state, scale).delta matches Scalar::Difference { minuend, subtrahend }
            && minuend == scale && subtrahend == before.pinch,
        pinch_step(before, state, scale).delta.units() == scale.units() - before.pinch.units(),
        state is Changed ==> pinch_step(before, state, scale).after.pinch == scale,
        state is Ended ==> pinch_step(before, state, scale).after.pinch.bits == 0,
        pinch_step(before, state, scale).after.rotation == before.rotation,
        pinch_step(before, state, scale).after.pan == before.pan,
{
}

/// A pinch begins with a report of no change, and with the scale that was read remembered.
pub proof fn law_pinch_begins(before: LastDeltas, scale: Float)
    ensures
        pinch_step(before, RecognizerState::Began, scale).phase is Started,
        pinch_step(before, RecognizerState::Began, scale).delta matches Scalar::Value(value)
            && value.bits == 0,
        pinch_step(before, RecognizerState::Began, scale).delta.units() == 0,
        pinch_step(before, RecognizerState::Began, scale).after.pinch == scale,
        pinch_step(before, RecognizerState::Began, scale).after.rotation == before.rotation,
        pinch_step(before, RecognizerState::Began, scale).after.pan == before.pan,
{
    zero().law_zeros_are_zero();
}

/// A pinch is broken off with a report of minus the scale that was read. The remembered scale and
/// the remembered translation stay; the remembered rotation goes back to zero.
pub proof fn law_pinch_breaks_off(before: LastDeltas, state: RecognizerState, scale: Float)
    requires
        state is Cancelled || state is Failed,
    ensures
        pinch_step(before, state, scale).phase is Cancelled,
        pinch_step(before, state, scale).delta matches Scalar::Value(value) && value.magnitude()
            == scale.magnitude() && value.is_negative() != scale.is_negative(),
        pinch_step(before, state, scale).delta.units() == -scale.units(),
        pinch_step(before, state, scale).after.pinch == before.pinch,
        pinch_step(before, state, scale).after.rotation.bits == 0,
        pinch_step(before, state, scale).after.pan == before.pan,
{
    scale.law_negation();
}

/// A movement of a rotation is reported as the angle that was read less the angle that was
/// remembered, whatever the two are. The angle that was read is remembered, and at the end none;
/// nothing else changes.
pub proof fn law_rotation_moves(before: LastDeltas, state: RecognizerState, rotation: Float)
    requires
        state is Changed || state is Ended,
    ensures
        state is Changed ==> rotation_step(before, state, rotation).phase is Moved,
        state is Ended ==> rotation_step(before, state, rotation).phase is Ended,
        rotation_step(before, state, rotation).delta matches Scalar::Difference {
            minuend,
            subtrahend,
        } && minuend == rotation && subtrahend == before.rotation,
        rotation_step(before, state, rotation).delta.units() == rotation.units()
            - before.rotation.units(),
        state is Changed ==> rotation_step(before, state, rotation).after.rotation == rotation,
        state is Ended ==> rotation_step(before, state, rotation).after.rotation.bits == 0,
        rotation_step(before, state, rotation).after.pinch == before.pinch,
        rotation_step(before, state, rotation).after.pan == before.pan,
{
}

/// A rotation begins with a report of no change, and with no angle remembered, whatever was read.
pub proof fn law_rotation_begins(before: LastDeltas, rotation: Float)
    ensures
        rotation_step(before, RecognizerState::Began, rotation).phase is Started,
        rotation_step(before, RecognizerState::Began, rotation).delta matches Scalar::Value(value)
            && value.bits == 0,
        rotation_step(before, RecognizerState::Began, rotation).delta.units() == 0,
        rotation_step(before, RecognizerState::Began, rotation).after.rotation.bits == 0,
        rotation_step(before, RecognizerState::Began, rotation).after.pinch == before.pinch,
        rotation_step(before, RecognizerState::Began, rotation).after.pan == before.pan,
{
    zero().law_zeros_are_zero();
}

/// A rotation is broken off with a report of minus the angle that was read, and no angle is
/// remembered.
pub proof fn law_rotation_breaks_off(before: LastDeltas, state: RecognizerState, rotation: Float)
    requires
        state is Cancelled || state is Failed,
    ensures
        rotation_step(before, state, rotation).phase is Cancelled,
        rotation_step(before, state, rotation).delta matches Scalar::Value(value)
            && value.magnitude() == rotation.magnitude() && value.is_negative()
            != rotation.is_negative(),
        rotation_step(before, state, rotation).delta.units() == -rotation.units(),
        rotation_step(before, state, rotation).after.rotation.bits == 0,
        rotation_step(before, state, rotation).after.pinch == before.pinch,
        rotation_step(before, state, rotation).after.pan == before.pan,
{
    rotation.law_negation();
}

/// A movement of a pan is reported, along each axis by itself, as the translation that was read
/// less the one that was remembered, whatever their signs. The translation that was read is
/// remembered, and at the end none; nothing else changes.
pub proof fn law_pan_moves(before: LastDeltas, state: RecognizerState, translation: Point)
    requires
        state is Changed || state is Ended,
    ensures
        state is Changed ==> pan_step(before, state, translation).phase is Moved,
        state is Ended ==> pan_step(before, state, translation).phase is Ended,
        pan_step(before, state, translation).delta.x matches Scalar::Difference {
            minuend,
            subtrahend,
        } && minuend == translation.x && subtrahend == before.pan.x,
        pan_step(before, state, translation).delta.y matches Scalar::Difference {
            minuend,
            subtrahend,
        } && minuend == translation.y && subtrahend == before.pan.y,
        pan_step(before, state, translation).delta.x.units() == translation.x.units()
            - before.pan.x.units(),
        pan_step(before, state, translation).delta.y.units() == translation.y.units()
            - before.pan.y.units(),
        state is Changed ==> pan_step(before, state, translation).after.pan == translation,
        state is Ended ==> pan_step(before, state, translation).after.pan.x.bits == 0 && pan_step(
            before,
            state,
            translation,
        ).after.pan.y.bits == 0,
        pan_step(before, state, translation).after.pinch == before.pinch,
        pan_step(before, state, translation).after.rotation == before.rotation,
{
}

/// A pan begins with a report of no change, and with the translation that was read remembered.
pub proof fn law_pan_begins(before: LastDeltas, translation: Point)
    ensures
        pan_step(before, RecognizerState::Began, translation).phase is Started,
        pan_step(before, RecognizerState::Began, translation).delta.x matches Scalar::Value(value)
            && value.bits == 0,
        pan_step(before, RecognizerState::Began, translation).delta.y matches Scalar::Value(value)
            && value.bits == 0,
        pan_step(before, RecognizerState::Began, translation).delta.x.units() == 0,
        pan_step(before, RecognizerState::Began, translation).delta.y.units() == 0,
        pan_step(before, RecognizerState::Began, translation).after.pan == translation,
        pan_step(before, RecognizerState::Began, translation).after.pinch == before.pinch,
        pan_step(before, RecognizerState::Began, translation).after.rotation == before.rotation,
{
    zero().law_zeros_are_zero();
}

/// A pan is broken off with a report of minus the translation that was remembered, whatever was
/// read, and no translation is remembered.
pub proof fn law_pan_breaks_off(before: LastDeltas, state: RecognizerState, translation: Point)
    requires
        state is Cancelled || state is Failed,
    ensures
        pan_step(before, state, translation).phase is Cancelled,
        pan_step(before, state, translation).delta.x matches Scalar::Value(value)
            && value.magnitude() == before.pan.x.magnitude() && value.is_negative()
            != before.pan.x.is_negative(),
        pan_step(before, state, translation).delta.y matches Scalar::Value(value)
            && value.magnitude() == before.pan.y.magnitude() && value.is_negative()
            != before.pan.y.is_negative(),
        pan_step(before, state, translation).delta.x.units() == -before.pan.x.units(),
        pan_step(before, state, translation).delta.y.units() == -before.pan.y.units(),
        pan_step(before, state, translation).after.pan.x.bits == 0,
        pan_step(before, state, translation).after.pan.y.bits == 0,
        pan_step(before, state, translation).after.pinch == before.pinch,
        pan_step(before, state, translation).after.rotation == before.rotation,
{
    before.pan.x.law_negation();
    before.pan.y.law_negation();
}

/// The value of a quantity that the last of some readings gave, or `start` if none gave one.
pub open spec fn last_read(quantity: Quantity, start: int, readings: Seq<Reading>) -> int
    decreases readings.len(),
{
    if readings.len() == 0 {
        start
    } else {
        match (quantity, readings.last()) {
            (Quantity::Scale, Reading::Pinch(_, scale)) => scale.units(),
            (Quantity::Angle, Reading::Rotation(_, rotation)) => rotation.units(),
            (Quantity::X, Reading::Pan(_, translation)) => translation.x.units(),
            (Quantity::Y, Reading::Pan(_, translation)) => translation.y.units(),
            _ => last_read(quantity, start, readings.drop_last()),
        }
    }
}

/// While a gesture is under way, its reports add up to the way from the reading that was remembered
/// to the last one that was read, whatever lies between and whatever other gestures do; and that
/// last reading is what is remembered.
pub proof fn law_reports_reach_the_last_reading(
    quantity: Quantity,
    before: LastDeltas,
    readings: Seq<Reading>,
)
    requires
        quantity.continues_through_all(readings),
    ensures
        quantity.total(before, readings) == last_read(
            quantity,
            quantity.remembered(before),
            readings,
        ) - quantity.remembered(before),
        quantity.remembered(after_all(before, readings)) == last_read(
            quantity,
            quantity.remembered(before),
            readings,
        ),
    decreases readings.len(),
{
    if readings.len() > 0 {
        let earlier = readings.drop_last();
        assert(quantity.continues_through_all(earlier)) by {
            assert forall|i: int| 0 <= i < earlier.len() implies quantity.continues_through(
                #[trigger] earlier[i],
            ) by {
                assert(earlier[i] == readings[i]);
            }
        }
        law_reports_reach_the_last_reading(quantity, before, earlier);
        assert(quantity.continues_through(readings[readings.len() - 1]));
    }
}

/// From the beginning of a pinch on, its reports add up to the last scale that was read less the
/// scale that it began at, at every moment until it stops.
pub proof fn law_pinch_so_far(before: LastDeltas, start: Float, during: Seq<Reading>)
    requires
        Quantity::Scale.continues_through_all(during),
    ensures
        Quantity::Scale.total(
            before,
            seq![Reading::Pinch(RecognizerState::Began, start)] + during,
        ) == last_read(Quantity::Scale, start.units(), during) - start.units(),
{
    let first = Reading::Pinch(RecognizerState::Began, start);
    zero().law_zeros_are_zero();
    lemma_first_reading(Quantity::Scale, before, first, during);
    law_reports_reach_the_last_reading(Quantity::Scale, after(before, first), during);
}

/// From the beginning of a rotation on, its reports add up to the last angle that was read since,
/// at every moment until it stops.
pub proof fn law_rotation_so_far(before: LastDeltas, start: Float, during: Seq<Reading>)
    requires
        Quantity::Angle.continues_through_all(during),
    ensures
        Quantity::Angle.total(
            before,
            seq![Reading::Rotation(RecognizerState::Began, start)] + during,
        ) == last_read(Quantity::Angle, 0, during),
{
    let first = Reading::Rotation(RecognizerState::Began, start);
    zero().law_zeros_are_zero();
    lemma_first_reading(Quantity::Angle, before, first, during);
    law_reports_reach_the_last_reading(Quantity::Angle, after(before, first), during);
}

/// From the beginning of a pan on, its reports add up, along each axis, to the last translation
/// that was read less the one that it began at, at every moment until it stops.
pub proof fn law_pan_so_far(before: LastDeltas, start: Point, during: Seq<Reading>)
    requires
        Quantity::X.continues_through_all(during),
    ensures
        Quantity::X.total(before, seq![Reading::Pan(RecognizerState::Began, start)] + during)
            == last_read(Quantity::X, start.x.units(), during) - start.x.units(),
        Quantity::Y.total(before, seq![Reading::Pan(RecognizerState::Began, start)] + during)
            == last_read(Quantity::Y, start.y.units(), during) - start.y.units(),
{
    let first = Reading::Pan(RecognizerState::Began, start);
    zero().law_zeros_are_zero();
    lemma_axes_continue_together(during);
    lemma_first_reading(Quantity::X, before, first, during);
    lemma_first_reading(Quantity::Y, before, first, during);
    law_reports_reach_the_last_reading(Quantity::X, after(before, first), during);
    law_reports_reach_the_last_reading(Quantity::Y, after(before, first), during);
}

/// Two movements in a row are reported as the way between their readings, for all readings: of a
/// pinch, of a rotation, and of a pan along each axis.
pub proof fn law_movements_in_a_row(
    before: LastDeltas,
    one: Float,
    other: Float,
    here: Point,
    there: Point,
)
    ensures
        pinch_step(
            pinch_step(before, RecognizerState::Changed, one).after,
            RecognizerState::Changed,
            other,
        ).delta.units() == other.units() - one.units(),
        rotation_step(
            rotation_step(before, RecognizerState::Changed, one).after,
            RecognizerState::Changed,
            other,
        ).delta.units() == other.units() - one.units(),
        pan_step(
            pan_step(before, RecognizerState::Changed, here).after,
            RecognizerState::Changed,
            there,
        ).delta.x.units() == there.x.units() - here.x.units(),
        pan_step(
            pan_step(before, RecognizerState::Changed, here).after,
            RecognizerState::Changed,
            there,
        ).delta.y.units() == there.y.units() - here.y.units(),
{
}

/// The reports on a pinch that ends add up to the change of scale from its beginning to its end,
/// and nothing is remembered of it.
pub proof fn law_ended_pinch(
    before: LastDeltas,
    start: Float,
    during: Seq<Reading>,
    end: Float,
)
    requires
        Quantity::Scale.continues_through_all(during),
    ensures
        Quantity::Scale.total(
            before,
            gesture(
                Reading::Pinch(RecognizerState::Began, start),
                during,
                Reading::Pinch(RecognizerState::Ended, end),
            ),
        ) == end.units() - start.units(),
        after_all(
            before,
            gesture(
                Reading::Pinch(RecognizerState::Began, start),
                during,
                Reading::Pinch(RecognizerState::Ended, end),
            ),
        ).pinch == zero(),
{
    zero().law_zeros_are_zero();
    lemma_gesture(
        Quantity::Scale,
        before,
        Reading::Pinch(RecognizerState::Began, start),
        during,
        Reading::Pinch(RecognizerState::Ended, end),
    );
}

/// The reports on a rotation that ends add up to the angle that it ends at, and nothing is
/// remembered of it.
pub proof fn law_ended_rotation(
    before: LastDeltas,
    start: Float,
    during: Seq<Reading>,
    end: Float,
)
    requires
        Quantity::Angle.continues_through_all(during),
    ensures
        Quantity::Angle.total(
            before,
            gesture(
                Reading::Rotation(RecognizerState::Began, start),
                during,
                Reading::Rotation(RecognizerState::Ended, end),
            ),
        ) == end.units(),
        after_all(
            before,
            gesture(
                Reading::Rotation(RecognizerState::Began, start),
                during,
                Reading::Rotation(RecognizerState::Ended, end),
            ),
        ).rotation == zero(),
{
    zero().law_zeros_are_zero();
    lemma_gesture(
        Quantity::Angle,
        before,
        Reading::Rotation(RecognizerState::Began, start),
        during,
        Reading::Rotation(RecognizerState::Ended, end),
    );
}

/// The reports on a pan that ends add up, along each axis, to the way from its beginning to its
/// end, and nothing is remembered of it.
pub proof fn law_ended_pan(before: LastDeltas, start: Point, during: Seq<Reading>, end: Point)
    requires
        Quantity::X.continues_through_all(during),
    ensures
        Quantity::X.total(
            before,
            gesture(
                Reading::Pan(RecognizerState::Began, start),
                during,
                Reading::Pan(RecognizerState::Ended, end),
            ),
        ) == end.x.units() - start.x.units(),
        Quantity::Y.total(
            before,
            gesture(
                Reading::Pan(RecognizerState::Began, start),
                during,
                Reading::Pan(RecognizerState::Ended, end),
            ),
        ) == end.y.units() - start.y.units(),
        after_all(
            before,
            gesture(
                Reading::Pan(RecognizerState::Began, start),
                during,
                Reading::Pan(RecognizerState::Ended, end),
            ),
        ).pan == (Point { x: zero(), y: zero() }),
{
    zero().law_zeros_are_zero();
    lemma_axes_continue_together(during);
    let first = Reading::Pan(RecognizerState::Began, start);
    let last = Reading::Pan(RecognizerState::Ended, end);
    lemma_gesture(Quantity::X, before, first, during, last);
    lemma_gesture(Quantity::Y, before, first, during, last);
}

proof fn lemma_axes_continue_together(readings: Seq<Reading>)
    requires
        Quantity::X.continues_through_all(readings),
    ensures
        Quantity::Y.continues_through_all(readings),
{
    assert forall|i: int| 0 <= i < readings.len() implies Quantity::Y.continues_through(
        #[trigger] readings[i],
    ) by {
        assert(Quantity::X.continues_through(readings[i]));
    }
}

/// The reports on a rotation that is broken off at the angle last reported cancel out.
pub proof fn law_broken_off_rotation(
    before: LastDeltas,
    start: Float,
    during: Seq<Reading>,
    state: RecognizerState,
    angle: Float,
)
    requires
        Quantity::Angle.continues_through_all(during),
        state.is_broken_off(),
        angle == after_all(
            after(before, Reading::Rotation(RecognizerState::Began, start)),
            during,
        ).rotation,
    ensures
        Quantity::Angle.total(
            before,
            gesture(
                Reading::Rotation(RecognizerState::Began, start),
                during,
                Reading::Rotation(state, angle),
            ),
        ) == 0,
        after_all(
            before,
            gesture(
                Reading::Rotation(RecognizerState::Began, start),
                during,
                Reading::Rotation(state, angle),
            ),
        ).rotation == zero(),
{
    zero().law_zeros_are_zero();
    angle.law_negation();
    lemma_gesture(
        Quantity::Angle,
        before,
        Reading::Rotation(RecognizerState::Began, start),
        during,
        Reading::Rotation(state, angle),
    );
}

/// The reports on a pan that is broken off add up, along each axis, to minus the translation that
/// it began at, wherever it is broken off. A pan that began at zero thus leaves nothing behind.
pub proof fn law_broken_off_pan(
    before: LastDeltas,
    start: Point,
    during: Seq<Reading>,
    state: RecognizerState,
    translation: Point,
)
    requires
        Quantity::X.continues_through_all(during),
        state.is_broken_off(),
    ensures
        Quantity::X.total(
            before,
            gesture(
                Reading::Pan(RecognizerState::Began, start),
                during,
                Reading::Pan(state, translation),
            ),
        ) == -start.x.units(),
        Quantity::Y.total(
            before,
            gesture(
                Reading::Pan(RecognizerState::Began, start),
                during,
                Reading::Pan(state, translation),
            ),
        ) == -start.y.units(),
        after_all(
            before,
            gesture(
                Reading::Pan(RecognizerState::Began, start),
                during,
                Reading::Pan(state, translation),
            ),
        ).pan == (Point { x: zero(), y: zero() }),
{
    zero().law_zeros_are_zero();
    lemma_axes_continue_together(during);
    let first = Reading::Pan(RecognizerState::Began, start);
    let last = Reading::Pan(state, translation);
    let reached = after_all(after(before, first), during);
    reached.pan.x.law_negation();
    reached.pan.y.law_negation();
    lemma_gesture(Quantity::X, before, first, during, last);
    lemma_gesture(Quantity::Y, before, first, during, last);
}

/// The reports on a pinch that is broken off at the scale last reported add up to minus the scale
/// that it began at, and that last scale stays remembered.
pub proof fn law_broken_off_pinch(
    before: LastDeltas,
    start: Float,
    during: Seq<Reading>,
    state: RecognizerState,
    scale: Float,
)
    requires
        Quantity::Scale.continues_through_all(during),
        state.is_broken_off(),
        scale == after_all(
            after(before, Reading::Pinch(RecognizerState::Began, start)),
            during,
        ).pinch,
    ensures
        Quantity::Scale.total(
            before,
            gesture(
                Reading::Pinch(RecognizerState::Began, start),
                during,
                Reading::Pinch(state, scale),
            ),
        ) == -start.units(),
        after_all(
            before,
            gesture(
                Reading::Pinch(RecognizerState::Began, start),
                during,
                Reading::Pinch(state, scale),
            ),
        ).pinch == scale,
{
    zero().law_zeros_are_zero();
    scale.law_negation();
    lemma_gesture(
        Quantity::Scale,
        before,
        Reading::Pinch(RecognizerState::Began, start),
        during,
        Reading::Pinch(state, scale),
    );
}

/// A gesture forgets what came before it: from its beginning on, a view that remembers one thing
/// and a view that remembers another report it alike and remember the same of it.
pub proof fn law_beginning_forgets(
    quantity: Quantity,
    one: LastDeltas,
    other: LastDeltas,
    first: Reading,
    during: Seq<Reading>,
)
    requires
        match (quantity, first) {
            (Quantity::Scale, Reading::Pinch(state, _)) => state is Began,
            (Quantity::Angle, Reading::Rotation(state, _)) => state is Began,
            (Quantity::X, Reading::Pan(state, _)) => state is Began,
            (Quantity::Y, Reading::Pan(state, _)) => state is Began,
            _ => false,
        },
    ensures
        quantity.total(one, seq![first] + during) == quantity.total(other, seq![first] + during),
        quantity.remembered(after_all(one, seq![first] + during)) == quantity.remembered(
            after_all(other, seq![first] + during),
        ),
{
    lemma_first_reading(quantity, one, first, during);
    lemma_first_reading(quantity, other, first, during);
    lemma_same_memory(quantity, after(one, first), after(other, first), during);
}

/// The reports that bear on a quantity depend on nothing else that is remembered.
proof fn lemma_same_memory(
    quantity: Quantity,
    one: LastDeltas,
    other: LastDeltas,
    readings: Seq<Reading>,
)
    requires
        quantity.remembered(one) == quantity.remembered(other),
    ensures
        quantity.total(one, readings) == quantity.total(other, readings),
        quantity.remembered(after_all(one, readings)) == quantity.remembered(
            after_all(other, readings),
        ),
    decreases readings.len(),
{
    if readings.len() > 0 {
        lemma_same_memory(quantity, one, other, readings.drop_last());
        let x = after_all(one, readings.drop_last());
        let y = after_all(other, readings.drop_last());
        x.pan.x.law_negation();
        x.pan.y.law_negation();
        y.pan.x.law_negation();
        y.pan.y.law_negation();
    }
}

/// The readings of two different gestures can come in either order, unless one is a rotation and
/// the other a pinch that is broken off: both orders give the same reports and leave the same
/// memory.
pub proof fn law_gestures_do_not_disturb_each_other(
    before: LastDeltas,
    one: Reading,
    other: Reading,
    quantity: Quantity,
)
    requires
        one.is_expected() && other.is_expected(),
        match (one, other) {
            (Reading::Pinch(_, _), Reading::Pan(_, _)) => true,
            (Reading::Rotation(_, _), Reading::Pan(_, _)) => true,
            (Reading::Pinch(state, _), Reading::Rotation(_, _)) => !state.is_broken_off(),
            _ => false,
        },
    ensures
        after(after(before, one), other) == after(after(before, other), one),
        quantity.reported(after(before, other), one) == quantity.reported(before, one),
        quantity.reported(after(before, one), other) == quantity.reported(before, other),
{
}

/// A pinch that is broken off makes a rotation under way count from zero again.
pub proof fn law_broken_off_pinch_restarts_rotation(
    before: LastDeltas,
    state: RecognizerState,
    scale: Float,
    rotation: Float,
)
    requires
        state.is_broken_off(),
    ensures
        rotation_step(
            pinch_step(before, state, scale).after,
            RecognizerState::Changed,
            rotation,
        ).delta == difference(rotation, zero()),
{
}

} // verus!
