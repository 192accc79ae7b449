//! The interaction rules of the rotary knob: which host-automation steps one frame of pointer
//! input issues. Vertical drag adjusts the value (finer while shift is held), and a double click
//! resets it to its default inside a gesture of its own.

use vstd::prelude::*;

verus! {

/// How fast a vertical drag moves the normalized value.
#[derive(Clone, Copy, Debug, PartialEq, Eq, Structural)]
pub enum DragSpeed {
    Normal,
    Fine,
}

/// One step that the knob asks of the parameter it controls.
#[derive(Clone, Copy, Debug, PartialEq, Eq, Structural)]
pub enum KnobAction {
    /// Opens an automation gesture.
    BeginSet,
    /// Moves the value by the frame's vertical drag distance, at the given speed, within 0..=1.
    DragBy(DragSpeed),
    /// Sets the value to the parameter's default.
    ResetToDefault,
    /// Closes an automation gesture.
    EndSet,
}

/// What the pointer did to the knob during one frame.
#[derive(Clone, Copy, Debug, PartialEq, Eq, Structural)]
pub struct KnobInput {
    pub drag_started: bool,
    pub dragged: bool,
    pub drag_stopped: bool,
    pub double_clicked: bool,
    /// Whether the fine-adjust modifier (shift) is held.
    pub fine_adjust: bool,
}

/// The drag speed: fine while the modifier is held, normal otherwise.
pub open spec fn drag_speed_spec(fine_adjust: bool) -> DragSpeed {
    if fine_adjust {
        DragSpeed::Fine
    } else {
        DragSpeed::Normal
    }
}

/// The drag steps of one frame, in order: opening the drag gesture, the drag adjustment and
/// closing the drag gesture.
pub open spec fn drag_steps(input: KnobInput) -> Seq<KnobAction> {
    let begin: Seq<KnobAction> = if input.drag_started {
        seq![KnobAction::BeginSet]
    } else {
        seq![]
    };
    let drag: Seq<KnobAction> = if input.dragged {
        seq![KnobAction::DragBy(drag_speed_spec(input.fine_adjust))]
    } else {
        seq![]
    };
    let end: Seq<KnobAction> = if input.drag_stopped {
        seq![KnobAction::EndSet]
    } else {
        seq![]
    };
    begin + drag + end
}

/// The double-click reset of one frame: a complete gesture that sets the default.
pub open spec fn reset_steps(input: KnobInput) -> Seq<KnobAction> {
    if input.double_clicked {
        seq![KnobAction::BeginSet, KnobAction::ResetToDefault, KnobAction::EndSet]
    } else {
        seq![]
    }
}

/// All steps of one frame: the drag steps, then the double-click reset.
pub open spec fn knob_action_seq(input: KnobInput) -> Seq<KnobAction> {
    drag_steps(input) + reset_steps(input)
}

/// The drag speed for the state of the fine-adjust modifier.
pub fn drag_speed(fine_adjust: bool) -> (speed: DragSpeed)
    ensures
        speed == drag_speed_spec(fine_adjust),
{
    if fine_adjust {
        DragSpeed::Fine
    } else {
        DragSpeed::Normal
    }
}

/// The steps that the knob performs on its parameter for one frame of input.
pub fn knob_actions(input: KnobInput) -> (actions: Vec<KnobAction>)
    ensures
        actions@ == knob_action_seq(input),
{
    let mut actions: Vec<KnobAction> = Vec::new();
    if input.drag_started {
        actions.push(KnobAction::BeginSet);
    }
    if input.dragged {
        actions.push(KnobAction::DragBy(drag_speed(input.fine_adjust)));
    }
    if input.drag_stopped {
        actions.push(KnobAction::EndSet);
    }
    if input.double_clicked {
        actions.push(KnobAction::BeginSet);
        actions.push(KnobAction::ResetToDefault);
        actions.push(KnobAction::EndSet);
    }
    proof {
        assert(actions@ =~= knob_action_seq(input));
    }
    actions
}

/// A reset to the default is always wrapped in its own automation gesture: the step before it
/// opens a gesture and the step after it closes one.
pub proof fn law_reset_is_a_complete_gesture(input: KnobInput)
    ensures
        forall|i: int|
            0 <= i < knob_action_seq(input).len() && #[trigger] knob_action_seq(input)[i]
                == KnobAction::ResetToDefault ==> {
                &&& 0 < i
                &&& i + 1 < knob_action_seq(input).len()
                &&& knob_action_seq(input)[i - 1] == KnobAction::BeginSet
                &&& knob_action_seq(input)[i + 1] == KnobAction::EndSet
            },
{
    let s = knob_action_seq(input);
    let d = drag_steps(input);
    assert(d.len() <= 3);
    assert(forall|j: int| 0 <= j < d.len() ==> #[trigger] d[j] != KnobAction::ResetToDefault);
    assert forall|i: int| 0 <= i < s.len() && #[trigger] s[i] == KnobAction::ResetToDefault implies {
        &&& 0 < i
        &&& i + 1 < s.len()
        &&& s[i - 1] == KnobAction::BeginSet
        &&& s[i + 1] == KnobAction::EndSet
    } by {
        if i < d.len() {
            assert(s[i] == d[i]);
        } else {
            assert(input.double_clicked);
            assert(s[i] == reset_steps(input)[i - d.len()]);
            assert(i == d.len() + 1);
        }
    }
}

/// Every drag adjustment uses the fine speed exactly when the modifier is held, and a frame holds
/// at most one drag adjustment and at most one reset.
pub proof fn law_drag_follows_modifier(input: KnobInput)
    ensures
        forall|i: int|
            0 <= i < knob_action_seq(input).len() ==> (#[trigger] knob_action_seq(input)[i] is DragBy
                ==> knob_action_seq(input)[i] == KnobAction::DragBy(
                drag_speed_spec(input.fine_adjust),
            )),
        knob_action_seq(input).filter(|a: KnobAction| a is DragBy).len() <= 1,
        knob_action_seq(input).filter(|a: KnobAction| a is ResetToDefault).len() <= 1,
{
    let s = knob_action_seq(input);
    assert(s.len() <= 6);
    reveal_with_fuel(Seq::filter, 7);
}

/// The steps of consecutive frames of input, one frame after the other.
pub open spec fn session_steps(frames: Seq<KnobInput>) -> Seq<KnobAction>
    decreases frames.len(),
{
    if frames.len() == 0 {
        seq![]
    } else {
        session_steps(frames.drop_last()) + knob_action_seq(frames.last())
    }
}

/// The frames of one drag: it starts in the first frame and stops in the last, no other frame
/// starts or stops a drag, and no frame holds a double click.
pub open spec fn is_drag_session(frames: Seq<KnobInput>) -> bool {
    &&& frames.len() >= 1
    &&& forall|i: int| 0 <= i < frames.len() ==> !(#[trigger] frames[i]).double_clicked
    &&& forall|i: int| 0 <= i < frames.len() ==> (#[trigger] frames[i].drag_started <==> i == 0)
    &&& forall|i: int|
        0 <= i < frames.len() ==> (#[trigger] frames[i].drag_stopped <==> i == frames.len() - 1)
}

/// While a drag is open and not yet stopped, its steps are one `BeginSet` followed by drag
/// adjustments only.
proof fn lemma_open_drag_steps(frames: Seq<KnobInput>)
    requires
        frames.len() >= 1,
        frames[0].drag_started,
        forall|i: int| 0 <= i < frames.len() ==> !(#[trigger] frames[i]).double_clicked,
        forall|i: int| 0 <= i < frames.len() ==> !(#[trigger] frames[i]).drag_stopped,
        forall|i: int| 0 < i < frames.len() ==> !(#[trigger] frames[i]).drag_started,
    ensures
        session_steps(frames).len() >= 1,
        session_steps(frames)[0] == KnobAction::BeginSet,
        forall|i: int|
            0 < i < session_steps(frames).len() ==> #[trigger] session_steps(frames)[i] is DragBy,
    decreases frames.len(),
{
    let s = session_steps(frames);
    let last = frames.last();
    assert(!last.double_clicked && !last.drag_stopped);
    if frames.len() == 1 {
        assert(frames.drop_last().len() == 0);
        assert(session_steps(frames.drop_last()) =~= Seq::<KnobAction>::empty());
        assert(s =~= knob_action_seq(last));
    } else {
        let prefix = frames.drop_last();
        assert(prefix[0] == frames[0]);
        assert forall|i: int| 0 <= i < prefix.len() implies !(#[trigger] prefix[i]).double_clicked
            && !prefix[i].drag_stopped by {
            assert(prefix[i] == frames[i]);
        }
        assert forall|i: int| 0 < i < prefix.len() implies !(#[trigger] prefix[i]).drag_started by {
            assert(prefix[i] == frames[i]);
        }
        lemma_open_drag_steps(prefix);
        let p = session_steps(prefix);
        let t = knob_action_seq(last);
        assert(!last.drag_started);
        assert(t.len() <= 1);
        assert(forall|j: int| 0 <= j < t.len() ==> #[trigger] t[j] is DragBy);
        assert(s =~= p + t);
        assert forall|i: int| 0 < i < s.len() implies #[trigger] s[i] is DragBy by {
            if i < p.len() {
                assert(s[i] == p[i]);
            } else {
                assert(s[i] == t[i - p.len()]);
            }
        }
    }
}

/// Over a whole drag the knob keeps the host's automation gesture balanced: the steps open with
/// one `BeginSet` in the first frame, close with one `EndSet` in the last frame, and every step in
/// between is a drag adjustment, so no other gesture is opened or closed and every value change
/// of the drag lies inside the gesture.
pub proof fn law_drag_is_one_balanced_gesture(frames: Seq<KnobInput>)
    requires
        is_drag_session(frames),
    ensures
        session_steps(frames).len() >= 2,
        session_steps(frames)[0] == KnobAction::BeginSet,
        session_steps(frames).last() == KnobAction::EndSet,
        forall|i: int|
            0 < i < session_steps(frames).len() - 1 ==> #[trigger] session_steps(frames)[i] is DragBy,
{
    let s = session_steps(frames);
    let n = frames.len();
    let last = frames.last();
    assert(frames[n - 1] == last);
    assert(last.drag_stopped && !last.double_clicked);
    assert(frames[0].drag_started);
    if n == 1 {
        assert(frames.drop_last().len() == 0);
        assert(session_steps(frames.drop_last()) =~= Seq::<KnobAction>::empty());
        assert(s =~= knob_action_seq(last));
    } else {
        let prefix = frames.drop_last();
        assert(!last.drag_started);
        assert(prefix[0] == frames[0]);
        assert forall|i: int| 0 <= i < prefix.len() implies !(#[trigger] prefix[i]).double_clicked
            && !prefix[i].drag_stopped by {
            assert(prefix[i] == frames[i]);
        }
        assert forall|i: int| 0 < i < prefix.len() implies !(#[trigger] prefix[i]).drag_started by {
            assert(prefix[i] == frames[i]);
        }
        lemma_open_drag_steps(prefix);
        let p = session_steps(prefix);
        let t = knob_action_seq(last);
        assert(t.len() >= 1 && t.len() <= 2);
        assert(t.last() == KnobAction::EndSet);
        assert(forall|j: int| 0 <= j < t.len() - 1 ==> #[trigger] t[j] is DragBy);
        assert(s =~= p + t);
        assert forall|i: int| 0 < i < s.len() - 1 implies #[trigger] s[i] is DragBy by {
            if i < p.len() {
                assert(s[i] == p[i]);
            } else {
                assert(s[i] == t[i - p.len()]);
            }
        }
    }
}

/// How many times `action` occurs in `steps`.
pub open spec fn count_of(steps: Seq<KnobAction>, action: KnobAction) -> nat
    decreases steps.len(),
{
    if steps.len() == 0 {
        0
    } else {
        count_of(steps.drop_last(), action) + if steps.last() == action {
            1nat
        } else {
            0nat
        }
    }
}

/// 1 when `holds`, else 0.
pub open spec fn indicator(holds: bool) -> nat {
    if holds {
        1
    } else {
        0
    }
}

proof fn lemma_count_add(x: Seq<KnobAction>, y: Seq<KnobAction>, action: KnobAction)
    ensures
        count_of(x + y, action) == count_of(x, action) + count_of(y, action),
    decreases y.len(),
{
    if y.len() == 0 {
        assert(x + y =~= x);
    } else {
        assert((x + y).drop_last() =~= x + y.drop_last());
        assert((x + y).last() == y.last());
        lemma_count_add(x, y.drop_last(), action);
    }
}

proof fn lemma_count_one(step: KnobAction, action: KnobAction)
    ensures
        count_of(seq![step], action) == indicator(step == action),
{
    let single = seq![step];
    assert(single.len() == 1);
    assert(single.last() == step);
    assert(single.drop_last() =~= Seq::<KnobAction>::empty());
    assert(count_of(single.drop_last(), action) == 0);
}

proof fn lemma_count_optional(present: bool, step: KnobAction, action: KnobAction)
    ensures
        count_of(if present { seq![step] } else { Seq::<KnobAction>::empty() }, action)
            == indicator(present && step == action),
{
    lemma_count_one(step, action);
}

/// The number of times `action` occurs among one frame's steps.
proof fn lemma_frame_count(input: KnobInput, action: KnobAction)
    ensures
        count_of(knob_action_seq(input), action) == indicator(
            input.drag_started && action == KnobAction::BeginSet,
        ) + indicator(
            input.dragged && action == KnobAction::DragBy(drag_speed_spec(input.fine_adjust)),
        ) + indicator(input.drag_stopped && action == KnobAction::EndSet) + indicator(
            input.double_clicked && action == KnobAction::BeginSet,
        ) + indicator(input.double_clicked && action == KnobAction::ResetToDefault) + indicator(
            input.double_clicked && action == KnobAction::EndSet,
        ),
{
    let empty = Seq::<KnobAction>::empty();
    let b = if input.drag_started { seq![KnobAction::BeginSet] } else { empty };
    let d = if input.dragged {
        seq![KnobAction::DragBy(drag_speed_spec(input.fine_adjust))]
    } else {
        empty
    };
    let e = if input.drag_stopped { seq![KnobAction::EndSet] } else { empty };
    let r1 = if input.double_clicked { seq![KnobAction::BeginSet] } else { empty };
    let r2 = if input.double_clicked { seq![KnobAction::ResetToDefault] } else { empty };
    let r3 = if input.double_clicked { seq![KnobAction::EndSet] } else { empty };
    assert(knob_action_seq(input) =~= b + d + e + r1 + r2 + r3);
    lemma_count_add(b + d + e + r1 + r2, r3, action);
    lemma_count_add(b + d + e + r1, r2, action);
    lemma_count_add(b + d + e, r1, action);
    lemma_count_add(b + d, e, action);
    lemma_count_add(b, d, action);
    lemma_count_optional(input.drag_started, KnobAction::BeginSet, action);
    lemma_count_optional(
        input.dragged,
        KnobAction::DragBy(drag_speed_spec(input.fine_adjust)),
        action,
    );
    lemma_count_optional(input.drag_stopped, KnobAction::EndSet, action);
    lemma_count_optional(input.double_clicked, KnobAction::BeginSet, action);
    lemma_count_optional(input.double_clicked, KnobAction::ResetToDefault, action);
    lemma_count_optional(input.double_clicked, KnobAction::EndSet, action);
}

/// What one frame does, counted step by step, for every input: a dragged frame moves the value
/// exactly once, at the fine speed while shift is held and at the normal speed otherwise; a double click
/// resets the value exactly once, whatever the modifier and the drag do; and gestures are opened
/// once for a drag start and once for a double click, and closed once for a drag stop and once
/// for a double click.
pub proof fn law_frame_step_counts(input: KnobInput)
    ensures
        count_of(knob_action_seq(input), KnobAction::DragBy(drag_speed_spec(input.fine_adjust)))
            == indicator(input.dragged),
        count_of(knob_action_seq(input), KnobAction::DragBy(drag_speed_spec(!input.fine_adjust)))
            == 0,
        count_of(knob_action_seq(input), KnobAction::DragBy(DragSpeed::Fine)) == indicator(
            input.dragged && input.fine_adjust,
        ),
        count_of(knob_action_seq(input), KnobAction::DragBy(DragSpeed::Normal)) == indicator(
            input.dragged && !input.fine_adjust,
        ),
        count_of(knob_action_seq(input), KnobAction::ResetToDefault) == indicator(
            input.double_clicked,
        ),
        count_of(knob_action_seq(input), KnobAction::BeginSet) == indicator(input.drag_started)
            + indicator(input.double_clicked),
        count_of(knob_action_seq(input), KnobAction::EndSet) == indicator(input.drag_stopped)
            + indicator(input.double_clicked),
{
    lemma_frame_count(input, KnobAction::DragBy(drag_speed_spec(input.fine_adjust)));
    lemma_frame_count(input, KnobAction::DragBy(drag_speed_spec(!input.fine_adjust)));
    lemma_frame_count(input, KnobAction::DragBy(DragSpeed::Fine));
    lemma_frame_count(input, KnobAction::DragBy(DragSpeed::Normal));
    lemma_frame_count(input, KnobAction::ResetToDefault);
    lemma_frame_count(input, KnobAction::BeginSet);
    lemma_frame_count(input, KnobAction::EndSet);
}

/// The order of one frame, for every input: a drag started in the frame opens its gesture before
/// anything else and is adjusted right after; a drag stopped in the frame is adjusted right before
/// its gesture closes; and a double click's reset gesture comes last, after all drag steps.
pub proof fn law_frame_step_order(input: KnobInput)
    ensures
        input.drag_started ==> knob_action_seq(input)[0] == KnobAction::BeginSet,
        input.drag_started && input.dragged ==> knob_action_seq(input)[1] == KnobAction::DragBy(
            drag_speed_spec(input.fine_adjust),
        ),
        input.dragged && input.drag_stopped ==> {
            let i = indicator(input.drag_started) as int;
            &&& knob_action_seq(input)[i] == KnobAction::DragBy(drag_speed_spec(input.fine_adjust))
            &&& knob_action_seq(input)[i + 1] == KnobAction::EndSet
        },
        input.double_clicked ==> {
            let s = knob_action_seq(input);
            &&& s.len() >= 3
            &&& s[s.len() - 3] == KnobAction::BeginSet
            &&& s[s.len() - 2] == KnobAction::ResetToDefault
            &&& s[s.len() - 1] == KnobAction::EndSet
        },
{
    let empty = Seq::<KnobAction>::empty();
    let speed = drag_speed_spec(input.fine_adjust);
    let b = if input.drag_started { seq![KnobAction::BeginSet] } else { empty };
    let d = if input.dragged { seq![KnobAction::DragBy(speed)] } else { empty };
    let e = if input.drag_stopped { seq![KnobAction::EndSet] } else { empty };
    let r = reset_steps(input);
    let s = knob_action_seq(input);
    assert(s =~= b + d + e + r);
    let i = indicator(input.drag_started) as int;
    assert(b.len() == i);
    if input.drag_started {
        assert(s[0] == b[0]);
        if input.dragged {
            assert(s[1] == d[0]);
        }
    }
    if input.dragged && input.drag_stopped {
        assert(s[i] == d[0]);
        assert(s[i + 1] == e[0]);
    }
    if input.double_clicked {
        let n = s.len();
        assert(n == b.len() + d.len() + e.len() + 3);
        assert(s[n - 3] == r[0]);
        assert(s[n - 2] == r[1]);
        assert(s[n - 1] == r[2]);
    }
}

} // verus!
