use openeq::knob_gesture::{drag_speed, knob_actions, DragSpeed, KnobAction, KnobInput};

fn input() -> KnobInput {
    KnobInput {
        drag_started: false,
        dragged: false,
        drag_stopped: false,
        double_clicked: false,
        fine_adjust: false,
    }
}

#[test]
fn idle_frame_issues_nothing() {
    assert!(knob_actions(input()).is_empty());
    assert!(knob_actions(KnobInput { fine_adjust: true, ..input() }).is_empty());
}

#[test]
fn drag_start_opens_a_gesture_and_adjusts() {
    let actions = knob_actions(KnobInput { drag_started: true, dragged: true, ..input() });
    assert_eq!(
        actions,
        vec![KnobAction::BeginSet, KnobAction::DragBy(DragSpeed::Normal)]
    );
}

#[test]
fn shift_makes_the_drag_fine() {
    let actions = knob_actions(KnobInput { dragged: true, fine_adjust: true, ..input() });
    assert_eq!(actions, vec![KnobAction::DragBy(DragSpeed::Fine)]);
    assert_eq!(drag_speed(true), DragSpeed::Fine);
    assert_eq!(drag_speed(false), DragSpeed::Normal);
}

#[test]
fn drag_stop_closes_the_gesture() {
    let actions = knob_actions(KnobInput { drag_stopped: true, ..input() });
    assert_eq!(actions, vec![KnobAction::EndSet]);
}

#[test]
fn double_click_resets_inside_its_own_gesture() {
    let actions = knob_actions(KnobInput { double_clicked: true, ..input() });
    assert_eq!(
        actions,
        vec![KnobAction::BeginSet, KnobAction::ResetToDefault, KnobAction::EndSet]
    );
}

#[test]
fn all_events_come_in_order() {
    let actions = knob_actions(KnobInput {
        drag_started: true,
        dragged: true,
        drag_stopped: true,
        double_clicked: true,
        fine_adjust: true,
    });
    assert_eq!(
        actions,
        vec![
            KnobAction::BeginSet,
            KnobAction::DragBy(DragSpeed::Fine),
            KnobAction::EndSet,
            KnobAction::BeginSet,
            KnobAction::ResetToDefault,
            KnobAction::EndSet,
        ]
    );
}

#[test]
fn every_reset_is_bracketed_for_every_input() {
    for bits in 0u8..32 {
        let input = KnobInput {
            drag_started: bits & 1 != 0,
            dragged: bits & 2 != 0,
            drag_stopped: bits & 4 != 0,
            double_clicked: bits & 8 != 0,
            fine_adjust: bits & 16 != 0,
        };
        let actions = knob_actions(input);
        for (i, action) in actions.iter().enumerate() {
            if *action == KnobAction::ResetToDefault {
                assert!(i > 0 && actions[i - 1] == KnobAction::BeginSet);
                assert!(i + 1 < actions.len() && actions[i + 1] == KnobAction::EndSet);
            }
        }
        let drags = actions.iter().filter(|a| matches!(a, KnobAction::DragBy(_))).count();
        assert!(drags <= 1);
    }
}

#[test]
fn drag_over_frames_is_one_balanced_gesture() {
    let mut frames = vec![KnobInput { drag_started: true, dragged: true, ..input() }];
    frames.push(KnobInput { dragged: true, fine_adjust: true, ..input() });
    frames.push(input());
    frames.push(KnobInput { dragged: true, ..input() });
    frames.push(KnobInput { dragged: true, drag_stopped: true, ..input() });

    let steps: Vec<KnobAction> = frames.iter().flat_map(|frame| knob_actions(*frame)).collect();
    assert_eq!(
        steps,
        vec![
            KnobAction::BeginSet,
            KnobAction::DragBy(DragSpeed::Normal),
            KnobAction::DragBy(DragSpeed::Fine),
            KnobAction::DragBy(DragSpeed::Normal),
            KnobAction::DragBy(DragSpeed::Normal),
            KnobAction::EndSet,
        ]
    );
}

#[test]
fn single_frame_drag_opens_and_closes() {
    let steps = knob_actions(KnobInput { drag_started: true, drag_stopped: true, ..input() });
    assert_eq!(steps, vec![KnobAction::BeginSet, KnobAction::EndSet]);
}
