use canvas_triangle::renderer::failure_message;
use canvas_triangle::setup::advance;
use canvas_triangle::setup::initial_state;
use canvas_triangle::setup::run_steps;
use canvas_triangle::setup::EnvironmentPreconditionFailure;
use canvas_triangle::setup::SetupState;
use canvas_triangle::setup::Stage;

#[test]
fn the_chain_starts_at_the_window_stage() {
    assert_eq!(initial_state(), SetupState::Pending(Stage::Window));
}

#[test]
fn each_successful_acquisition_proceeds_to_the_next_stage() {
    let order = [
        Stage::Window,
        Stage::Document,
        Stage::Element,
        Stage::Canvas,
        Stage::Context,
        Stage::Context2d,
    ];
    let mut state = initial_state();
    for stage in order {
        assert_eq!(state, SetupState::Pending(stage));
        state = advance(state, true);
    }
    assert_eq!(state, SetupState::Ready);
}

#[test]
fn a_failed_acquisition_aborts_at_its_own_stage() {
    for failing in 0..6 {
        let mut events = vec![true; failing];
        events.push(false);
        let state = run_steps(&events);
        match state {
            SetupState::Aborted(_) => {}
            other => panic!("expected an abort, got {:?}", other),
        }
    }
    assert_eq!(run_steps(&vec![false]), SetupState::Aborted(Stage::Window));
    assert_eq!(run_steps(&vec![true, false]), SetupState::Aborted(Stage::Document));
    assert_eq!(run_steps(&vec![true, true, false]), SetupState::Aborted(Stage::Element));
    assert_eq!(run_steps(&vec![true, true, true, false]), SetupState::Aborted(Stage::Canvas));
    assert_eq!(run_steps(&vec![true, true, true, true, false]), SetupState::Aborted(Stage::Context));
    assert_eq!(
        run_steps(&vec![true, true, true, true, true, false]),
        SetupState::Aborted(Stage::Context2d)
    );
}

#[test]
fn terminal_states_ignore_later_outcomes() {
    let ready = run_steps(&vec![true, true, true, true, true, true, false, false]);
    assert_eq!(ready, SetupState::Ready);
    let aborted = run_steps(&vec![true, false, true, true, true, true, true]);
    assert_eq!(aborted, SetupState::Aborted(Stage::Document));
}

#[test]
fn an_empty_run_is_still_pending() {
    assert_eq!(run_steps(&Vec::new()), SetupState::Pending(Stage::Window));
}

#[test]
fn every_stage_has_its_own_failure_message() {
    let stages = [
        Stage::Window,
        Stage::Document,
        Stage::Element,
        Stage::Canvas,
        Stage::Context,
        Stage::Context2d,
    ];
    let mut seen: Vec<&str> = Vec::new();
    for stage in stages {
        let message = failure_message(&EnvironmentPreconditionFailure { stage });
        assert!(!message.is_empty());
        assert!(!seen.contains(&message));
        seen.push(message);
    }
    assert_eq!(
        failure_message(&EnvironmentPreconditionFailure { stage: Stage::Element }),
        "no element has the expected id"
    );
}
