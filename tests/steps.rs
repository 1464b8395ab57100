use nimble_steps::{ParticipantStep, ParticipantSteps, Step, Steps, TICK_ID_MAX};
use tick_id::TickId;

use Step::Custom;

#[derive(Debug, PartialEq, Eq)]
enum GameInput {
    Jumping(bool),
    MoveHorizontal(i32),
}

fn batch(step: Step<GameInput>) -> ParticipantSteps<GameInput> {
    let mut b = ParticipantSteps::new();
    b.push(0, step);
    b
}

fn marked(id: u8) -> ParticipantSteps<GameInput> {
    let mut b = ParticipantSteps::new();
    b.push(id, Step::Forced);
    b
}

#[test]
fn add_step() {
    let mut steps = Steps::<GameInput>::new_with_initial_tick(TickId(23));
    steps.push(batch(Custom(GameInput::MoveHorizontal(-2))));
    assert_eq!(steps.len(), 1);
    assert_eq!(steps.front_tick_id().unwrap().value(), 23)
}

#[test]
fn push_and_pop_step() {
    let mut steps = Steps::<GameInput>::new_with_initial_tick(TickId(23));
    steps.push(batch(Custom(GameInput::Jumping(true))));
    steps.push(batch(Custom(GameInput::MoveHorizontal(42))));
    assert_eq!(steps.len(), 2);
    assert_eq!(steps.front_tick_id().unwrap().value(), 23);
    let info = steps.pop().unwrap();
    assert_eq!(info.step.steps[0].step, Custom(GameInput::Jumping(true)));
    assert_eq!(info.tick_id.value(), 23);
    assert_eq!(steps.front_tick_id().unwrap().value(), 24);
}

#[test]
fn push_and_pop_count() {
    let mut steps = Steps::<GameInput>::new_with_initial_tick(TickId(23));
    steps.push(batch(Custom(GameInput::Jumping(true))));
    steps.push(batch(Custom(GameInput::MoveHorizontal(42))));
    assert_eq!(steps.len(), 2);
    steps.pop_count(8);
    assert_eq!(steps.len(), 0);
}

#[test]
fn push_and_pop_up_to_lower() {
    let mut steps = Steps::<GameInput>::new_with_initial_tick(TickId(23));
    steps.push(batch(Custom(GameInput::Jumping(true))));
    steps.push(batch(Custom(GameInput::MoveHorizontal(42))));
    assert_eq!(steps.len(), 2);
    steps.pop_up_to(TickId(1));
    assert_eq!(steps.len(), 2);
}

#[test]
fn push_and_pop_up_to_equal() {
    let mut steps = Steps::<GameInput>::new_with_initial_tick(TickId(23));
    steps.push(batch(Custom(GameInput::Jumping(true))));
    steps.push(batch(Custom(GameInput::MoveHorizontal(42))));
    assert_eq!(steps.len(), 2);
    steps.pop_up_to(TickId::new(24));
    assert_eq!(steps.len(), 1);
}

#[test]
fn batches_pop_in_push_order_with_consecutive_ticks() {
    let mut steps = Steps::<GameInput>::new_with_initial_tick(TickId::new(5));
    for id in 0..4u8 {
        steps.push(marked(id));
    }
    for id in 0..4u8 {
        let info = steps.pop().unwrap();
        assert_eq!(info.tick_id.value(), 5 + id as u32);
        assert_eq!(info.step.steps[0].participant_id, id);
    }
    assert!(steps.pop().is_none());
}

#[test]
fn pop_on_empty_keeps_both_cursors() {
    let mut steps = Steps::<GameInput>::new_with_initial_tick(TickId::new(9));
    assert!(steps.pop().is_none());
    assert!(steps.is_empty());
    assert_eq!(steps.front_tick_id(), None);
    steps.push(marked(1));
    assert_eq!(steps.back_tick_id().unwrap().value(), 9);
    assert_eq!(steps.pop().unwrap().tick_id.value(), 9);
}

#[test]
fn lengths_follow_pushes_and_pops() {
    let mut steps = Steps::<GameInput>::new();
    for n in 1..=5usize {
        steps.push(marked(n as u8));
        assert_eq!(steps.len(), n);
    }
    for m in 1..=5usize {
        assert!(steps.pop().is_some());
        assert_eq!(steps.len(), 5 - m);
    }
    assert!(steps.is_empty());
}

#[test]
fn new_and_default_start_at_tick_zero() {
    let mut steps = Steps::<GameInput>::new();
    steps.push(marked(0));
    assert_eq!(steps.front_tick_id().unwrap().value(), 0);
    let mut other: Steps<GameInput> = Default::default();
    other.push(marked(0));
    assert_eq!(other.back_tick_id().unwrap().value(), 0);
}

#[test]
fn front_and_back_ticks() {
    let mut steps = Steps::<GameInput>::new_with_initial_tick(TickId::new(100));
    assert_eq!(steps.back_tick_id(), None);
    steps.push(marked(0));
    steps.push(marked(1));
    steps.push(marked(2));
    assert_eq!(steps.front_tick_id().unwrap().value(), 100);
    assert_eq!(steps.back_tick_id().unwrap().value(), 102);
}

#[test]
fn pop_up_to_at_or_below_front_is_no_op() {
    let mut steps = Steps::<GameInput>::new_with_initial_tick(TickId::new(10));
    steps.push(marked(0));
    steps.push(marked(1));
    steps.pop_up_to(TickId::new(10));
    assert_eq!(steps.len(), 2);
    assert_eq!(steps.front_tick_id().unwrap().value(), 10);
}

#[test]
fn pop_up_to_past_back_empties() {
    let mut steps = Steps::<GameInput>::new_with_initial_tick(TickId::new(10));
    steps.push(marked(0));
    steps.push(marked(1));
    steps.pop_up_to(TickId::new(50));
    assert!(steps.is_empty());
    steps.push(marked(2));
    assert_eq!(steps.pop().unwrap().tick_id.value(), 12);
}

#[test]
fn pop_up_to_one_past_back_empties() {
    let mut steps = Steps::<GameInput>::new_with_initial_tick(TickId::new(10));
    steps.push(marked(0));
    steps.push(marked(1));
    steps.pop_up_to(TickId::new(12));
    assert_eq!(steps.len(), 0);
}

#[test]
fn pop_up_to_drops_only_lower_ticks_and_pop_resumes() {
    let mut steps = Steps::<GameInput>::new_with_initial_tick(TickId::new(10));
    for id in 0..5u8 {
        steps.push(marked(id));
    }
    steps.pop_up_to(TickId::new(13));
    assert_eq!(steps.len(), 2);
    let info = steps.pop().unwrap();
    assert_eq!(info.tick_id.value(), 13);
    assert_eq!(info.step.steps[0].participant_id, 3);
}

#[test]
fn pop_count_below_length_drops_oldest() {
    let mut steps = Steps::<GameInput>::new_with_initial_tick(TickId::new(7));
    for id in 0..4u8 {
        steps.push(marked(id));
    }
    steps.pop_count(3);
    assert_eq!(steps.len(), 1);
    let info = steps.pop().unwrap();
    assert_eq!(info.tick_id.value(), 10);
    assert_eq!(info.step.steps[0].participant_id, 3);
}

#[test]
fn pop_count_equal_to_length_empties() {
    let mut steps = Steps::<GameInput>::new_with_initial_tick(TickId::new(7));
    steps.push(marked(0));
    steps.push(marked(1));
    steps.pop_count(2);
    assert!(steps.is_empty());
    steps.push(marked(2));
    assert_eq!(steps.front_tick_id().unwrap().value(), 9);
}

#[test]
fn pop_count_zero_is_no_op() {
    let mut steps = Steps::<GameInput>::new_with_initial_tick(TickId::new(7));
    steps.push(marked(0));
    steps.pop_count(0);
    assert_eq!(steps.len(), 1);
    assert_eq!(steps.pop().unwrap().tick_id.value(), 7);
}

#[test]
fn push_at_largest_tick_below_max() {
    let mut steps = Steps::<GameInput>::new_with_initial_tick(TickId::new(TICK_ID_MAX - 1));
    steps.push(marked(0));
    assert_eq!(steps.back_tick_id().unwrap().value(), TICK_ID_MAX - 1);
    assert_eq!(steps.pop().unwrap().tick_id.value(), TICK_ID_MAX - 1);
}

#[test]
fn participant_steps_keep_insertion_order() {
    let mut b = ParticipantSteps::<GameInput>::new();
    assert!(b.is_empty());
    assert_eq!(b.len(), 0);
    b.push(4, Step::WaitingForReconnect);
    b.push(2, Custom(GameInput::MoveHorizontal(3)));
    b.push(4, Step::Forced);
    assert_eq!(b.len(), 3);
    assert!(!b.is_empty());
    assert_eq!(b.steps[0].participant_id, 4);
    assert_eq!(b.steps[0].step, Step::WaitingForReconnect);
    assert_eq!(b.steps[1].participant_id, 2);
    assert_eq!(b.steps[1].step, Custom(GameInput::MoveHorizontal(3)));
    assert_eq!(b.steps[2].step, Step::Forced);
}

#[test]
fn participant_step_new_and_default_batch() {
    let s = ParticipantStep::new(7, Custom(GameInput::Jumping(false)));
    assert_eq!(s.participant_id, 7);
    assert_eq!(s.step, Custom(GameInput::Jumping(false)));
    let b: ParticipantSteps<GameInput> = Default::default();
    assert!(b.is_empty());
}
