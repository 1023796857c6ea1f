use std::collections::VecDeque;

use snake_sim::Direction;
use snake_sim::DirectionController;
use snake_sim::FoodItem;
use snake_sim::FoodSpawner;
use snake_sim::GameState;
use snake_sim::Position;
use snake_sim::SnakeEngine;
use snake_sim::StepResult;
use snake_sim::TickClock;

fn pos(x: usize, y: usize) -> Position {
    Position { x, y }
}

#[test]
fn move_right_adds_one_column() {
    assert_eq!(Direction::Right.mov(&pos(6, 5)), pos(7, 5));
}

#[test]
fn move_left_subtracts_one_column() {
    assert_eq!(Direction::Left.mov(&pos(6, 5)), pos(5, 5));
}

#[test]
fn move_up_adds_one_row() {
    assert_eq!(Direction::Up.mov(&pos(6, 5)), pos(6, 6));
}

#[test]
fn move_down_subtracts_one_row() {
    assert_eq!(Direction::Down.mov(&pos(6, 5)), pos(6, 4));
}

#[test]
fn move_wraps_at_coordinate_bounds() {
    assert_eq!(Direction::Left.mov(&pos(0, 3)), pos(usize::MAX, 3));
    assert_eq!(Direction::Down.mov(&pos(3, 0)), pos(3, usize::MAX));
    assert_eq!(Direction::Right.mov(&pos(usize::MAX, 3)), pos(0, 3));
    assert_eq!(Direction::Up.mov(&pos(3, usize::MAX)), pos(3, 0));
}

#[test]
fn position_from_tuple() {
    assert_eq!(Position::from((6, 5)), pos(6, 5));
}

#[test]
fn game_state_dimensions_and_period() {
    let s = GameState::new();
    assert_eq!(s.width, 10);
    assert_eq!(s.height, 10);
    assert_eq!(s.clock.period_ms, 500);
    assert_eq!(s.clock.accumulated_ms, 0);
}

#[test]
fn in_bounds_edges() {
    let s = GameState::new();
    assert!(s.in_bounds(&pos(0, 0)));
    assert!(s.in_bounds(&pos(9, 9)));
    assert!(!s.in_bounds(&pos(10, 0)));
    assert!(!s.in_bounds(&pos(0, 10)));
}

#[test]
fn clock_fires_once_per_period() {
    let mut c = TickClock::new(500);
    c.advance(499);
    assert!(!c.tick_ready());
    c.advance(1);
    assert!(c.tick_ready());
    assert!(!c.tick_ready());
    assert_eq!(c.accumulated_ms, 0);
}

#[test]
fn clock_fires_repeatedly_when_spanning_periods() {
    let mut c = TickClock::new(500);
    c.advance(1200);
    assert!(c.tick_ready());
    assert!(c.tick_ready());
    assert!(!c.tick_ready());
    assert_eq!(c.accumulated_ms, 200);
}

#[test]
fn controller_last_write_before_tick_wins() {
    let mut c = DirectionController::new(Direction::Right);
    assert_eq!(c.current_heading(), Direction::Right);
    c.set_heading(Direction::Up);
    c.set_heading(Direction::Left);
    assert_eq!(c.current_heading(), Direction::Left);
}

#[test]
fn no_food_step_keeps_length() {
    let mut e = SnakeEngine::new(pos(6, 5));
    let foods = vec![FoodItem { id: 0, pos: pos(9, 9) }];
    let r = e.step(Direction::Right, &foods);
    assert_eq!(r, StepResult::Advanced);
    assert_eq!(e.cells(), vec![pos(7, 5)]);
    assert_eq!(e.len(), 1);
    assert_eq!(e.belly, 0);
}

#[test]
fn scenario_food_consumption() {
    let state = GameState::new();
    let mut engine = SnakeEngine::at_center(state.width, state.height);
    assert_eq!(engine.cells(), vec![pos(6, 5)]);
    let mut spawner = FoodSpawner::spawn_initial(state.width, state.height);
    assert_eq!(spawner.positions(), vec![pos(7, 6)]);
    let mut controller = DirectionController::new(Direction::Right);

    let r1 = engine.step(controller.current_heading(), &spawner.items);
    assert_eq!(r1, StepResult::Advanced);
    assert_eq!(engine.cells(), vec![pos(7, 5)]);

    controller.set_heading(Direction::Up);
    let r2 = engine.step(controller.current_heading(), &spawner.items);
    assert_eq!(r2, StepResult::Consumed(0));
    assert_eq!(engine.cells(), vec![pos(7, 6), pos(7, 5)]);
    assert_eq!(engine.belly, 0);

    spawner.on_consumed(0);
    assert_eq!(spawner.items.len(), 1);
    assert_ne!(spawner.items[0].id, 0);
    assert!(spawner.items[0].pos.x < 10);
    assert!(spawner.items[0].pos.y < 10);
}

#[test]
fn reversal_allows_self_overlap_and_keeps_length_rule() {
    let mut engine = SnakeEngine::new(pos(6, 5));
    let foods = vec![FoodItem { id: 0, pos: pos(7, 5) }];
    let r = engine.step(Direction::Right, &foods);
    assert_eq!(r, StepResult::Consumed(0));
    assert_eq!(engine.cells(), vec![pos(7, 5), pos(6, 5)]);

    let mut controller = DirectionController::new(Direction::Right);
    controller.set_heading(Direction::Left);
    let none: Vec<FoodItem> = Vec::new();
    let r2 = engine.step(controller.current_heading(), &none);
    assert_eq!(r2, StepResult::Advanced);
    assert_eq!(engine.cells(), vec![pos(6, 5), pos(7, 5)]);
    assert_eq!(engine.len(), 2);
}

#[test]
fn pending_credit_spent_in_place_of_tail() {
    let mut engine = SnakeEngine {
        parts: VecDeque::from(vec![pos(4, 4), pos(3, 4)]),
        belly: 1,
    };
    let none: Vec<FoodItem> = Vec::new();
    let r = engine.step(Direction::Right, &none);
    assert_eq!(r, StepResult::Advanced);
    assert_eq!(engine.cells(), vec![pos(5, 4), pos(4, 4), pos(3, 4)]);
    assert_eq!(engine.belly, 0);
}

#[test]
fn first_matching_food_is_the_one_consumed() {
    let mut engine = SnakeEngine::new(pos(6, 5));
    let foods = vec![
        FoodItem { id: 5, pos: pos(7, 5) },
        FoodItem { id: 9, pos: pos(7, 5) },
    ];
    let r = engine.step(Direction::Right, &foods);
    assert_eq!(r, StepResult::Consumed(5));
}

#[test]
fn consumption_removes_exactly_the_matched_item() {
    let mut spawner = FoodSpawner {
        items: vec![
            FoodItem { id: 0, pos: pos(1, 1) },
            FoodItem { id: 1, pos: pos(2, 2) },
            FoodItem { id: 2, pos: pos(3, 3) },
        ],
        next_id: 3,
    };
    spawner.on_consumed(1);
    assert_eq!(spawner.items.len(), 3);
    assert_eq!(spawner.items[0], FoodItem { id: 0, pos: pos(1, 1) });
    assert_eq!(spawner.items[1], FoodItem { id: 2, pos: pos(3, 3) });
    assert_eq!(spawner.items[2].id, 3);
    assert_eq!(spawner.next_id, 4);
}

#[test]
fn respawned_item_is_fresh_and_in_range() {
    let mut spawner = FoodSpawner::spawn_initial(10, 10);
    for _ in 0..50 {
        let id = spawner.items[0].id;
        let old_next = spawner.next_id;
        spawner.on_consumed(id);
        assert_eq!(spawner.items.len(), 1);
        assert_eq!(spawner.items[0].id, old_next);
        assert!(spawner.items[0].pos.x < 10);
        assert!(spawner.items[0].pos.y < 10);
    }
}

#[test]
fn engine_head_and_center_start() {
    let engine = SnakeEngine::at_center(10, 10);
    assert_eq!(engine.head(), pos(6, 5));
    assert_eq!(engine.len(), 1);
    assert_eq!(engine.belly, 0);
}
