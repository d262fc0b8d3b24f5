use dragon_rider::fractal::{fractal_n_step, next_fractal_step};
use dragon_rider::tracer::{
    canvas_size, create_fractal_lines, create_fractal_lines_chamfered, translate_points, CORNER_APPROACH,
    CORNER_LEAD, LINE_LENGTH,
};
use dragon_rider::vectors::{Direction, TurnDirection, Vector2i};

use Direction::{EAST, NORTH, SOUTH, WEST};
use TurnDirection::{LEFT, RIGHT};

fn v(x: i32, y: i32) -> Vector2i {
    Vector2i { x, y }
}

#[test]
fn depth_one_is_single_right_turn() {
    assert_eq!(fractal_n_step(1), vec![RIGHT]);
}

#[test]
fn depth_zero_is_single_right_turn() {
    assert_eq!(fractal_n_step(0), vec![RIGHT]);
}

#[test]
fn depth_two_folds_once() {
    assert_eq!(fractal_n_step(2), vec![RIGHT, RIGHT, LEFT]);
}

#[test]
fn depth_three_folds_twice() {
    assert_eq!(
        fractal_n_step(3),
        vec![RIGHT, RIGHT, LEFT, RIGHT, RIGHT, LEFT, LEFT]
    );
}

#[test]
fn next_step_of_depth_two_is_depth_three() {
    assert_eq!(next_fractal_step(&vec![RIGHT, RIGHT, LEFT]), fractal_n_step(3));
}

#[test]
fn next_step_of_empty_is_single_right() {
    assert_eq!(next_fractal_step(&Vec::new()), vec![RIGHT]);
}

#[test]
fn lengths_are_two_to_the_depth_minus_one() {
    for n in 1..=12u32 {
        assert_eq!(fractal_n_step(n).len(), (1usize << n) - 1);
    }
}

#[test]
fn repeated_generation_is_identical() {
    for n in 0..=10u32 {
        assert_eq!(fractal_n_step(n), fractal_n_step(n));
    }
}

#[test]
fn opposite_swaps_turns() {
    assert_eq!(LEFT.opposite(), RIGHT);
    assert_eq!(RIGHT.opposite(), LEFT);
    for t in [LEFT, RIGHT] {
        assert_eq!(t.opposite().opposite(), t);
    }
}

#[test]
fn transition_table() {
    assert_eq!(NORTH.next_direction(LEFT), WEST);
    assert_eq!(SOUTH.next_direction(LEFT), EAST);
    assert_eq!(EAST.next_direction(LEFT), NORTH);
    assert_eq!(WEST.next_direction(LEFT), SOUTH);
    assert_eq!(NORTH.next_direction(RIGHT), EAST);
    assert_eq!(SOUTH.next_direction(RIGHT), WEST);
    assert_eq!(EAST.next_direction(RIGHT), SOUTH);
    assert_eq!(WEST.next_direction(RIGHT), NORTH);
}

#[test]
fn four_turns_return_to_start() {
    for d in [NORTH, SOUTH, EAST, WEST] {
        for t in [LEFT, RIGHT] {
            let r = d
                .next_direction(t)
                .next_direction(t)
                .next_direction(t)
                .next_direction(t);
            assert_eq!(r, d);
            assert_ne!(d.next_direction(t), d);
        }
    }
}

#[test]
fn unit_moves() {
    assert_eq!(NORTH.cartesian_move(), v(0, 1));
    assert_eq!(Direction::SOUTH.cartesian_move(), v(0, -1));
    assert_eq!(Direction::EAST.cartesian_move(), v(1, 0));
    assert_eq!(Direction::WEST.cartesian_move(), v(-1, 0));
}

#[test]
fn names_of_directions_and_turns() {
    assert_eq!(Direction::NORTH.to_text(), "north");
    assert_eq!(Direction::SOUTH.to_text(), "south");
    assert_eq!(Direction::EAST.to_text(), "east");
    assert_eq!(Direction::WEST.to_text(), "west");
    assert_eq!(LEFT.to_text(), "L");
    assert_eq!(RIGHT.to_text(), "R");
}

#[test]
fn vector_arithmetic() {
    assert_eq!(v(1, 2) + v(3, -5), v(4, -3));
    assert_eq!(v(1, 2) - v(3, -5), v(-2, 7));
    assert_eq!(v(1, -2) * 20, v(20, -40));
    let mut p = v(7, 7);
    p.add_assign(v(1, -1));
    assert_eq!(p, v(8, 6));
    p.sub_assign(v(10, 10));
    assert_eq!(p, v(-2, -4));
}

#[test]
fn sharp_trace_of_single_turn() {
    let (points, min_x, min_y, max_x, max_y) = create_fractal_lines(&vec![RIGHT]);
    assert_eq!(points, vec![v(0, LINE_LENGTH)]);
    assert_eq!((min_x, min_y, max_x, max_y), (0, 0, 0, 20));
}

#[test]
fn sharp_trace_of_depth_two() {
    let (points, min_x, min_y, max_x, max_y) = create_fractal_lines(&fractal_n_step(2));
    assert_eq!(points, vec![v(0, 20), v(20, 20), v(20, 0)]);
    assert_eq!((min_x, min_y, max_x, max_y), (0, 0, 20, 20));
}

#[test]
fn sharp_trace_of_empty_sequence() {
    let (points, min_x, min_y, max_x, max_y) = create_fractal_lines(&Vec::new());
    assert!(points.is_empty());
    assert_eq!((min_x, min_y, max_x, max_y), (0, 0, 0, 0));
}

#[test]
fn sharp_trace_goes_negative_on_left_turns() {
    let (points, min_x, min_y, max_x, max_y) = create_fractal_lines(&vec![LEFT, LEFT, LEFT]);
    assert_eq!(points, vec![v(0, 20), v(-20, 20), v(-20, 0)]);
    assert_eq!((min_x, min_y, max_x, max_y), (-20, 0, 0, 20));
}

#[test]
fn chamfered_trace_of_single_turn() {
    let (points, min_x, min_y, max_x, max_y) = create_fractal_lines_chamfered(&vec![RIGHT]);
    assert_eq!(points, vec![v(0, 0), v(0, 15), v(5, 20)]);
    assert_eq!((min_x, min_y, max_x, max_y), (0, 0, 0, 20));
    assert_eq!(CORNER_APPROACH, 15);
    assert_eq!(CORNER_LEAD, 5);
}

#[test]
fn chamfered_trace_of_depth_two() {
    let (points, min_x, min_y, max_x, max_y) =
        create_fractal_lines_chamfered(&fractal_n_step(2));
    assert_eq!(
        points,
        vec![v(0, 0), v(0, 15), v(5, 20), v(15, 20), v(20, 15), v(20, 5), v(25, 0)]
    );
    assert_eq!((min_x, min_y, max_x, max_y), (0, 0, 20, 20));
}

#[test]
fn point_counts_match_sequence_length() {
    for n in 1..=10u32 {
        let turns = fractal_n_step(n);
        assert_eq!(create_fractal_lines(&turns).0.len(), turns.len());
        assert_eq!(create_fractal_lines_chamfered(&turns).0.len(), 2 * turns.len() + 1);
    }
}

#[test]
fn bounds_contain_every_point_and_are_reached() {
    for n in 1..=12u32 {
        let turns = fractal_n_step(n);
        let (points, min_x, min_y, max_x, max_y) = create_fractal_lines(&turns);
        for p in &points {
            assert!(min_x <= p.x && p.x <= max_x);
            assert!(min_y <= p.y && p.y <= max_y);
        }
        let xs: Vec<i32> = points.iter().map(|p| p.x).chain([0]).collect();
        let ys: Vec<i32> = points.iter().map(|p| p.y).chain([0]).collect();
        assert_eq!(*xs.iter().min().unwrap(), min_x);
        assert_eq!(*xs.iter().max().unwrap(), max_x);
        assert_eq!(*ys.iter().min().unwrap(), min_y);
        assert_eq!(*ys.iter().max().unwrap(), max_y);
    }
}

#[test]
fn chamfered_bounds_match_sharp_bounds() {
    for n in 1..=10u32 {
        let turns = fractal_n_step(n);
        let sharp = create_fractal_lines(&turns);
        let cut = create_fractal_lines_chamfered(&turns);
        assert_eq!((sharp.1, sharp.2, sharp.3, sharp.4), (cut.1, cut.2, cut.3, cut.4));
    }
}

#[test]
fn translated_points_fill_the_canvas() {
    for n in 1..=12u32 {
        let (points, min_x, min_y, max_x, max_y) = create_fractal_lines(&fractal_n_step(n));
        let moved = translate_points(&points, min_x, min_y).unwrap();
        assert_eq!(moved.len(), points.len());
        for (m, p) in moved.iter().zip(points.iter()) {
            assert_eq!(*m, v(p.x - min_x, p.y - min_y));
            assert!(m.x >= 0 && m.y >= 0);
        }
        assert_eq!(moved.iter().map(|p| p.x).max().unwrap(), max_x - min_x);
        assert_eq!(moved.iter().map(|p| p.y).max().unwrap(), max_y - min_y);
    }
}

#[test]
fn translate_of_depth_four() {
    let (points, min_x, min_y, _, _) = create_fractal_lines(&fractal_n_step(4));
    assert_eq!((min_x, min_y), (-20, -80));
    let moved = translate_points(&points, min_x, min_y).unwrap();
    assert_eq!(moved[0], v(20, 100));
}

#[test]
fn translate_rejects_overflow() {
    assert_eq!(translate_points(&vec![v(i32::MAX, 0)], -1, 0), None);
    assert_eq!(translate_points(&vec![v(0, i32::MIN)], 0, 1), None);
    assert_eq!(translate_points(&vec![v(0, 0), v(i32::MAX, 0)], 0, 0), Some(vec![v(0, 0), v(i32::MAX, 0)]));
    assert_eq!(translate_points(&Vec::new(), 5, 5), Some(Vec::new()));
}

#[test]
fn canvas_size_is_extent_of_bounds() {
    assert_eq!(canvas_size(-20, -80, 40, 20), (60, 100));
    assert_eq!(canvas_size(0, 0, 0, 0), (0, 0));
    assert_eq!(canvas_size(i32::MIN, 0, i32::MAX, 0), (u32::MAX, 0));
}
