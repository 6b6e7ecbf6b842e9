use pong::{
    bounce, collide_with_side, handle_collisions, move_ball, Aabb2d, BoundingCircle, Collision,
    Point, Position, Shape, Vec2, Velocity,
};

fn circle(x: i64, y: i64, radius: i64) -> BoundingCircle {
    BoundingCircle { center: Point { x, y }, radius }
}

fn wall(min_x: i64, min_y: i64, max_x: i64, max_y: i64) -> Aabb2d {
    Aabb2d { min: Point { x: min_x, y: min_y }, max: Point { x: max_x, y: max_y } }
}

fn pos(x: i32, y: i32) -> Position {
    Position(Vec2::new(x, y))
}

fn shape(x: i32, y: i32) -> Shape {
    Shape(Vec2::new(x, y))
}

#[test]
fn circle_apart_from_box_does_not_collide() {
    assert_eq!(collide_with_side(circle(0, 0, 5), wall(10, -5, 20, 5)), None);
    assert_eq!(collide_with_side(circle(0, 0, 5), wall(4, 4, 20, 20)), None);
    assert_eq!(collide_with_side(circle(-100, 300, 50), wall(-10, -10, 10, 10)), None);
}

#[test]
fn circle_touching_box_edge_collides() {
    assert_eq!(collide_with_side(circle(0, 0, 5), wall(5, -5, 20, 5)), Some(Collision::Left));
    assert_eq!(collide_with_side(circle(0, 0, 5), wall(3, 4, 20, 20)), Some(Collision::Bottom));
}

#[test]
fn each_side_is_classified() {
    let b = wall(-10, -10, 10, 10);
    assert_eq!(collide_with_side(circle(-13, 0, 5), b), Some(Collision::Left));
    assert_eq!(collide_with_side(circle(13, 0, 5), b), Some(Collision::Right));
    assert_eq!(collide_with_side(circle(0, 13, 5), b), Some(Collision::Top));
    assert_eq!(collide_with_side(circle(0, -13, 5), b), Some(Collision::Bottom));
}

#[test]
fn equal_offsets_count_as_vertical() {
    let b = wall(-10, -10, 10, 10);
    assert_eq!(collide_with_side(circle(12, 12, 5), b), Some(Collision::Top));
    assert_eq!(collide_with_side(circle(-12, -12, 5), b), Some(Collision::Bottom));
    assert_eq!(collide_with_side(circle(12, -12, 5), b), Some(Collision::Bottom));
}

#[test]
fn center_inside_box_counts_as_bottom() {
    let b = wall(-10, -10, 10, 10);
    assert_eq!(collide_with_side(circle(3, 7, 5), b), Some(Collision::Bottom));
    assert_eq!(collide_with_side(circle(0, 0, 0), b), Some(Collision::Bottom));
}

#[test]
fn bounce_reverses_the_struck_axis() {
    let mut v = Velocity(Vec2::new(1, -1));
    bounce(&mut v, Collision::Left);
    assert_eq!(v.0, Vec2::new(-1, -1));
    bounce(&mut v, Collision::Right);
    assert_eq!(v.0, Vec2::new(1, -1));
    bounce(&mut v, Collision::Top);
    assert_eq!(v.0, Vec2::new(1, 1));
    bounce(&mut v, Collision::Bottom);
    assert_eq!(v.0, Vec2::new(1, -1));
}

#[test]
fn overlap_flips_exactly_one_axis() {
    let others = vec![(pos(50, 0), shape(10, 50))];
    let mut v = Velocity(Vec2::new(1, 1));
    handle_collisions(&mut v, &pos(42, 10), &shape(5, 5), &others);
    assert_eq!(v.0, Vec2::new(-1, 1));

    let mut v = Velocity(Vec2::new(1, 1));
    handle_collisions(&mut v, &pos(50, 28), &shape(5, 5), &others);
    assert_eq!(v.0, Vec2::new(1, -1));
}

#[test]
fn ball_away_from_every_box_keeps_its_velocity() {
    let others = vec![(pos(50, 0), shape(10, 50)), (pos(0, 290), shape(800, 20))];
    let mut v = Velocity(Vec2::new(-1, 1));
    handle_collisions(&mut v, &pos(0, 0), &shape(5, 5), &others);
    assert_eq!(v.0, Vec2::new(-1, 1));
}

#[test]
fn every_touched_box_bounces_the_ball() {
    let others = vec![
        (pos(50, 0), shape(10, 50)),
        (pos(0, 290), shape(800, 20)),
        (pos(50, 0), shape(10, 50)),
        (pos(42, 0), shape(2, 2)),
    ];
    let mut v = Velocity(Vec2::new(1, 1));
    handle_collisions(&mut v, &pos(42, 0), &shape(5, 5), &others);
    assert_eq!(v.0, Vec2::new(1, -1));
}

#[test]
fn odd_box_sizes_keep_half_units() {
    let others = vec![(pos(0, 0), shape(11, 51))];
    let mut v = Velocity(Vec2::new(-1, 1));
    handle_collisions(&mut v, &pos(10, 0), &shape(5, 5), &others);
    assert_eq!(v.0, Vec2::new(1, 1));

    let mut v = Velocity(Vec2::new(-1, 1));
    handle_collisions(&mut v, &pos(11, 0), &shape(5, 5), &others);
    assert_eq!(v.0, Vec2::new(-1, 1));
}

#[test]
fn box_builders_double_the_plane() {
    let c = BoundingCircle::of_ball(&pos(3, -4), &shape(5, 5));
    assert_eq!(c, circle(6, -8, 10));
    let b = Aabb2d::of_box(&pos(50, 0), &shape(10, 50));
    assert_eq!(b, wall(90, -50, 110, 50));
}

#[test]
fn ball_heading_right_bounces_off_the_paddle() {
    let paddle = vec![(pos(50, 0), shape(10, 50))];
    let ball_shape = shape(5, 5);
    let mut p = pos(0, -40);
    let mut v = Velocity(Vec2::new(1, 1));
    let mut frames: u32 = 0;
    while v.0.x == 1 && frames < 100 {
        move_ball(&mut p, &v);
        handle_collisions(&mut v, &p, &ball_shape, &paddle);
        frames += 1;
    }
    assert_eq!(frames, 20);
    assert_eq!(p, pos(40, 0));
    assert_eq!(v.0, Vec2::new(-1, 1));
}

#[test]
fn diagonal_ball_from_the_origin_passes_above_the_paddle() {
    let paddle = vec![(pos(50, 0), shape(10, 50))];
    let ball_shape = shape(5, 5);
    let mut p = pos(0, 0);
    let mut v = Velocity(Vec2::new(1, 1));
    for _ in 0..20 {
        move_ball(&mut p, &v);
        handle_collisions(&mut v, &p, &ball_shape, &paddle);
    }
    assert_eq!(p, pos(40, 40));
    assert_eq!(v.0, Vec2::new(1, 1));
}
