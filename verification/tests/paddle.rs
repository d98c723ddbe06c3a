use pong::paddle::{PADDLE_HEIGHT, PADDLE_STEP, PADDLE_WIDTH};
use pong::units::{AXIS_FULL, MICROS_PER_UNIT};
use pong::{AxisInput, Paddle, PaddleSystem, Position, Side};

fn at(x: i64, y: i64) -> Position {
    Position { x, y }
}

fn axes(left: Option<i32>, right: Option<i32>) -> AxisInput {
    AxisInput { left_paddle: left, right_paddle: right }
}

#[test]
fn paddle_has_the_standard_size() {
    let left = Paddle::new(Side::Left);
    assert_eq!(left, Paddle { side: Side::Left, width: 16_000_000, height: 4_000_000 });
    assert_eq!(left.width, 16 * MICROS_PER_UNIT);
    assert_eq!(left.height, 4 * MICROS_PER_UNIT);
    assert_eq!(PADDLE_WIDTH, 16 * MICROS_PER_UNIT);
    assert_eq!(PADDLE_HEIGHT, 4 * MICROS_PER_UNIT);
    let right = Paddle::new(Side::Right);
    assert_eq!(right.side, Side::Right);
    assert_eq!(right.width, left.width);
    assert_eq!(right.height, left.height);
}

#[test]
fn axis_names_follow_the_side() {
    assert_eq!(Side::Left.axis_name(), "left_paddle");
    assert_eq!(Side::Right.axis_name(), "right_paddle");
}

#[test]
fn axis_value_reads_the_axis_of_the_side() {
    let input = axes(Some(250), Some(-750));
    assert_eq!(input.axis_value(Side::Left), Some(250));
    assert_eq!(input.axis_value(Side::Right), Some(-750));
    let unbound = axes(None, Some(1));
    assert_eq!(unbound.axis_value(Side::Left), None);
    assert_eq!(unbound.axis_value(Side::Right), Some(1));
}

#[test]
fn full_deflection_moves_the_paddle_by_one_and_a_fifth_units() {
    let paddle = Paddle::new(Side::Left);
    let mut position = at(8_000_000, 50_000_000);
    paddle.steer(&mut position, &axes(Some(AXIS_FULL), None));
    assert_eq!(position, at(8_000_000, 51_200_000));
    assert_eq!(position.y - 50_000_000, 12 * MICROS_PER_UNIT / 10);
    assert_eq!(PADDLE_STEP * i64::from(AXIS_FULL), 1_200_000);
}

#[test]
fn paddle_movement_adds_up_over_frames() {
    let paddle = Paddle::new(Side::Right);
    let mut position = at(92_000_000, 50_000_000);
    let input = axes(None, Some(AXIS_FULL));
    let mut frame: u32 = 0;
    while frame < 10 {
        paddle.steer(&mut position, &input);
        frame += 1;
    }
    assert_eq!(position, at(92_000_000, 62_000_000));
}

#[test]
fn negative_and_partial_deflection_scale_the_step() {
    let paddle = Paddle::new(Side::Left);
    let mut position = at(8_000_000, 50_000_000);
    paddle.steer(&mut position, &axes(Some(-1000), None));
    assert_eq!(position, at(8_000_000, 48_800_000));
    paddle.steer(&mut position, &axes(Some(500), None));
    assert_eq!(position, at(8_000_000, 49_400_000));
    paddle.steer(&mut position, &axes(Some(1), None));
    assert_eq!(position, at(8_000_000, 49_401_200));
}

#[test]
fn zero_deflection_moves_nothing() {
    let paddle = Paddle::new(Side::Left);
    let mut position = at(8_000_000, 50_000_000);
    paddle.steer(&mut position, &axes(Some(0), Some(1000)));
    assert_eq!(position, at(8_000_000, 50_000_000));
}

#[test]
fn unbound_axis_moves_nothing() {
    let paddle = Paddle::new(Side::Left);
    let mut position = at(8_000_000, 50_000_000);
    paddle.steer(&mut position, &axes(None, Some(1000)));
    assert_eq!(position, at(8_000_000, 50_000_000));
}

#[test]
fn each_paddle_follows_its_own_axis() {
    let input = axes(Some(1000), Some(-1000));
    let mut left = at(8_000_000, 50_000_000);
    let mut right = at(92_000_000, 50_000_000);
    Paddle::new(Side::Left).steer(&mut left, &input);
    Paddle::new(Side::Right).steer(&mut right, &input);
    assert_eq!(left, at(8_000_000, 51_200_000));
    assert_eq!(right, at(92_000_000, 48_800_000));
}

#[test]
fn paddle_is_not_kept_inside_the_arena() {
    let paddle = Paddle::new(Side::Left);
    let mut position = at(8_000_000, 99_500_000);
    paddle.steer(&mut position, &axes(Some(1000), None));
    assert_eq!(position, at(8_000_000, 100_700_000));
    let mut low = at(8_000_000, 500_000);
    paddle.steer(&mut low, &axes(Some(-1000), None));
    assert_eq!(low, at(8_000_000, -700_000));
}

#[test]
fn can_steer_tells_when_the_position_fits() {
    let paddle = Paddle::new(Side::Left);
    let up = axes(Some(1), None);
    assert!(paddle.can_steer(&at(0, i64::MAX - 1_200), &up));
    assert!(!paddle.can_steer(&at(0, i64::MAX - 1_199), &up));
    assert!(paddle.can_steer(&at(0, i64::MAX), &axes(None, Some(1))));
    assert!(paddle.can_steer(&at(0, i64::MAX), &axes(Some(0), None)));
    let down = axes(Some(-1), None);
    assert!(paddle.can_steer(&at(0, i64::MIN + 1_200), &down));
    assert!(!paddle.can_steer(&at(0, i64::MIN + 1_199), &down));
    assert!(paddle.can_steer(&at(0, 0), &axes(Some(i32::MAX), None)));
    assert!(paddle.can_steer(&at(0, 0), &axes(Some(i32::MIN), None)));
}

#[test]
fn steer_reaches_the_last_position_that_fits() {
    let paddle = Paddle::new(Side::Left);
    let mut position = at(3, i64::MAX - 1_200);
    paddle.steer(&mut position, &axes(Some(1), None));
    assert_eq!(position, at(3, i64::MAX));
}

#[test]
fn paddle_system_steers_every_paddle_with_a_position() {
    let mut positions = vec![
        Some(at(8_000_000, 50_000_000)),
        Some(at(92_000_000, 50_000_000)),
        Some(at(50_000_000, 50_000_000)),
        None,
    ];
    let paddles = vec![
        Some(Paddle::new(Side::Left)),
        Some(Paddle::new(Side::Right)),
        None,
        Some(Paddle::new(Side::Left)),
    ];
    let input = axes(Some(1000), Some(-250));
    let mut system = PaddleSystem;
    assert!(system.can_run(&positions, &paddles, &input));
    system.run(&mut positions, &paddles, &input);
    assert_eq!(
        positions,
        vec![
            Some(at(8_000_000, 51_200_000)),
            Some(at(92_000_000, 49_700_000)),
            Some(at(50_000_000, 50_000_000)),
            None,
        ]
    );
}

#[test]
fn paddle_system_takes_storages_of_different_lengths() {
    let input = axes(Some(1000), Some(1000));
    let mut system = PaddleSystem;

    let mut longer = vec![Some(at(1, 1)), Some(at(2, 2)), Some(at(3, 3))];
    let one_paddle = vec![Some(Paddle::new(Side::Right))];
    system.run(&mut longer, &one_paddle, &input);
    assert_eq!(longer, vec![Some(at(1, 1_200_001)), Some(at(2, 2)), Some(at(3, 3))]);

    let mut shorter = vec![Some(at(1, 1))];
    let paddles = vec![None, Some(Paddle::new(Side::Left)), Some(Paddle::new(Side::Left))];
    system.run(&mut shorter, &paddles, &input);
    assert_eq!(shorter, vec![Some(at(1, 1))]);

    let mut none: Vec<Option<Position>> = Vec::new();
    system.run(&mut none, &paddles, &input);
    assert!(none.is_empty());
}

#[test]
fn paddle_system_can_run_finds_the_paddle_that_does_not_fit() {
    let system = PaddleSystem;
    let paddles = vec![Some(Paddle::new(Side::Left)), Some(Paddle::new(Side::Right))];
    let positions = vec![Some(at(0, 0)), Some(at(0, i64::MAX))];
    assert!(system.can_run(&positions, &paddles, &axes(Some(1000), None)));
    assert!(system.can_run(&positions, &paddles, &axes(Some(1000), Some(0))));
    assert!(!system.can_run(&positions, &paddles, &axes(Some(1000), Some(1))));
    assert!(system.can_run(&positions, &paddles, &axes(Some(1000), Some(-1))));
    let unpaired = vec![Some(at(0, 0)), None];
    assert!(system.can_run(&unpaired, &paddles, &axes(Some(1000), Some(1))));
}
