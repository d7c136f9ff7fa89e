use frames::FrameError;
use frames::Frame;
use frames::Frames;
use frames::Point;
use frames::Transform;
use nalgebra::Complex;
use nalgebra::Isometry2;
use nalgebra::Translation2;
use nalgebra::UnitComplex;
use nalgebra::Vector2;

fn encode(iso: &Isometry2<f32>) -> Transform {
    Transform {
        rot_re: iso.rotation.re.to_bits(),
        rot_im: iso.rotation.im.to_bits(),
        pos_x: iso.translation.x.to_bits(),
        pos_y: iso.translation.y.to_bits(),
    }
}

fn decode(t: &Transform) -> Isometry2<f32> {
    Isometry2::from_parts(
        Translation2::new(f32::from_bits(t.pos_x), f32::from_bits(t.pos_y)),
        UnitComplex::new_unchecked(Complex::new(
            f32::from_bits(t.rot_re),
            f32::from_bits(t.rot_im),
        )),
    )
}

fn compose(a: Transform, b: Transform) -> Transform {
    encode(&(decode(&a) * decode(&b)))
}

fn relative_to(a: Transform, b: Transform) -> Transform {
    encode(&(decode(&a) / decode(&b)))
}

#[test]
fn point_from_frame_to_frame() -> Result<(), FrameError> {
    let some_rotation = std::f32::consts::FRAC_PI_2;

    let field = Frame::new("field");
    let robot = Frame::new("robot");
    let mut frames = Frames::new();

    frames.add_frame(field.clone(), encode(&Isometry2::new(Vector2::new(0., 0.), 0.)))?;
    frames.add_frame(
        robot.clone(),
        encode(&Isometry2::new(Vector2::new(1., 1.), some_rotation)),
    )?;

    let x = Point::new("x");
    frames.add_point_in_context(
        x.clone(),
        encode(&Isometry2::new(Vector2::new(5., 5.), some_rotation)),
        field,
        compose,
    )?;

    assert_eq!(
        decode(&frames.get_point_in_context(x, robot, relative_to)?),
        Isometry2::new(Vector2::new(4., 4.), 0.)
    );

    Ok(())
}

#[test]
fn frame_and_point_may_share_a_name() {
    let mut frames = Frames::new();
    let placement = encode(&Isometry2::new(Vector2::new(2., 3.), 1.));
    assert_eq!(frames.add_frame(Frame::new("base"), placement), Ok(()));
    assert_eq!(frames.add_point(Point::new("base"), placement), Ok(()));
    assert_eq!(frames.get_frame(Frame::new("base")), Ok(placement));
    assert_eq!(frames.get_point(Point::new("base")), Ok(placement));
}

#[test]
fn duplicate_frame_rejected_and_first_value_kept() {
    let mut frames = Frames::new();
    let first = encode(&Isometry2::new(Vector2::new(1., 2.), 0.5));
    let second = encode(&Isometry2::new(Vector2::new(9., 9.), 1.5));
    assert_eq!(frames.add_frame(Frame::new("base"), first), Ok(()));
    assert_eq!(
        frames.add_frame(Frame::new("base"), second),
        Err(FrameError::AlreadyExists)
    );
    assert_eq!(frames.get_frame(Frame::new("base")), Ok(first));
}

#[test]
fn duplicate_point_rejected_and_first_value_kept() {
    let mut frames = Frames::new();
    let first = encode(&Isometry2::new(Vector2::new(1., 2.), 0.5));
    let second = encode(&Isometry2::new(Vector2::new(9., 9.), 1.5));
    assert_eq!(frames.add_point(Point::new("p"), first), Ok(()));
    assert_eq!(
        frames.add_point(Point::new("p"), second),
        Err(FrameError::AlreadyExists)
    );
    assert_eq!(frames.get_point(Point::new("p")), Ok(first));
}

#[test]
fn lookups_of_unregistered_names_fail() {
    let frames = Frames::new();
    assert_eq!(
        frames.get_frame(Frame::new("nowhere")),
        Err(FrameError::CouldNotFindFrame)
    );
    assert_eq!(
        frames.get_point(Point::new("nowhere")),
        Err(FrameError::CouldNotFindPoint)
    );
}

#[test]
fn point_in_unknown_frame_is_not_inserted() {
    let mut frames = Frames::new();
    let local = encode(&Isometry2::new(Vector2::new(5., 5.), 0.));
    assert_eq!(
        frames.add_point_in_context(Point::new("x"), local, Frame::new("missing"), compose),
        Err(FrameError::CouldNotFindFrame)
    );
    assert_eq!(
        frames.get_point(Point::new("x")),
        Err(FrameError::CouldNotFindPoint)
    );
}

#[test]
fn unknown_frame_wins_over_existing_point() {
    let mut frames = Frames::new();
    let placement = encode(&Isometry2::new(Vector2::new(1., 1.), 0.));
    assert_eq!(frames.add_point(Point::new("x"), placement), Ok(()));
    assert_eq!(
        frames.add_point_in_context(Point::new("x"), placement, Frame::new("missing"), compose),
        Err(FrameError::CouldNotFindFrame)
    );
}

#[test]
fn query_of_unregistered_point_in_known_frame_fails() {
    let mut frames = Frames::new();
    let placement = encode(&Isometry2::new(Vector2::new(0., 0.), 0.));
    assert_eq!(frames.add_frame(Frame::new("field"), placement), Ok(()));
    assert_eq!(
        frames.get_point_in_context(Point::new("ghostly"), Frame::new("field"), relative_to),
        Err(FrameError::CouldNotFindPoint)
    );
}

#[test]
fn context_registration_stores_master_relative_placement() {
    let some_rotation = std::f32::consts::FRAC_PI_2;
    let mut frames = Frames::new();
    frames
        .add_frame(
            Frame::new("field"),
            encode(&Isometry2::new(Vector2::new(0., 0.), 0.)),
        )
        .unwrap();
    frames
        .add_frame(
            Frame::new("robot"),
            encode(&Isometry2::new(Vector2::new(1., 1.), some_rotation)),
        )
        .unwrap();
    let local = Isometry2::new(Vector2::new(5., 5.), some_rotation);
    frames
        .add_point_in_context(Point::new("x"), encode(&local), Frame::new("field"), compose)
        .unwrap();

    let stored = frames.get_point(Point::new("x")).unwrap();
    assert_eq!(
        decode(&stored),
        local * Isometry2::new(Vector2::new(0., 0.), 0.)
    );

    let in_robot = frames
        .get_point_in_context(Point::new("x"), Frame::new("robot"), relative_to)
        .unwrap();
    assert_eq!(decode(&in_robot), Isometry2::new(Vector2::new(4., 4.), 0.));
}

#[test]
fn round_trip_recovers_local_placement() {
    let mut frames = Frames::new();
    let frame_placement = Isometry2::new(Vector2::new(1.5, -2.25), 0.75);
    let local = Isometry2::new(Vector2::new(5., 5.), 1.25);
    frames
        .add_frame(Frame::new("f"), encode(&frame_placement))
        .unwrap();
    frames
        .add_point_in_context(Point::new("p"), encode(&local), Frame::new("f"), compose)
        .unwrap();
    let back = decode(
        &frames
            .get_point_in_context(Point::new("p"), Frame::new("f"), relative_to)
            .unwrap(),
    );
    assert!((back.translation.x - local.translation.x).abs() < 1e-4);
    assert!((back.translation.y - local.translation.y).abs() < 1e-4);
    assert!((back.rotation.angle() - local.rotation.angle()).abs() < 1e-4);
}
