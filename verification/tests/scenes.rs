use clock_face::angle::Angle;
use clock_face::dial::{Hand, Layout, Point};
use clock_face::reading::ClockReading;
use clock_face::scene::{
    clock_scene, clock_scene_now, hand, still_scene, tick, Color, FontFamily, Placement, Scale,
    Scene, Shape, TextStyle,
};

const CHALK: Color = Color { red: 100, green: 100, blue: 100, alpha: 100 };
const CENTER: Point = Point { x: 20000, y: 11000 };

fn at(hour: u32, minute: u32, second: u32) -> ClockReading {
    ClockReading::new(hour, minute, second).unwrap()
}

fn double() -> Scale {
    Scale { actual_width: 800, logical_width: 400 }
}

fn hand_of(scene: &Scene, index: usize) -> (i64, i64, Angle, i64, Color) {
    match scene.shapes[index] {
        Shape::Spoke { center, inner, outer, bearing, line_width, color } => {
            assert_eq!(center, CENTER);
            (inner, outer, bearing, line_width, color)
        }
        _ => panic!("shape {} is no spoke", index),
    }
}

#[test]
fn clock_scene_at_three_o_clock() {
    let scene = clock_scene(&Layout::standard(), double(), &at(3, 0, 0));
    assert_eq!(scene.scale, double());
    assert_eq!(scene.shapes.len(), 17);
    assert_eq!(
        scene.shapes[0],
        Shape::Fill {
            width: 40000,
            height: 30000,
            color: Color { red: 77, green: 40, blue: 20, alpha: 100 }
        }
    );
    assert_eq!(
        scene.shapes[1],
        Shape::Ring { center: CENTER, radius: 10000, line_width: 200, color: CHALK }
    );
    assert_eq!(
        hand_of(&scene, 14),
        (0, 5000, Angle::from_degrees(90), 500, Color { red: 100, green: 0, blue: 0, alpha: 100 })
    );
    assert_eq!(
        hand_of(&scene, 15),
        (0, 7000, Angle::from_degrees(0), 400, Color { red: 0, green: 100, blue: 0, alpha: 100 })
    );
    assert_eq!(
        hand_of(&scene, 16),
        (0, 7500, Angle::from_degrees(0), 300, Color { red: 0, green: 0, blue: 100, alpha: 100 })
    );
    assert_eq!(scene.caption.text, "03:00:00");
    assert_eq!(
        scene.caption.style,
        TextStyle {
            family: FontFamily::SansSerif,
            placement: Placement::CenteredOn { x: 20000 },
            baseline: 26000,
            font_size: 2400,
            bold: true,
            color: CHALK,
        }
    );
}

#[test]
fn clock_scene_at_half_past_midnight() {
    let scene = clock_scene(&Layout::standard(), double(), &at(0, 30, 0));
    assert_eq!(hand_of(&scene, 14).2, Angle::from_degrees(15));
    assert_eq!(hand_of(&scene, 15).2, Angle::from_degrees(180));
    assert_eq!(hand_of(&scene, 16).2, Angle::from_degrees(0));
    assert_eq!(scene.caption.text, "00:30:00");
}

#[test]
fn clock_scene_draws_ticks_from_eleven_down_to_zero() {
    let layout = Layout::standard();
    let scene = clock_scene(&layout, double(), &at(10, 9, 8));
    for k in 0..12usize {
        let index = 11 - k as u32;
        assert_eq!(scene.shapes[2 + k], tick(&layout, index));
        let (inner, outer, bearing, line_width, color) = hand_of(&scene, 2 + k);
        assert_eq!(outer, 10000);
        assert_eq!(inner, if index % 3 == 0 { 8000 } else { 9000 });
        assert_eq!(bearing, Angle::from_degrees(30 * index + 90));
        assert_eq!(line_width, 200);
        assert_eq!(color, CHALK);
    }
}

#[test]
fn clock_scene_hands_are_the_three_hands() {
    let layout = Layout { width: 640, height: 480, radius: 150 };
    let reading = at(17, 42, 13);
    let scene = clock_scene(&layout, double(), &reading);
    assert_eq!(scene.shapes[14], hand(&layout, Hand::Hour, &reading));
    assert_eq!(scene.shapes[15], hand(&layout, Hand::Minute, &reading));
    assert_eq!(scene.shapes[16], hand(&layout, Hand::Second, &reading));
    assert_eq!(
        scene.shapes[14],
        Shape::Spoke {
            center: Point { x: 32000, y: 20000 },
            inner: 0,
            outer: 7500,
            bearing: Angle { half_degrees: 342 },
            line_width: 500,
            color: Color { red: 100, green: 0, blue: 0, alpha: 100 },
        }
    );
    assert_eq!(scene.caption.text, "17:42:13");
    assert_eq!(scene.caption.style.baseline, 44000);
}

#[test]
fn clock_scene_is_repeatable() {
    let layout = Layout::standard();
    for second in 0..60u32 {
        let first = clock_scene(&layout, double(), &at(11, 58, second));
        let again = clock_scene(&layout, double(), &at(11, 58, second));
        assert_eq!(first, again);
    }
    assert_ne!(
        clock_scene(&layout, double(), &at(11, 58, 1)),
        clock_scene(&layout, double(), &at(11, 58, 2))
    );
}

#[test]
fn clock_scene_geometry_ignores_the_scale() {
    let layout = Layout::standard();
    let reading = at(6, 15, 45);
    let plain = clock_scene(&layout, Scale { actual_width: 400, logical_width: 400 }, &reading);
    let dense = clock_scene(&layout, Scale { actual_width: 1200, logical_width: 400 }, &reading);
    assert_eq!(plain.shapes, dense.shapes);
    assert_eq!(plain.caption, dense.caption);
    assert_eq!(plain.scale, Scale { actual_width: 400, logical_width: 400 });
    assert_eq!(dense.scale, Scale { actual_width: 1200, logical_width: 400 });
}

#[test]
fn clock_scene_now_is_the_scene_of_its_label() {
    let layout = Layout::standard();
    let scene = clock_scene_now(&layout, double());
    let text = scene.caption.text.clone();
    let digits: Vec<u32> = text.chars().filter_map(|c| c.to_digit(10)).collect();
    assert_eq!(text.len(), 8);
    assert_eq!(digits.len(), 6);
    assert_eq!(text.chars().nth(2), Some(':'));
    assert_eq!(text.chars().nth(5), Some(':'));
    let reading = ClockReading::new(
        10 * digits[0] + digits[1],
        10 * digits[2] + digits[3],
        10 * digits[4] + digits[5],
    )
    .unwrap();
    assert_eq!(scene, clock_scene(&layout, double(), &reading));
}

#[test]
fn still_scene_is_a_cross_and_a_line_of_text() {
    let scene = still_scene(&Layout::standard(), double());
    assert_eq!(scene.scale, double());
    assert_eq!(scene.shapes.len(), 3);
    assert_eq!(scene.shapes[0], Shape::Fill { width: 40000, height: 30000, color: CHALK });
    assert_eq!(
        scene.shapes[1],
        Shape::Segment {
            from: Point { x: 0, y: 0 },
            to: Point { x: 20000, y: 15000 },
            line_width: 2500,
            color: Color { red: 100, green: 20, blue: 20, alpha: 60 },
        }
    );
    assert_eq!(
        scene.shapes[2],
        Shape::Segment {
            from: Point { x: 20000, y: 0 },
            to: Point { x: 0, y: 15000 },
            line_width: 2500,
            color: Color { red: 20, green: 100, blue: 20, alpha: 60 },
        }
    );
    assert_eq!(scene.caption.text, "Press Esc to quit");
    assert_eq!(
        scene.caption.style,
        TextStyle {
            family: FontFamily::SansSerif,
            placement: Placement::StartingAt { x: 1000 },
            baseline: 26000,
            font_size: 1400,
            bold: true,
            color: Color { red: 0, green: 0, blue: 0, alpha: 100 },
        }
    );
    assert_eq!(scene, still_scene(&Layout::standard(), double()));
}

#[test]
fn scale_is_the_ratio_of_the_widths() {
    let layout = Layout::standard();
    assert_eq!(
        Scale::for_viewport(800, &layout),
        Some(Scale { actual_width: 800, logical_width: 400 })
    );
    assert_eq!(
        Scale::for_viewport(0, &layout),
        Some(Scale { actual_width: 0, logical_width: 400 })
    );
    assert_eq!(Scale::for_viewport(800, &Layout { width: 0, height: 300, radius: 100 }), None);
}
