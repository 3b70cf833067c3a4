//! What is drawn, and in which order.
//!
//! A [`Scene`] lists the drawing commands of one frame on the logical canvas.
//! The caller applies the scale once, then paints the shapes in order and the
//! caption last.

use vstd::prelude::*;
use crate::angle::Angle;
use crate::dial::{tick_bearing, tick_bearing_of, tick_inset, tick_inset_for, Hand, Layout, Point};
use crate::reading::{local_now, ClockReading};

verus! {

/// A colour with alpha; each channel counts hundredths of full intensity.
#[derive(Clone, Copy, Debug, PartialEq, Eq, Structural)]
pub struct Color {
    pub red: u8,
    pub green: u8,
    pub blue: u8,
    pub alpha: u8,
}

/// The uniform factor from logical units to pixels, held as the exact ratio
/// `actual_width / logical_width`.
#[derive(Clone, Copy, Debug, PartialEq, Eq, Structural)]
pub struct Scale {
    pub actual_width: u32,
    pub logical_width: u32,
}

/// One painted shape. Lengths are hundredths of a logical unit.
#[derive(Clone, Copy, Debug, PartialEq, Eq, Structural)]
pub enum Shape {
    /// A filled rectangle with its top left corner at the origin.
    Fill { width: i64, height: i64, color: Color },
    /// A stroked full circle.
    Ring { center: Point, radius: i64, line_width: i64, color: Color },
    /// A stroked straight line along `bearing`, from distance `inner` to
    /// distance `outer` from `center`.
    Spoke { center: Point, inner: i64, outer: i64, bearing: Angle, line_width: i64, color: Color },
    /// A stroked straight line between two points.
    Segment { from: Point, to: Point, line_width: i64, color: Color },
}

/// Where a line of text starts.
#[derive(Clone, Copy, Debug, PartialEq, Eq, Structural)]
pub enum Placement {
    /// The text is centred on `x`: it starts at `x` less half its measured
    /// width.
    CenteredOn { x: i64 },
    /// The text starts at `x`.
    StartingAt { x: i64 },
}

/// The family of a font.
#[derive(Clone, Copy, Debug, PartialEq, Eq, Structural)]
pub enum FontFamily {
    SansSerif,
}

/// How a line of text is set.
#[derive(Clone, Copy, Debug, PartialEq, Eq, Structural)]
pub struct TextStyle {
    pub family: FontFamily,
    pub placement: Placement,
    pub baseline: i64,
    pub font_size: i64,
    pub bold: bool,
    pub color: Color,
}

/// A line of text with its style.
#[derive(Debug, PartialEq, Eq)]
pub struct Caption {
    pub text: String,
    pub style: TextStyle,
}

/// The drawing commands of one frame.
#[derive(Debug, PartialEq, Eq)]
pub struct Scene {
    pub scale: Scale,
    pub shapes: Vec<Shape>,
    pub caption: Caption,
}

/// The mathematical content of a [`Scene`].
pub struct SceneView {
    pub scale: Scale,
    pub shapes: Seq<Shape>,
    pub text: Seq<char>,
    pub style: TextStyle,
}

impl View for Scene {
    type V = SceneView;

    open spec fn view(&self) -> SceneView {
        SceneView {
            scale: self.scale,
            shapes: self.shapes@,
            text: self.caption.text@,
            style: self.caption.style,
        }
    }
}

impl Scale {
    /// A scale is well formed when its ratio is defined.
    pub open spec fn wf(self) -> bool {
        self.logical_width > 0
    }

    /// The scale that maps a canvas of `layout.width` units onto
    /// `actual_width` pixels, or `None` for a canvas without width.
    pub fn for_viewport(actual_width: u32, layout: &Layout) -> (scale: Option<Scale>)
        ensures
            scale == if layout.width > 0 {
                Some(Scale { actual_width, logical_width: layout.width })
            } else {
                None
            },
            scale matches Some(s) ==> s.wf(),
    {
        if layout.width > 0 {
            Some(Scale { actual_width, logical_width: layout.width })
        } else {
            None
        }
    }
}

/// The colour of the canvas behind the face.
pub open spec fn paper() -> Color {
    Color { red: 77, green: 40, blue: 20, alpha: 100 }
}

/// The colour of the outline, the tick marks and the label.
pub open spec fn chalk() -> Color {
    Color { red: 100, green: 100, blue: 100, alpha: 100 }
}

/// The colour of a hand: red for hours, green for minutes, blue for seconds.
pub open spec fn hand_color(hand: Hand) -> Color {
    match hand {
        Hand::Hour => Color { red: 100, green: 0, blue: 0, alpha: 100 },
        Hand::Minute => Color { red: 0, green: 100, blue: 0, alpha: 100 },
        Hand::Second => Color { red: 0, green: 0, blue: 100, alpha: 100 },
    }
}

/// The fill that covers the whole logical canvas.
pub open spec fn background(layout: Layout) -> Shape {
    Shape::Fill {
        width: (100 * layout.width) as i64,
        height: (100 * layout.height) as i64,
        color: paper(),
    }
}

/// The outline of the face, two units thick.
pub open spec fn outline(layout: Layout) -> Shape {
    Shape::Ring {
        center: layout.center(),
        radius: (100 * layout.radius) as i64,
        line_width: 200,
        color: chalk(),
    }
}

/// Tick mark `index`: from its inset up to the rim.
pub open spec fn tick_mark(layout: Layout, index: int) -> Shape {
    Shape::Spoke {
        center: layout.center(),
        inner: (100 * layout.radius - tick_inset_for(index, layout.radius as int)) as i64,
        outer: (100 * layout.radius) as i64,
        bearing: tick_bearing_of(index),
        line_width: 200,
        color: chalk(),
    }
}

/// The twelve tick marks in the order they are drawn: mark 11 first, mark 0
/// last.
pub open spec fn tick_marks(layout: Layout) -> Seq<Shape> {
    Seq::new(12, |k: int| tick_mark(layout, 11 - k))
}

/// A hand at a given time: from the centre along its angle.
pub open spec fn hand_mark(layout: Layout, hand: Hand, reading: ClockReading) -> Shape {
    Shape::Spoke {
        center: layout.center(),
        inner: 0,
        outer: hand.length_for(layout.radius as int) as i64,
        bearing: hand.angle_at(reading),
        line_width: hand.thickness() as i64,
        color: hand_color(hand),
    }
}

/// The shapes of the clock face, in drawing order: background, outline,
/// tick marks, then the hour, minute and second hands.
pub open spec fn clock_shapes(layout: Layout, reading: ClockReading) -> Seq<Shape> {
    seq![background(layout), outline(layout)] + tick_marks(layout) + seq![
        hand_mark(layout, Hand::Hour, reading),
        hand_mark(layout, Hand::Minute, reading),
        hand_mark(layout, Hand::Second, reading),
    ]
}

/// The style of the digital label: bold sans-serif, 24 units high, centred
/// under the face.
pub open spec fn label_style(layout: Layout) -> TextStyle {
    TextStyle {
        family: FontFamily::SansSerif,
        placement: Placement::CenteredOn { x: layout.center().x },
        baseline: layout.baseline() as i64,
        font_size: 2400,
        bold: true,
        color: chalk(),
    }
}

/// The whole clock frame for a time of day.
pub open spec fn clock_scene_view(layout: Layout, scale: Scale, reading: ClockReading) -> SceneView {
    SceneView {
        scale,
        shapes: clock_shapes(layout, reading),
        text: reading.label(),
        style: label_style(layout),
    }
}

/// Computes [`tick_mark`].
pub fn tick(layout: &Layout, index: u32) -> (shape: Shape)
    ensures
        shape == tick_mark(*layout, index as int),
{
    let rim: i64 = 100 * (layout.radius as i64);
    Shape::Spoke {
        center: layout.face_center(),
        inner: rim - tick_inset(index, layout.radius),
        outer: rim,
        bearing: tick_bearing(index),
        line_width: 200,
        color: Color { red: 100, green: 100, blue: 100, alpha: 100 },
    }
}

/// Computes [`hand_mark`].
pub fn hand(layout: &Layout, which: Hand, reading: &ClockReading) -> (shape: Shape)
    requires
        reading.wf(),
    ensures
        shape == hand_mark(*layout, which, *reading),
{
    let color: Color = match which {
        Hand::Hour => Color { red: 100, green: 0, blue: 0, alpha: 100 },
        Hand::Minute => Color { red: 0, green: 100, blue: 0, alpha: 100 },
        Hand::Second => Color { red: 0, green: 0, blue: 100, alpha: 100 },
    };
    Shape::Spoke {
        center: layout.face_center(),
        inner: 0,
        outer: which.length(layout.radius),
        bearing: which.angle(reading),
        line_width: which.line_width(),
        color,
    }
}

/// The clock frame for the time `reading`.
///
/// The frame is a function of its arguments alone: the same layout, scale
/// and time always give the same commands.
pub fn clock_scene(layout: &Layout, scale: Scale, reading: &ClockReading) -> (scene: Scene)
    requires
        reading.wf(),
    ensures
        scene@ == clock_scene_view(*layout, scale, *reading),
{
    let chalk_color: Color = Color { red: 100, green: 100, blue: 100, alpha: 100 };
    let center: Point = layout.face_center();
    let mut shapes: Vec<Shape> = Vec::new();
    shapes.push(
        Shape::Fill {
            width: 100 * (layout.width as i64),
            height: 100 * (layout.height as i64),
            color: Color { red: 77, green: 40, blue: 20, alpha: 100 },
        },
    );
    shapes.push(
        Shape::Ring {
            center,
            radius: 100 * (layout.radius as i64),
            line_width: 200,
            color: chalk_color,
        },
    );
    let mut remaining: u32 = 12;
    while remaining > 0
        invariant
            remaining <= 12,
            shapes@ == seq![background(*layout), outline(*layout)] + tick_marks(*layout).take(
                12 - remaining,
            ),
        decreases remaining,
    {
        remaining = remaining - 1;
        shapes.push(tick(layout, remaining));
    }
    assert(tick_marks(*layout).take(12) == tick_marks(*layout));
    shapes.push(hand(layout, Hand::Hour, reading));
    shapes.push(hand(layout, Hand::Minute, reading));
    shapes.push(hand(layout, Hand::Second, reading));
    assert(shapes@ =~= clock_shapes(*layout, *reading));
    let caption = Caption {
        text: reading.digital_label(),
        style: TextStyle {
            family: FontFamily::SansSerif,
            placement: Placement::CenteredOn { x: center.x },
            baseline: layout.label_baseline(),
            font_size: 2400,
            bold: true,
            color: chalk_color,
        },
    };
    Scene { scale, shapes, caption }
}

/// The clock frame for the local time at the moment of the call.
///
/// Which time that is cannot be known beforehand; the frame is the one that
/// [`clock_scene`] gives for some time of day.
pub fn clock_scene_now(layout: &Layout, scale: Scale) -> (scene: Scene)
    ensures
        exists|reading: ClockReading|
            reading.wf() && scene@ == #[trigger] clock_scene_view(*layout, scale, reading),
{
    let reading = local_now();
    clock_scene(layout, scale, &reading)
}

/// The text of the still scene.
pub open spec fn still_text() -> Seq<char> {
    "Press Esc to quit"@
}

/// The shapes of the still scene, in drawing order: a white background and
/// a cross of two strokes, 25 units thick, over the top left quarter of the
/// canvas: one from the corner to the middle, one across it.
pub open spec fn still_shapes(layout: Layout) -> Seq<Shape> {
    seq![
        Shape::Fill {
            width: (100 * layout.width) as i64,
            height: (100 * layout.height) as i64,
            color: chalk(),
        },
        Shape::Segment {
            from: Point { x: 0, y: 0 },
            to: Point { x: (50 * layout.width) as i64, y: (50 * layout.height) as i64 },
            line_width: 2500,
            color: Color { red: 100, green: 20, blue: 20, alpha: 60 },
        },
        Shape::Segment {
            from: Point { x: (50 * layout.width) as i64, y: 0 },
            to: Point { x: 0, y: (50 * layout.height) as i64 },
            line_width: 2500,
            color: Color { red: 20, green: 100, blue: 20, alpha: 60 },
        },
    ]
}

/// The style of the still scene's text: bold sans-serif, 14 units high,
/// starting ten units from the left edge on the label's baseline.
pub open spec fn still_style(layout: Layout) -> TextStyle {
    TextStyle {
        family: FontFamily::SansSerif,
        placement: Placement::StartingAt { x: 1000 },
        baseline: layout.baseline() as i64,
        font_size: 1400,
        bold: true,
        color: Color { red: 0, green: 0, blue: 0, alpha: 100 },
    }
}

/// The whole still frame.
pub open spec fn still_scene_view(layout: Layout, scale: Scale) -> SceneView {
    SceneView {
        scale,
        shapes: still_shapes(layout),
        text: still_text(),
        style: still_style(layout),
    }
}

/// The still frame: it depends on no time and is rendered once.
pub fn still_scene(layout: &Layout, scale: Scale) -> (scene: Scene)
    ensures
        scene@ == still_scene_view(*layout, scale),
{
    let half_width: i64 = 50 * (layout.width as i64);
    let half_height: i64 = 50 * (layout.height as i64);
    let mut shapes: Vec<Shape> = Vec::new();
    shapes.push(
        Shape::Fill {
            width: 100 * (layout.width as i64),
            height: 100 * (layout.height as i64),
            color: Color { red: 100, green: 100, blue: 100, alpha: 100 },
        },
    );
    shapes.push(
        Shape::Segment {
            from: Point { x: 0, y: 0 },
            to: Point { x: half_width, y: half_height },
            line_width: 2500,
            color: Color { red: 100, green: 20, blue: 20, alpha: 60 },
        },
    );
    shapes.push(
        Shape::Segment {
            from: Point { x: half_width, y: 0 },
            to: Point { x: 0, y: half_height },
            line_width: 2500,
            color: Color { red: 20, green: 100, blue: 20, alpha: 60 },
        },
    );
    assert(shapes@ =~= still_shapes(*layout));
    let caption = Caption {
        text: "Press Esc to quit".to_owned(),
        style: TextStyle {
            family: FontFamily::SansSerif,
            placement: Placement::StartingAt { x: 1000 },
            baseline: layout.label_baseline(),
            font_size: 1400,
            bold: true,
            color: Color { red: 0, green: 0, blue: 0, alpha: 100 },
        },
    };
    Scene { scale, shapes, caption }
}

/// Rendering is repeatable: whatever two calls of [`clock_scene`] on the same
/// layout, scale and time return holds the same commands.
pub proof fn same_time_same_frame(
    layout: Layout,
    scale: Scale,
    reading: ClockReading,
    first: Scene,
    second: Scene,
)
    requires
        first@ == clock_scene_view(layout, scale, reading),
        second@ == clock_scene_view(layout, scale, reading),
    ensures
        first@ == second@,
        first.shapes@ == second.shapes@,
        first.caption.text@ == second.caption.text@,
{
}

/// The logical geometry of a frame does not depend on the scale: two clock
/// frames for the same layout and time differ in their scale alone, which
/// the frame hands on unchanged for the caller to apply uniformly.
pub proof fn clock_geometry_ignores_scale(
    layout: Layout,
    first: Scale,
    second: Scale,
    reading: ClockReading,
)
    ensures
        clock_scene_view(layout, first, reading).scale == first,
        clock_scene_view(layout, first, reading).shapes == clock_scene_view(
            layout,
            second,
            reading,
        ).shapes,
        clock_scene_view(layout, first, reading).text == clock_scene_view(
            layout,
            second,
            reading,
        ).text,
        clock_scene_view(layout, first, reading).style == clock_scene_view(
            layout,
            second,
            reading,
        ).style,
{
}

/// What a clock frame holds: seventeen shapes, of which the first fills the
/// whole canvas, the second is the outline, the next twelve are the tick
/// marks from mark 11 down to mark 0, each ending on the rim, and the last
/// three are the hour, minute and second hands, each starting at the centre.
pub proof fn clock_frame_is_complete(layout: Layout, scale: Scale, reading: ClockReading)
    ensures
        clock_shapes(layout, reading).len() == 17,
        clock_shapes(layout, reading)[0] == background(layout),
        clock_shapes(layout, reading)[1] == outline(layout),
        forall|k: int|
            0 <= k < 12 ==> #[trigger] clock_shapes(layout, reading)[2 + k] == tick_mark(
                layout,
                11 - k,
            ),
        clock_shapes(layout, reading)[14] == hand_mark(layout, Hand::Hour, reading),
        clock_shapes(layout, reading)[15] == hand_mark(layout, Hand::Minute, reading),
        clock_shapes(layout, reading)[16] == hand_mark(layout, Hand::Second, reading),
{
}

} // verus!
