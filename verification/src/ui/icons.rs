//! Icons drawn as vector paths on a grid 24 units wide and high, measured in tenths.
//!
//! Drawn rather than shipped as a font: an icon font would be another asset to
//! bundle, and these scale and recolour for free.

use vstd::prelude::*;

verus! {

#[derive(Debug, Clone, Copy, PartialEq, Eq, Structural)]
pub enum Glyph {
    Play,
    Pause,
    Back10,
    Forward10,
    Volume,
    Mute,
    Fullscreen,
    ExitFullscreen,
    Folder,
    Sliders,
    Scissors,
}

/// How wide and how high the grid is, in tenths.
pub const GRID: u16 = 240;

/// One step in drawing an icon. Coordinates are in tenths, from the top left.
#[derive(Debug, Clone, Copy, PartialEq, Eq, Structural)]
pub enum Step {
    Move(u16, u16),
    Line(u16, u16),
    /// A curve towards a point, drawn to another.
    Curve { cx: u16, cy: u16, x: u16, y: u16 },
    /// Back to where the path started.
    Close,
    /// A bar with rounded corners.
    Bar { x: u16, y: u16, width: u16, height: u16, radius: u16 },
    Circle { x: u16, y: u16, radius: u16 },
    /// Fill what has been drawn since the last of these.
    Fill,
    /// Draw the outline of what has been drawn since the last of these.
    Stroke,
}

/// Where something is, seen in a mirror.
pub open spec fn mirrored(x: int) -> u16 {
    (GRID - x) as u16
}

/// One chevron pointing left, with its tip at one place and its tails at another.
pub open spec fn chevron(tip: u16, tail: u16) -> Seq<Step> {
    seq![Step::Move(tail, 60), Step::Line(tip, 120), Step::Line(tail, 180)]
}

/// Two chevrons pointing left, or right.
pub open spec fn chevrons(right: bool) -> Seq<Step> {
    if right {
        chevron(mirrored(84), mirrored(130)) + chevron(mirrored(148), mirrored(194)) + seq![
            Step::Stroke,
        ]
    } else {
        chevron(84, 130) + chevron(148, 194) + seq![Step::Stroke]
    }
}

/// One corner bracket: from one place on the near line, through the corner, along the
/// other.
pub open spec fn corner(x_near: u16, x_far: u16, y_near: u16, y_far: u16) -> Seq<Step> {
    seq![Step::Move(x_near, y_far), Step::Line(x_near, y_near), Step::Line(x_far, y_near)]
}

/// Four corner brackets, pointing outwards to enter fullscreen and inwards to leave
/// it.
pub open spec fn corners(inward: bool) -> Seq<Step> {
    let near: u16 = if inward {
        90
    } else {
        36
    };
    let far: u16 = if inward {
        36
    } else {
        90
    };
    let m = |x: u16| mirrored(x as int);
    corner(near, far, near, far) + corner(m(near), m(far), near, far) + corner(
        m(near),
        m(far),
        m(near),
        m(far),
    ) + corner(near, far, m(near), m(far)) + seq![Step::Stroke]
}

/// The speaker that both volume icons show.
pub open spec fn speaker() -> Seq<Step> {
    seq![
        Step::Move(40, 94),
        Step::Line(74, 94),
        Step::Line(120, 54),
        Step::Line(120, 186),
        Step::Line(74, 146),
        Step::Line(40, 146),
        Step::Close,
        Step::Fill,
    ]
}

/// How an icon is drawn.
pub open spec fn drawing(glyph: Glyph) -> Seq<Step> {
    match glyph {
        Glyph::Play => seq![
            Step::Move(80, 48),
            Step::Line(190, 120),
            Step::Line(80, 192),
            Step::Close,
            Step::Fill,
        ],
        Glyph::Pause => seq![
            Step::Bar { x: 68, y: 48, width: 40, height: 144, radius: 10 },
            Step::Fill,
            Step::Bar { x: 132, y: 48, width: 40, height: 144, radius: 10 },
            Step::Fill,
        ],
        Glyph::Back10 => chevrons(false),
        Glyph::Forward10 => chevrons(true),
        Glyph::Volume => speaker() + seq![
            Step::Move(154, 92),
            Step::Curve { cx: 172, cy: 120, x: 154, y: 148 },
            Step::Move(182, 68),
            Step::Curve { cx: 212, cy: 120, x: 182, y: 172 },
            Step::Stroke,
        ],
        Glyph::Mute => speaker() + seq![
            Step::Move(156, 94),
            Step::Line(204, 146),
            Step::Move(204, 94),
            Step::Line(156, 146),
            Step::Stroke,
        ],
        Glyph::Fullscreen => corners(false),
        Glyph::ExitFullscreen => corners(true),
        Glyph::Sliders => seq![
            Step::Move(35, 70),
            Step::Line(205, 70),
            Step::Move(35, 120),
            Step::Line(205, 120),
            Step::Move(35, 170),
            Step::Line(205, 170),
            Step::Stroke,
            Step::Circle { x: 80, y: 70, radius: 24 },
            Step::Fill,
            Step::Circle { x: 150, y: 120, radius: 24 },
            Step::Fill,
            Step::Circle { x: 105, y: 170, radius: 24 },
            Step::Fill,
        ],
        Glyph::Scissors => seq![
            Step::Move(74, 82),
            Step::Line(195, 186),
            Step::Move(195, 54),
            Step::Line(74, 158),
            Step::Stroke,
            Step::Circle { x: 54, y: 60, radius: 25 },
            Step::Stroke,
            Step::Circle { x: 54, y: 180, radius: 25 },
            Step::Stroke,
        ],
        Glyph::Folder => seq![
            Step::Move(32, 184),
            Step::Line(32, 64),
            Step::Line(92, 64),
            Step::Line(110, 88),
            Step::Line(208, 88),
            Step::Line(208, 184),
            Step::Close,
            Step::Stroke,
        ],
    }
}

fn push_chevron(steps: &mut Vec<Step>, tip: u16, tail: u16)
    ensures
        final(steps)@ == old(steps)@ + chevron(tip, tail),
{
    let ghost before = steps@;
    steps.push(Step::Move(tail, 60));
    steps.push(Step::Line(tip, 120));
    steps.push(Step::Line(tail, 180));
    proof {
        assert(steps@ =~= before + chevron(tip, tail));
    }
}

fn draw_chevrons(right: bool) -> (r: Vec<Step>)
    ensures
        r@ == chevrons(right),
{
    let mut r: Vec<Step> = Vec::new();
    if right {
        push_chevron(&mut r, GRID - 84, GRID - 130);
        push_chevron(&mut r, GRID - 148, GRID - 194);
    } else {
        push_chevron(&mut r, 84, 130);
        push_chevron(&mut r, 148, 194);
    }
    r.push(Step::Stroke);
    proof {
        assert(r@ =~= chevrons(right));
    }
    r
}

fn push_corner(steps: &mut Vec<Step>, x_near: u16, x_far: u16, y_near: u16, y_far: u16)
    ensures
        final(steps)@ == old(steps)@ + corner(x_near, x_far, y_near, y_far),
{
    let ghost before = steps@;
    steps.push(Step::Move(x_near, y_far));
    steps.push(Step::Line(x_near, y_near));
    steps.push(Step::Line(x_far, y_near));
    proof {
        assert(steps@ =~= before + corner(x_near, x_far, y_near, y_far));
    }
}

fn draw_corners(inward: bool) -> (r: Vec<Step>)
    ensures
        r@ == corners(inward),
{
    let (near, far): (u16, u16) = if inward {
        (90, 36)
    } else {
        (36, 90)
    };
    let mut r: Vec<Step> = Vec::new();
    push_corner(&mut r, near, far, near, far);
    push_corner(&mut r, GRID - near, GRID - far, near, far);
    push_corner(&mut r, GRID - near, GRID - far, GRID - near, GRID - far);
    push_corner(&mut r, near, far, GRID - near, GRID - far);
    r.push(Step::Stroke);
    proof {
        assert(r@ =~= corners(inward));
    }
    r
}

fn draw_speaker() -> (r: Vec<Step>)
    ensures
        r@ == speaker(),
{
    vec![
        Step::Move(40, 94),
        Step::Line(74, 94),
        Step::Line(120, 54),
        Step::Line(120, 186),
        Step::Line(74, 146),
        Step::Line(40, 146),
        Step::Close,
        Step::Fill,
    ]
}

/// How an icon is drawn.
pub fn draw(glyph: Glyph) -> (r: Vec<Step>)
    ensures
        r@ == drawing(glyph),
{
    match glyph {
        Glyph::Play => vec![
            Step::Move(80, 48),
            Step::Line(190, 120),
            Step::Line(80, 192),
            Step::Close,
            Step::Fill,
        ],
        Glyph::Pause => vec![
            Step::Bar { x: 68, y: 48, width: 40, height: 144, radius: 10 },
            Step::Fill,
            Step::Bar { x: 132, y: 48, width: 40, height: 144, radius: 10 },
            Step::Fill,
        ],
        Glyph::Back10 => draw_chevrons(false),
        Glyph::Forward10 => draw_chevrons(true),
        Glyph::Volume => {
            let mut r: Vec<Step> = draw_speaker();
            r.push(Step::Move(154, 92));
            r.push(Step::Curve { cx: 172, cy: 120, x: 154, y: 148 });
            r.push(Step::Move(182, 68));
            r.push(Step::Curve { cx: 212, cy: 120, x: 182, y: 172 });
            r.push(Step::Stroke);
            r
        },
        Glyph::Mute => {
            let mut r: Vec<Step> = draw_speaker();
            r.push(Step::Move(156, 94));
            r.push(Step::Line(204, 146));
            r.push(Step::Move(204, 94));
            r.push(Step::Line(156, 146));
            r.push(Step::Stroke);
            r
        },
        Glyph::Fullscreen => draw_corners(false),
        Glyph::ExitFullscreen => draw_corners(true),
        Glyph::Sliders => vec![
            Step::Move(35, 70),
            Step::Line(205, 70),
            Step::Move(35, 120),
            Step::Line(205, 120),
            Step::Move(35, 170),
            Step::Line(205, 170),
            Step::Stroke,
            Step::Circle { x: 80, y: 70, radius: 24 },
            Step::Fill,
            Step::Circle { x: 150, y: 120, radius: 24 },
            Step::Fill,
            Step::Circle { x: 105, y: 170, radius: 24 },
            Step::Fill,
        ],
        Glyph::Scissors => vec![
            Step::Move(74, 82),
            Step::Line(195, 186),
            Step::Move(195, 54),
            Step::Line(74, 158),
            Step::Stroke,
            Step::Circle { x: 54, y: 60, radius: 25 },
            Step::Stroke,
            Step::Circle { x: 54, y: 180, radius: 25 },
            Step::Stroke,
        ],
        Glyph::Folder => vec![
            Step::Move(32, 184),
            Step::Line(32, 64),
            Step::Line(92, 64),
            Step::Line(110, 88),
            Step::Line(208, 88),
            Step::Line(208, 184),
            Step::Close,
            Step::Stroke,
        ],
    }
}

/// Whether a step stays on the grid.
pub open spec fn on_grid(step: Step) -> bool {
    match step {
        Step::Move(x, y) | Step::Line(x, y) => x <= GRID && y <= GRID,
        Step::Curve { cx, cy, x, y } => cx <= GRID && cy <= GRID && x <= GRID && y <= GRID,
        Step::Bar { x, y, width, height, .. } => x + width <= GRID && y + height <= GRID,
        Step::Circle { x, y, radius } => radius <= x && radius <= y && x + radius <= GRID && y
            + radius <= GRID,
        Step::Close | Step::Fill | Step::Stroke => true,
    }
}

/// Every icon stays on its grid.
pub proof fn lemma_icons_stay_on_the_grid(glyph: Glyph)
    ensures
        forall|i: int| 0 <= i < drawing(glyph).len() ==> on_grid(#[trigger] drawing(glyph)[i]),
{
}

/// A step seen in a mirror.
pub open spec fn mirror(step: Step) -> Step {
    match step {
        Step::Move(x, y) => Step::Move(mirrored(x as int), y),
        Step::Line(x, y) => Step::Line(mirrored(x as int), y),
        other => other,
    }
}

/// The icon for skipping ahead is the icon for skipping back, seen in a mirror: the one
/// points right, the other left.
pub proof fn lemma_skip_icons_mirror_each_other()
    ensures
        drawing(Glyph::Forward10) == drawing(Glyph::Back10).map_values(|step: Step| mirror(step)),
        drawing(Glyph::Back10)[0] matches Step::Move(tail, _) && (drawing(
            Glyph::Back10,
        )[1] matches Step::Line(tip, _) && tip < tail),
{
    assert(drawing(Glyph::Forward10) =~= drawing(Glyph::Back10).map_values(
        |step: Step| mirror(step),
    ));
}

/// Skipping ahead is skipping back seen in a mirror: two chevrons, whose tips point left
/// to skip back and right to skip ahead.
pub proof fn lemma_skips_are_mirror_images(i: int)
    requires
        0 <= i < 7,
    ensures
        drawing(Glyph::Back10).len() == 7 && drawing(Glyph::Forward10).len() == 7,
        match drawing(Glyph::Back10)[i] {
            Step::Move(x, y) => drawing(Glyph::Forward10)[i] == Step::Move((240 - x) as u16, y),
            Step::Line(x, y) => drawing(Glyph::Forward10)[i] == Step::Line((240 - x) as u16, y),
            step => drawing(Glyph::Forward10)[i] == step,
        },
        drawing(Glyph::Back10)[0] matches Step::Move(tail, top) && (
        drawing(Glyph::Back10)[1] matches Step::Line(tip, middle) && tip < tail && middle == 120
            && top < 120),
        drawing(Glyph::Back10)[3] matches Step::Move(tail, top) && (
        drawing(Glyph::Back10)[4] matches Step::Line(tip, middle) && tip < tail && middle == 120
            && top < 120),
{
}

/// The play triangle points right, the two pause bars are mirror images, and both volume
/// icons show the same speaker.
pub proof fn lemma_icons_read_as_they_should()
    ensures
        drawing(Glyph::Play)[0] matches Step::Move(left, top) && (
        drawing(Glyph::Play)[1] matches Step::Line(tip, middle) && (
        drawing(Glyph::Play)[2] matches Step::Line(back, bottom) && left < tip && back == left
            && middle == 120 && top + bottom == 240)),
        drawing(Glyph::Pause)[0] matches Step::Bar { x, y, width, height, radius } && drawing(
            Glyph::Pause,
        )[2] == (Step::Bar { x: (240 - x - width) as u16, y, width, height, radius }),
        drawing(Glyph::Volume).take(8) == drawing(Glyph::Mute).take(8),
        drawing(Glyph::Volume).skip(8) != drawing(Glyph::Mute).skip(8),
{
    assert(drawing(Glyph::Volume).take(8) =~= speaker());
    assert(drawing(Glyph::Mute).take(8) =~= speaker());
    assert(drawing(Glyph::Volume).skip(8)[0] == Step::Move(154, 92));
    assert(drawing(Glyph::Mute).skip(8)[0] == Step::Move(156, 94));
}

/// The corners of the full screen icons lie alike on all four sides, with their angles
/// outside to enter it and inside to leave it.
pub proof fn lemma_corners_lie_alike(glyph: Glyph, i: int)
    requires
        glyph == Glyph::Fullscreen || glyph == Glyph::ExitFullscreen,
        0 <= i < 3,
    ensures
        drawing(glyph).len() == 13,
        match drawing(glyph)[i] {
            Step::Move(x, y) => {
                &&& drawing(glyph)[i + 3] == Step::Move((240 - x) as u16, y)
                &&& drawing(glyph)[i + 6] == Step::Move((240 - x) as u16, (240 - y) as u16)
                &&& drawing(glyph)[i + 9] == Step::Move(x, (240 - y) as u16)
            },
            Step::Line(x, y) => {
                &&& drawing(glyph)[i + 3] == Step::Line((240 - x) as u16, y)
                &&& drawing(glyph)[i + 6] == Step::Line((240 - x) as u16, (240 - y) as u16)
                &&& drawing(glyph)[i + 9] == Step::Line(x, (240 - y) as u16)
            },
            _ => false,
        },
        drawing(glyph)[1] matches Step::Line(x, y) && (
        drawing(glyph)[2] matches Step::Line(far, level) && x == y && y == level && (if glyph
            == Glyph::Fullscreen {
            x < far
        } else {
            far < x
        })),
{
}

} // verus!
