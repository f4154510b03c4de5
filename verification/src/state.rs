//! The application state owned by the access controller: the turtle registry
//! and the global drawing properties, with the mutations the handlers apply.
//!
//! Every mutation is specified against a mathematical model: [`AppM`] views
//! the registry as a sequence of turtle states and the drawing properties as
//! plain values.  Headings are kept normalised to `0 <= h < 360` degrees;
//! positions saturate at the edges of the `i64` coordinate space.

use vstd::prelude::*;
use vstd::arithmetic::div_mod::{lemma_fundamental_div_mod, lemma_fundamental_div_mod_converse};
use crate::types::{Color, Point, TurtleId, TurtleProp, TurtlePropValue, DrawingProp,
    DrawingPropValue, DrawingPropValueM, RotationDirection};

verus! {

/// Default pen thickness of a fresh turtle.
pub const DEFAULT_PEN_THICKNESS: u32 = 1;
/// Default width of the drawing surface.
pub const DEFAULT_WIDTH: u32 = 800;
/// Default height of the drawing surface.
pub const DEFAULT_HEIGHT: u32 = 600;

/// Default pen and fill colour.
pub open spec fn black() -> Color {
    Color { red: 0, green: 0, blue: 0 }
}

/// Default background colour.
pub open spec fn white() -> Color {
    Color { red: 255, green: 255, blue: 255 }
}

/// The full state of one turtle: pose, pen and fill.
#[derive(Clone, Copy, PartialEq, Eq, Structural, Debug)]
pub struct TurtleState {
    pub position: Point,
    pub heading: i64,
    pub pen_enabled: bool,
    pub pen_thickness: u32,
    pub pen_color: Color,
    pub fill_color: Color,
    pub is_filling: bool,
}

/// A turtle state is well formed when its heading is a normalised degree.
pub open spec fn turtle_wf(t: TurtleState) -> bool {
    0 <= t.heading < 360
}

/// The pose and pen a turtle is created with, and reset to.
pub open spec fn default_turtle() -> TurtleState {
    TurtleState {
        position: Point { x: 0, y: 0 },
        heading: 0,
        pen_enabled: true,
        pen_thickness: DEFAULT_PEN_THICKNESS,
        pen_color: black(),
        fill_color: black(),
        is_filling: false,
    }
}

/// The global drawing properties.
#[derive(Clone, PartialEq, Debug)]
pub struct DrawingState {
    pub background: Color,
    pub title: String,
    pub width: u32,
    pub height: u32,
}

/// Model of the drawing properties: the title as a character sequence.
pub struct DrawingM {
    pub background: Color,
    pub title: Seq<char>,
    pub width: u32,
    pub height: u32,
}

impl View for DrawingState {
    type V = DrawingM;

    open spec fn view(&self) -> DrawingM {
        DrawingM {
            background: self.background,
            title: self.title@,
            width: self.width,
            height: self.height,
        }
    }
}

/// The drawing properties a fresh surface has, and each is reset to.
pub open spec fn default_drawing() -> DrawingM {
    DrawingM {
        background: white(),
        title: Seq::empty(),
        width: DEFAULT_WIDTH,
        height: DEFAULT_HEIGHT,
    }
}

/// The application state: the turtle registry and the drawing properties.
#[derive(Clone, Debug)]
pub struct App {
    pub turtles: Vec<TurtleState>,
    pub drawing: DrawingState,
}

/// Model of the application state.
pub struct AppM {
    pub turtles: Seq<TurtleState>,
    pub drawing: DrawingM,
}

impl View for App {
    type V = AppM;

    open spec fn view(&self) -> AppM {
        AppM { turtles: self.turtles@, drawing: self.drawing@ }
    }
}

/// Every registered turtle is well formed.
pub open spec fn app_wf(a: AppM) -> bool {
    forall|i: int| 0 <= i < a.turtles.len() ==> turtle_wf(#[trigger] a.turtles[i])
}

/// Whether `id` names a live turtle.
pub open spec fn turtle_exists(a: AppM, id: TurtleId) -> bool {
    id.0 < a.turtles.len()
}

/// The registry with turtle `id` replaced by `t`.
pub open spec fn with_turtle(a: AppM, id: TurtleId, t: TurtleState) -> AppM {
    AppM { turtles: a.turtles.update(id.0 as int, t), drawing: a.drawing }
}

/// The value of one property of turtle `t`.
pub open spec fn turtle_prop_of(t: TurtleState, p: TurtleProp) -> TurtlePropValue {
    match p {
        TurtleProp::Position => TurtlePropValue::Position(t.position),
        TurtleProp::Heading => TurtlePropValue::Heading(t.heading),
        TurtleProp::PenEnabled => TurtlePropValue::PenEnabled(t.pen_enabled),
        TurtleProp::PenThickness => TurtlePropValue::PenThickness(t.pen_thickness),
        TurtleProp::PenColor => TurtlePropValue::PenColor(t.pen_color),
        TurtleProp::FillColor => TurtlePropValue::FillColor(t.fill_color),
    }
}

/// Turtle `t` with one property set to `v`; a heading is stored normalised.
pub open spec fn turtle_with_prop(t: TurtleState, v: TurtlePropValue) -> TurtleState {
    match v {
        TurtlePropValue::Position(p) => TurtleState { position: p, ..t },
        TurtlePropValue::Heading(h) => TurtleState { heading: ((h as int) % 360) as i64, ..t },
        TurtlePropValue::PenEnabled(b) => TurtleState { pen_enabled: b, ..t },
        TurtlePropValue::PenThickness(w) => TurtleState { pen_thickness: w, ..t },
        TurtlePropValue::PenColor(c) => TurtleState { pen_color: c, ..t },
        TurtlePropValue::FillColor(c) => TurtleState { fill_color: c, ..t },
    }
}

/// Turtle `t` with one property put back to its default.
pub open spec fn turtle_with_prop_reset(t: TurtleState, p: TurtleProp) -> TurtleState {
    turtle_with_prop(t, turtle_prop_of(default_turtle(), p))
}

/// The heading after an in-place rotation by `angle` degrees.
pub open spec fn rotated_heading(h: int, angle: int, dir: RotationDirection) -> int {
    match dir {
        RotationDirection::Counterclockwise => (h + angle) % 360,
        RotationDirection::Clockwise => (h - angle) % 360,
    }
}

/// The value of one global drawing property.
pub open spec fn drawing_prop_of(d: DrawingM, p: DrawingProp) -> DrawingPropValueM {
    match p {
        DrawingProp::Background => DrawingPropValueM::Background(d.background),
        DrawingProp::Title => DrawingPropValueM::Title(d.title),
        DrawingProp::Size => DrawingPropValueM::Size(d.width, d.height),
    }
}

/// The drawing properties with one of them set to `v`.
pub open spec fn drawing_with_prop(d: DrawingM, v: DrawingPropValueM) -> DrawingM {
    match v {
        DrawingPropValueM::Background(c) => DrawingM { background: c, ..d },
        DrawingPropValueM::Title(t) => DrawingM { title: t, ..d },
        DrawingPropValueM::Size(w, h) => DrawingM { width: w, height: h, ..d },
    }
}

/// The drawing properties with one of them put back to its default.
pub open spec fn drawing_with_prop_reset(d: DrawingM, p: DrawingProp) -> DrawingM {
    match p {
        DrawingProp::Background => DrawingM { background: white(), ..d },
        DrawingProp::Title => DrawingM { title: Seq::empty(), ..d },
        DrawingProp::Size => DrawingM { width: DEFAULT_WIDTH, height: DEFAULT_HEIGHT, ..d },
    }
}

/// Piecewise-linear heading profile standing in for the sine, scaled so that
/// its value lies in `[-TURN_SCALE, TURN_SCALE]` for a normalised heading.
/// The renderer's exact trigonometry is outside this core; the core fixes a
/// definite integer displacement so that state equality is provable.
pub open spec fn sin_profile(h: int) -> int {
    if h <= 90 {
        h
    } else if h <= 270 {
        180 - h
    } else {
        h - 360
    }
}

/// The matching cosine profile: the sine profile a quarter turn ahead.
pub open spec fn cos_profile(h: int) -> int {
    sin_profile((h + 90) % 360)
}

/// `v` clamped into the `i64` range.
pub open spec fn sat_i64(v: int) -> i64 {
    if v > i64::MAX {
        i64::MAX
    } else if v < i64::MIN {
        i64::MIN
    } else {
        v as i64
    }
}

/// Where a forward move of distance `d` (in coarse units) from `t` ends:
/// the position advanced by `d` times the heading profile, saturating at the
/// edges of the coordinate space.
pub open spec fn forward_target(t: TurtleState, d: int) -> Point {
    Point {
        x: sat_i64(t.position.x + d * cos_profile(t.heading as int)),
        y: sat_i64(t.position.y + d * sin_profile(t.heading as int)),
    }
}

/// Saturating addition on `i64` coordinates.
pub fn sat_add_i64(a: i64, b: i64) -> (r: i64)
    ensures
        r == sat_i64(a as int + b as int),
{
    if b >= 0 {
        if a > i64::MAX - b {
            i64::MAX
        } else {
            a + b
        }
    } else {
        if a < i64::MIN - b {
            i64::MIN
        } else {
            a + b
        }
    }
}

/// The sine profile of a normalised heading.
pub fn sin_profile_x(h: i64) -> (r: i64)
    requires
        0 <= h < 360,
    ensures
        r == sin_profile(h as int),
        -90 <= r <= 90,
{
    if h <= 90 {
        h
    } else if h <= 270 {
        180 - h
    } else {
        h - 360
    }
}

/// The cosine profile of a normalised heading.
pub fn cos_profile_x(h: i64) -> (r: i64)
    requires
        0 <= h < 360,
    ensures
        r == cos_profile(h as int),
        -90 <= r <= 90,
{
    let k: i64 = if h + 90 >= 360 { h + 90 - 360 } else { h + 90 };
    proof {
        lemma_fundamental_div_mod_converse(
            h as int + 90, 360, if h + 90 >= 360 { 1int } else { 0int }, k as int);
    }
    sin_profile_x(k)
}

/// Where a forward move of distance `d` from turtle `t` ends.
pub fn forward_target_x(t: &TurtleState, d: i32) -> (p: Point)
    requires
        turtle_wf(*t),
    ensures
        p == forward_target(*t, d as int),
{
    let c = cos_profile_x(t.heading);
    let s = sin_profile_x(t.heading);
    proof {
        assert((d as int) * (c as int) <= 200_000_000_000 && (d as int) * (c as int)
            >= -200_000_000_000) by (nonlinear_arith)
            requires
                -2147483648 <= d as int <= 2147483647,
                -90 <= c as int <= 90,
        ;
        assert((d as int) * (s as int) <= 200_000_000_000 && (d as int) * (s as int)
            >= -200_000_000_000) by (nonlinear_arith)
            requires
                -2147483648 <= d as int <= 2147483647,
                -90 <= s as int <= 90,
        ;
    }
    let dx: i64 = (d as i64) * c;
    let dy: i64 = (d as i64) * s;
    Point {
        x: sat_add_i64(t.position.x, dx),
        y: sat_add_i64(t.position.y, dy),
    }
}

/// Euclidean remainder of `h` by 360, computed without signed division.
pub fn normalize_deg(h: i64) -> (r: i64)
    ensures
        r == (h as int) % 360,
        0 <= r < 360,
{
    if h >= 0 {
        let hu: u64 = h as u64;
        let m: u64 = hu % 360;
        proof {
            lemma_fundamental_div_mod(hu as int, 360);
            lemma_fundamental_div_mod_converse(h as int, 360, hu as int / 360, m as int);
        }
        m as i64
    } else {
        let mag: u64 = if h == i64::MIN { 9223372036854775808u64 } else { (-h) as u64 };
        let k: u64 = mag % 360;
        let r: i64 = if k == 0 { 0 } else { 360 - k as i64 };
        proof {
            lemma_fundamental_div_mod(mag as int, 360);
            let q = mag as int / 360;
            if k == 0 {
                lemma_fundamental_div_mod_converse(h as int, 360, -q, 0);
            } else {
                lemma_fundamental_div_mod_converse(h as int, 360, -q - 1, 360 - k as int);
            }
        }
        r
    }
}

impl App {
    /// A fresh application state: no turtles, default drawing properties.
    pub fn new() -> (a: App)
        ensures
            a@.turtles == Seq::<TurtleState>::empty(),
            a@.drawing == default_drawing(),
    {
        App {
            turtles: Vec::new(),
            drawing: DrawingState {
                background: Color { red: 255, green: 255, blue: 255 },
                title: String::new(),
                width: DEFAULT_WIDTH,
                height: DEFAULT_HEIGHT,
            },
        }
    }

    /// How many turtles are registered.
    pub fn num_turtles(&self) -> (n: usize)
        ensures
            n == self@.turtles.len(),
    {
        self.turtles.len()
    }

    /// Registers a fresh turtle with the default pose and pen, and returns
    /// its identifier: the next index in creation order.
    pub fn create_turtle(&mut self) -> (id: TurtleId)
        ensures
            id.0 == old(self)@.turtles.len(),
            final(self)@.turtles == old(self)@.turtles.push(default_turtle()),
            final(self)@.drawing == old(self)@.drawing,
    {
        let t = TurtleState {
            position: Point { x: 0, y: 0 },
            heading: 0,
            pen_enabled: true,
            pen_thickness: DEFAULT_PEN_THICKNESS,
            pen_color: Color { red: 0, green: 0, blue: 0 },
            fill_color: Color { red: 0, green: 0, blue: 0 },
            is_filling: false,
        };
        let id = self.turtles.len();
        self.turtles.push(t);
        TurtleId(id)
    }

    /// Reads the whole state of turtle `id`.
    pub fn get_turtle(&self, id: TurtleId) -> (t: TurtleState)
        requires
            turtle_exists(self@, id),
        ensures
            t == self@.turtles[id.0 as int],
    {
        self.turtles[id.0]
    }

    /// Reads one property of turtle `id`.
    pub fn get_turtle_prop(&self, id: TurtleId, p: TurtleProp) -> (v: TurtlePropValue)
        requires
            turtle_exists(self@, id),
        ensures
            v == turtle_prop_of(self@.turtles[id.0 as int], p),
    {
        let t = &self.turtles[id.0];
        match p {
            TurtleProp::Position => TurtlePropValue::Position(t.position),
            TurtleProp::Heading => TurtlePropValue::Heading(t.heading),
            TurtleProp::PenEnabled => TurtlePropValue::PenEnabled(t.pen_enabled),
            TurtleProp::PenThickness => TurtlePropValue::PenThickness(t.pen_thickness),
            TurtleProp::PenColor => TurtlePropValue::PenColor(t.pen_color),
            TurtleProp::FillColor => TurtlePropValue::FillColor(t.fill_color),
        }
    }

    /// Sets one property of turtle `id`; headings are normalised on the way
    /// in, so well-formedness is preserved.
    pub fn set_turtle_prop(&mut self, id: TurtleId, v: TurtlePropValue)
        requires
            turtle_exists(old(self)@, id),
        ensures
            final(self)@ == with_turtle(old(self)@, id,
                turtle_with_prop(old(self)@.turtles[id.0 as int], v)),
    {
        let t = self.turtles[id.0];
        let t2 = match v {
            TurtlePropValue::Position(p) => TurtleState { position: p, ..t },
            TurtlePropValue::Heading(h) => TurtleState { heading: normalize_deg(h), ..t },
            TurtlePropValue::PenEnabled(b) => TurtleState { pen_enabled: b, ..t },
            TurtlePropValue::PenThickness(w) => TurtleState { pen_thickness: w, ..t },
            TurtlePropValue::PenColor(c) => TurtleState { pen_color: c, ..t },
            TurtlePropValue::FillColor(c) => TurtleState { fill_color: c, ..t },
        };
        self.turtles.set(id.0, t2);
    }

    /// Puts one property of turtle `id` back to its default.
    pub fn reset_turtle_prop(&mut self, id: TurtleId, p: TurtleProp)
        requires
            turtle_exists(old(self)@, id),
        ensures
            final(self)@ == with_turtle(old(self)@, id,
                turtle_with_prop_reset(old(self)@.turtles[id.0 as int], p)),
    {
        let v = match p {
            TurtleProp::Position => TurtlePropValue::Position(Point { x: 0, y: 0 }),
            TurtleProp::Heading => TurtlePropValue::Heading(0),
            TurtleProp::PenEnabled => TurtlePropValue::PenEnabled(true),
            TurtleProp::PenThickness => TurtlePropValue::PenThickness(DEFAULT_PEN_THICKNESS),
            TurtleProp::PenColor => TurtlePropValue::PenColor(Color { red: 0, green: 0, blue: 0 }),
            TurtleProp::FillColor => TurtlePropValue::FillColor(Color { red: 0, green: 0, blue: 0 }),
        };
        self.set_turtle_prop(id, v);
    }

    /// Puts turtle `id` back to the state it was created with.
    pub fn reset_turtle(&mut self, id: TurtleId)
        requires
            turtle_exists(old(self)@, id),
        ensures
            final(self)@ == with_turtle(old(self)@, id, default_turtle()),
    {
        let t = TurtleState {
            position: Point { x: 0, y: 0 },
            heading: 0,
            pen_enabled: true,
            pen_thickness: DEFAULT_PEN_THICKNESS,
            pen_color: Color { red: 0, green: 0, blue: 0 },
            fill_color: Color { red: 0, green: 0, blue: 0 },
            is_filling: false,
        };
        self.turtles.set(id.0, t);
    }

    /// Moves turtle `id` to `p` without touching pen or heading.
    pub fn set_position(&mut self, id: TurtleId, p: Point)
        requires
            turtle_exists(old(self)@, id),
        ensures
            final(self)@ == with_turtle(old(self)@, id,
                TurtleState { position: p, ..old(self)@.turtles[id.0 as int] }),
    {
        let t = self.turtles[id.0];
        self.turtles.set(id.0, TurtleState { position: p, ..t });
    }

    /// Marks turtle `id` as filling or not.
    pub fn set_filling(&mut self, id: TurtleId, filling: bool)
        requires
            turtle_exists(old(self)@, id),
        ensures
            final(self)@ == with_turtle(old(self)@, id,
                TurtleState { is_filling: filling, ..old(self)@.turtles[id.0 as int] }),
    {
        let t = self.turtles[id.0];
        self.turtles.set(id.0, TurtleState { is_filling: filling, ..t });
    }

    /// Rotates turtle `id` in place by `angle` degrees in `dir`.
    pub fn rotate(&mut self, id: TurtleId, angle: i32, dir: RotationDirection)
        requires
            turtle_exists(old(self)@, id),
            turtle_wf(old(self)@.turtles[id.0 as int]),
        ensures
            final(self)@ == with_turtle(old(self)@, id,
                TurtleState {
                    heading: rotated_heading(
                        old(self)@.turtles[id.0 as int].heading as int, angle as int, dir) as i64,
                    ..old(self)@.turtles[id.0 as int]
                }),
    {
        let t = self.turtles[id.0];
        let eff: i64 = match dir {
            RotationDirection::Counterclockwise => angle as i64,
            RotationDirection::Clockwise => -(angle as i64),
        };
        let h = normalize_deg(t.heading + eff);
        self.turtles.set(id.0, TurtleState { heading: h, ..t });
    }

    /// Reads one global drawing property.
    pub fn get_drawing_prop(&self, p: DrawingProp) -> (v: DrawingPropValue)
        ensures
            v@ == drawing_prop_of(self@.drawing, p),
    {
        match p {
            DrawingProp::Background => DrawingPropValue::Background(self.drawing.background),
            DrawingProp::Title => DrawingPropValue::Title(self.drawing.title.clone()),
            DrawingProp::Size => DrawingPropValue::Size(self.drawing.width, self.drawing.height),
        }
    }

    /// Sets one global drawing property.
    pub fn set_drawing_prop(&mut self, v: DrawingPropValue)
        ensures
            final(self)@.turtles == old(self)@.turtles,
            final(self)@.drawing == drawing_with_prop(old(self)@.drawing, v@),
    {
        match v {
            DrawingPropValue::Background(c) => { self.drawing.background = c; },
            DrawingPropValue::Title(t) => { self.drawing.title = t; },
            DrawingPropValue::Size(w, h) => {
                self.drawing.width = w;
                self.drawing.height = h;
            },
        }
    }

    /// Puts one global drawing property back to its default.
    pub fn reset_drawing_prop(&mut self, p: DrawingProp)
        ensures
            final(self)@.turtles == old(self)@.turtles,
            final(self)@.drawing == drawing_with_prop_reset(old(self)@.drawing, p),
    {
        match p {
            DrawingProp::Background => {
                self.drawing.background = Color { red: 255, green: 255, blue: 255 };
            },
            DrawingProp::Title => { self.drawing.title = String::new(); },
            DrawingProp::Size => {
                self.drawing.width = DEFAULT_WIDTH;
                self.drawing.height = DEFAULT_HEIGHT;
            },
        }
    }
}

} // verus!
