//! The vocabulary shared by clients, handlers and the renderer: identifiers,
//! geometry, request and reply payloads, display-list primitives and events.
//!
//! Coordinates are integers in fine surface units.  Headings are whole
//! degrees, normalised to `0 <= h < 360`.  A forward move of distance `d`
//! advances the position by `d` times the heading's profile value (see
//! [`sin_profile`]), so one unit of distance at heading `0` advances `x` by
//! `TURN_SCALE` fine units.

use vstd::prelude::*;

verus! {

/// Scale factor of the heading profile: the profile of a heading lies in
/// `[-TURN_SCALE, TURN_SCALE]`, and a forward move of distance `d` straight
/// along an axis covers `d * TURN_SCALE` fine units.
pub const TURN_SCALE: i64 = 90;

/// Opaque token identifying which connected client a request came from;
/// used only to route the reply.
#[derive(Clone, Copy, PartialEq, Eq, Structural, Debug)]
pub struct ClientId(pub u64);

/// Identifies one live turtle: its index in the turtle registry, in creation
/// order.
#[derive(Clone, Copy, PartialEq, Eq, Structural, Debug)]
pub struct TurtleId(pub usize);

/// An RGB colour.
#[derive(Clone, Copy, PartialEq, Eq, Structural, Debug)]
pub struct Color {
    pub red: u8,
    pub green: u8,
    pub blue: u8,
}

/// A point on the drawing surface, in fine surface units.
#[derive(Clone, Copy, PartialEq, Eq, Structural, Debug)]
pub struct Point {
    pub x: i64,
    pub y: i64,
}

/// Direction of an in-place rotation.
#[derive(Clone, Copy, PartialEq, Eq, Structural, Debug)]
pub enum RotationDirection {
    Clockwise,
    Counterclockwise,
}

/// Selects one global drawing property.
#[derive(Clone, Copy, PartialEq, Eq, Structural, Debug)]
pub enum DrawingProp {
    Background,
    Title,
    Size,
}

/// One global drawing property together with a value for it.
#[derive(Clone, PartialEq, Debug)]
pub enum DrawingPropValue {
    Background(Color),
    Title(String),
    Size(u32, u32),
}

/// Selects one per-turtle property.
#[derive(Clone, Copy, PartialEq, Eq, Structural, Debug)]
pub enum TurtleProp {
    Position,
    Heading,
    PenEnabled,
    PenThickness,
    PenColor,
    FillColor,
}

/// One per-turtle property together with a value for it.
#[derive(Clone, Copy, PartialEq, Eq, Structural, Debug)]
pub enum TurtlePropValue {
    Position(Point),
    Heading(i64),
    PenEnabled(bool),
    PenThickness(u32),
    PenColor(Color),
    FillColor(Color),
}

/// Format of an export of the display list.
#[derive(Clone, Copy, PartialEq, Eq, Structural, Debug)]
pub enum ExportFormat {
    Svg,
}

/// A renderer-originated occurrence (input, resize, ...), delivered to
/// polling clients.  The payload is opaque to this core.
#[derive(Clone, Copy, PartialEq, Eq, Structural, Debug)]
pub struct Event(pub u64);

/// One primitive of the display list.
#[derive(Clone, Copy, PartialEq, Eq, Structural, Debug)]
pub enum Prim {
    /// A pen stroke drawn by `turtle` from `start` to `end`.
    Line { turtle: TurtleId, start: Point, end: Point, color: Color, thickness: u32 },
    /// A fill committed by `turtle`.
    Fill { turtle: TurtleId, color: Color },
}

/// One client-issued operation.
#[derive(Clone, PartialEq, Debug)]
pub enum Request {
    CreateTurtle,
    Export(String, ExportFormat),
    PollEvent,
    DrawingProp(DrawingProp),
    SetDrawingProp(DrawingPropValue),
    ResetDrawingProp(DrawingProp),
    TurtleProp(TurtleId, TurtleProp),
    SetTurtleProp(TurtleId, TurtlePropValue),
    ResetTurtleProp(TurtleId, TurtleProp),
    ResetTurtle(TurtleId),
    MoveForward(TurtleId, i32),
    MoveTo(TurtleId, Point),
    RotateInPlace(TurtleId, i32, RotationDirection),
    BeginFill(TurtleId),
    EndFill(TurtleId),
    ClearAll,
    ClearTurtle(TurtleId),
}

/// An export job prepared under the display-list lock: the snapshot to
/// serialise and where it goes.  Serialisation and the file write happen
/// outside the core, off this captured snapshot.
#[derive(Clone, PartialEq, Debug)]
pub struct ExportJob {
    pub path: String,
    pub format: ExportFormat,
    pub prims: Vec<Prim>,
}

/// The single reply a request yields, routed to its originating client.
#[derive(Clone, PartialEq, Debug)]
pub enum Reply {
    /// A fresh turtle was registered under this identifier.
    TurtleCreated(TurtleId),
    /// The current value of the queried drawing property.
    Drawing(DrawingPropValue),
    /// The current value of the queried turtle property.
    Turtle(TurtlePropValue),
    /// The request named a turtle that does not exist.
    NoSuchTurtle(TurtleId),
    /// The event a poll dequeued.
    EventPolled(Event),
    /// The snapshot captured for an export.
    Export(ExportJob),
    /// The mutation was applied; nothing further to report.
    Ack,
}

/// Model of a drawing-property value: the title as a character sequence.
pub enum DrawingPropValueM {
    Background(Color),
    Title(Seq<char>),
    Size(u32, u32),
}

impl View for DrawingPropValue {
    type V = DrawingPropValueM;

    open spec fn view(&self) -> DrawingPropValueM {
        match self {
            DrawingPropValue::Background(c) => DrawingPropValueM::Background(*c),
            DrawingPropValue::Title(t) => DrawingPropValueM::Title(t@),
            DrawingPropValue::Size(w, h) => DrawingPropValueM::Size(*w, *h),
        }
    }
}

/// Model of an export job.
pub struct ExportJobM {
    pub path: Seq<char>,
    pub format: ExportFormat,
    pub prims: Seq<Prim>,
}

impl View for ExportJob {
    type V = ExportJobM;

    open spec fn view(&self) -> ExportJobM {
        ExportJobM { path: self.path@, format: self.format, prims: self.prims@ }
    }
}

/// Model of a request.
pub enum RequestM {
    CreateTurtle,
    Export(Seq<char>, ExportFormat),
    PollEvent,
    DrawingProp(DrawingProp),
    SetDrawingProp(DrawingPropValueM),
    ResetDrawingProp(DrawingProp),
    TurtleProp(TurtleId, TurtleProp),
    SetTurtleProp(TurtleId, TurtlePropValue),
    ResetTurtleProp(TurtleId, TurtleProp),
    ResetTurtle(TurtleId),
    MoveForward(TurtleId, i32),
    MoveTo(TurtleId, Point),
    RotateInPlace(TurtleId, i32, RotationDirection),
    BeginFill(TurtleId),
    EndFill(TurtleId),
    ClearAll,
    ClearTurtle(TurtleId),
}

impl View for Request {
    type V = RequestM;

    open spec fn view(&self) -> RequestM {
        match self {
            Request::CreateTurtle => RequestM::CreateTurtle,
            Request::Export(p, f) => RequestM::Export(p@, *f),
            Request::PollEvent => RequestM::PollEvent,
            Request::DrawingProp(p) => RequestM::DrawingProp(*p),
            Request::SetDrawingProp(v) => RequestM::SetDrawingProp(v@),
            Request::ResetDrawingProp(p) => RequestM::ResetDrawingProp(*p),
            Request::TurtleProp(id, p) => RequestM::TurtleProp(*id, *p),
            Request::SetTurtleProp(id, v) => RequestM::SetTurtleProp(*id, *v),
            Request::ResetTurtleProp(id, p) => RequestM::ResetTurtleProp(*id, *p),
            Request::ResetTurtle(id) => RequestM::ResetTurtle(*id),
            Request::MoveForward(id, d) => RequestM::MoveForward(*id, *d),
            Request::MoveTo(id, p) => RequestM::MoveTo(*id, *p),
            Request::RotateInPlace(id, a, dir) => RequestM::RotateInPlace(*id, *a, *dir),
            Request::BeginFill(id) => RequestM::BeginFill(*id),
            Request::EndFill(id) => RequestM::EndFill(*id),
            Request::ClearAll => RequestM::ClearAll,
            Request::ClearTurtle(id) => RequestM::ClearTurtle(*id),
        }
    }
}

/// Model of a reply.
pub enum ReplyM {
    TurtleCreated(TurtleId),
    Drawing(DrawingPropValueM),
    Turtle(TurtlePropValue),
    NoSuchTurtle(TurtleId),
    EventPolled(Event),
    Export(ExportJobM),
    Ack,
}

impl View for Reply {
    type V = ReplyM;

    open spec fn view(&self) -> ReplyM {
        match self {
            Reply::TurtleCreated(id) => ReplyM::TurtleCreated(*id),
            Reply::Drawing(v) => ReplyM::Drawing(v@),
            Reply::Turtle(v) => ReplyM::Turtle(*v),
            Reply::NoSuchTurtle(id) => ReplyM::NoSuchTurtle(*id),
            Reply::EventPolled(e) => ReplyM::EventPolled(*e),
            Reply::Export(j) => ReplyM::Export(j@),
            Reply::Ack => ReplyM::Ack,
        }
    }
}

} // verus!
