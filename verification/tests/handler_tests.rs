use turtle_server::types::{Color, DrawingProp, DrawingPropValue, Event, ExportFormat,
    Point, Prim, Reply, Request, RotationDirection, TurtleId, TurtleProp, TurtlePropValue,
    TURN_SCALE};
use turtle_server::state::{App, DEFAULT_PEN_THICKNESS};
use turtle_server::display_list::DisplayList;
use turtle_server::events::EventQueue;
use turtle_server::handlers::{handle_request, request_needs_order_token, HandlerResult,
    RequestEffect};

fn fresh() -> (App, DisplayList, EventQueue) {
    (App::new(), DisplayList::new(), EventQueue::new())
}

fn complete(
    req: Request,
    app: &mut App,
    dl: &mut DisplayList,
    events: &mut EventQueue,
) -> RequestEffect {
    match handle_request(req, app, dl, events) {
        HandlerResult::Complete(eff) => eff,
        HandlerResult::NoEventReady => panic!("handler unexpectedly suspended"),
    }
}

#[test]
fn create_turtle_assigns_sequential_ids() {
    let (mut app, mut dl, mut ev) = fresh();
    let e0 = complete(Request::CreateTurtle, &mut app, &mut dl, &mut ev);
    let e1 = complete(Request::CreateTurtle, &mut app, &mut dl, &mut ev);
    assert_eq!(e0.reply, Reply::TurtleCreated(TurtleId(0)));
    assert_eq!(e1.reply, Reply::TurtleCreated(TurtleId(1)));
    assert!(e0.notify);
    assert_eq!(app.num_turtles(), 2);
}

#[test]
fn create_then_move_forward_sees_default_pose() {
    let (mut app, mut dl, mut ev) = fresh();
    let created = complete(Request::CreateTurtle, &mut app, &mut dl, &mut ev);
    let id = match created.reply {
        Reply::TurtleCreated(id) => id,
        other => panic!("unexpected reply {:?}", other),
    };
    let moved = complete(Request::MoveForward(id, 10), &mut app, &mut dl, &mut ev);
    assert_eq!(moved.reply, Reply::Ack);
    let t = app.get_turtle(id);
    assert_eq!(t.position, Point { x: 10 * TURN_SCALE, y: 0 });
    assert_eq!(
        dl.snapshot(),
        vec![Prim::Line {
            turtle: id,
            start: Point { x: 0, y: 0 },
            end: Point { x: 10 * TURN_SCALE, y: 0 },
            color: Color { red: 0, green: 0, blue: 0 },
            thickness: DEFAULT_PEN_THICKNESS,
        }]
    );
}

#[test]
fn set_then_query_background_returns_new_value() {
    let (mut app, mut dl, mut ev) = fresh();
    let red = Color { red: 255, green: 0, blue: 0 };
    complete(
        Request::SetDrawingProp(DrawingPropValue::Background(red)),
        &mut app, &mut dl, &mut ev,
    );
    let got = complete(
        Request::DrawingProp(DrawingProp::Background),
        &mut app, &mut dl, &mut ev,
    );
    assert_eq!(got.reply, Reply::Drawing(DrawingPropValue::Background(red)));
}

#[test]
fn title_round_trip_and_reset() {
    let (mut app, mut dl, mut ev) = fresh();
    complete(
        Request::SetDrawingProp(DrawingPropValue::Title(String::from("hello"))),
        &mut app, &mut dl, &mut ev,
    );
    let got = complete(Request::DrawingProp(DrawingProp::Title), &mut app, &mut dl, &mut ev);
    assert_eq!(got.reply, Reply::Drawing(DrawingPropValue::Title(String::from("hello"))));
    complete(Request::ResetDrawingProp(DrawingProp::Title), &mut app, &mut dl, &mut ev);
    let got = complete(Request::DrawingProp(DrawingProp::Title), &mut app, &mut dl, &mut ev);
    assert_eq!(got.reply, Reply::Drawing(DrawingPropValue::Title(String::new())));
}

#[test]
fn size_set_and_query() {
    let (mut app, mut dl, mut ev) = fresh();
    complete(
        Request::SetDrawingProp(DrawingPropValue::Size(1024, 768)),
        &mut app, &mut dl, &mut ev,
    );
    let got = complete(Request::DrawingProp(DrawingProp::Size), &mut app, &mut dl, &mut ev);
    assert_eq!(got.reply, Reply::Drawing(DrawingPropValue::Size(1024, 768)));
}

#[test]
fn poll_event_empty_queue_suspends() {
    let (mut app, mut dl, mut ev) = fresh();
    let res = handle_request(Request::PollEvent, &mut app, &mut dl, &mut ev);
    assert_eq!(res, HandlerResult::NoEventReady);
    assert_eq!(ev.len(), 0);
}

#[test]
fn two_pollers_get_distinct_events() {
    let (mut app, mut dl, mut ev) = fresh();
    ev.push(Event(7));
    ev.push(Event(8));
    let first = complete(Request::PollEvent, &mut app, &mut dl, &mut ev);
    let second = complete(Request::PollEvent, &mut app, &mut dl, &mut ev);
    assert_eq!(first.reply, Reply::EventPolled(Event(7)));
    assert_eq!(second.reply, Reply::EventPolled(Event(8)));
    assert_eq!(ev.len(), 0);
    let res = handle_request(Request::PollEvent, &mut app, &mut dl, &mut ev);
    assert_eq!(res, HandlerResult::NoEventReady);
}

#[test]
fn move_with_pen_up_draws_nothing() {
    let (mut app, mut dl, mut ev) = fresh();
    complete(Request::CreateTurtle, &mut app, &mut dl, &mut ev);
    let id = TurtleId(0);
    complete(
        Request::SetTurtleProp(id, TurtlePropValue::PenEnabled(false)),
        &mut app, &mut dl, &mut ev,
    );
    complete(Request::MoveTo(id, Point { x: 5, y: 6 }), &mut app, &mut dl, &mut ev);
    assert_eq!(dl.len(), 0);
    assert_eq!(app.get_turtle(id).position, Point { x: 5, y: 6 });
}

#[test]
fn rotate_wraps_through_zero() {
    let (mut app, mut dl, mut ev) = fresh();
    complete(Request::CreateTurtle, &mut app, &mut dl, &mut ev);
    let id = TurtleId(0);
    complete(
        Request::RotateInPlace(id, 90, RotationDirection::Clockwise),
        &mut app, &mut dl, &mut ev,
    );
    assert_eq!(app.get_turtle(id).heading, 270);
    complete(
        Request::RotateInPlace(id, 450, RotationDirection::Counterclockwise),
        &mut app, &mut dl, &mut ev,
    );
    assert_eq!(app.get_turtle(id).heading, 0);
}

#[test]
fn heading_set_is_normalised() {
    let (mut app, mut dl, mut ev) = fresh();
    complete(Request::CreateTurtle, &mut app, &mut dl, &mut ev);
    let id = TurtleId(0);
    complete(
        Request::SetTurtleProp(id, TurtlePropValue::Heading(725)),
        &mut app, &mut dl, &mut ev,
    );
    assert_eq!(app.get_turtle(id).heading, 5);
    complete(
        Request::SetTurtleProp(id, TurtlePropValue::Heading(-90)),
        &mut app, &mut dl, &mut ev,
    );
    assert_eq!(app.get_turtle(id).heading, 270);
}

#[test]
fn move_forward_at_quarter_turn_headings() {
    let (mut app, mut dl, mut ev) = fresh();
    complete(Request::CreateTurtle, &mut app, &mut dl, &mut ev);
    let id = TurtleId(0);
    complete(
        Request::SetTurtleProp(id, TurtlePropValue::Heading(90)),
        &mut app, &mut dl, &mut ev,
    );
    complete(Request::MoveForward(id, 3), &mut app, &mut dl, &mut ev);
    assert_eq!(app.get_turtle(id).position, Point { x: 0, y: 3 * TURN_SCALE });
    complete(
        Request::SetTurtleProp(id, TurtlePropValue::Heading(180)),
        &mut app, &mut dl, &mut ev,
    );
    complete(Request::MoveForward(id, 2), &mut app, &mut dl, &mut ev);
    assert_eq!(
        app.get_turtle(id).position,
        Point { x: -2 * TURN_SCALE, y: 3 * TURN_SCALE },
    );
}

#[test]
fn move_forward_at_diagonal_heading() {
    let (mut app, mut dl, mut ev) = fresh();
    complete(Request::CreateTurtle, &mut app, &mut dl, &mut ev);
    let id = TurtleId(0);
    complete(
        Request::SetTurtleProp(id, TurtlePropValue::Heading(45)),
        &mut app, &mut dl, &mut ev,
    );
    complete(Request::MoveForward(id, 10), &mut app, &mut dl, &mut ev);
    assert_eq!(app.get_turtle(id).position, Point { x: 450, y: 450 });
}

#[test]
fn move_saturates_at_coordinate_edge() {
    let (mut app, mut dl, mut ev) = fresh();
    complete(Request::CreateTurtle, &mut app, &mut dl, &mut ev);
    let id = TurtleId(0);
    complete(
        Request::MoveTo(id, Point { x: i64::MAX - 10, y: 0 }),
        &mut app, &mut dl, &mut ev,
    );
    complete(Request::MoveForward(id, 1), &mut app, &mut dl, &mut ev);
    assert_eq!(app.get_turtle(id).position, Point { x: i64::MAX, y: 0 });
}

#[test]
fn missing_turtle_is_reported_and_harmless() {
    let (mut app, mut dl, mut ev) = fresh();
    let eff = complete(Request::MoveForward(TurtleId(3), 1), &mut app, &mut dl, &mut ev);
    assert_eq!(eff.reply, Reply::NoSuchTurtle(TurtleId(3)));
    assert!(!eff.notify);
    let eff = complete(
        Request::TurtleProp(TurtleId(0), TurtleProp::Heading),
        &mut app, &mut dl, &mut ev,
    );
    assert_eq!(eff.reply, Reply::NoSuchTurtle(TurtleId(0)));
    assert_eq!(dl.len(), 0);
}

#[test]
fn turtle_prop_query_reads_current_state() {
    let (mut app, mut dl, mut ev) = fresh();
    complete(Request::CreateTurtle, &mut app, &mut dl, &mut ev);
    let id = TurtleId(0);
    let eff = complete(Request::TurtleProp(id, TurtleProp::PenThickness), &mut app, &mut dl, &mut ev);
    assert_eq!(eff.reply, Reply::Turtle(TurtlePropValue::PenThickness(DEFAULT_PEN_THICKNESS)));
    complete(
        Request::SetTurtleProp(id, TurtlePropValue::PenColor(Color { red: 1, green: 2, blue: 3 })),
        &mut app, &mut dl, &mut ev,
    );
    let eff = complete(Request::TurtleProp(id, TurtleProp::PenColor), &mut app, &mut dl, &mut ev);
    assert_eq!(
        eff.reply,
        Reply::Turtle(TurtlePropValue::PenColor(Color { red: 1, green: 2, blue: 3 })),
    );
}

#[test]
fn reset_turtle_prop_restores_default() {
    let (mut app, mut dl, mut ev) = fresh();
    complete(Request::CreateTurtle, &mut app, &mut dl, &mut ev);
    let id = TurtleId(0);
    complete(
        Request::SetTurtleProp(id, TurtlePropValue::PenThickness(9)),
        &mut app, &mut dl, &mut ev,
    );
    complete(
        Request::ResetTurtleProp(id, TurtleProp::PenThickness),
        &mut app, &mut dl, &mut ev,
    );
    let eff = complete(Request::TurtleProp(id, TurtleProp::PenThickness), &mut app, &mut dl, &mut ev);
    assert_eq!(eff.reply, Reply::Turtle(TurtlePropValue::PenThickness(DEFAULT_PEN_THICKNESS)));
}

#[test]
fn begin_and_end_fill() {
    let (mut app, mut dl, mut ev) = fresh();
    complete(Request::CreateTurtle, &mut app, &mut dl, &mut ev);
    let id = TurtleId(0);
    let eff = complete(Request::BeginFill(id), &mut app, &mut dl, &mut ev);
    assert!(eff.notify);
    assert!(app.get_turtle(id).is_filling);
    assert_eq!(
        dl.snapshot(),
        vec![Prim::Fill { turtle: id, color: Color { red: 0, green: 0, blue: 0 } }],
    );
    let eff = complete(Request::EndFill(id), &mut app, &mut dl, &mut ev);
    assert!(!eff.notify);
    assert!(!app.get_turtle(id).is_filling);
    assert_eq!(dl.len(), 1);
}

#[test]
fn clear_turtle_removes_only_its_primitives() {
    let (mut app, mut dl, mut ev) = fresh();
    complete(Request::CreateTurtle, &mut app, &mut dl, &mut ev);
    complete(Request::CreateTurtle, &mut app, &mut dl, &mut ev);
    let a = TurtleId(0);
    let b = TurtleId(1);
    complete(Request::MoveForward(a, 1), &mut app, &mut dl, &mut ev);
    complete(Request::MoveForward(b, 2), &mut app, &mut dl, &mut ev);
    complete(Request::MoveForward(a, 3), &mut app, &mut dl, &mut ev);
    assert_eq!(dl.len(), 3);
    complete(Request::ClearTurtle(a), &mut app, &mut dl, &mut ev);
    let left = dl.snapshot();
    assert_eq!(left.len(), 1);
    match left[0] {
        Prim::Line { turtle, .. } => assert_eq!(turtle, b),
        ref other => panic!("unexpected primitive {:?}", other),
    }
}

#[test]
fn clear_all_empties_display_list() {
    let (mut app, mut dl, mut ev) = fresh();
    complete(Request::CreateTurtle, &mut app, &mut dl, &mut ev);
    complete(Request::MoveForward(TurtleId(0), 1), &mut app, &mut dl, &mut ev);
    assert_eq!(dl.len(), 1);
    let eff = complete(Request::ClearAll, &mut app, &mut dl, &mut ev);
    assert!(eff.notify);
    assert_eq!(dl.len(), 0);
}

#[test]
fn reset_turtle_restores_pose_and_clears_its_drawing() {
    let (mut app, mut dl, mut ev) = fresh();
    complete(Request::CreateTurtle, &mut app, &mut dl, &mut ev);
    let id = TurtleId(0);
    complete(Request::MoveForward(id, 4), &mut app, &mut dl, &mut ev);
    complete(
        Request::RotateInPlace(id, 45, RotationDirection::Counterclockwise),
        &mut app, &mut dl, &mut ev,
    );
    complete(Request::ResetTurtle(id), &mut app, &mut dl, &mut ev);
    let t = app.get_turtle(id);
    assert_eq!(t.position, Point { x: 0, y: 0 });
    assert_eq!(t.heading, 0);
    assert_eq!(dl.len(), 0);
}

#[test]
fn export_captures_snapshot_without_consuming_it() {
    let (mut app, mut dl, mut ev) = fresh();
    complete(Request::CreateTurtle, &mut app, &mut dl, &mut ev);
    complete(Request::MoveForward(TurtleId(0), 1), &mut app, &mut dl, &mut ev);
    let eff = complete(
        Request::Export(String::from("out.svg"), ExportFormat::Svg),
        &mut app, &mut dl, &mut ev,
    );
    assert!(!eff.notify);
    match eff.reply {
        Reply::Export(job) => {
            assert_eq!(job.path, String::from("out.svg"));
            assert_eq!(job.format, ExportFormat::Svg);
            assert_eq!(job.prims, dl.snapshot());
            assert_eq!(job.prims.len(), 1);
        },
        other => panic!("unexpected reply {:?}", other),
    }
    assert_eq!(dl.len(), 1);
}

#[test]
fn order_token_requirement_per_request_kind() {
    assert!(!request_needs_order_token(&Request::CreateTurtle));
    assert!(!request_needs_order_token(&Request::PollEvent));
    assert!(request_needs_order_token(&Request::MoveForward(TurtleId(0), 1)));
    assert!(request_needs_order_token(&Request::ClearAll));
    assert!(request_needs_order_token(&Request::DrawingProp(DrawingProp::Background)));
    assert!(request_needs_order_token(
        &Request::Export(String::from("x"), ExportFormat::Svg)));
}

#[test]
fn mutating_requests_apply_in_receipt_order() {
    let (mut app, mut dl, mut ev) = fresh();
    complete(Request::CreateTurtle, &mut app, &mut dl, &mut ev);
    let id = TurtleId(0);
    let script = vec![
        Request::MoveForward(id, 1),
        Request::RotateInPlace(id, 90, RotationDirection::Counterclockwise),
        Request::MoveForward(id, 2),
        Request::SetDrawingProp(DrawingPropValue::Background(Color { red: 9, green: 9, blue: 9 })),
    ];
    for req in script {
        complete(req, &mut app, &mut dl, &mut ev);
    }
    let t = app.get_turtle(id);
    assert_eq!(t.position, Point { x: TURN_SCALE, y: 2 * TURN_SCALE });
    assert_eq!(t.heading, 90);
    assert_eq!(app.drawing.background, Color { red: 9, green: 9, blue: 9 });
}
