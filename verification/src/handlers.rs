//! One handler per request kind, folded into a single verified entry point.
//!
//! [`step_spec`] is the mathematical meaning of one request: given the shared
//! state it reads and mutates — application state, display list, event queue
//! — it yields the successor state, the one reply owed to the originating
//! client, and whether the renderer must be woken.  [`handle_request`]
//! implements it.  A poll on an empty queue is the one request that cannot
//! complete at once; it reports [`HandlerResult::NoEventReady`] and leaves
//! everything unchanged, and the caller retries once an event arrives.

use vstd::prelude::*;
use crate::types::{TurtleId, Point, Prim, Event, Request, RequestM, Reply, ReplyM, ExportJob,
    ExportJobM, RotationDirection};
use crate::state::{App, AppM, TurtleState, app_wf, turtle_exists, turtle_wf, with_turtle,
    turtle_prop_of, turtle_with_prop, turtle_with_prop_reset, default_turtle, drawing_prop_of,
    drawing_with_prop, drawing_with_prop_reset, rotated_heading, forward_target, forward_target_x};
use crate::display_list::{DisplayList, prim_turtle};
use crate::events::EventQueue;

verus! {

/// The shared state one request runs against.
pub struct SysState {
    pub app: AppM,
    pub dl: Seq<Prim>,
    pub events: Seq<Event>,
}

/// What one completed request leaves behind: the successor state, the reply
/// owed to its client, and whether the renderer must be woken.
pub struct StepRes {
    pub sys: SysState,
    pub reply: ReplyM,
    pub notify: bool,
}

/// Whether a request takes part in the ordering protocol: all but turtle
/// creation and event polling fire the ordering token once their capture of
/// shared state is done.
pub open spec fn needs_order_token(r: RequestM) -> bool {
    !(r is CreateTurtle || r is PollEvent)
}

/// Whether a request is an event poll: the one kind with no shared-state
/// capture and no ordering guarantee.
pub open spec fn is_poll(r: RequestM) -> bool {
    r is PollEvent
}

/// The line stroked by a move of turtle `t` (identified by `id`) to `target`.
pub open spec fn stroke(id: TurtleId, t: TurtleState, target: Point) -> Prim {
    Prim::Line {
        turtle: id,
        start: t.position,
        end: target,
        color: t.pen_color,
        thickness: t.pen_thickness,
    }
}

/// The display list after a move of turtle `id` from state `t` to `target`:
/// extended by a stroke when the pen is down, untouched when it is up.
pub open spec fn dl_after_move(dl: Seq<Prim>, id: TurtleId, t: TurtleState, target: Point)
    -> Seq<Prim> {
    if t.pen_enabled {
        dl.push(stroke(id, t, target))
    } else {
        dl
    }
}

/// The meaning of one request against state `s`: `None` exactly for a poll
/// on an empty queue (the handler suspends and nothing happens yet), `Some`
/// otherwise.  A request naming a dead turtle changes nothing and replies
/// [`ReplyM::NoSuchTurtle`].
pub open spec fn step_spec(r: RequestM, s: SysState) -> Option<StepRes> {
    match r {
        RequestM::CreateTurtle => Some(StepRes {
            sys: SysState {
                app: AppM { turtles: s.app.turtles.push(default_turtle()), ..s.app },
                ..s
            },
            reply: ReplyM::TurtleCreated(TurtleId(s.app.turtles.len() as usize)),
            notify: true,
        }),
        RequestM::Export(path, format) => Some(StepRes {
            sys: s,
            reply: ReplyM::Export(ExportJobM { path: path, format: format, prims: s.dl }),
            notify: false,
        }),
        RequestM::PollEvent => if s.events.len() > 0 {
            Some(StepRes {
                sys: SysState { events: s.events.drop_first(), ..s },
                reply: ReplyM::EventPolled(s.events[0]),
                notify: false,
            })
        } else {
            None
        },
        RequestM::DrawingProp(p) => Some(StepRes {
            sys: s,
            reply: ReplyM::Drawing(drawing_prop_of(s.app.drawing, p)),
            notify: false,
        }),
        RequestM::SetDrawingProp(v) => Some(StepRes {
            sys: SysState {
                app: AppM { drawing: drawing_with_prop(s.app.drawing, v), ..s.app },
                ..s
            },
            reply: ReplyM::Ack,
            notify: true,
        }),
        RequestM::ResetDrawingProp(p) => Some(StepRes {
            sys: SysState {
                app: AppM { drawing: drawing_with_prop_reset(s.app.drawing, p), ..s.app },
                ..s
            },
            reply: ReplyM::Ack,
            notify: true,
        }),
        RequestM::TurtleProp(id, p) => if turtle_exists(s.app, id) {
            Some(StepRes {
                sys: s,
                reply: ReplyM::Turtle(turtle_prop_of(s.app.turtles[id.0 as int], p)),
                notify: false,
            })
        } else {
            Some(no_such_turtle(s, id))
        },
        RequestM::SetTurtleProp(id, v) => if turtle_exists(s.app, id) {
            Some(StepRes {
                sys: SysState {
                    app: with_turtle(s.app, id, turtle_with_prop(s.app.turtles[id.0 as int], v)),
                    ..s
                },
                reply: ReplyM::Ack,
                notify: true,
            })
        } else {
            Some(no_such_turtle(s, id))
        },
        RequestM::ResetTurtleProp(id, p) => if turtle_exists(s.app, id) {
            Some(StepRes {
                sys: SysState {
                    app: with_turtle(s.app, id,
                        turtle_with_prop_reset(s.app.turtles[id.0 as int], p)),
                    ..s
                },
                reply: ReplyM::Ack,
                notify: true,
            })
        } else {
            Some(no_such_turtle(s, id))
        },
        RequestM::ResetTurtle(id) => if turtle_exists(s.app, id) {
            Some(StepRes {
                sys: SysState {
                    app: with_turtle(s.app, id, default_turtle()),
                    dl: s.dl.filter(|p: Prim| prim_turtle(p) != id),
                    ..s
                },
                reply: ReplyM::Ack,
                notify: true,
            })
        } else {
            Some(no_such_turtle(s, id))
        },
        RequestM::MoveForward(id, d) => if turtle_exists(s.app, id) {
            let t = s.app.turtles[id.0 as int];
            Some(move_res(s, id, t, forward_target(t, d as int)))
        } else {
            Some(no_such_turtle(s, id))
        },
        RequestM::MoveTo(id, target) => if turtle_exists(s.app, id) {
            let t = s.app.turtles[id.0 as int];
            Some(move_res(s, id, t, target))
        } else {
            Some(no_such_turtle(s, id))
        },
        RequestM::RotateInPlace(id, angle, dir) => if turtle_exists(s.app, id) {
            let t = s.app.turtles[id.0 as int];
            Some(StepRes {
                sys: SysState {
                    app: with_turtle(s.app, id, TurtleState {
                        heading: rotated_heading(t.heading as int, angle as int, dir) as i64,
                        ..t
                    }),
                    ..s
                },
                reply: ReplyM::Ack,
                notify: true,
            })
        } else {
            Some(no_such_turtle(s, id))
        },
        RequestM::BeginFill(id) => if turtle_exists(s.app, id) {
            let t = s.app.turtles[id.0 as int];
            Some(StepRes {
                sys: SysState {
                    app: with_turtle(s.app, id, TurtleState { is_filling: true, ..t }),
                    dl: s.dl.push(Prim::Fill { turtle: id, color: t.fill_color }),
                    ..s
                },
                reply: ReplyM::Ack,
                notify: true,
            })
        } else {
            Some(no_such_turtle(s, id))
        },
        RequestM::EndFill(id) => if turtle_exists(s.app, id) {
            let t = s.app.turtles[id.0 as int];
            Some(StepRes {
                sys: SysState {
                    app: with_turtle(s.app, id, TurtleState { is_filling: false, ..t }),
                    ..s
                },
                reply: ReplyM::Ack,
                notify: false,
            })
        } else {
            Some(no_such_turtle(s, id))
        },
        RequestM::ClearAll => Some(StepRes {
            sys: SysState { dl: Seq::empty(), ..s },
            reply: ReplyM::Ack,
            notify: true,
        }),
        RequestM::ClearTurtle(id) => if turtle_exists(s.app, id) {
            Some(StepRes {
                sys: SysState { dl: s.dl.filter(|p: Prim| prim_turtle(p) != id), ..s },
                reply: ReplyM::Ack,
                notify: true,
            })
        } else {
            Some(no_such_turtle(s, id))
        },
    }
}

/// The outcome of a request naming a dead turtle: nothing changes.
pub open spec fn no_such_turtle(s: SysState, id: TurtleId) -> StepRes {
    StepRes { sys: s, reply: ReplyM::NoSuchTurtle(id), notify: false }
}

/// The outcome of a move of turtle `id` from state `t` to `target`.
pub open spec fn move_res(s: SysState, id: TurtleId, t: TurtleState, target: Point) -> StepRes {
    StepRes {
        sys: SysState {
            app: with_turtle(s.app, id, TurtleState { position: target, ..t }),
            dl: dl_after_move(s.dl, id, t, target),
            ..s
        },
        reply: ReplyM::Ack,
        notify: true,
    }
}

/// A step keeps every turtle well formed: the only headings written are `0`
/// and remainders by 360.
pub proof fn lemma_step_wf(r: RequestM, s: SysState)
    requires
        app_wf(s.app),
    ensures
        match step_spec(r, s) {
            Some(sr) => app_wf(sr.sys.app),
            None => true,
        },
{
    match step_spec(r, s) {
        Some(sr) => {
            assert forall|i: int| 0 <= i < sr.sys.app.turtles.len()
                implies turtle_wf(#[trigger] sr.sys.app.turtles[i]) by {
                if i < s.app.turtles.len() {
                    assert(turtle_wf(s.app.turtles[i]));
                }
            }
        },
        None => {},
    }
}

/// How a handler reports back to the dispatch glue.
#[derive(Clone, PartialEq, Debug)]
pub enum HandlerResult {
    /// The request is fully applied; the reply and the renderer wakeup are
    /// owed.
    Complete(RequestEffect),
    /// An event poll found the queue empty; nothing happened.  Retry once an
    /// event has been pushed.
    NoEventReady,
}

/// The reply owed to the originating client and whether the renderer must be
/// woken.
#[derive(Clone, PartialEq, Debug)]
pub struct RequestEffect {
    pub reply: Reply,
    pub notify: bool,
}

/// Applies one request to the shared state, exactly as [`step_spec`] says.
pub fn handle_request(req: Request, app: &mut App, dl: &mut DisplayList, events: &mut EventQueue)
    -> (res: HandlerResult)
    requires
        app_wf(old(app)@),
    ensures
        app_wf(final(app)@),
        ({
            let pre = SysState { app: old(app)@, dl: old(dl)@, events: old(events)@ };
            match step_spec(req@, pre) {
                Some(sr) => res matches HandlerResult::Complete(eff)
                    && eff.reply@ == sr.reply
                    && eff.notify == sr.notify
                    && final(app)@ == sr.sys.app
                    && final(dl)@ == sr.sys.dl
                    && final(events)@ == sr.sys.events,
                None => res is NoEventReady
                    && final(app)@ == old(app)@
                    && final(dl)@ == old(dl)@
                    && final(events)@ == old(events)@,
            }
        }),
{
    let ghost pre = SysState { app: old(app)@, dl: old(dl)@, events: old(events)@ };
    proof {
        lemma_step_wf(req@, pre);
    }
    match req {
        Request::CreateTurtle => {
            let id = app.create_turtle();
            HandlerResult::Complete(RequestEffect {
                reply: Reply::TurtleCreated(id),
                notify: true,
            })
        },
        Request::Export(path, format) => {
            let prims = dl.snapshot();
            HandlerResult::Complete(RequestEffect {
                reply: Reply::Export(ExportJob { path, format, prims }),
                notify: false,
            })
        },
        Request::PollEvent => {
            match events.pop() {
                Some(e) => HandlerResult::Complete(RequestEffect {
                    reply: Reply::EventPolled(e),
                    notify: false,
                }),
                None => HandlerResult::NoEventReady,
            }
        },
        Request::DrawingProp(p) => {
            let v = app.get_drawing_prop(p);
            HandlerResult::Complete(RequestEffect { reply: Reply::Drawing(v), notify: false })
        },
        Request::SetDrawingProp(v) => {
            app.set_drawing_prop(v);
            HandlerResult::Complete(RequestEffect { reply: Reply::Ack, notify: true })
        },
        Request::ResetDrawingProp(p) => {
            app.reset_drawing_prop(p);
            HandlerResult::Complete(RequestEffect { reply: Reply::Ack, notify: true })
        },
        Request::TurtleProp(id, p) => {
            if id.0 < app.num_turtles() {
                let v = app.get_turtle_prop(id, p);
                HandlerResult::Complete(RequestEffect { reply: Reply::Turtle(v), notify: false })
            } else {
                HandlerResult::Complete(RequestEffect {
                    reply: Reply::NoSuchTurtle(id),
                    notify: false,
                })
            }
        },
        Request::SetTurtleProp(id, v) => {
            if id.0 < app.num_turtles() {
                app.set_turtle_prop(id, v);
                HandlerResult::Complete(RequestEffect { reply: Reply::Ack, notify: true })
            } else {
                HandlerResult::Complete(RequestEffect {
                    reply: Reply::NoSuchTurtle(id),
                    notify: false,
                })
            }
        },
        Request::ResetTurtleProp(id, p) => {
            if id.0 < app.num_turtles() {
                app.reset_turtle_prop(id, p);
                HandlerResult::Complete(RequestEffect { reply: Reply::Ack, notify: true })
            } else {
                HandlerResult::Complete(RequestEffect {
                    reply: Reply::NoSuchTurtle(id),
                    notify: false,
                })
            }
        },
        Request::ResetTurtle(id) => {
            if id.0 < app.num_turtles() {
                app.reset_turtle(id);
                dl.clear_turtle(id);
                HandlerResult::Complete(RequestEffect { reply: Reply::Ack, notify: true })
            } else {
                HandlerResult::Complete(RequestEffect {
                    reply: Reply::NoSuchTurtle(id),
                    notify: false,
                })
            }
        },
        Request::MoveForward(id, d) => {
            if id.0 < app.num_turtles() {
                let t = app.get_turtle(id);
                let target = forward_target_x(&t, d);
                if t.pen_enabled {
                    dl.push(Prim::Line {
                        turtle: id,
                        start: t.position,
                        end: target,
                        color: t.pen_color,
                        thickness: t.pen_thickness,
                    });
                }
                app.set_position(id, target);
                HandlerResult::Complete(RequestEffect { reply: Reply::Ack, notify: true })
            } else {
                HandlerResult::Complete(RequestEffect {
                    reply: Reply::NoSuchTurtle(id),
                    notify: false,
                })
            }
        },
        Request::MoveTo(id, target) => {
            if id.0 < app.num_turtles() {
                let t = app.get_turtle(id);
                if t.pen_enabled {
                    dl.push(Prim::Line {
                        turtle: id,
                        start: t.position,
                        end: target,
                        color: t.pen_color,
                        thickness: t.pen_thickness,
                    });
                }
                app.set_position(id, target);
                HandlerResult::Complete(RequestEffect { reply: Reply::Ack, notify: true })
            } else {
                HandlerResult::Complete(RequestEffect {
                    reply: Reply::NoSuchTurtle(id),
                    notify: false,
                })
            }
        },
        Request::RotateInPlace(id, angle, dir) => {
            if id.0 < app.num_turtles() {
                app.rotate(id, angle, dir);
                HandlerResult::Complete(RequestEffect { reply: Reply::Ack, notify: true })
            } else {
                HandlerResult::Complete(RequestEffect {
                    reply: Reply::NoSuchTurtle(id),
                    notify: false,
                })
            }
        },
        Request::BeginFill(id) => {
            if id.0 < app.num_turtles() {
                let t = app.get_turtle(id);
                dl.push(Prim::Fill { turtle: id, color: t.fill_color });
                app.set_filling(id, true);
                HandlerResult::Complete(RequestEffect { reply: Reply::Ack, notify: true })
            } else {
                HandlerResult::Complete(RequestEffect {
                    reply: Reply::NoSuchTurtle(id),
                    notify: false,
                })
            }
        },
        Request::EndFill(id) => {
            if id.0 < app.num_turtles() {
                app.set_filling(id, false);
                HandlerResult::Complete(RequestEffect { reply: Reply::Ack, notify: false })
            } else {
                HandlerResult::Complete(RequestEffect {
                    reply: Reply::NoSuchTurtle(id),
                    notify: false,
                })
            }
        },
        Request::ClearAll => {
            dl.clear();
            HandlerResult::Complete(RequestEffect { reply: Reply::Ack, notify: true })
        },
        Request::ClearTurtle(id) => {
            if id.0 < app.num_turtles() {
                dl.clear_turtle(id);
                HandlerResult::Complete(RequestEffect { reply: Reply::Ack, notify: true })
            } else {
                HandlerResult::Complete(RequestEffect {
                    reply: Reply::NoSuchTurtle(id),
                    notify: false,
                })
            }
        },
    }
}

/// Whether this request fires the ordering token; the dispatch glue awaits
/// the token only for requests that do.
pub fn request_needs_order_token(req: &Request) -> (b: bool)
    ensures
        b == needs_order_token(req@),
{
    match req {
        Request::CreateTurtle => false,
        Request::PollEvent => false,
        _ => true,
    }
}

} // verus!
