use turtle_server::types::{Color, Event, Point, Prim, TurtleId};
use turtle_server::display_list::DisplayList;
use turtle_server::events::EventQueue;

#[test]
fn event_queue_is_fifo() {
    let mut q = EventQueue::new();
    q.push(Event(1));
    q.push(Event(2));
    q.push(Event(3));
    assert_eq!(q.pop(), Some(Event(1)));
    assert_eq!(q.pop(), Some(Event(2)));
    assert_eq!(q.pop(), Some(Event(3)));
    assert_eq!(q.pop(), None);
}

#[test]
fn popping_an_empty_queue_changes_nothing() {
    let mut q = EventQueue::new();
    assert_eq!(q.pop(), None);
    assert_eq!(q.len(), 0);
    q.push(Event(9));
    assert_eq!(q.len(), 1);
}

#[test]
fn display_list_appends_in_order_and_clears_wholesale() {
    let mut dl = DisplayList::new();
    let line = Prim::Line {
        turtle: TurtleId(0),
        start: Point { x: 0, y: 0 },
        end: Point { x: 1, y: 1 },
        color: Color { red: 0, green: 0, blue: 0 },
        thickness: 1,
    };
    let fill = Prim::Fill { turtle: TurtleId(1), color: Color { red: 5, green: 5, blue: 5 } };
    dl.push(line);
    dl.push(fill);
    assert_eq!(dl.snapshot(), vec![line, fill]);
    dl.clear();
    assert_eq!(dl.len(), 0);
    assert_eq!(dl.snapshot(), Vec::new());
}
