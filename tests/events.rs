use scene_engine::bus::{dispatch_outcome, EventBus, Subscriber};
use scene_engine::events::{
    Action, ActionEvent, ClearEvent, Event, EventResult, InitEvent, InteractEvent, InteractType,
    RefreshEvent, ShutdownEvent,
};
use std::cell::RefCell;
use std::rc::Rc;

enum TestSub {
    Print(&'static str),
    Cancel(&'static str, &'static str),
}

impl Subscriber<InteractEvent> for TestSub {
    fn notified(&self, _before: InteractEvent, after: InteractEvent) -> bool {
        match self {
            TestSub::Print(_) => true,
            TestSub::Cancel(_, _) => after.cancelled,
        }
    }

    fn notify(&self, event: &mut InteractEvent) {
        match self {
            TestSub::Print(text) => println!("{}", text),
            TestSub::Cancel(text, reason) => {
                println!("{}", text);
                event.cancel(Some(reason.to_string()));
            }
        }
    }
}

impl Subscriber<InitEvent> for TestSub {
    fn notified(&self, _before: InitEvent, after: InitEvent) -> bool {
        match self {
            TestSub::Print(_) => true,
            TestSub::Cancel(_, _) => after.cancelled,
        }
    }

    fn notify(&self, event: &mut InitEvent) {
        match self {
            TestSub::Print(text) => println!("{}", text),
            TestSub::Cancel(text, reason) => {
                println!("{}", text);
                event.cancel(Some(reason.to_string()));
            }
        }
    }
}

#[test]
fn events_event_test() {
    let mut interact_bus: EventBus<TestSub> = EventBus::new("test".to_string());
    let mut init_bus: EventBus<TestSub> = EventBus::new("test".to_string());

    interact_bus.subscribe(TestSub::Print("Event called"));
    interact_bus.subscribe(TestSub::Print("Event 2 called"));
    init_bus.subscribe(TestSub::Print("Event inti called"));
    init_bus.subscribe(TestSub::Cancel("Event init cancel called", "Event init cancelled"));

    let mut event = InteractEvent::new(InteractType::Keyboard(66));
    let mut init_event = InitEvent::new();

    let result_interact = interact_bus.dispatch(&mut event);
    assert_eq!(result_interact, EventResult::EvPassed);

    println!("calling other");

    let result_init = init_bus.dispatch(&mut init_event);
    assert_eq!(result_init, EventResult::EvCancelled("Event init cancelled".to_string()));
}

struct Recorder {
    name: &'static str,
    log: Rc<RefCell<Vec<&'static str>>>,
    cancel_with: Option<&'static str>,
}

impl Subscriber<InitEvent> for Recorder {
    fn notified(&self, before: InitEvent, after: InitEvent) -> bool {
        match self.cancel_with {
            Some(reason) => after.cancelled && after.reason == Some(reason.to_string()),
            None => before.cancelled == after.cancelled,
        }
    }

    fn notify(&self, event: &mut InitEvent) {
        self.log.borrow_mut().push(self.name);
        if let Some(reason) = self.cancel_with {
            event.set_cancelled(true, Some(reason.to_string()));
        }
    }
}

#[test]
fn dispatch_stops_after_first_cancel() {
    let log = Rc::new(RefCell::new(Vec::new()));
    let mut bus: EventBus<Recorder> = EventBus::new("engine".to_string());
    bus.subscribe(Recorder { name: "f1", log: log.clone(), cancel_with: None });
    bus.subscribe(Recorder { name: "f2", log: log.clone(), cancel_with: Some("R") });
    bus.subscribe(Recorder { name: "f3", log: log.clone(), cancel_with: None });
    let mut event = InitEvent::new();
    let result = bus.dispatch(&mut event);
    assert_eq!(result, EventResult::EvCancelled("R".to_string()));
    assert_eq!(*log.borrow(), vec!["f1", "f2"]);
    assert!(event.cancelled());
}

#[test]
fn dispatch_without_cancel_passes_through_all() {
    let log = Rc::new(RefCell::new(Vec::new()));
    let mut bus: EventBus<Recorder> = EventBus::new("engine".to_string());
    bus.subscribe(Recorder { name: "a", log: log.clone(), cancel_with: None });
    bus.subscribe(Recorder { name: "b", log: log.clone(), cancel_with: None });
    bus.subscribe(Recorder { name: "c", log: log.clone(), cancel_with: None });
    let mut event = InitEvent::new();
    assert_eq!(bus.dispatch(&mut event), EventResult::EvPassed);
    assert_eq!(*log.borrow(), vec!["a", "b", "c"]);
}

#[test]
fn dispatch_with_no_subscriber_passes() {
    let bus: EventBus<Recorder> = EventBus::new("engine".to_string());
    assert_eq!(bus.subscriber_count(), 0);
    let mut event = InitEvent::new();
    assert_eq!(bus.dispatch(&mut event), EventResult::EvPassed);
    assert!(!event.cancelled());
}

struct Silent;

impl Subscriber<InitEvent> for Silent {
    fn notified(&self, _before: InitEvent, after: InitEvent) -> bool {
        after.cancelled && after.reason.is_none()
    }

    fn notify(&self, event: &mut InitEvent) {
        event.cancel(None);
    }
}

#[test]
fn cancel_without_reason_reports_empty_reason() {
    let mut bus: EventBus<Silent> = EventBus::new("engine".to_string());
    bus.subscribe(Silent);
    let mut event = InitEvent::new();
    assert_eq!(bus.dispatch(&mut event), EventResult::EvCancelled(String::new()));
}

#[test]
fn events_record_cancellation() {
    let mut e = ShutdownEvent::new();
    assert!(e.cancellable());
    assert!(!e.cancelled());
    assert_eq!(e.get_cancelled_reason(), None);
    e.set_cancelled(true, Some("stop".to_string()));
    assert!(e.cancelled());
    assert_eq!(e.get_cancelled_reason(), Some("stop".to_string()));
    e.set_cancelled(false, None);
    assert!(!e.cancelled());

    let mut r = RefreshEvent::new();
    r.cancel(Some("x".to_string()));
    assert!(r.cancelled());
    let mut c = ClearEvent::new();
    c.cancel(None);
    assert!(c.cancelled());
    assert_eq!(c.get_cancelled_reason(), None);

    let mut a = ActionEvent::new(Action::UpdateResolution(800, 600));
    assert!(!a.cancelled());
    a.cancel(Some("no".to_string()));
    assert_eq!(a.get_cancelled_reason(), Some("no".to_string()));
}

#[test]
fn interact_event_starts_with_blank_mouse_data() {
    let e = InteractEvent::new(InteractType::Mouse);
    assert_eq!(e.interact, InteractType::Mouse);
    assert_eq!(e.data.cursor, (0, 0));
    assert_eq!(e.data.delta, (0, 0));
    assert!(!e.cancelled);
}

#[test]
fn step_decision_follows_cancellation() {
    let mut e = InitEvent::new();
    assert_eq!(dispatch_outcome(&e), None);
    e.cancel(Some("why".to_string()));
    assert_eq!(dispatch_outcome(&e), Some(EventResult::EvCancelled("why".to_string())));
    e.set_cancelled(true, None);
    assert_eq!(dispatch_outcome(&e), Some(EventResult::EvCancelled(String::new())));
}

#[test]
fn pre_cancelled_event_still_reaches_first_subscriber() {
    let log = Rc::new(RefCell::new(Vec::new()));
    let mut bus: EventBus<Recorder> = EventBus::new("engine".to_string());
    bus.subscribe(Recorder { name: "first", log: log.clone(), cancel_with: None });
    bus.subscribe(Recorder { name: "second", log: log.clone(), cancel_with: None });
    let mut event = InitEvent::new();
    event.cancel(Some("early".to_string()));
    assert_eq!(bus.dispatch(&mut event), EventResult::EvCancelled("early".to_string()));
    assert_eq!(*log.borrow(), vec!["first"]);
}
