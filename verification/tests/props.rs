use blob_event::Event;
use blob_event::EventHandler;
use blob_event::HandlerRegistry;
use blob_event::Payload;
use blob_event::SilentHandler;
use blob_event::Subscription;
use std::sync::Arc;
use std::sync::Mutex;

/// Appends every payload it sees to its own shared list.
struct Seen {
    seen: Arc<Mutex<Vec<i32>>>,
}

impl EventHandler<i32> for Seen {
    fn received(&self) -> vstd::seq::Seq<i32> {
        unreachable!()
    }

    fn call(&mut self, args: i32) {
        self.seen.lock().unwrap().push(args);
    }
}

#[test]
fn three_handlers_each_receive_the_value() {
    let event = Event::<Seen>::new();
    let seen1 = Arc::new(Mutex::new(Vec::new()));
    let seen2 = Arc::new(Mutex::new(Vec::new()));
    let seen3 = Arc::new(Mutex::new(Vec::new()));

    event.subscribe(Seen { seen: Arc::clone(&seen1) });
    event.subscribe(Seen { seen: Arc::clone(&seen2) });
    event.subscribe(Seen { seen: Arc::clone(&seen3) });

    event.invoke(7);

    // Each handler ran exactly once and received exactly the value 7.
    assert_eq!(*seen1.lock().unwrap(), vec![7]);
    assert_eq!(*seen2.lock().unwrap(), vec![7]);
    assert_eq!(*seen3.lock().unwrap(), vec![7]);
}

#[test]
fn clear_then_invoke_calls_nothing() {
    let event = Event::<Seen>::new();
    let seen1 = Arc::new(Mutex::new(Vec::new()));
    let seen2 = Arc::new(Mutex::new(Vec::new()));
    let seen3 = Arc::new(Mutex::new(Vec::new()));

    event.subscribe(Seen { seen: Arc::clone(&seen1) });
    event.subscribe(Seen { seen: Arc::clone(&seen2) });
    event.subscribe(Seen { seen: Arc::clone(&seen3) });
    assert_eq!(event.subscriber_count(), 3);

    event.unsubscribe_all();
    assert_eq!(event.subscriber_count(), 0);

    event.invoke(1);
    assert!(seen1.lock().unwrap().is_empty());
    assert!(seen2.lock().unwrap().is_empty());
    assert!(seen3.lock().unwrap().is_empty());
}

#[test]
fn registry_handles_are_distinct_and_counted() {
    let mut registry = HandlerRegistry::<SilentHandler<i32>>::new();
    assert_eq!(registry.len(), 0);

    let s1 = registry.subscribe(SilentHandler::new());
    assert_eq!(registry.len(), 1);
    let s2 = registry.subscribe(SilentHandler::new());
    assert_eq!(registry.len(), 2);
    let s3 = registry.subscribe(SilentHandler::new());
    assert_eq!(registry.len(), 3);

    assert_ne!(s1, s2);
    assert_ne!(s1, s3);
    assert_ne!(s2, s3);

    // Handles are not reused after a removal.
    assert!(registry.unsubscribe(s2));
    let s4 = registry.subscribe(SilentHandler::new());
    assert_ne!(s4, s1);
    assert_ne!(s4, s2);
    assert_ne!(s4, s3);
}

#[test]
fn registry_unsubscribe_is_true_exactly_once() {
    let mut registry = HandlerRegistry::<SilentHandler<i32>>::new();
    let s = registry.subscribe(SilentHandler::new());

    assert!(registry.unsubscribe(s));
    assert!(!registry.unsubscribe(s));
    assert!(!registry.unsubscribe(s));
    assert!(!registry.unsubscribe(Subscription::new(9999)));
}

#[test]
fn registry_invoke_delivers_exactly_once() {
    let mut registry = HandlerRegistry::<Seen>::new();
    let seen = Arc::new(Mutex::new(Vec::new()));
    registry.subscribe(Seen { seen: Arc::clone(&seen) });

    registry.invoke(5);
    registry.invoke(10);
    registry.invoke(3);

    assert_eq!(*seen.lock().unwrap(), vec![5, 10, 3]);
}

#[test]
fn registry_invoke_one_skips_missing_ids() {
    let mut registry = HandlerRegistry::<Seen>::new();
    let seen = Arc::new(Mutex::new(Vec::new()));
    let s = registry.subscribe(Seen { seen: Arc::clone(&seen) });

    let snapshot = registry.snapshot();
    assert_eq!(snapshot.len(), 1);

    // The one registered id is called; a missing id is a silent no-op.
    assert!(registry.invoke_one(snapshot[0], 11));
    assert!(!registry.invoke_one(9999, 12));

    registry.unsubscribe(s);
    assert!(!registry.invoke_one(snapshot[0], 13));

    assert_eq!(*seen.lock().unwrap(), vec![11]);
}

#[test]
fn registry_clear_then_invoke_delivers_nothing() {
    let mut registry = HandlerRegistry::<Seen>::new();
    let seen = Arc::new(Mutex::new(Vec::new()));
    registry.subscribe(Seen { seen: Arc::clone(&seen) });
    registry.unsubscribe_all();
    assert_eq!(registry.len(), 0);

    registry.invoke(9);
    assert!(seen.lock().unwrap().is_empty());
}

#[test]
fn payload_duplication_is_exact() {
    let pair = (5, "abc".to_string());
    assert_eq!(pair.dup(), pair);

    let triple = (42, "test".to_string(), true);
    assert_eq!(triple.dup(), triple);

    let unit = ();
    assert_eq!(unit.dup(), unit);

    let text = "".to_string();
    assert_eq!(text.dup(), text);
}
