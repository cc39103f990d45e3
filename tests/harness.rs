use system_harness::{Error, Event, EventKind, EventPublisher, EventSubscriber};

struct FakeEventPublisher(Vec<Box<dyn EventSubscriber>>);

impl FakeEventPublisher {
    pub fn publish(&mut self) {
        let event = Event {
            kind: EventKind::Shutdown,
            timestamp: 0,
        };
        for subscriber in &mut self.0 {
            subscriber.on_event(&event);
        }
    }
}

impl EventPublisher for FakeEventPublisher {
    fn subscribe<S: EventSubscriber + 'static>(&mut self, subscriber: S) -> Result<(), Error> {
        self.0.push(Box::new(subscriber));
        Ok(())
    }
}

#[test]
fn fn_subscribe() {
    let mut publisher = FakeEventPublisher(Vec::new());
    publisher.subscribe(|_event: &Event| {}).unwrap();
    publisher.publish();
}

#[test]
fn error_new_and_kind() {
    let err = Error::new(system_harness::ErrorKind::PipeError, "pipe closed");
    assert_eq!(system_harness::ErrorKind::PipeError, err.kind());
    assert_eq!("pipe closed", err.to_string());
}
