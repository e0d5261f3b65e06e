use std::cell::RefCell;
use std::rc::Rc;

use rdev::dispatch::{handle_notification, pump_queue};
use rdev::event::{Event, EventType};
use rdev::registry::HookHandle;
use rdev::session::{OsResponse, Session, SessionAction, SessionPhase};
use rdev::slot::{CallbackSlot, EventSink};
use rdev::translate::{Classification, RawNotification, HC_ACTION};

struct Logger {
    codes: Rc<RefCell<Vec<u32>>>,
    extras: Rc<RefCell<Vec<usize>>>,
}

impl EventSink for Logger {
    fn handle(&mut self, event: &Event) {
        self.codes.borrow_mut().push(event.platform_code);
        self.extras.borrow_mut().push(event.extra_data);
    }
}

fn key_down(platform_code: u32, scan_code: u32, extra_data: usize, time_ms: u64) -> (RawNotification, Classification) {
    (
        RawNotification { code: HC_ACTION, scan_code, extra_data, time_ms },
        Classification { event_type: Some(EventType::KeyPress), platform_code },
    )
}

#[test]
fn keyboard_only_session_delivers_three_key_downs_in_order() {
    // start a keyboard-only session
    let mut session = Session::new(true);
    assert_eq!(session.step(OsResponse::Started), SessionAction::RegisterKeyboardHook);
    assert_eq!(
        session.step(OsResponse::HookRegistered(HookHandle { raw: 1 })),
        SessionAction::PumpMessages
    );
    session.begin_pump();
    assert_eq!(session.phase, SessionPhase::Pumping);

    // a callback that appends each event's platform code to a log
    let codes = Rc::new(RefCell::new(Vec::new()));
    let extras = Rc::new(RefCell::new(Vec::new()));
    let mut slot = CallbackSlot::empty();
    slot.install(Logger { codes: Rc::clone(&codes), extras: Rc::clone(&extras) });

    let notifications = vec![
        key_down(65, 30, 100, 1),
        key_down(66, 48, 200, 2),
        key_down(67, 46, 300, 3),
    ];
    let delivered = pump_queue(&mut slot, &notifications);

    assert_eq!(*codes.borrow(), vec![65, 66, 67]);
    assert_eq!(*extras.borrow(), vec![100, 200, 300]);
    assert_eq!(delivered.len(), 3);
    assert_eq!(delivered[0].platform_code, 65);
    assert_eq!(delivered[1].platform_code, 66);
    assert_eq!(delivered[2].platform_code, 67);

    assert_eq!(session.step(OsResponse::LoopEnded), SessionAction::Stop);
}

#[test]
fn injected_notification_leaves_the_log_unchanged_but_forwards() {
    let codes = Rc::new(RefCell::new(Vec::new()));
    let extras = Rc::new(RefCell::new(Vec::new()));
    let mut slot = CallbackSlot::empty();
    slot.install(Logger { codes: Rc::clone(&codes), extras: Rc::clone(&extras) });

    let notifications = vec![key_down(65, 30, 100, 1), key_down(66, 48, 200, 2), key_down(67, 46, 300, 3)];
    pump_queue(&mut slot, &notifications);
    assert_eq!(*codes.borrow(), vec![65, 66, 67]);

    // classification yields nothing for a synthetic injected notification
    let injected_raw = RawNotification { code: HC_ACTION, scan_code: 0, extra_data: 1, time_ms: 4 };
    let injected_cls = Classification { event_type: None, platform_code: 0 };
    let outcome = handle_notification(&mut slot, &injected_raw, &injected_cls);

    assert!(outcome.forward);
    assert!(outcome.delivered.is_none());
    assert_eq!(*codes.borrow(), vec![65, 66, 67]);
}

#[test]
fn non_actionable_notification_forwards_without_delivery() {
    let codes = Rc::new(RefCell::new(Vec::new()));
    let extras = Rc::new(RefCell::new(Vec::new()));
    let mut slot = CallbackSlot::empty();
    slot.install(Logger { codes: Rc::clone(&codes), extras: Rc::clone(&extras) });

    let raw = RawNotification { code: 1, scan_code: 30, extra_data: 0, time_ms: 5 };
    let cls = Classification { event_type: Some(EventType::KeyPress), platform_code: 65 };
    let outcome = handle_notification(&mut slot, &raw, &cls);

    assert!(outcome.forward);
    assert!(outcome.delivered.is_none());
    assert!(codes.borrow().is_empty());
}

#[test]
fn empty_slot_forwards_and_stays_empty() {
    let mut slot: CallbackSlot<Logger> = CallbackSlot::empty();
    assert!(!slot.is_installed());

    let (raw, cls) = key_down(65, 30, 100, 1);
    let outcome = handle_notification(&mut slot, &raw, &cls);

    assert!(outcome.forward);
    assert!(outcome.delivered.is_some());
    assert!(!slot.is_installed());
}

#[test]
fn clear_empties_the_slot() {
    let codes = Rc::new(RefCell::new(Vec::new()));
    let extras = Rc::new(RefCell::new(Vec::new()));
    let mut slot = CallbackSlot::empty();
    slot.install(Logger { codes: Rc::clone(&codes), extras: Rc::clone(&extras) });
    assert!(slot.is_installed());
    slot.clear();
    assert!(!slot.is_installed());
}
