use std::cell::RefCell;
use std::rc::Rc;
use window_bridge::window::{
    get_window, win_main, DispatchAction, Message, Window, WindowBridge, WindowError,
    WindowFactory,
};

struct RecordingWindow {
    hwnd: u64,
    log: Rc<RefCell<Vec<String>>>,
}

impl Window for RecordingWindow {
    fn on_create(&self) {
        self.log.borrow_mut().push(format!("on_create {}", self.hwnd));
    }

    fn on_destroy(&self) {
        self.log.borrow_mut().push(format!("on_destroy {}", self.hwnd));
    }

    fn paint(&self) {
        self.log.borrow_mut().push(format!("render {}", self.hwnd));
    }
}

struct RecordingFactory {
    log: Rc<RefCell<Vec<String>>>,
}

impl WindowFactory<RecordingWindow> for RecordingFactory {
    fn create_window_object(&self, hwnd: u64) -> RecordingWindow {
        self.log.borrow_mut().push(format!("factory {}", hwnd));
        RecordingWindow {
            hwnd,
            log: Rc::clone(&self.log),
        }
    }
}

fn setup() -> (RecordingFactory, Rc<RefCell<Vec<String>>>) {
    let log = Rc::new(RefCell::new(Vec::new()));
    let factory = RecordingFactory {
        log: Rc::clone(&log),
    };
    (factory, log)
}

fn entries(log: &Rc<RefCell<Vec<String>>>) -> Vec<String> {
    log.borrow().clone()
}

#[test]
fn scenario_registration_fails() {
    let (factory, log) = setup();
    let msgs = vec![Message::Paint, Message::Destroy];
    let r = win_main::<RecordingWindow, RecordingFactory>(&factory, 0, 42, &msgs);
    assert!(matches!(r, Err(WindowError::ClassRegistrationFailed)));
    assert!(entries(&log).is_empty());
}

#[test]
fn scenario_creation_fails() {
    let (factory, log) = setup();
    let msgs = vec![Message::Paint, Message::Destroy];
    let r = win_main::<RecordingWindow, RecordingFactory>(&factory, 1, 0, &msgs);
    assert!(matches!(r, Err(WindowError::WindowCreationFailed)));
    assert!(entries(&log).is_empty());
}

#[test]
fn scenario_normal_run() {
    let (factory, log) = setup();
    let msgs = vec![Message::Paint, Message::Destroy];
    let r = win_main::<RecordingWindow, RecordingFactory>(&factory, 1, 7, &msgs);
    let bridge = r.ok().unwrap();
    assert!(bridge.destroyed);
    assert_eq!(
        entries(&log),
        vec![
            "factory 7".to_string(),
            "on_create 7".to_string(),
            "render 7".to_string(),
            "on_destroy 7".to_string(),
        ]
    );
}

#[test]
fn scenario_two_paints_then_destroy() {
    let (factory, log) = setup();
    let msgs = vec![Message::Paint, Message::Paint, Message::Destroy];
    let r = win_main::<RecordingWindow, RecordingFactory>(&factory, 1, 9, &msgs);
    let bridge = r.ok().unwrap();
    assert!(bridge.destroyed);
    assert_eq!(
        entries(&log),
        vec![
            "factory 9".to_string(),
            "on_create 9".to_string(),
            "render 9".to_string(),
            "render 9".to_string(),
            "on_destroy 9".to_string(),
        ]
    );
}

#[test]
fn paint_preserves_the_stored_association() {
    let (factory, log) = setup();
    let mut bridge = WindowBridge::<RecordingWindow>::attach(&factory, 5);
    let stored_before = get_window(&bridge.storage);
    assert_eq!(bridge.dispatch(Message::Paint), DispatchAction::Handled);
    assert_eq!(get_window(&bridge.storage), stored_before);
    assert_eq!(bridge.dispatch(Message::Paint), DispatchAction::Handled);
    assert_eq!(get_window(&bridge.storage), stored_before);
    assert_eq!(
        entries(&log),
        vec![
            "factory 5".to_string(),
            "on_create 5".to_string(),
            "render 5".to_string(),
            "render 5".to_string(),
        ]
    );
}

#[test]
fn create_and_other_notifications_invoke_nothing() {
    let (factory, log) = setup();
    let mut bridge = WindowBridge::<RecordingWindow>::attach(&factory, 5);
    assert_eq!(bridge.dispatch(Message::Create), DispatchAction::Handled);
    assert_eq!(
        bridge.dispatch(Message::Other(0x86)),
        DispatchAction::ForwardDefault
    );
    assert_eq!(
        entries(&log),
        vec!["factory 5".to_string(), "on_create 5".to_string()]
    );
    assert!(!bridge.destroyed);
}

#[test]
fn destroy_posts_quit_and_retires_the_association() {
    let (factory, log) = setup();
    let mut bridge = WindowBridge::<RecordingWindow>::attach(&factory, 5);
    assert_eq!(bridge.dispatch(Message::Destroy), DispatchAction::PostQuit);
    assert!(bridge.destroyed);
    assert_eq!(
        entries(&log),
        vec![
            "factory 5".to_string(),
            "on_create 5".to_string(),
            "on_destroy 5".to_string(),
        ]
    );
}

#[test]
fn no_render_after_destroy() {
    let (factory, log) = setup();
    let mut bridge = WindowBridge::<RecordingWindow>::attach(&factory, 5);
    let msgs = vec![Message::Destroy, Message::Paint];
    bridge.run_messages(&msgs);
    assert!(bridge.destroyed);
    assert_eq!(
        entries(&log),
        vec![
            "factory 5".to_string(),
            "on_create 5".to_string(),
            "on_destroy 5".to_string(),
        ]
    );
}
