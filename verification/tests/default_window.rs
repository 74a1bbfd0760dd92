use window_bridge::default_window::{DefaultWindow, DefaultWindowFactory};
use window_bridge::window::{win_main, Message, WindowFactory};

#[test]
fn new_binds_the_handle() {
    let w = DefaultWindow::new(11);
    assert_eq!(w.hwnd, 11);
    assert_eq!(w.i, 5);
    assert_eq!(w.j, 6);
}

#[test]
fn factory_produces_a_bound_handler() {
    let factory = DefaultWindowFactory::new();
    let w = factory.create_window_object(3);
    assert_eq!(w.hwnd, 3);
    assert_eq!(w.i, 5);
}

#[test]
fn default_session_runs_to_quit() {
    let factory = DefaultWindowFactory::new();
    let msgs = vec![Message::Paint, Message::Destroy];
    let r = win_main::<DefaultWindow, DefaultWindowFactory>(&factory, 1, 7, &msgs);
    let bridge = r.ok().unwrap();
    assert!(bridge.destroyed);
    assert_eq!(bridge.hwnd, 7);
}
