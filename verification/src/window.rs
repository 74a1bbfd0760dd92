//! The window host bridge.
//!
//! One behavior handler is associated with each live window.  The handler
//! is owned by this process in an ownership slot of the bridge; the index
//! of that slot is the handler's reference value, encoded into the four
//! extra-storage slots that the host reserves per window.  Host
//! notifications are routed to the handler recovered from the stored
//! reference: every repaint notification invokes `paint` without
//! consuming the association, and the teardown notification invokes
//! `on_destroy` exactly once, retires the association, and asks the host
//! to quit.

use vstd::prelude::*;
use crate::codec::{encode, decode, lemma_split_assemble};
use crate::storage::{ExtraStorage, stored_ref};

verus! {

/// A behavior handler: the capability a window's behavior implements.
/// All three operations run on the single dispatch thread and must not
/// block.
pub trait Window {
    /// Invoked once, after the host confirms window creation.
    fn on_create(&self);

    /// Invoked at most once, when the host signals that teardown is
    /// imminent: the last chance to release handler-owned resources.
    fn on_destroy(&self);

    /// Invoked on every host repaint notification.
    fn paint(&self);
}

/// Produces a behavior handler bound to a window handle.
pub trait WindowFactory<W: Window> {
    /// Called once per window, after the handle exists but before
    /// `on_create` fires.
    fn create_window_object(&self, hwnd: u64) -> W;
}

/// A host notification routed to the bridge's dispatch entry point.
#[derive(Clone, Copy, PartialEq, Eq, Structural, Debug)]
pub enum Message {
    /// The window-created notification.
    Create,
    /// The teardown notification.
    Destroy,
    /// The repaint notification.
    Paint,
    /// Any other notification, by its host message number.
    Other(u32),
}

/// What the host glue must do after a message was dispatched.
#[derive(Clone, Copy, PartialEq, Eq, Structural, Debug)]
pub enum DispatchAction {
    /// The message was handled; report a zero result to the host.
    Handled,
    /// Teardown was handled; post the quit signal, then report a zero
    /// result.
    PostQuit,
    /// Hand the message to the host's default handling, unchanged.
    ForwardDefault,
}

/// One invocation of a handler capability, as recorded by the bridge.
#[derive(Clone, Copy, PartialEq, Eq, Structural, Debug)]
pub enum HandlerCall {
    /// The factory produced the handler.
    FactoryCreate,
    /// `on_create` ran.
    OnCreate,
    /// `paint` ran.
    Render,
    /// `on_destroy` ran.
    OnDestroy,
}

/// The handler invocations a single message produces once the association
/// exists: a repaint notification invokes `paint`, the teardown
/// notification invokes `on_destroy`, and every other notification
/// invokes nothing.
pub open spec fn step_of(msg: Message) -> Seq<HandlerCall> {
    match msg {
        Message::Paint => seq![HandlerCall::Render],
        Message::Destroy => seq![HandlerCall::OnDestroy],
        _ => Seq::empty(),
    }
}

/// The handler invocations a message sequence produces once the
/// association exists.  The first teardown notification ends the run: the
/// host delivers no further messages for the handle after the quit signal
/// is posted.
pub open spec fn trace_of(msgs: Seq<Message>) -> Seq<HandlerCall>
    decreases msgs.len(),
{
    if msgs.len() == 0 {
        Seq::empty()
    } else if msgs[0] is Destroy {
        seq![HandlerCall::OnDestroy]
    } else {
        step_of(msgs[0]) + trace_of(msgs.drop_first())
    }
}

/// Whether the host delivers a teardown notification.
pub open spec fn contains_destroy(msgs: Seq<Message>) -> bool {
    exists|i: int| 0 <= i < msgs.len() && (#[trigger] msgs[i]) is Destroy
}

/// The complete handler trace of a window whose creation succeeded and
/// whose host delivered `msgs`: the factory runs once, `on_create` runs
/// once, then the messages are dispatched in delivery order.
pub open spec fn full_trace(msgs: Seq<Message>) -> Seq<HandlerCall> {
    seq![HandlerCall::FactoryCreate, HandlerCall::OnCreate] + trace_of(msgs)
}

/// Writes an encoded reference value into a window's extra storage, most
/// significant word at offset 0, as the association between the handle
/// and its handler.
pub fn set_window(storage: &mut ExtraStorage, r: u128)
    ensures
        stored_ref(*final(storage)) == r,
{
    let (p1, p2, p3, p4) = encode(r);
    storage.set_long(0, p1);
    storage.set_long(4, p2);
    storage.set_long(8, p3);
    storage.set_long(12, p4);
    proof {
        assert(storage.slot(0) == p1);
        assert(storage.slot(4) == p2);
        assert(storage.slot(8) == p3);
        assert(storage.slot(12) == p4);
        lemma_split_assemble(r);
    }
}

/// Reads a window's extra storage and decodes the stored reference value,
/// without consuming the stored association.
pub fn get_window(storage: &ExtraStorage) -> (r: u128)
    ensures
        r == stored_ref(*storage),
{
    let p1 = storage.get_long(0);
    let p2 = storage.get_long(4);
    let p3 = storage.get_long(8);
    let p4 = storage.get_long(12);
    decode(p1, p2, p3, p4)
}

/// Failure of the one-shot startup sequence; both are terminal for the
/// window, and the dispatch loop is never entered.
#[derive(Clone, Copy, PartialEq, Eq, Structural, Debug)]
pub enum WindowError {
    /// The host refused to register the window class.
    ClassRegistrationFailed,
    /// The host returned the null handle from window creation.
    WindowCreationFailed,
}

/// The bridge for one live window: the ownership slots holding the
/// behavior handlers, the window's extra storage holding the encoded
/// reference of the associated handler, and the lifecycle phase.
pub struct WindowBridge<W> {
    /// The handle of the window this bridge serves.
    pub hwnd: u64,
    /// The window's extra storage, as the host record holds it.
    pub storage: ExtraStorage,
    /// The ownership slots; a stored reference value is an index here.
    pub handlers: Vec<W>,
    /// Whether the teardown notification has been processed.  Once set,
    /// the association is retired and no message is dispatched again, so
    /// the handler can neither be invoked nor released twice.
    pub destroyed: bool,
    /// Every handler invocation made through this bridge, in order.
    pub history: Ghost<Seq<HandlerCall>>,
}

impl<W: Window> WindowBridge<W> {
    /// The stored association is valid: the window's extra storage
    /// decodes to the index of an ownership slot.
    pub open spec fn wf(self) -> bool {
        stored_ref(self.storage) < self.handlers@.len()
    }

    /// Builds the association for a freshly created window: asks the
    /// factory for a handler bound to `hwnd`, invokes `on_create` (the
    /// handle is live by now, so the handler may draw), and stores the
    /// handler's encoded reference into the window's extra storage.
    pub fn attach<F: WindowFactory<W>>(factory: &F, hwnd: u64) -> (bridge: WindowBridge<W>)
        requires
            hwnd != 0,
        ensures
            bridge.wf(),
            !bridge.destroyed,
            bridge.hwnd == hwnd,
            bridge.handlers@.len() == 1,
            stored_ref(bridge.storage) == 0,
            bridge.history@ == seq![HandlerCall::FactoryCreate, HandlerCall::OnCreate],
    {
        let handler = factory.create_window_object(hwnd);
        handler.on_create();
        let mut handlers: Vec<W> = Vec::new();
        handlers.push(handler);
        let mut storage = ExtraStorage::new();
        set_window(&mut storage, 0);
        let bridge = WindowBridge {
            hwnd,
            storage,
            handlers,
            destroyed: false,
            history: Ghost(
                Seq::empty().push(HandlerCall::FactoryCreate).push(HandlerCall::OnCreate),
            ),
        };
        proof {
            assert(bridge.history@ =~= seq![HandlerCall::FactoryCreate, HandlerCall::OnCreate]);
        }
        bridge
    }

    /// Routes one host message to the associated handler.
    ///
    /// A repaint notification decodes the stored reference, invokes
    /// `paint`, and leaves the stored association untouched, so the slots
    /// still hold exactly one valid reference afterwards.  The teardown
    /// notification invokes `on_destroy`, retires the association, and
    /// asks the host glue to post the quit signal.  The window-created
    /// notification invokes nothing: the handler does not exist yet at
    /// true host create time.  Every other message is handed back for the
    /// host's default handling.
    pub fn dispatch(&mut self, msg: Message) -> (action: DispatchAction)
        requires
            old(self).wf(),
            !old(self).destroyed,
        ensures
            final(self).wf(),
            final(self).hwnd == old(self).hwnd,
            final(self).storage == old(self).storage,
            final(self).handlers@ == old(self).handlers@,
            final(self).history@ == old(self).history@ + step_of(msg),
            final(self).destroyed == (msg is Destroy),
            action == (match msg {
                Message::Create => DispatchAction::Handled,
                Message::Destroy => DispatchAction::PostQuit,
                Message::Paint => DispatchAction::Handled,
                Message::Other(_) => DispatchAction::ForwardDefault,
            }),
    {
        match msg {
            Message::Create => {
                // The ordering gap of the host sequence: the association
                // is built only after window creation returns, so there
                // is nothing to invoke here.
                proof {
                    assert(self.history@ =~= self.history@ + step_of(msg));
                }
                DispatchAction::Handled
            },
            Message::Destroy => {
                let r = get_window(&self.storage);
                let idx = r as usize;
                self.handlers[idx].on_destroy();
                self.destroyed = true;
                self.history = Ghost(self.history@.push(HandlerCall::OnDestroy));
                proof {
                    assert(old(self).history@.push(HandlerCall::OnDestroy)
                        =~= old(self).history@ + step_of(msg));
                }
                DispatchAction::PostQuit
            },
            Message::Paint => {
                let r = get_window(&self.storage);
                let idx = r as usize;
                self.handlers[idx].paint();
                self.history = Ghost(self.history@.push(HandlerCall::Render));
                proof {
                    assert(old(self).history@.push(HandlerCall::Render)
                        =~= old(self).history@ + step_of(msg));
                }
                DispatchAction::Handled
            },
            Message::Other(_) => {
                proof {
                    assert(self.history@ =~= self.history@ + step_of(msg));
                }
                DispatchAction::ForwardDefault
            },
        }
    }

    /// The dispatch loop over the messages the host delivers from
    /// position `i` on, in delivery order, until the teardown
    /// notification is processed or the delivery ends.
    fn run_from(&mut self, msgs: &Vec<Message>, i: usize)
        requires
            old(self).wf(),
            !old(self).destroyed,
            i <= msgs@.len(),
        ensures
            final(self).wf(),
            final(self).hwnd == old(self).hwnd,
            final(self).storage == old(self).storage,
            final(self).handlers@ == old(self).handlers@,
            final(self).history@ == old(self).history@ + trace_of(msgs@.skip(i as int)),
            final(self).destroyed == contains_destroy(msgs@.skip(i as int)),
        decreases msgs@.len() - i,
    {
        if i < msgs.len() {
            let msg = msgs[i];
            self.dispatch(msg);
            proof {
                assert(msgs@.skip(i as int).len() == msgs@.len() - i);
                assert(msgs@.skip(i as int)[0] == msg);
                assert(msgs@.skip(i as int).drop_first() =~= msgs@.skip(i as int + 1));
            }
            if !self.destroyed {
                self.run_from(msgs, i + 1);
                proof {
                    assert(trace_of(msgs@.skip(i as int))
                        == step_of(msg) + trace_of(msgs@.skip(i as int + 1)));
                    assert(old(self).history@ + trace_of(msgs@.skip(i as int))
                        =~= (old(self).history@ + step_of(msg))
                            + trace_of(msgs@.skip(i as int + 1)));
                    if contains_destroy(msgs@.skip(i as int)) {
                        let j = choose|j: int|
                            0 <= j < msgs@.skip(i as int).len()
                                && (#[trigger] msgs@.skip(i as int)[j]) is Destroy;
                        assert(msgs@.skip(i as int + 1)[j - 1] is Destroy);
                    }
                    if contains_destroy(msgs@.skip(i as int + 1)) {
                        let j = choose|j: int|
                            0 <= j < msgs@.skip(i as int + 1).len()
                                && (#[trigger] msgs@.skip(i as int + 1)[j]) is Destroy;
                        assert(msgs@.skip(i as int)[j + 1] is Destroy);
                    }
                }
            } else {
                proof {
                    assert(trace_of(msgs@.skip(i as int)) == seq![HandlerCall::OnDestroy]);
                    assert(old(self).history@ + step_of(msg)
                        =~= old(self).history@ + trace_of(msgs@.skip(i as int)));
                    assert(msgs@.skip(i as int)[0] is Destroy);
                }
            }
        } else {
            proof {
                assert(msgs@.skip(i as int) =~= Seq::<Message>::empty());
                assert(old(self).history@ + trace_of(msgs@.skip(i as int))
                    =~= old(self).history@);
            }
        }
    }

    /// The dispatch loop: processes the host-delivered messages in
    /// delivery order until the teardown notification is processed or the
    /// delivery ends.  Messages for one handle never reorder, so the
    /// resulting handler invocations are exactly `trace_of` the sequence.
    pub fn run_messages(&mut self, msgs: &Vec<Message>)
        requires
            old(self).wf(),
            !old(self).destroyed,
        ensures
            final(self).wf(),
            final(self).hwnd == old(self).hwnd,
            final(self).storage == old(self).storage,
            final(self).handlers@ == old(self).handlers@,
            final(self).history@ == old(self).history@ + trace_of(msgs@),
            final(self).destroyed == contains_destroy(msgs@),
    {
        proof {
            assert(msgs@.skip(0) =~= msgs@);
        }
        self.run_from(msgs, 0);
    }
}

/// The startup-and-dispatch sequence for one window, over the outcomes of
/// the host session: `atom` is the class-registration result, zero on
/// failure; `hwnd` is the created handle, zero standing for the null
/// handle; `msgs` are the messages the host delivers, in delivery order.
///
/// On either startup failure the sequence aborts: no handler is ever
/// produced and the dispatch loop is never entered.  Otherwise the
/// factory runs once, `on_create` runs once, the association is stored,
/// and the messages are dispatched.
pub fn win_main<W: Window, F: WindowFactory<W>>(
    factory: &F,
    atom: u16,
    hwnd: u64,
    msgs: &Vec<Message>,
) -> (outcome: Result<WindowBridge<W>, WindowError>)
    ensures
        atom == 0 ==> outcome is Err && outcome->Err_0 == WindowError::ClassRegistrationFailed,
        atom != 0 && hwnd == 0 ==> outcome is Err
            && outcome->Err_0 == WindowError::WindowCreationFailed,
        atom != 0 && hwnd != 0 ==> outcome is Ok && {
            &&& outcome->Ok_0.wf()
            &&& outcome->Ok_0.hwnd == hwnd
            &&& outcome->Ok_0.history@ == full_trace(msgs@)
            &&& outcome->Ok_0.destroyed == contains_destroy(msgs@)
        },
{
    if atom == 0 {
        return Err(WindowError::ClassRegistrationFailed);
    }
    if hwnd == 0 {
        return Err(WindowError::WindowCreationFailed);
    }
    let mut bridge = WindowBridge::<W>::attach(factory, hwnd);
    bridge.run_messages(msgs);
    Ok(bridge)
}

/// Shape of the dispatch trace: once the association exists, dispatch
/// invokes only `paint`, except that `on_destroy` may stand as the final
/// invocation.
proof fn lemma_trace_shape(msgs: Seq<Message>)
    ensures
        forall|i: int| 0 <= i < trace_of(msgs).len()
            ==> trace_of(msgs)[i] == HandlerCall::Render
                || (trace_of(msgs)[i] == HandlerCall::OnDestroy
                    && i == trace_of(msgs).len() - 1),
    decreases msgs.len(),
{
    if msgs.len() == 0 {
    } else if msgs[0] is Destroy {
    } else {
        lemma_trace_shape(msgs.drop_first());
        assert forall|i: int| 0 <= i < trace_of(msgs).len() implies
            trace_of(msgs)[i] == HandlerCall::Render
                || (trace_of(msgs)[i] == HandlerCall::OnDestroy
                    && i == trace_of(msgs).len() - 1) by {
            let head = step_of(msgs[0]);
            if i >= head.len() {
                assert(trace_of(msgs)[i] == trace_of(msgs.drop_first())[i - head.len()]);
            }
        }
    }
}

/// For any window, `on_create` is invoked exactly once, strictly before
/// every `paint` invocation and strictly before `on_destroy`: in the
/// complete trace it stands exactly at position 1, right after the
/// factory ran, and every `paint` and `on_destroy` invocation stands
/// strictly later.
pub proof fn lemma_on_create_once_before_all(msgs: Seq<Message>)
    ensures
        full_trace(msgs)[0] == HandlerCall::FactoryCreate,
        full_trace(msgs)[1] == HandlerCall::OnCreate,
        forall|i: int| 0 <= i < full_trace(msgs).len()
            && full_trace(msgs)[i] == HandlerCall::OnCreate ==> i == 1,
        forall|i: int| 0 <= i < full_trace(msgs).len()
            && (full_trace(msgs)[i] == HandlerCall::Render
                || full_trace(msgs)[i] == HandlerCall::OnDestroy) ==> 1 < i,
{
    lemma_trace_shape(msgs);
    assert forall|i: int| 0 <= i < full_trace(msgs).len()
        && full_trace(msgs)[i] != HandlerCall::FactoryCreate
        && full_trace(msgs)[i] != HandlerCall::OnCreate implies 1 < i by {
        if i >= 2 {
        } else {
            assert(full_trace(msgs)[i] == seq![HandlerCall::FactoryCreate, HandlerCall::OnCreate][i]);
        }
    }
    assert forall|i: int| 0 <= i < full_trace(msgs).len()
        && full_trace(msgs)[i] == HandlerCall::OnCreate implies i == 1 by {
        if i >= 2 {
            assert(full_trace(msgs)[i] == trace_of(msgs)[i - 2]);
        }
    }
}

/// For any window, `on_destroy` is invoked at most once, and no `paint`
/// invocation follows it: in the complete trace, an `on_destroy`
/// invocation stands only as the final element.
pub proof fn lemma_on_destroy_at_most_once_last(msgs: Seq<Message>)
    ensures
        forall|i: int| 0 <= i < full_trace(msgs).len()
            && full_trace(msgs)[i] == HandlerCall::OnDestroy
            ==> i == full_trace(msgs).len() - 1,
        forall|i: int, j: int| 0 <= i < full_trace(msgs).len()
            && 0 <= j < full_trace(msgs).len()
            && full_trace(msgs)[i] == HandlerCall::OnDestroy
            && full_trace(msgs)[j] == HandlerCall::OnDestroy ==> i == j,
{
    lemma_trace_shape(msgs);
    assert forall|i: int| 0 <= i < full_trace(msgs).len()
        && full_trace(msgs)[i] == HandlerCall::OnDestroy
        implies i == full_trace(msgs).len() - 1 by {
        if i < 2 {
            assert(full_trace(msgs)[i] == seq![HandlerCall::FactoryCreate, HandlerCall::OnCreate][i]);
        } else {
            assert(full_trace(msgs)[i] == trace_of(msgs)[i - 2]);
        }
    }
}

} // verus!
