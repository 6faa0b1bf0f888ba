use axiom_profiler::global_callbacks::{
    CallbackHolder, CallbackRef, CallbackRegisterer, DragEventKind, EventKind, GlobalCallbacks,
    GlobalCallbacksProvider, MouseEventKind, Msg,
};
use axiom_profiler::position::PagePosition;

#[test]
fn origin_is_the_top_left_corner() {
    let p = PagePosition::origin();
    assert_eq!((p.x, p.y), (0, 0));
}

#[test]
fn registerer_counts_up_from_zero() {
    let mut r = CallbackRegisterer::new_mouse(MouseEventKind::MouseUp);
    for expected in 0..5usize {
        assert_eq!(
            r.register(),
            Some(CallbackRef { kind: EventKind::Mouse(MouseEventKind::MouseUp), id: expected })
        );
    }
    let mut d = CallbackRegisterer::new_drag(DragEventKind::DragOver);
    assert_eq!(
        d.register(),
        Some(CallbackRef { kind: EventKind::Drag(DragEventKind::DragOver), id: 0 })
    );
}

#[test]
fn registerers_of_a_page_count_apart() {
    let mut g = GlobalCallbacks::new();
    let a = g.register_mouse_move.register().unwrap();
    let b = g.register_mouse_move.register().unwrap();
    let c = g.register_mouse_up.register().unwrap();
    let d = g.register_mouse_out.register().unwrap();
    let e = g.register_drag_over.register().unwrap();
    assert_eq!((a.id, b.id, c.id, d.id, e.id), (0, 1, 0, 0, 0));
    assert_eq!(a.kind, EventKind::Mouse(MouseEventKind::MouseMove));
    assert_eq!(c.kind, EventKind::Mouse(MouseEventKind::MouseUp));
    assert_eq!(d.kind, EventKind::Mouse(MouseEventKind::MouseOut));
    assert_eq!(e.kind, EventKind::Drag(DragEventKind::DragOver));
}

#[test]
fn holder_keeps_calling_order() {
    let mut h: CallbackHolder<&str> = CallbackHolder::new();
    assert!(h.callbacks().is_empty());
    h.register(0, "a");
    h.register(1, "b");
    h.register(2, "c");
    assert_eq!(h.callbacks(), &vec![(0, "a"), (1, "b"), (2, "c")]);
}

#[test]
fn deregistering_moves_the_last_callback_into_the_gap() {
    let mut h: CallbackHolder<&str> = CallbackHolder::new();
    for (id, cb) in [(0, "a"), (1, "b"), (2, "c"), (3, "d")] {
        h.register(id, cb);
    }
    assert_eq!(h.deregister(1), "b");
    assert_eq!(h.callbacks(), &vec![(0, "a"), (3, "d"), (2, "c")]);
    assert_eq!(h.deregister(2), "c");
    assert_eq!(h.callbacks(), &vec![(0, "a"), (3, "d")]);
    assert_eq!(h.deregister(0), "a");
    assert_eq!(h.callbacks(), &vec![(3, "d")]);
    assert_eq!(h.deregister(3), "d");
    assert!(h.callbacks().is_empty());
}

#[test]
fn holder_knows_which_ids_are_registered() {
    let mut h: CallbackHolder<&str> = CallbackHolder::new();
    assert!(!h.is_registered(0));
    h.register(5, "a");
    h.register(7, "b");
    assert!(h.is_registered(5));
    assert!(h.is_registered(7));
    assert!(!h.is_registered(4));
    assert!(!h.is_registered(6));
    assert_eq!(h.deregister(5), "a");
    assert!(!h.is_registered(5));
    assert!(h.is_registered(7));
    assert_eq!(h.callbacks(), &vec![(7, "b")]);
}

#[test]
fn deregistering_takes_the_first_of_equal_ids() {
    let mut h: CallbackHolder<&str> = CallbackHolder::new();
    h.register(1, "a");
    h.register(1, "b");
    h.register(2, "c");
    assert_eq!(h.deregister(1), "a");
    assert_eq!(h.callbacks(), &vec![(2, "c"), (1, "b")]);
    assert!(h.is_registered(1));
}

#[test]
fn provider_keeps_one_holder_for_each_kind() {
    let mut p: GlobalCallbacksProvider<&str, u8> = GlobalCallbacksProvider::new();
    assert!(!p.update(Msg::RegisterMouse(MouseEventKind::MouseMove, 0, "move0")));
    assert!(!p.update(Msg::RegisterMouse(MouseEventKind::MouseUp, 0, "up0")));
    assert!(!p.update(Msg::RegisterMouse(MouseEventKind::MouseMove, 1, "move1")));
    assert!(!p.update(Msg::RegisterMouse(MouseEventKind::MouseOut, 0, "out0")));
    assert!(!p.update(Msg::RegisterDrag(DragEventKind::DragOver, 0, 7)));
    assert!(!p.update(Msg::RegisterDrag(DragEventKind::DragOver, 1, 8)));
    assert_eq!(
        p.get_mouse(MouseEventKind::MouseMove).callbacks(),
        &vec![(0, "move0"), (1, "move1")]
    );
    assert_eq!(p.get_mouse(MouseEventKind::MouseUp).callbacks(), &vec![(0, "up0")]);
    assert_eq!(p.get_mouse(MouseEventKind::MouseOut).callbacks(), &vec![(0, "out0")]);
    assert_eq!(p.get_drag(DragEventKind::DragOver).callbacks(), &vec![(0, 7), (1, 8)]);

    assert!(!p.update(Msg::DeRegisterMouse(MouseEventKind::MouseMove, 0)));
    assert_eq!(p.get_mouse(MouseEventKind::MouseMove).callbacks(), &vec![(1, "move1")]);
    assert_eq!(p.get_mouse(MouseEventKind::MouseUp).callbacks(), &vec![(0, "up0")]);
    assert!(!p.update(Msg::DeRegisterDrag(DragEventKind::DragOver, 0)));
    assert_eq!(p.get_drag(DragEventKind::DragOver).callbacks(), &vec![(1, 8)]);
    assert!(!p.can_handle(&Msg::DeRegisterDrag(DragEventKind::DragOver, 9)));
    assert!(!p.can_handle(&Msg::DeRegisterDrag(DragEventKind::DragOver, 0)));
    assert!(p.can_handle(&Msg::DeRegisterDrag(DragEventKind::DragOver, 1)));
    assert!(!p.can_handle(&Msg::DeRegisterMouse(MouseEventKind::MouseMove, 0)));
    assert!(p.can_handle(&Msg::DeRegisterMouse(MouseEventKind::MouseMove, 1)));
    assert!(!p.can_handle(&Msg::DeRegisterMouse(MouseEventKind::MouseOut, 1)));
    assert!(p.can_handle(&Msg::RegisterMouse(MouseEventKind::MouseOut, 1, "out1")));
    assert!(p.can_handle(&Msg::RegisterDrag(DragEventKind::DragOver, 1, 9)));
    assert_eq!(p.get_drag(DragEventKind::DragOver).callbacks(), &vec![(1, 8)]);
}

#[test]
fn holders_can_be_changed_in_place() {
    let mut p: GlobalCallbacksProvider<&str, u8> = GlobalCallbacksProvider::new();
    p.get_mouse_mut(MouseEventKind::MouseOut).register(3, "x");
    p.get_drag_mut(DragEventKind::DragOver).register(4, 1);
    assert_eq!(p.get_mouse(MouseEventKind::MouseOut).callbacks(), &vec![(3, "x")]);
    assert!(p.get_mouse(MouseEventKind::MouseMove).callbacks().is_empty());
    assert_eq!(p.get_drag_mut(DragEventKind::DragOver).deregister(4), 1);
    assert!(p.get_drag(DragEventKind::DragOver).callbacks().is_empty());
}
