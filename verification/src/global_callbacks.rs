//! Page-wide event callbacks: who is registered for which kind of event.
//!
//! A registerer hands out the ids under which callbacks are registered; the
//! provider keeps the registered callbacks of each kind in the order in which
//! they are to be called. The callbacks themselves are the host's.

use vstd::prelude::*;

verus! {

/// The mouse events that callbacks can be registered for.
#[derive(Debug, Copy, Clone, PartialEq, Eq, Structural)]
pub enum MouseEventKind {
    MouseMove,
    MouseUp,
    MouseOut,
}

/// The drag events that callbacks can be registered for.
#[derive(Debug, Copy, Clone, PartialEq, Eq, Structural)]
pub enum DragEventKind {
    DragOver,
}

/// The kind of event of a registration.
#[derive(Debug, Copy, Clone, PartialEq, Eq, Structural)]
pub enum EventKind {
    Mouse(MouseEventKind),
    Drag(DragEventKind),
}

/// A registration. Whoever holds it owes one deregistration of `id` under
/// `kind` when it lets go of it.
#[derive(Debug, PartialEq, Eq, Structural)]
pub struct CallbackRef {
    pub kind: EventKind,
    pub id: usize,
}

/// Hands out the ids for the callbacks of one kind of event.
#[derive(Debug)]
pub struct CallbackRegisterer {
    kind: EventKind,
    next_id: usize,
}

impl CallbackRegisterer {
    /// The kind of event that this registerer serves.
    pub closed spec fn kind(&self) -> EventKind {
        self.kind
    }

    /// The id that the next registration gets.
    pub closed spec fn next_id(&self) -> usize {
        self.next_id
    }

    /// A registerer for one kind of mouse event, which has handed out no id.
    pub fn new_mouse(kind: MouseEventKind) -> (r: CallbackRegisterer)
        ensures
            r.kind() == EventKind::Mouse(kind),
            r.next_id() == 0,
    {
        CallbackRegisterer { kind: EventKind::Mouse(kind), next_id: 0 }
    }

    /// A registerer for one kind of drag event, which has handed out no id.
    pub fn new_drag(kind: DragEventKind) -> (r: CallbackRegisterer)
        ensures
            r.kind() == EventKind::Drag(kind),
            r.next_id() == 0,
    {
        CallbackRegisterer { kind: EventKind::Drag(kind), next_id: 0 }
    }

    /// Hands out the next id, as a registration of this registerer's kind.
    /// Ids count up from zero and none is handed out twice; when they are
    /// used up, `None` comes back and nothing changes.
    pub fn register(&mut self) -> (r: Option<CallbackRef>)
        ensures
            final(self).kind() == old(self).kind(),
            old(self).next_id() < usize::MAX ==> r == Some(
                CallbackRef { kind: old(self).kind(), id: old(self).next_id() },
            ) && final(self).next_id() == old(self).next_id() + 1,
            old(self).next_id() == usize::MAX ==> r.is_none() && final(self).next_id() == old(
                self,
            ).next_id(),
    {
        if self.next_id == usize::MAX {
            return None;
        }
        let id = self.next_id;
        self.next_id = id + 1;
        Some(CallbackRef { kind: self.kind, id })
    }
}

/// The four registerers of a page.
#[derive(Debug)]
pub struct GlobalCallbacks {
    pub register_mouse_move: CallbackRegisterer,
    pub register_mouse_up: CallbackRegisterer,
    pub register_mouse_out: CallbackRegisterer,
    pub register_drag_over: CallbackRegisterer,
}

impl GlobalCallbacks {
    /// Four registerers, one for each kind of event, none of which has
    /// handed out an id.
    pub fn new() -> (g: GlobalCallbacks)
        ensures
            g.register_mouse_move.kind() == EventKind::Mouse(MouseEventKind::MouseMove),
            g.register_mouse_up.kind() == EventKind::Mouse(MouseEventKind::MouseUp),
            g.register_mouse_out.kind() == EventKind::Mouse(MouseEventKind::MouseOut),
            g.register_drag_over.kind() == EventKind::Drag(DragEventKind::DragOver),
            g.register_mouse_move.next_id() == 0,
            g.register_mouse_up.next_id() == 0,
            g.register_mouse_out.next_id() == 0,
            g.register_drag_over.next_id() == 0,
    {
        GlobalCallbacks {
            register_mouse_move: CallbackRegisterer::new_mouse(MouseEventKind::MouseMove),
            register_mouse_up: CallbackRegisterer::new_mouse(MouseEventKind::MouseUp),
            register_mouse_out: CallbackRegisterer::new_mouse(MouseEventKind::MouseOut),
            register_drag_over: CallbackRegisterer::new_drag(DragEventKind::DragOver),
        }
    }
}

/// The first position at which `s` holds `id`, or the length of `s` where it
/// holds it nowhere.
pub open spec fn first_with_id<C>(s: Seq<(usize, C)>, id: usize) -> int
    decreases s.len(),
{
    if s.len() == 0 {
        0
    } else if s.first().0 == id {
        0
    } else {
        1 + first_with_id(s.drop_first(), id)
    }
}

/// A callback is registered under `id` in `s`.
pub open spec fn registered<C>(s: Seq<(usize, C)>, id: usize) -> bool {
    first_with_id(s, id) < s.len()
}

/// `s` after `id` was deregistered: the first callback under `id` leaves and
/// the last callback takes its place.
pub open spec fn deregistered<C>(s: Seq<(usize, C)>, id: usize) -> Seq<(usize, C)>
    recommends
        registered(s, id),
{
    s.update(first_with_id(s, id), s.last()).drop_last()
}

/// `first_with_id` finds the first entry under `id`, and none before it is
/// under `id`.
pub proof fn lemma_first_with_id<C>(s: Seq<(usize, C)>, id: usize)
    ensures
        0 <= first_with_id(s, id) <= s.len(),
        first_with_id(s, id) < s.len() ==> s[first_with_id(s, id)].0 == id,
        forall|j: int| 0 <= j < first_with_id(s, id) ==> (#[trigger] s[j]).0 != id,
    decreases s.len(),
{
    if s.len() > 0 && s.first().0 != id {
        let rest = s.drop_first();
        lemma_first_with_id(rest, id);
        assert forall|j: int| 0 <= j < first_with_id(s, id) implies (#[trigger] s[j]).0 != id by {
            if j > 0 {
                assert(rest[j - 1] == s[j]);
            }
        }
    }
}

/// The callbacks registered for one kind of event, in calling order.
pub struct CallbackHolder<C> {
    entries: Vec<(usize, C)>,
}

impl<C> View for CallbackHolder<C> {
    type V = Seq<(usize, C)>;

    closed spec fn view(&self) -> Seq<(usize, C)> {
        self.entries@
    }
}

impl<C> CallbackHolder<C> {
    /// A holder without callbacks.
    pub fn new() -> (h: CallbackHolder<C>)
        ensures
            h@ == Seq::<(usize, C)>::empty(),
    {
        CallbackHolder { entries: Vec::new() }
    }

    /// Registers `callback` under `id`: it is called after those registered
    /// before it.
    pub fn register(&mut self, id: usize, callback: C)
        ensures
            final(self)@ == old(self)@.push((id, callback)),
    {
        self.entries.push((id, callback));
    }

    /// The position of the first callback under `id`, or the number of
    /// callbacks where none is under it.
    fn position(&self, id: usize) -> (i: usize)
        ensures
            i == first_with_id(self@, id),
            i <= self@.len(),
    {
        let n = self.entries.len();
        let mut i: usize = 0;
        while i < n && self.entries[i].0 != id
            invariant
                n == self.entries@.len(),
                i <= n,
                forall|j: int| 0 <= j < i ==> (#[trigger] self.entries@[j]).0 != id,
            decreases n - i,
        {
            i += 1;
        }
        proof {
            lemma_first_with_id(self@, id);
            let f = first_with_id(self@, id);
            if f < i {
                assert(self.entries@[f].0 != id);
            }
            if i < f {
                assert(self@[i as int].0 == id);
            }
        }
        i
    }

    /// Whether a callback is registered under `id`.
    pub fn is_registered(&self, id: usize) -> (r: bool)
        ensures
            r == registered(self@, id),
    {
        self.position(id) < self.entries.len()
    }

    /// Deregisters the first callback under `id` and hands it back; the
    /// callback registered last takes its place in the calling order. Only
    /// an id under which a callback is registered can be deregistered.
    pub fn deregister(&mut self, id: usize) -> (callback: C)
        requires
            registered(old(self)@, id),
        ensures
            final(self)@ == deregistered(old(self)@, id),
            callback == old(self)@[first_with_id(old(self)@, id)].1,
    {
        let i = self.position(id);
        let (_, callback) = self.entries.swap_remove(i);
        callback
    }

    /// The registered callbacks with their ids, in calling order.
    pub fn callbacks(&self) -> (r: &Vec<(usize, C)>)
        ensures
            r@ == self@,
    {
        &self.entries
    }
}

/// A change to the registered callbacks.
pub enum Msg<M, D> {
    /// Register this callback for a kind of mouse event, under this id.
    RegisterMouse(MouseEventKind, usize, M),
    /// Deregister the callback for a kind of mouse event under this id.
    DeRegisterMouse(MouseEventKind, usize),
    /// Register this callback for a kind of drag event, under this id.
    RegisterDrag(DragEventKind, usize, D),
    /// Deregister the callback for a kind of drag event under this id.
    DeRegisterDrag(DragEventKind, usize),
}

/// The registered callbacks of a page as contracts see them.
pub struct Registered<M, D> {
    pub mouse_move: Seq<(usize, M)>,
    pub mouse_up: Seq<(usize, M)>,
    pub mouse_out: Seq<(usize, M)>,
    pub drag_over: Seq<(usize, D)>,
}

impl<M, D> Registered<M, D> {
    /// The callbacks for one kind of mouse event.
    pub open spec fn mouse(self, kind: MouseEventKind) -> Seq<(usize, M)> {
        match kind {
            MouseEventKind::MouseMove => self.mouse_move,
            MouseEventKind::MouseUp => self.mouse_up,
            MouseEventKind::MouseOut => self.mouse_out,
        }
    }

    /// The callbacks for one kind of drag event.
    pub open spec fn drag(self, kind: DragEventKind) -> Seq<(usize, D)> {
        match kind {
            DragEventKind::DragOver => self.drag_over,
        }
    }

    /// `self` with the callbacks for one kind of mouse event replaced.
    pub open spec fn with_mouse(self, kind: MouseEventKind, s: Seq<(usize, M)>) -> Self {
        match kind {
            MouseEventKind::MouseMove => Registered { mouse_move: s, ..self },
            MouseEventKind::MouseUp => Registered { mouse_up: s, ..self },
            MouseEventKind::MouseOut => Registered { mouse_out: s, ..self },
        }
    }

    /// `self` with the callbacks for one kind of drag event replaced.
    pub open spec fn with_drag(self, kind: DragEventKind, s: Seq<(usize, D)>) -> Self {
        match kind {
            DragEventKind::DragOver => Registered { drag_over: s, ..self },
        }
    }

    /// `msg` can be handled: what it deregisters is registered.
    pub open spec fn admits(self, msg: Msg<M, D>) -> bool {
        match msg {
            Msg::DeRegisterMouse(kind, id) => registered(self.mouse(kind), id),
            Msg::DeRegisterDrag(kind, id) => registered(self.drag(kind), id),
            _ => true,
        }
    }

    /// `self` after `msg` was handled.
    pub open spec fn after(self, msg: Msg<M, D>) -> Self
        recommends
            self.admits(msg),
    {
        match msg {
            Msg::RegisterMouse(kind, id, callback) => self.with_mouse(
                kind,
                self.mouse(kind).push((id, callback)),
            ),
            Msg::DeRegisterMouse(kind, id) => self.with_mouse(
                kind,
                deregistered(self.mouse(kind), id),
            ),
            Msg::RegisterDrag(kind, id, callback) => self.with_drag(
                kind,
                self.drag(kind).push((id, callback)),
            ),
            Msg::DeRegisterDrag(kind, id) => self.with_drag(
                kind,
                deregistered(self.drag(kind), id),
            ),
        }
    }
}

/// Keeps the callbacks that are registered for the events of a page.
pub struct GlobalCallbacksProvider<M, D> {
    mouse_move: CallbackHolder<M>,
    mouse_up: CallbackHolder<M>,
    mouse_out: CallbackHolder<M>,
    drag_over: CallbackHolder<D>,
}

impl<M, D> View for GlobalCallbacksProvider<M, D> {
    type V = Registered<M, D>;

    closed spec fn view(&self) -> Registered<M, D> {
        Registered {
            mouse_move: self.mouse_move@,
            mouse_up: self.mouse_up@,
            mouse_out: self.mouse_out@,
            drag_over: self.drag_over@,
        }
    }
}

impl<M, D> GlobalCallbacksProvider<M, D> {
    /// A provider without callbacks.
    pub fn new() -> (p: GlobalCallbacksProvider<M, D>)
        ensures
            p@ == (Registered::<M, D> {
                mouse_move: Seq::empty(),
                mouse_up: Seq::empty(),
                mouse_out: Seq::empty(),
                drag_over: Seq::empty(),
            }),
    {
        GlobalCallbacksProvider {
            mouse_move: CallbackHolder::new(),
            mouse_up: CallbackHolder::new(),
            mouse_out: CallbackHolder::new(),
            drag_over: CallbackHolder::new(),
        }
    }

    /// The callbacks to call on a mouse event of this kind, in calling order.
    pub fn get_mouse(&self, kind: MouseEventKind) -> (r: &CallbackHolder<M>)
        ensures
            r@ == self@.mouse(kind),
    {
        match kind {
            MouseEventKind::MouseMove => &self.mouse_move,
            MouseEventKind::MouseUp => &self.mouse_up,
            MouseEventKind::MouseOut => &self.mouse_out,
        }
    }

    /// The callbacks to call on a drag event of this kind, in calling order.
    pub fn get_drag(&self, kind: DragEventKind) -> (r: &CallbackHolder<D>)
        ensures
            r@ == self@.drag(kind),
    {
        match kind {
            DragEventKind::DragOver => &self.drag_over,
        }
    }

    /// The holder for one kind of mouse event, to change it. The other
    /// holders stay.
    pub fn get_mouse_mut(&mut self, kind: MouseEventKind) -> (r: &mut CallbackHolder<M>)
        ensures
            r@ == old(self)@.mouse(kind),
            final(self)@ == old(self)@.with_mouse(kind, final(r)@),
    {
        match kind {
            MouseEventKind::MouseMove => &mut self.mouse_move,
            MouseEventKind::MouseUp => &mut self.mouse_up,
            MouseEventKind::MouseOut => &mut self.mouse_out,
        }
    }

    /// The holder for one kind of drag event, to change it. The other holders
    /// stay.
    pub fn get_drag_mut(&mut self, kind: DragEventKind) -> (r: &mut CallbackHolder<D>)
        ensures
            r@ == old(self)@.drag(kind),
            final(self)@ == old(self)@.with_drag(kind, final(r)@),
    {
        match kind {
            DragEventKind::DragOver => &mut self.drag_over,
        }
    }

    /// Whether `msg` can be handled: what it deregisters is registered.
    pub fn can_handle(&self, msg: &Msg<M, D>) -> (r: bool)
        ensures
            r == self@.admits(*msg),
    {
        match msg {
            Msg::DeRegisterMouse(kind, id) => self.get_mouse(*kind).is_registered(*id),
            Msg::DeRegisterDrag(kind, id) => self.get_drag(*kind).is_registered(*id),
            _ => true,
        }
    }

    /// Registers or deregisters a callback. Nothing has to be drawn again.
    /// Only an id under which a callback is registered can be deregistered.
    pub fn update(&mut self, msg: Msg<M, D>) -> (render: bool)
        requires
            old(self)@.admits(msg),
        ensures
            !render,
            final(self)@ == old(self)@.after(msg),
    {
        match msg {
            Msg::RegisterMouse(kind, id, callback) => {
                self.get_mouse_mut(kind).register(id, callback);
            },
            Msg::DeRegisterMouse(kind, id) => {
                let _ = self.get_mouse_mut(kind).deregister(id);
            },
            Msg::RegisterDrag(kind, id, callback) => {
                self.get_drag_mut(kind).register(id, callback);
            },
            Msg::DeRegisterDrag(kind, id) => {
                let _ = self.get_drag_mut(kind).deregister(id);
            },
        }
        false
    }
}

} // verus!
