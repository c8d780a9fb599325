use std::collections::HashMap;

use vstd::prelude::*;

use crate::device::{
    InputDevice, enumerate_layouts, find_keyboard, keyboard_ids, keyboards_of, layouts_of,
    names_view, opt_name_view,
};
use crate::error::Error;
use crate::layout::{Layout, LayoutError, LayoutV, layouts_view, opt_layout_view};

verus! {

broadcast use vstd::std_specs::hash::group_hash_axioms;

/// Policy for a window that gains focus with no remembered layout: `Previous`
/// leaves the device's current layout untouched; `Default` names a fixed
/// layout to force. Only `Previous` has event-handling behaviour; `Default`
/// is declared but has no trigger path.
#[derive(Debug)]
pub enum LayoutPolicy {
    Default(String),
    Previous,
}

impl Default for LayoutPolicy {
    fn default() -> (r: LayoutPolicy)
        ensures
            r is Previous,
    {
        LayoutPolicy::Previous
    }
}

/// The change tag of a window event; tags other than focus and close are
/// explicitly ignored.
#[derive(Clone, Copy, Debug, PartialEq, Eq, Structural)]
pub enum WindowChange {
    Focus,
    Close,
    Other,
}

/// A window event: which container it concerns and what changed.
#[derive(Debug)]
pub struct WindowEventData {
    pub change: WindowChange,
    pub container_id: i64,
}

/// One event from the window manager's stream: a window event, an
/// input-change event carrying the device's reported metadata, or any other
/// kind (ignored).
#[derive(Debug)]
pub enum Event {
    Window(WindowEventData),
    Input(InputDevice),
    Other,
}

/// Mathematical value of an event.
pub enum EventV {
    Window { change: WindowChange, container: i64 },
    Input { names: Seq<Seq<char>>, active: Option<Seq<char>> },
    Other,
}

impl View for Event {
    type V = EventV;

    open spec fn view(&self) -> EventV {
        match self {
            Event::Window(w) => EventV::Window { change: w.change, container: w.container_id },
            Event::Input(d) => EventV::Input {
                names: names_view(d.xkb_layout_names@),
                active: opt_name_view(d.xkb_active_layout_name),
            },
            Event::Other => EventV::Other,
        }
    }
}

/// What the caller must do on the wire after handing the manager an event.
#[derive(Debug)]
pub enum Action {
    /// Nothing to issue.
    Nothing,
    /// Issue exactly one layout-switch command for the configured device,
    /// targeting this layout's index.
    Switch(Layout),
    /// Read the device's live layout and hand the answer back through
    /// `seed_current_container`.
    Query,
}

/// Mathematical value of an action.
pub enum ActionV {
    Nothing,
    Switch(LayoutV),
    Query,
}

impl View for Action {
    type V = ActionV;

    open spec fn view(&self) -> ActionV {
        match self {
            Action::Nothing => ActionV::Nothing,
            Action::Switch(l) => ActionV::Switch(l@),
            Action::Query => ActionV::Query,
        }
    }
}

/// Mathematical state of the layout manager: the configured device, the most
/// recently focused container, the layout believed active on the device, and
/// the per-container remembered layouts.
#[verifier::ext_equal]
pub struct ManagerV {
    pub device: Seq<char>,
    pub current_container: Option<i64>,
    pub current_layout: Option<LayoutV>,
    pub cache: Map<i64, LayoutV>,
}

/// The position of the active name within the configured names: the first
/// index whose name matches, if any.
pub open spec fn position_of(names: Seq<Seq<char>>, n: Seq<char>) -> Option<int>
    decreases names.len(),
{
    if names.len() == 0 {
        None
    } else if names[0] == n {
        Some(0int)
    } else {
        match position_of(names.drop_first(), n) {
            Some(i) => Some(i + 1),
            None => None,
        }
    }
}

/// The layout described by an input-change event: present exactly when the
/// event names an active layout and that name stands in the configured list.
pub open spec fn event_layout(names: Seq<Seq<char>>, active: Option<Seq<char>>) -> Option<LayoutV> {
    match active {
        None => None,
        Some(n) => match position_of(names, n) {
            None => None,
            Some(i) => Some(LayoutV { id: i, name: n }),
        },
    }
}

/// State after an input-change event. A well-formed event makes its layout
/// the one believed active and remembers it for the focused container, if
/// any; a malformed event changes nothing.
pub open spec fn input_step(m: ManagerV, names: Seq<Seq<char>>, active: Option<Seq<char>>) -> ManagerV {
    match event_layout(names, active) {
        None => m,
        Some(l) => ManagerV {
            current_layout: Some(l),
            cache: match m.current_container {
                Some(c) => m.cache.insert(c, l),
                None => m.cache,
            },
            ..m
        },
    }
}

/// State and action after a focus event. Focus always moves to the new
/// container. A remembered layout that differs from the one believed active
/// is restored with one switch command; a remembered layout that matches
/// issues nothing. A container without a remembered layout is seeded with
/// the layout believed active, or, when none is known yet, the caller is
/// asked to query the live one.
pub open spec fn focus_step(m: ManagerV, id: i64) -> (ManagerV, ActionV) {
    let m1 = ManagerV { current_container: Some(id), ..m };
    if m.cache.contains_key(id) {
        if m.current_layout != Some(m.cache[id]) {
            (m1, ActionV::Switch(m.cache[id]))
        } else {
            (m1, ActionV::Nothing)
        }
    } else {
        match m.current_layout {
            Some(cur) => (ManagerV { cache: m.cache.insert(id, cur), ..m1 }, ActionV::Nothing),
            None => (m1, ActionV::Query),
        }
    }
}

/// State after a close event: the container's remembered layout is gone.
pub open spec fn close_step(m: ManagerV, id: i64) -> ManagerV {
    ManagerV { cache: m.cache.remove(id), ..m }
}

/// State after the caller hands back a queried live layout: it is remembered
/// for the focused container, and nothing else moves.
pub open spec fn seed_step(m: ManagerV, l: LayoutV) -> ManagerV {
    match m.current_container {
        Some(c) => ManagerV { cache: m.cache.insert(c, l), ..m },
        None => m,
    }
}

/// State after any one event.
pub open spec fn step_state(m: ManagerV, ev: EventV) -> ManagerV {
    match ev {
        EventV::Window { change, container } => match change {
            WindowChange::Focus => focus_step(m, container).0,
            WindowChange::Close => close_step(m, container),
            WindowChange::Other => m,
        },
        EventV::Input { names, active } => input_step(m, names, active),
        EventV::Other => m,
    }
}

/// The action one event calls for.
pub open spec fn step_action(m: ManagerV, ev: EventV) -> ActionV {
    match ev {
        EventV::Window { change, container } => match change {
            WindowChange::Focus => focus_step(m, container).1,
            WindowChange::Close => ActionV::Nothing,
            WindowChange::Other => ActionV::Nothing,
        },
        EventV::Input { .. } => ActionV::Nothing,
        EventV::Other => ActionV::Nothing,
    }
}

/// Whether an event is handled without error: everything except a malformed
/// input-change event.
pub open spec fn step_ok(ev: EventV) -> bool {
    match ev {
        EventV::Input { names, active } => event_layout(names, active) is Some,
        _ => true,
    }
}

/// The view of the per-container cache.
pub open spec fn cache_view(m: Map<i64, Layout>) -> Map<i64, LayoutV> {
    m.map_values(|l: Layout| l@)
}

proof fn lemma_cache_view_insert(m: Map<i64, Layout>, k: i64, v: Layout)
    ensures
        cache_view(m.insert(k, v)) == cache_view(m).insert(k, v@),
{
    assert(cache_view(m.insert(k, v)) =~= cache_view(m).insert(k, v@));
}

proof fn lemma_cache_view_remove(m: Map<i64, Layout>, k: i64)
    ensures
        cache_view(m.remove(k)) == cache_view(m).remove(k),
{
    assert(cache_view(m.remove(k)) =~= cache_view(m).remove(k));
}

/// The focus-tracking layout manager: the one stateful component. It owns
/// the per-container layout cache and decides, event by event, when a
/// layout-switch command has to go out.
pub struct LayoutManager {
    device: String,
    current_container_id: Option<i64>,
    current_layout: Option<Layout>,
    containers_layout: HashMap<i64, Layout>,
    policy: LayoutPolicy,
}

impl View for LayoutManager {
    type V = ManagerV;

    closed spec fn view(&self) -> ManagerV {
        ManagerV {
            device: self.device@,
            current_container: self.current_container_id,
            current_layout: opt_layout_view(self.current_layout),
            cache: cache_view(self.containers_layout@),
        }
    }
}

impl LayoutManager {
    /// The configured policy, unread by the event-handling rules.
    pub closed spec fn spec_policy(&self) -> LayoutPolicy {
        self.policy
    }

    /// A fresh manager for one device: no focused container, no layout
    /// believed active, an empty cache. Performs no I/O.
    pub fn new(device: String, policy: Option<LayoutPolicy>) -> (r: LayoutManager)
        ensures
            r@ == (ManagerV {
                device: device@,
                current_container: None,
                current_layout: None,
                cache: Map::empty(),
            }),
            r.spec_policy() == (match policy {
                Some(p) => p,
                None => LayoutPolicy::Previous,
            }),
    {
        let policy = match policy {
            Some(p) => p,
            None => LayoutPolicy::default(),
        };
        let r = LayoutManager {
            device,
            current_container_id: None,
            current_layout: None,
            containers_layout: HashMap::new(),
            policy,
        };
        proof {
            assert(cache_view(r.containers_layout@) =~= Map::<i64, LayoutV>::empty());
        }
        r
    }

    /// The configured device identifier.
    pub fn device(&self) -> (r: &String)
        ensures
            r@ == self@.device,
    {
        &self.device
    }

    /// The configured policy.
    pub fn policy(&self) -> (r: &LayoutPolicy)
        ensures
            *r == self.spec_policy(),
    {
        &self.policy
    }

    /// The identifiers of the keyboard-class devices in the reported list;
    /// side-effect-free.
    pub fn keyboards(&self, devices: &Vec<InputDevice>) -> (r: Vec<String>)
        ensures
            names_view(r@) == keyboard_ids(devices@),
    {
        keyboards_of(devices)
    }

    /// The configured layout list of this manager's device;
    /// side-effect-free. Empty when the device is not in the reported list.
    pub fn layouts(&self, devices: &Vec<InputDevice>) -> (r: Vec<Layout>)
        ensures
            layouts_view(r@) == match find_keyboard(devices@, self@.device) {
                Some(d) => enumerate_layouts(names_view(d.xkb_layout_names@)),
                None => Seq::<LayoutV>::empty(),
            },
    {
        layouts_of(devices, &self.device)
    }

    /// The layout believed active on the device, when one is known. `None`
    /// asks the caller to read the live one (`current_layout_of`); the
    /// answer is not cached here — the belief moves only through the event
    /// path.
    pub fn get_layout(&self) -> (r: Option<Layout>)
        ensures
            opt_layout_view(r) == self@.current_layout,
    {
        match &self.current_layout {
            Some(l) => Some(l.clone()),
            None => None,
        }
    }

    /// Decides a layout-switch: the command to issue, or `None` when the
    /// wanted layout is already believed active. Issuing the command does
    /// not move the belief; only the resulting input-change event does.
    pub fn set_layout(&self, layout: &Layout) -> (r: Option<Layout>)
        ensures
            r is Some <==> self@.current_layout != Some(layout@),
            r matches Some(l) ==> l@ == layout@,
    {
        let issue = match &self.current_layout {
            None => true,
            Some(cur) => !(cur == layout),
        };
        if issue {
            Some(layout.clone())
        } else {
            None
        }
    }

    /// Replaces the layout believed active, as seeded once from a
    /// best-effort query before the event loop starts.
    pub fn seed_current_layout(&mut self, layout: Option<Layout>)
        ensures
            final(self)@ == (ManagerV { current_layout: opt_layout_view(layout), ..old(self)@ }),
    {
        self.current_layout = layout;
    }

    /// Remembers a queried live layout for the focused container, answering
    /// an `Action::Query`. Without a focused container nothing moves.
    pub fn seed_current_container(&mut self, layout: Layout)
        ensures
            final(self)@ == seed_step(old(self)@, layout@),
    {
        if let Some(c) = self.current_container_id {
            let ghost pre = self.containers_layout@;
            self.containers_layout.insert(c, layout);
            proof {
                lemma_cache_view_insert(pre, c, layout);
                assert(self@ =~= seed_step(old(self)@, layout@));
            }
        }
    }

    /// Applies a focus event and returns the action it calls for.
    pub fn handle_focus_change(&mut self, container_id: i64) -> (a: Action)
        ensures
            final(self)@ == focus_step(old(self)@, container_id).0,
            a@ == focus_step(old(self)@, container_id).1,
    {
        self.current_container_id = Some(container_id);
        let preferred = self.containers_layout.get(&container_id);
        match preferred {
            Some(layout) => {
                proof {
                    assert(old(self)@.cache.contains_key(container_id));
                    assert(old(self)@.cache[container_id] == layout@);
                }
                let r = match self.set_layout(layout) {
                    Some(cmd) => Action::Switch(cmd),
                    None => Action::Nothing,
                };
                proof {
                    assert(self@ =~= focus_step(old(self)@, container_id).0);
                }
                r
            },
            None => {
                proof {
                    assert(!old(self)@.cache.contains_key(container_id));
                }
                match &self.current_layout {
                    Some(cur) => {
                        let l = cur.clone();
                        let ghost pre = self.containers_layout@;
                        self.containers_layout.insert(container_id, l);
                        proof {
                            lemma_cache_view_insert(pre, container_id, l);
                            assert(self@ =~= focus_step(old(self)@, container_id).0);
                        }
                        Action::Nothing
                    },
                    None => {
                        proof {
                            assert(self@ =~= focus_step(old(self)@, container_id).0);
                        }
                        Action::Query
                    },
                }
            },
        }
    }

    /// Applies a close event: the container's remembered layout is evicted,
    /// so a later focus on a reused id cannot restore a stale layout.
    pub fn handle_window_close(&mut self, container_id: i64)
        ensures
            final(self)@ == close_step(old(self)@, container_id),
    {
        let ghost pre = self.containers_layout@;
        self.containers_layout.remove(&container_id);
        proof {
            lemma_cache_view_remove(pre, container_id);
            assert(self@ =~= close_step(old(self)@, container_id));
        }
    }

    /// Applies an input-change event. A well-formed event moves the layout
    /// believed active and remembers it for the focused container; a
    /// malformed one (no active name, or a name outside the configured
    /// list) fails with a layout-detection error and changes nothing.
    pub fn handle_input_event(&mut self, event: &InputDevice) -> (r: Result<(), Error>)
        ensures
            final(self)@ == input_step(
                old(self)@,
                names_view(event.xkb_layout_names@),
                opt_name_view(event.xkb_active_layout_name),
            ),
            r is Ok <==> event_layout(
                names_view(event.xkb_layout_names@),
                opt_name_view(event.xkb_active_layout_name),
            ) is Some,
            event.xkb_active_layout_name is None ==> (r matches Err(Error::Layout(le))
                && le@ == "Unable to detect current active layout"@),
            r is Err && event.xkb_active_layout_name is Some ==> (r matches Err(Error::Layout(le))
                && le@ == "unable to find layout {name}"@),
    {
        let ghost names = names_view(event.xkb_layout_names@);
        let name = match &event.xkb_active_layout_name {
            Some(n) => n,
            None => {
                return Err(Error::Layout(LayoutError::LayoutDetection(
                    "Unable to detect current active layout".to_owned(),
                )));
            },
        };
        let n = event.xkb_layout_names.len();
        let mut i: usize = 0;
        let mut found: Option<usize> = None;
        while i < n && found.is_none()
            invariant
                i <= n,
                n == event.xkb_layout_names@.len(),
                names == names_view(event.xkb_layout_names@),
                match found {
                    Some(p) => {
                        &&& position_of(names, name@) == Some(p as int)
                        &&& p < n
                    },
                    None => forall|j: int| 0 <= j < i ==> names[j] != name@,
                },
            decreases n - i + (if found.is_none() { 1int } else { 0int }),
        {
            if event.xkb_layout_names[i] == *name {
                proof {
                    lemma_position_of_after_prefix(names, name@, i as int);
                    assert(names.skip(i as int)[0] == names[i as int]);
                }
                found = Some(i);
            } else {
                i = i + 1;
            }
        }
        let layout_id = match found {
            Some(p) => p,
            None => {
                proof {
                    lemma_position_of_after_prefix(names, name@, n as int);
                    assert(names.skip(n as int) =~= Seq::<Seq<char>>::empty());
                }
                return Err(Error::Layout(LayoutError::LayoutDetection(
                    "unable to find layout {name}".to_owned(),
                )));
            },
        };
        let layout = Layout::from((layout_id, name));
        self.current_layout = Some(layout.clone());
        if let Some(current_container) = self.current_container_id {
            let ghost pre = self.containers_layout@;
            self.containers_layout.insert(current_container, layout);
            proof {
                lemma_cache_view_insert(pre, current_container, layout);
            }
        }
        proof {
            assert(self@ =~= input_step(
                old(self)@,
                names,
                opt_name_view(event.xkb_active_layout_name),
            ));
        }
        Ok(())
    }

    /// Applies one event of any kind, as the event loop delivers them, and
    /// returns the action it calls for. Focus and close tags of window
    /// events and input-change events are handled; everything else is
    /// ignored. An error reports a malformed input-change event, which has
    /// changed nothing; the loop logs it and goes on.
    pub fn handle_event(&mut self, event: &Event) -> (r: Result<Action, Error>)
        ensures
            final(self)@ == step_state(old(self)@, event@),
            r is Ok <==> step_ok(event@),
            r matches Ok(a) ==> a@ == step_action(old(self)@, event@),
            r matches Err(e) ==> e is Layout,
    {
        match event {
            Event::Window(w) => match w.change {
                WindowChange::Focus => Ok(self.handle_focus_change(w.container_id)),
                WindowChange::Close => {
                    self.handle_window_close(w.container_id);
                    Ok(Action::Nothing)
                },
                WindowChange::Other => Ok(Action::Nothing),
            },
            Event::Input(input) => match self.handle_input_event(input) {
                Ok(()) => Ok(Action::Nothing),
                Err(e) => Err(e),
            },
            Event::Other => Ok(Action::Nothing),
        }
    }

    /// The container currently focused, as far as the manager has seen.
    pub fn current_container(&self) -> (r: Option<i64>)
        ensures
            r == self@.current_container,
    {
        self.current_container_id
    }

    /// The layout remembered for one container, if any.
    pub fn cached_layout_of(&self, container_id: i64) -> (r: Option<Layout>)
        ensures
            match r {
                Some(l) => self@.cache.contains_key(container_id) && self@.cache[container_id]
                    == l@,
                None => !self@.cache.contains_key(container_id),
            },
    {
        match self.containers_layout.get(&container_id) {
            Some(l) => Some(l.clone()),
            None => None,
        }
    }
}

/// Skipping a prefix without the wanted name shifts the found position by
/// the prefix length.
proof fn lemma_position_of_after_prefix(names: Seq<Seq<char>>, n: Seq<char>, i: int)
    requires
        0 <= i <= names.len(),
        forall|j: int| 0 <= j < i ==> names[j] != n,
    ensures
        position_of(names, n) == match position_of(names.skip(i), n) {
            Some(p) => Some(p + i),
            None => None::<int>,
        },
    decreases i,
{
    if i > 0 {
        assert(names[0] != n);
        assert forall|j: int| 0 <= j < i - 1 implies names.drop_first()[j] != n by {
            assert(names.drop_first()[j] == names[j + 1]);
        }
        lemma_position_of_after_prefix(names.drop_first(), n, i - 1);
        assert(names.drop_first().skip(i - 1) =~= names.skip(i));
    } else {
        assert(names.skip(0) =~= names);
    }
}

} // verus!
