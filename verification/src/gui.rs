use vstd::prelude::*;
use crate::display::Display;
use crate::Fault;
use crate::input::{InputIndex, InputState, key_mask};
use std::collections::HashMap;
use crate::keys::{Action, action_slot, action_valid, keypad_key};
use crate::renderers::PollEventActionRaw;
use crate::timers::Moment;
use crate::keyboard::{KEY_ESCAPE, KEY_DIGIT1, KEY_DIGIT2, KEY_DIGIT3, KEY_DIGIT4, KEY_Q, KEY_W, KEY_E, KEY_R, KEY_A, KEY_S, KEY_D, KEY_F, KEY_Z, KEY_X, KEY_C, KEY_V, KEY_DELETE, KEY_SPACE};

verus! {

/// What the window reports to the emulation loop.
#[derive(Debug, Copy, Clone, PartialEq, Eq, Structural)]
pub enum GuiEvent {
    KeyPressed(InputIndex),
    KeyReleased(InputIndex),
    RequestRedraw,
    ReloadRom,
    TogglePause,
    Pause,
    Resume,
    Quit,
}

/// What the window shows: the screen, or the fault that stopped the machine.
pub enum GuiRenderState {
    Display(Display),
    Fault(Fault),
}

/// The settings page of the window: which action waits for a key to be bound
/// to, and whether the Escape press that opened the page has been released.
#[derive(Debug, Copy, Clone, PartialEq, Eq, Structural)]
pub struct SettingsOverlayState {
    pub remap_listening: Option<Action>,
    pub escape_key_released: bool,
}

/// The run-state change a batch of window events asks for; a reload wins over
/// any pause or resume.
#[derive(Debug, Copy, Clone, PartialEq, Eq, Structural)]
pub enum StateChange {
    Pause,
    Resume,
    Reload,
    Unchanged,
}

/// What a batch of window events amounts to so far.
#[derive(Debug, Copy, Clone, PartialEq, Eq, Structural)]
pub struct EventSummary {
    /// The keys held.
    pub keys: u16,
    pub change: StateChange,
    /// When the emulation resumes, if it runs.
    pub resume_at: Option<Moment>,
    pub needs_redraw: bool,
    pub quit: bool,
}

/// A pause request: overridden by nothing but a reload.
pub open spec fn change_pause(c: StateChange) -> StateChange {
    if c == StateChange::Reload {
        c
    } else {
        StateChange::Pause
    }
}

/// A resume request, unless a reload is pending; emulation that was paused
/// resumes at `now`.
pub open spec fn change_resume(s: EventSummary, was_paused: bool, now: Moment) -> EventSummary {
    if s.change == StateChange::Reload {
        s
    } else {
        EventSummary {
            change: StateChange::Resume,
            resume_at: if was_paused { Some(now) } else { s.resume_at },
            ..s
        }
    }
}

/// A pause toggle: with no request yet it asks for the opposite of the state
/// the batch started in; it turns a pending pause into a resume and back.
pub open spec fn change_toggle(s: EventSummary, was_paused: bool, now: Moment) -> EventSummary {
    let c = if s.change == StateChange::Unchanged {
        if was_paused { StateChange::Pause } else { StateChange::Resume }
    } else {
        s.change
    };
    let s1 = EventSummary { change: c, ..s };
    if c == StateChange::Resume {
        EventSummary { change: change_pause(c), ..s1 }
    } else if c == StateChange::Pause {
        change_resume(s1, was_paused, now)
    } else {
        s1
    }
}

/// The summary after one more event.
pub open spec fn step_event(s: EventSummary, e: GuiEvent, was_paused: bool, now: Moment) -> EventSummary {
    match e {
        GuiEvent::KeyPressed(i) => EventSummary { keys: s.keys | key_mask(i@), ..s },
        GuiEvent::KeyReleased(i) => EventSummary { keys: s.keys & !key_mask(i@), ..s },
        GuiEvent::RequestRedraw => EventSummary { needs_redraw: true, ..s },
        GuiEvent::Pause => EventSummary { change: change_pause(s.change), ..s },
        GuiEvent::Resume => change_resume(s, was_paused, now),
        GuiEvent::TogglePause => change_toggle(s, was_paused, now),
        GuiEvent::ReloadRom => EventSummary { change: StateChange::Reload, ..s },
        GuiEvent::Quit => EventSummary { quit: true, ..s },
    }
}

/// The summary of `events`, in order, starting from `start`.
pub open spec fn fold_events(events: Seq<GuiEvent>, start: EventSummary, was_paused: bool, now: Moment) -> EventSummary
    decreases events.len(),
{
    if events.len() == 0 {
        start
    } else {
        step_event(fold_events(events.drop_last(), start, was_paused, now), events.last(), was_paused, now)
    }
}

/// The summary before any event of a batch that arrives at `now`.
pub open spec fn initial_summary(keys: u16, was_paused: bool, now: Moment) -> EventSummary {
    EventSummary {
        keys,
        change: StateChange::Unchanged,
        resume_at: if was_paused { None } else { Some(now) },
        needs_redraw: false,
        quit: false,
    }
}

/// What the emulation loop is told, and whether it is paused afterwards: a
/// quit wins; then a reload (running); then a pause; otherwise the
/// emulation runs from `resume_at`, or stays paused when it has none.
pub open spec fn outcome(s: EventSummary, was_paused: bool) -> (PollEventActionRaw, bool) {
    let run = match s.resume_at {
        None => PollEventActionRaw::Pause,
        Some(t) => PollEventActionRaw::Resume { resume_at: t, needs_redraw: s.needs_redraw },
    };
    if s.quit {
        (PollEventActionRaw::Quit, was_paused)
    } else {
        match s.change {
            StateChange::Reload => (PollEventActionRaw::Reload, false),
            StateChange::Pause => (PollEventActionRaw::Pause, true),
            StateChange::Resume => (run, false),
            StateChange::Unchanged => (run, was_paused),
        }
    }
}

impl StateChange {
    fn reload(&mut self)
        ensures
            *final(self) == StateChange::Reload,
    {
        *self = StateChange::Reload
    }

    fn pause(&mut self)
        ensures
            *final(self) == change_pause(*old(self)),
    {
        if *self != StateChange::Reload {
            *self = StateChange::Pause
        }
    }
}

/// The emulation loop's view of the window: the keys held and whether the
/// emulation is paused.
pub struct GuiInput {
    pub input_state: InputState,
    pub is_paused: bool,
}

impl GuiInput {
    /// No key held, running.
    pub fn new() -> (r: Self)
        ensures
            r.input_state@ == 0,
            !r.is_paused,
    {
        Self { input_state: InputState::new(), is_paused: false }
    }

    /// The keys held.
    pub fn fetch_input_state(&self) -> (r: InputState)
        ensures
            r@ == self.input_state@,
    {
        self.input_state.copy()
    }

    fn resume_request(summary: &mut EventSummary, was_paused: bool, now: Moment)
        ensures
            *final(summary) == change_resume(*old(summary), was_paused, now),
    {
        if summary.change != StateChange::Reload {
            summary.change = StateChange::Resume;
            if was_paused {
                summary.resume_at = Some(now);
            }
        }
    }

    fn toggle_request(summary: &mut EventSummary, was_paused: bool, now: Moment)
        ensures
            *final(summary) == change_toggle(*old(summary), was_paused, now),
    {
        if summary.change == StateChange::Unchanged {
            summary.change = if was_paused { StateChange::Pause } else { StateChange::Resume };
        }
        if summary.change == StateChange::Resume {
            summary.change.pause();
        } else if summary.change == StateChange::Pause {
            Self::resume_request(summary, was_paused, now);
        }
    }

    /// Takes in a batch of window events, in the order they arrived at `now`,
    /// and tells the emulation loop what to do.
    pub fn handle_events(&mut self, events: &[GuiEvent], now: Moment) -> (r: PollEventActionRaw)
        ensures
            ({
                let s = fold_events(
                    events@,
                    initial_summary(old(self).input_state@, old(self).is_paused, now),
                    old(self).is_paused,
                    now,
                );
                &&& final(self).input_state@ == s.keys
                &&& (r, final(self).is_paused) == outcome(s, old(self).is_paused)
            }),
    {
        let was_paused = self.is_paused;
        let ghost start = initial_summary(self.input_state@, was_paused, now);
        let mut summary = EventSummary {
            keys: self.input_state.bits(),
            change: StateChange::Unchanged,
            resume_at: if !was_paused { Some(now) } else { None },
            needs_redraw: false,
            quit: false,
        };
        let mut i: usize = 0;
        assert(events@.take(0) =~= Seq::<GuiEvent>::empty());
        while i < events.len()
            invariant
                0 <= i <= events@.len(),
                summary == fold_events(events@.take(i as int), start, was_paused, now),
            decreases events@.len() - i,
        {
            let ev = events[i];
            match ev {
                GuiEvent::KeyPressed(idx) => summary.keys = summary.keys | idx.mask(),
                GuiEvent::KeyReleased(idx) => summary.keys = summary.keys & !idx.mask(),
                GuiEvent::RequestRedraw => summary.needs_redraw = true,
                GuiEvent::Pause => summary.change.pause(),
                GuiEvent::Resume => Self::resume_request(&mut summary, was_paused, now),
                GuiEvent::TogglePause => Self::toggle_request(&mut summary, was_paused, now),
                GuiEvent::ReloadRom => summary.change.reload(),
                GuiEvent::Quit => summary.quit = true,
            }
            assert(events@.take(i + 1).drop_last() =~= events@.take(i as int));
            i = i + 1;
        }
        assert(events@.take(events@.len() as int) =~= events@);
        self.input_state = InputState::from_bits(summary.keys);
        if summary.quit {
            return PollEventActionRaw::Quit;
        }
        match summary.change {
            StateChange::Reload => {
                self.is_paused = false;
                return PollEventActionRaw::Reload;
            },
            StateChange::Pause => {
                self.is_paused = true;
                return PollEventActionRaw::Pause;
            },
            StateChange::Resume => self.is_paused = false,
            StateChange::Unchanged => {},
        }
        match summary.resume_at {
            None => PollEventActionRaw::Pause,
            Some(resume_at) => PollEventActionRaw::Resume { resume_at, needs_redraw: summary.needs_redraw },
        }
    }
}

/// Once a reload is asked for in a batch, no later pause or resume undoes it.
pub proof fn lemma_reload_sticks(events: Seq<GuiEvent>, start: EventSummary, was_paused: bool, now: Moment)
    requires
        start.change == StateChange::Reload,
    ensures
        fold_events(events, start, was_paused, now).change == StateChange::Reload,
    decreases events.len(),
{
    if events.len() > 0 {
        lemma_reload_sticks(events.drop_last(), start, was_paused, now);
    }
}

/// A batch holding a reload request and no quit request tells the emulation
/// loop to reload, whatever pauses and resumes come with it; a batch holding
/// a quit request tells it to quit.
pub proof fn lemma_quit_then_reload_win(events: Seq<GuiEvent>, keys: u16, was_paused: bool, now: Moment)
    ensures
        ({
            let s = fold_events(events, initial_summary(keys, was_paused, now), was_paused, now);
            &&& events.contains(GuiEvent::Quit) ==> outcome(s, was_paused).0 == PollEventActionRaw::Quit
            &&& events.contains(GuiEvent::ReloadRom) && !events.contains(GuiEvent::Quit) ==> outcome(
                s,
                was_paused,
            ).0 == PollEventActionRaw::Reload
        }),
    decreases events.len(),
{
    let start = initial_summary(keys, was_paused, now);
    if events.len() > 0 {
        let prefix = events.drop_last();
        lemma_quit_then_reload_win(prefix, keys, was_paused, now);
        lemma_fold_flags(events, start, was_paused, now);
    }
}

/// The quit flag of a batch is set exactly when the batch holds a quit
/// request (from a clear start), and a reload request makes the change a reload.
proof fn lemma_fold_flags(events: Seq<GuiEvent>, start: EventSummary, was_paused: bool, now: Moment)
    requires
        !start.quit,
        start.change != StateChange::Reload,
    ensures
        fold_events(events, start, was_paused, now).quit == events.contains(GuiEvent::Quit),
        events.contains(GuiEvent::ReloadRom) ==> fold_events(events, start, was_paused, now).change
            == StateChange::Reload,
    decreases events.len(),
{
    if events.len() > 0 {
        let prefix = events.drop_last();
        lemma_fold_flags(prefix, start, was_paused, now);
        assert(events =~= prefix.push(events.last()));
        assert(events.contains(GuiEvent::Quit) == (prefix.contains(GuiEvent::Quit) || events.last()
            == GuiEvent::Quit)) by {
            if events.contains(GuiEvent::Quit) {
                let k = choose|k: int| 0 <= k < events.len() && events[k] == GuiEvent::Quit;
                if k < prefix.len() {
                    assert(prefix[k] == GuiEvent::Quit);
                }
            }
            if prefix.contains(GuiEvent::Quit) {
                let k = choose|k: int| 0 <= k < prefix.len() && prefix[k] == GuiEvent::Quit;
                assert(events[k] == GuiEvent::Quit);
            }
            if events.last() == GuiEvent::Quit {
                assert(events[events.len() - 1] == GuiEvent::Quit);
            }
        }
        if events.contains(GuiEvent::ReloadRom) {
            let k = choose|k: int| 0 <= k < events.len() && events[k] == GuiEvent::ReloadRom;
            if k < prefix.len() {
                assert(prefix[k] == GuiEvent::ReloadRom);
                assert(prefix.contains(GuiEvent::ReloadRom));
            }
        }
    }
}

/// The bindings of a list of `(key, action)` pairs, later pairs winning.
pub open spec fn bindings_map(list: Seq<(u64, Action)>) -> Map<u64, Action>
    decreases list.len(),
{
    if list.len() == 0 {
        Map::empty()
    } else {
        bindings_map(list.drop_last()).insert(list.last().0, list.last().1)
    }
}

/// Whether some key of `m` is bound to the action in table slot `slot`.
pub open spec fn slot_bound(m: Map<u64, Action>, slot: int) -> bool {
    exists|k: u64| m.contains_key(k) && action_slot(#[trigger] m[k]) == slot
}

/// Whether a list of bindings binds no key twice, no action twice and never
/// the Escape key.
pub open spec fn bindings_consistent(list: Seq<(u64, Action)>) -> bool
    decreases list.len(),
{
    if list.len() == 0 {
        true
    } else {
        let m = bindings_map(list.drop_last());
        &&& bindings_consistent(list.drop_last())
        &&& list.last().0 != KEY_ESCAPE
        &&& !m.contains_key(list.last().0)
        &&& !slot_bound(m, action_slot(list.last().1))
    }
}

/// Whether a list of bindings is consistent and binds every action.
pub open spec fn bindings_valid(list: Seq<(u64, Action)>) -> bool {
    &&& bindings_consistent(list)
    &&& forall|slot: int| 0 <= slot < 18 ==> slot_bound(bindings_map(list), slot)
}

/// `m` without the binding of action `a`.
pub open spec fn unbind(m: Map<u64, Action>, a: Action) -> Map<u64, Action> {
    Map::new(|k: u64| m.contains_key(k) && m[k] != a, |k: u64| m[k])
}

/// The two tables of a keymap: the action of each key, and the key of each
/// action's slot.
pub(crate) struct KeyTables {
    key_to_input: HashMap<u64, Action>,
    input_to_key: [Option<u64>; 18],
}

impl KeyTables {
    /// The action each bound key triggers.
    pub closed spec fn bindings(&self) -> Map<u64, Action> {
        self.key_to_input@
    }

    /// The key bound to the action in each table slot.
    pub closed spec fn keys(&self) -> Seq<Option<u64>> {
        self.input_to_key@
    }

    /// The two tables agree: key `k` triggers action `a` exactly when `a`'s
    /// slot holds `k`; Escape is never bound.
    pub open spec fn wf(&self) -> bool {
        &&& self.keys().len() == 18
        &&& !self.bindings().contains_key(KEY_ESCAPE)
        &&& forall|k: u64| #[trigger] self.bindings().contains_key(k) ==> action_valid(self.bindings()[k])
        &&& forall|k: u64| #[trigger]
            self.bindings().contains_key(k) ==> self.keys()[action_slot(self.bindings()[k])] == Some(k)
        &&& forall|slot: int|
            0 <= slot < 18 ==> (#[trigger] self.keys()[slot] matches Some(k) ==> self.bindings().contains_key(
                k,
            ) && action_slot(self.bindings()[k]) == slot)
    }

    /// The keymap of `list`, when it binds every action to its own key and
    /// leaves Escape free.
    pub(crate) fn from_bindings(list: &[(u64, Action)]) -> (r: Option<Self>)
        ensures
            r is Some <==> bindings_valid(list@),
            r matches Some(km) ==> km.wf() && km.bindings() == bindings_map(list@),
    {
        broadcast use vstd::std_specs::hash::group_hash_axioms;

        let mut km = KeyTables { key_to_input: HashMap::new(), input_to_key: [None; 18] };
        let mut i: usize = 0;
        assert(list@.take(0) =~= Seq::<(u64, Action)>::empty());
        assert(km.bindings() =~= bindings_map(list@.take(0)));
        while i < list.len()
            invariant
                0 <= i <= list@.len(),
                km.wf(),
                km.bindings() == bindings_map(list@.take(i as int)),
                bindings_consistent(list@.take(i as int)),
            decreases list@.len() - i,
        {
            let (key, action) = list[i];
            let slot = action.as_usize();
            let ghost prefix = list@.take(i as int);
            assert(list@.take(i + 1).drop_last() =~= prefix);
            assert(list@.take(i + 1).last() == (key, action));
            if key == KEY_ESCAPE || km.key_to_input.contains_key(&key) || km.input_to_key[slot].is_some() {
                proof {
                    if km.input_to_key@[slot as int] matches Some(k) {
                        assert(slot_bound(km.bindings(), action_slot(action)));
                    }
                    lemma_inconsistent_prefix(list@, i as int + 1);
                }
                return None;
            }
            proof {
                assert(!slot_bound(km.bindings(), action_slot(action))) by {
                    if slot_bound(km.bindings(), action_slot(action)) {
                        let k = choose|k: u64| km.bindings().contains_key(k) && action_slot(#[trigger] km.bindings()[k]) == action_slot(action);
                        assert(km.keys()[action_slot(action)] == Some(k));
                    }
                }
            }
            km.key_to_input.insert(key, action);
            km.input_to_key[slot] = Some(key);
            i = i + 1;
            proof {
                assert(km.bindings() == bindings_map(list@.take(i as int)));
                assert forall|k: u64| #[trigger] km.bindings().contains_key(k) implies km.keys()[action_slot(km.bindings()[k])] == Some(k) by {
                    if k != key {
                        assert(action_slot(km.bindings()[k]) != slot);
                    }
                }
            }
        }
        assert(list@.take(list@.len() as int) =~= list@);
        let mut s: usize = 0;
        while s < 18
            invariant
                0 <= s <= 18,
                km.wf(),
                km.bindings() == bindings_map(list@),
                forall|t: int| 0 <= t < s ==> slot_bound(km.bindings(), t),
            decreases 18 - s,
        {
            if km.input_to_key[s].is_none() {
                proof {
                    if slot_bound(km.bindings(), s as int) {
                        let k = choose|k: u64| km.bindings().contains_key(k) && action_slot(#[trigger] km.bindings()[k]) == s;
                        assert(km.keys()[s as int] == Some(k));
                    }
                }
                return None;
            }
            proof {
                let k = km.keys()[s as int]->Some_0;
                assert(km.bindings().contains_key(k) && action_slot(km.bindings()[k]) == s);
            }
            s = s + 1;
        }
        Some(km)
    }

    /// Binds `key` to `input`: the input's old key is unbound first, and
    /// the key's old action loses its key; binding Escape only unbinds.
    pub(crate) fn remap(&mut self, key: u64, input: Action)
        requires
            old(self).wf(),
        ensures
            final(self).wf(),
            final(self).bindings() == (if key == KEY_ESCAPE {
                unbind(old(self).bindings(), input)
            } else {
                unbind(old(self).bindings(), input).insert(key, input)
            }),
    {
        broadcast use vstd::std_specs::hash::group_hash_axioms;

        let slot = input.as_usize();
        let ghost m0 = self.bindings();
        if let Some(old_key) = self.input_to_key[slot] {
            self.input_to_key[slot] = None;
            let old_mapping = self.key_to_input.remove(&old_key);
            proof {
                assert(old_mapping == Some(input)) by {
                    assert(m0.contains_key(old_key) && action_slot(m0[old_key]) == slot);
                    lemma_action_slot_injective(m0[old_key], input);
                }
                assert forall|k: u64| #[trigger] self.bindings().contains_key(k) implies self.keys()[action_slot(self.bindings()[k])] == Some(k) by {
                    assert(k != old_key);
                    if action_slot(m0[k]) == slot {
                        assert(m0[k] == m0[old_key]) by {
                            lemma_action_slot_injective(m0[k], input);
                        }
                    }
                }
            }
        }
        proof {
            assert(self.bindings() =~= unbind(m0, input)) by {
                assert forall|k: u64| self.bindings().contains_key(k) <==> unbind(m0, input).contains_key(k) by {
                    if m0.contains_key(k) && m0[k] == input {
                        assert(m0.contains_key(k) && action_slot(m0[k]) == slot);
                    }
                }
            }
        }
        if key == KEY_ESCAPE {
            return;
        }
        let ghost m1 = self.bindings();
        let new_key_old_input = self.key_to_input.insert(key, input);
        if let Some(old_input) = new_key_old_input {
            let old_slot = old_input.as_usize();
            self.input_to_key[old_slot] = None;
            proof {
                assert(m1.contains_key(key) && m1[key] == old_input);
            }
        }
        self.input_to_key[slot] = Some(key);
        proof {
            assert forall|k: u64| #[trigger] self.bindings().contains_key(k) implies self.keys()[action_slot(self.bindings()[k])] == Some(k) by {
                if k != key {
                    assert(m1.contains_key(k));
                    if action_slot(m1[k]) == slot {
                        lemma_action_slot_injective(m1[k], input);
                    }
                    if let Some(oi) = new_key_old_input {
                        if action_slot(m1[k]) == action_slot(oi) {
                            lemma_action_slot_injective(m1[k], oi);
                        }
                    }
                }
            }
            assert forall|t: int| 0 <= t < 18 implies (#[trigger] self.keys()[t] matches Some(k) ==> self.bindings().contains_key(k) && action_slot(self.bindings()[k]) == t) by {
                if let Some(k) = self.keys()[t] {
                    if t != slot {
                        if k == key {
                            assert(new_key_old_input is Some);
                        }
                    }
                }
            }
        }
    }

    /// The action `key` triggers, if any.
    pub(crate) fn get(&self, key: u64) -> (r: Option<Action>)
        requires
            self.wf(),
        ensures
            r == (if self.bindings().contains_key(key) { Some(self.bindings()[key]) } else { None }),
    {
        broadcast use vstd::std_specs::hash::group_hash_axioms;

        match self.key_to_input.get(&key) {
            Some(a) => Some(*a),
            None => None,
        }
    }

    /// The key bound to `input`, if any.
    pub(crate) fn key_for(&self, input: Action) -> (r: Option<u64>)
        requires
            self.wf(),
        ensures
            r == self.keys()[action_slot(input)],
            r matches Some(k) ==> self.bindings().contains_key(k) && self.bindings()[k] == input,
    {
        let r = self.input_to_key[input.as_usize()];
        proof {
            if let Some(k) = r {
                lemma_action_slot_injective(self.bindings()[k], input);
            }
        }
        r
    }
}

/// The slot of the action `key` triggers in the default keymap: the 4×4
/// block `1 2 3 4 / Q W E R / A S D F / Z X C V` is the keypad, Delete
/// reloads the program and Space pauses.
pub open spec fn default_slot(key: u64) -> Option<int> {
    if key == KEY_DIGIT1 { Some(0) }
    else if key == KEY_DIGIT2 { Some(1) }
    else if key == KEY_DIGIT3 { Some(2) }
    else if key == KEY_DIGIT4 { Some(3) }
    else if key == KEY_Q { Some(4) }
    else if key == KEY_W { Some(5) }
    else if key == KEY_E { Some(6) }
    else if key == KEY_R { Some(7) }
    else if key == KEY_A { Some(8) }
    else if key == KEY_S { Some(9) }
    else if key == KEY_D { Some(10) }
    else if key == KEY_F { Some(11) }
    else if key == KEY_Z { Some(12) }
    else if key == KEY_X { Some(13) }
    else if key == KEY_C { Some(14) }
    else if key == KEY_V { Some(15) }
    else if key == KEY_DELETE { Some(16) }
    else if key == KEY_SPACE { Some(17) }
    else { None }
}

impl KeyTables {
    /// No key bound.
    pub(crate) fn empty() -> (r: Self)
        ensures
            r.wf(),
            r.bindings() == Map::<u64, Action>::empty(),
    {
        let r = KeyTables { key_to_input: HashMap::new(), input_to_key: [None; 18] };
        assert(r.bindings() =~= Map::<u64, Action>::empty());
        r
    }

    /// Binds a free key to an action in a slot after those of all bound actions.
    fn bind_fresh(&mut self, key: u64, action: Action)
        requires
            old(self).wf(),
            key != KEY_ESCAPE,
            !old(self).bindings().contains_key(key),
            forall|k: u64| #[trigger] old(self).bindings().contains_key(k) ==> action_slot(old(self).bindings()[k]) < action_slot(action),
        ensures
            final(self).wf(),
            final(self).bindings() == old(self).bindings().insert(key, action),
            forall|k: u64| #[trigger] final(self).bindings().contains_key(k) ==> action_slot(final(self).bindings()[k]) <= action_slot(action),
    {
        assert(unbind(self.bindings(), action) =~= self.bindings()) by {
            assert forall|k: u64| self.bindings().contains_key(k) implies self.bindings()[k] != action by {
                assert(action_slot(self.bindings()[k]) < action_slot(action));
            }
        }
        self.remap(key, action);
    }
}

impl KeyTables {
    /// The default tables (see `default_slot`).
    pub(crate) fn default_tables() -> (r: Self)
        ensures
            r.wf(),
            forall|k: u64| #[trigger] r.bindings().contains_key(k) == default_slot(k) is Some,
            forall|k: u64| #[trigger] r.bindings().contains_key(k) ==> action_slot(r.bindings()[k]) == default_slot(k)->0,
            r.bindings()[KEY_DIGIT1] matches Action::GameInput(i) && i@ == 0,
            r.bindings()[KEY_DIGIT2] matches Action::GameInput(i) && i@ == 1,
            r.bindings()[KEY_DIGIT3] matches Action::GameInput(i) && i@ == 2,
            r.bindings()[KEY_DIGIT4] matches Action::GameInput(i) && i@ == 3,
            r.bindings()[KEY_Q] matches Action::GameInput(i) && i@ == 4,
            r.bindings()[KEY_W] matches Action::GameInput(i) && i@ == 5,
            r.bindings()[KEY_E] matches Action::GameInput(i) && i@ == 6,
            r.bindings()[KEY_R] matches Action::GameInput(i) && i@ == 7,
            r.bindings()[KEY_A] matches Action::GameInput(i) && i@ == 8,
            r.bindings()[KEY_S] matches Action::GameInput(i) && i@ == 9,
            r.bindings()[KEY_D] matches Action::GameInput(i) && i@ == 10,
            r.bindings()[KEY_F] matches Action::GameInput(i) && i@ == 11,
            r.bindings()[KEY_Z] matches Action::GameInput(i) && i@ == 12,
            r.bindings()[KEY_X] matches Action::GameInput(i) && i@ == 13,
            r.bindings()[KEY_C] matches Action::GameInput(i) && i@ == 14,
            r.bindings()[KEY_V] matches Action::GameInput(i) && i@ == 15,
            r.bindings()[KEY_DELETE] == Action::ReloadRom,
            r.bindings()[KEY_SPACE] == Action::TogglePause,
    {
        let mut km = KeyTables::empty();
        km.bind_fresh(KEY_DIGIT1, Action::GameInput(keypad_key(0)));
        km.bind_fresh(KEY_DIGIT2, Action::GameInput(keypad_key(1)));
        km.bind_fresh(KEY_DIGIT3, Action::GameInput(keypad_key(2)));
        km.bind_fresh(KEY_DIGIT4, Action::GameInput(keypad_key(3)));
        km.bind_fresh(KEY_Q, Action::GameInput(keypad_key(4)));
        km.bind_fresh(KEY_W, Action::GameInput(keypad_key(5)));
        km.bind_fresh(KEY_E, Action::GameInput(keypad_key(6)));
        km.bind_fresh(KEY_R, Action::GameInput(keypad_key(7)));
        km.bind_fresh(KEY_A, Action::GameInput(keypad_key(8)));
        km.bind_fresh(KEY_S, Action::GameInput(keypad_key(9)));
        km.bind_fresh(KEY_D, Action::GameInput(keypad_key(10)));
        km.bind_fresh(KEY_F, Action::GameInput(keypad_key(11)));
        km.bind_fresh(KEY_Z, Action::GameInput(keypad_key(12)));
        km.bind_fresh(KEY_X, Action::GameInput(keypad_key(13)));
        km.bind_fresh(KEY_C, Action::GameInput(keypad_key(14)));
        km.bind_fresh(KEY_V, Action::GameInput(keypad_key(15)));
        km.bind_fresh(KEY_DELETE, Action::ReloadRom);
        km.bind_fresh(KEY_SPACE, Action::TogglePause);
        km
    }
}

/// Which key each action is bound to, and back. The two tables always
/// agree (see `KeyTables::wf`): key `k` triggers action `a` exactly when `a`'s
/// slot holds `k`, and Escape is never bound.
pub struct Keymap {
    tables: KeyTables,
}

impl Keymap {
    /// The two tables agree.
    #[verifier::type_invariant]
    pub closed spec fn wf(&self) -> bool {
        self.tables.wf()
    }

    /// The action each bound key triggers.
    pub closed spec fn bindings(&self) -> Map<u64, Action> {
        self.tables.bindings()
    }

    /// The key bound to the action in each table slot.
    pub closed spec fn keys(&self) -> Seq<Option<u64>> {
        self.tables.keys()
    }

    /// No key bound.
    pub fn empty() -> (r: Self)
        ensures
            r.bindings() == Map::<u64, Action>::empty(),
    {
        Keymap { tables: KeyTables::empty() }
    }

    /// The keymap of `list`, when it binds every action to its own key and
    /// leaves Escape free.
    pub fn from_bindings(list: &[(u64, Action)]) -> (r: Option<Self>)
        ensures
            r is Some <==> bindings_valid(list@),
            r matches Some(km) ==> km.bindings() == bindings_map(list@),
    {
        match KeyTables::from_bindings(list) {
            Some(tables) => Some(Keymap { tables }),
            None => None,
        }
    }

    /// Binds `key` to `input`: the input's old key is unbound first, and
    /// the key's old action loses its key; binding Escape only unbinds.
    pub fn remap(&mut self, key: u64, input: Action)
        ensures
            final(self).bindings() == (if key == KEY_ESCAPE {
                unbind(old(self).bindings(), input)
            } else {
                unbind(old(self).bindings(), input).insert(key, input)
            }),
    {
        proof {
            use_type_invariant(&*self);
        }
        let mut tables = KeyTables::empty();
        std::mem::swap(&mut self.tables, &mut tables);
        tables.remap(key, input);
        self.tables = tables;
    }

    /// The action `key` triggers, if any.
    pub fn get(&self, key: u64) -> (r: Option<Action>)
        ensures
            r == (if self.bindings().contains_key(key) { Some(self.bindings()[key]) } else { None }),
    {
        proof {
            use_type_invariant(self);
        }
        self.tables.get(key)
    }

    /// The key bound to `input`, if any.
    pub fn key_for(&self, input: Action) -> (r: Option<u64>)
        ensures
            r == self.keys()[action_slot(input)],
            r matches Some(k) ==> self.bindings().contains_key(k) && self.bindings()[k] == input,
    {
        proof {
            use_type_invariant(self);
        }
        self.tables.key_for(input)
    }
}

impl Default for Keymap {
    /// The default keymap: the keys `1 2 3 4 / Q W E R / A S D F / Z X C V`
    /// are the keypad keys 0 to 15 in that order, Delete reloads the
    /// program, Space pauses, and no other key is bound.
    fn default() -> (r: Self)
        ensures
            forall|k: u64| #[trigger] r.bindings().contains_key(k) == default_slot(k) is Some,
            forall|k: u64| #[trigger] r.bindings().contains_key(k) ==> action_slot(r.bindings()[k]) == default_slot(k)->0,
            r.bindings()[KEY_DIGIT1] matches Action::GameInput(i) && i@ == 0,
            r.bindings()[KEY_DIGIT2] matches Action::GameInput(i) && i@ == 1,
            r.bindings()[KEY_DIGIT3] matches Action::GameInput(i) && i@ == 2,
            r.bindings()[KEY_DIGIT4] matches Action::GameInput(i) && i@ == 3,
            r.bindings()[KEY_Q] matches Action::GameInput(i) && i@ == 4,
            r.bindings()[KEY_W] matches Action::GameInput(i) && i@ == 5,
            r.bindings()[KEY_E] matches Action::GameInput(i) && i@ == 6,
            r.bindings()[KEY_R] matches Action::GameInput(i) && i@ == 7,
            r.bindings()[KEY_A] matches Action::GameInput(i) && i@ == 8,
            r.bindings()[KEY_S] matches Action::GameInput(i) && i@ == 9,
            r.bindings()[KEY_D] matches Action::GameInput(i) && i@ == 10,
            r.bindings()[KEY_F] matches Action::GameInput(i) && i@ == 11,
            r.bindings()[KEY_Z] matches Action::GameInput(i) && i@ == 12,
            r.bindings()[KEY_X] matches Action::GameInput(i) && i@ == 13,
            r.bindings()[KEY_C] matches Action::GameInput(i) && i@ == 14,
            r.bindings()[KEY_V] matches Action::GameInput(i) && i@ == 15,
            r.bindings()[KEY_DELETE] == Action::ReloadRom,
            r.bindings()[KEY_SPACE] == Action::TogglePause,
    {
        Keymap { tables: KeyTables::default_tables() }
    }
}

/// The two tables of a keymap are inverse to each other: key `k` triggers
/// action `a` exactly when `a`'s slot holds `k`; an action whose slot is
/// empty is triggered by no key.
pub proof fn lemma_keymap_tables_agree(km: Keymap, k: u64, a: Action)
    requires
        km.wf(),
        action_valid(a),
    ensures
        (km.bindings().contains_key(k) && km.bindings()[k] == a) <==> km.keys()[action_slot(a)] == Some(k),
        km.keys()[action_slot(a)] is None ==> !(km.bindings().contains_key(k) && km.bindings()[k] == a),
{
    if km.keys()[action_slot(a)] == Some(k) {
        assert(km.bindings().contains_key(k) && action_slot(km.bindings()[k]) == action_slot(a));
        lemma_action_slot_injective(km.bindings()[k], a);
    }
}

/// Two actions in the same table slot are the same action.
proof fn lemma_action_slot_injective(a: Action, b: Action)
    requires
        action_valid(a),
        action_valid(b),
    ensures
        action_slot(a) == action_slot(b) ==> a == b,
{
    if let (Action::GameInput(i), Action::GameInput(j)) = (a, b) {
        if i@ == j@ {
            crate::input::lemma_input_index_view_injective(i, j);
        }
    }
}

/// A list whose first `n` pairs break consistency is not valid.
proof fn lemma_inconsistent_prefix(list: Seq<(u64, Action)>, n: int)
    requires
        0 < n <= list.len(),
        !bindings_consistent(list.take(n)),
    ensures
        !bindings_valid(list),
    decreases list.len() - n,
{
    if n < list.len() {
        assert(list.take(n + 1).drop_last() =~= list.take(n));
        lemma_inconsistent_prefix(list, n + 1);
    } else {
        assert(list.take(n) =~= list);
    }
}

} // verus!
