use vstd::prelude::*;
use crate::input::{InputIndex, InputState, key_held, key_mask, lemma_set_holds_key, lemma_unset_releases_key};
use crate::renderers::PollEventActionRaw;
use crate::timers::Moment;

verus! {

/// Something a key of the host's keyboard can be bound to.
#[derive(Debug, Copy, Clone, PartialEq, Eq, Structural)]
pub enum Action {
    /// A key of the emulated keypad.
    GameInput(InputIndex),
    ReloadRom,
    TogglePause,
}

/// The slot of an action in a table of all actions: keypad keys first, then
/// reloading, then pausing.
pub open spec fn action_slot(a: Action) -> int {
    match a {
        Action::GameInput(i) => i@ as int,
        Action::ReloadRom => 16,
        Action::TogglePause => 17,
    }
}

/// Whether the keypad key of an action is one of the sixteen keys (always so
/// for a value the program holds).
pub open spec fn action_valid(a: Action) -> bool {
    a matches Action::GameInput(i) ==> i@ < 16
}

impl Action {
    pub const TOTAL_ACTIONS: usize = 18;

    /// The action's slot in a table of all actions.
    pub fn as_usize(self) -> (r: usize)
        ensures
            r == action_slot(self),
            r < 18,
            action_valid(self),
    {
        match self {
            Action::GameInput(input) => input.as_usize(),
            Action::ReloadRom => InputIndex::TOTAL_INDICES,
            Action::TogglePause => InputIndex::TOTAL_INDICES + 1,
        }
    }
}

/// How long a key counts as held after the terminal last reported it, for
/// terminals that never report releases: 100 ms.
pub const SYNTHETIC_RELEASE_AFTER: u64 = 100_000_000;

/// When a held key counts as released unless reported again.
#[derive(Debug, Copy, Clone, PartialEq, Eq, Structural)]
pub struct KeyLease(pub Option<Moment>);

impl KeyLease {
    /// A released key.
    pub fn up() -> (r: Self)
        ensures
            r.0 is None,
    {
        Self(None)
    }

    /// The key was reported at `now`: it is held for the next 100 ms.
    pub fn press(&mut self, now: Moment)
        requires
            now.nanos + SYNTHETIC_RELEASE_AFTER <= u64::MAX,
        ensures
            final(self).0 == Some(Moment { nanos: (now.nanos + SYNTHETIC_RELEASE_AFTER) as u64 }),
    {
        self.0 = Some(now.plus(SYNTHETIC_RELEASE_AFTER))
    }

    pub fn release(&mut self)
        ensures
            final(self).0 is None,
    {
        self.0 = None
    }

    /// Releases the key if its lease ran out by `now`; reports whether it did.
    pub fn expire(&mut self, now: Moment) -> (r: bool)
        ensures
            r == (old(self).0 matches Some(at) && now.nanos >= at.nanos),
            final(self).0 == (if r { None } else { old(self).0 }),
    {
        let expired = match self.0 {
            Some(expires_at) => now.nanos >= expires_at.nanos,
            None => false,
        };
        if expired {
            self.release()
        }
        expired
    }
}

/// The keypad key a character of the terminal is bound to: the 4×4 block
/// `1 2 3 4 / Q W E R / A S D F / Z X C V` of the keyboard, letters in either case.
pub open spec fn terminal_key_spec(c: char) -> Option<u8> {
    if c == '1' { Some(0u8) }
    else if c == '2' { Some(1u8) }
    else if c == '3' { Some(2u8) }
    else if c == '4' { Some(3u8) }
    else if c == 'q' || c == 'Q' { Some(4u8) }
    else if c == 'w' || c == 'W' { Some(5u8) }
    else if c == 'e' || c == 'E' { Some(6u8) }
    else if c == 'r' || c == 'R' { Some(7u8) }
    else if c == 'a' || c == 'A' { Some(8u8) }
    else if c == 's' || c == 'S' { Some(9u8) }
    else if c == 'd' || c == 'D' { Some(10u8) }
    else if c == 'f' || c == 'F' { Some(11u8) }
    else if c == 'z' || c == 'Z' { Some(12u8) }
    else if c == 'x' || c == 'X' { Some(13u8) }
    else if c == 'c' || c == 'C' { Some(14u8) }
    else if c == 'v' || c == 'V' { Some(15u8) }
    else { None }
}

pub(crate) fn keypad_key(v: u8) -> (r: InputIndex)
    requires
        v < 16,
    ensures
        r@ == v,
{
    match InputIndex::from_usize(v as usize) {
        Some(k) => k,
        None => {
            proof {
                assert(false);
            }
            InputIndex::from_usize(0).unwrap()
        },
    }
}

/// The keypad key a character typed in the terminal is bound to, if any:
/// `1 2 3 4 / Q W E R / A S D F / Z X C V` are the keys 0 to 15 in that
/// order, letters in either case.
pub fn map_key(c: char) -> (r: Option<InputIndex>)
    ensures
        r is Some == terminal_key_spec(c) is Some,
        r matches Some(k) ==> terminal_key_spec(c) == Some(k@),
        c == '1' ==> (r matches Some(k) && k@ == 0),
        c == '2' ==> (r matches Some(k) && k@ == 1),
        c == '3' ==> (r matches Some(k) && k@ == 2),
        c == '4' ==> (r matches Some(k) && k@ == 3),
        (c == 'q' || c == 'Q') ==> (r matches Some(k) && k@ == 4),
        (c == 'w' || c == 'W') ==> (r matches Some(k) && k@ == 5),
        (c == 'e' || c == 'E') ==> (r matches Some(k) && k@ == 6),
        (c == 'r' || c == 'R') ==> (r matches Some(k) && k@ == 7),
        (c == 'a' || c == 'A') ==> (r matches Some(k) && k@ == 8),
        (c == 's' || c == 'S') ==> (r matches Some(k) && k@ == 9),
        (c == 'd' || c == 'D') ==> (r matches Some(k) && k@ == 10),
        (c == 'f' || c == 'F') ==> (r matches Some(k) && k@ == 11),
        (c == 'z' || c == 'Z') ==> (r matches Some(k) && k@ == 12),
        (c == 'x' || c == 'X') ==> (r matches Some(k) && k@ == 13),
        (c == 'c' || c == 'C') ==> (r matches Some(k) && k@ == 14),
        (c == 'v' || c == 'V') ==> (r matches Some(k) && k@ == 15),
{
    let v: u8 = if c == '1' { 0 }
        else if c == '2' { 1 }
        else if c == '3' { 2 }
        else if c == '4' { 3 }
        else if c == 'q' || c == 'Q' { 4 }
        else if c == 'w' || c == 'W' { 5 }
        else if c == 'e' || c == 'E' { 6 }
        else if c == 'r' || c == 'R' { 7 }
        else if c == 'a' || c == 'A' { 8 }
        else if c == 's' || c == 'S' { 9 }
        else if c == 'd' || c == 'D' { 10 }
        else if c == 'f' || c == 'F' { 11 }
        else if c == 'z' || c == 'Z' { 12 }
        else if c == 'x' || c == 'X' { 13 }
        else if c == 'c' || c == 'C' { 14 }
        else if c == 'v' || c == 'V' { 15 }
        else { return None };
    Some(keypad_key(v))
}

/// The keypad as a terminal sees it: which keys are held, and until when
/// each held key counts as held without being reported again.
pub struct TerminalKeys {
    input_state: InputState,
    key_leases: [KeyLease; 16],
}

impl TerminalKeys {
    /// The keys held.
    pub closed spec fn held(&self) -> u16 {
        self.input_state@
    }

    /// The lease of each key.
    pub closed spec fn leases(&self) -> Seq<KeyLease> {
        self.key_leases@
    }

    /// A key is held exactly when it has a lease.
    pub open spec fn wf(&self) -> bool {
        &&& self.leases().len() == 16
        &&& forall|i: u8| i < 16 ==> (key_held(self.held(), i) <==> self.leases()[i as int].0 is Some)
    }

    /// No key held.
    pub fn new() -> (r: Self)
        ensures
            r.wf(),
            r.held() == 0,
    {
        let r = Self { input_state: InputState::new(), key_leases: [KeyLease(None); 16] };
        assert forall|i: u8| i < 16 implies !key_held(r.held(), i) by {
            assert(i < 16 ==> ((0u16 >> (i as u16)) & 1 == 1) == false) by (bit_vector);
        }
        r
    }

    /// The keys held.
    pub fn fetch_input_state(&self) -> (r: InputState)
        ensures
            r@ == self.held(),
    {
        self.input_state.copy()
    }

    /// Key `idx` was reported pressed at `now`: it is held for the next 100 ms.
    pub fn press_key(&mut self, idx: InputIndex, now: Moment)
        requires
            old(self).wf(),
            now.nanos + SYNTHETIC_RELEASE_AFTER <= u64::MAX,
        ensures
            final(self).wf(),
            final(self).held() == old(self).held() | key_mask(idx@),
            final(self).leases() == old(self).leases().update(
                idx@ as int,
                KeyLease(Some(Moment { nanos: (now.nanos + SYNTHETIC_RELEASE_AFTER) as u64 })),
            ),
    {
        let i = idx.as_usize();
        let mut lease = self.key_leases[i];
        lease.press(now);
        self.key_leases[i] = lease;
        self.input_state.set(idx);
        proof {
            assert forall|j: u8| j < 16 implies (key_held(self.held(), j) <==> self.leases()[j as int].0 is Some) by {
                lemma_set_holds_key(old(self).held(), idx@, j);
            }
        }
    }

    /// Key `idx` was reported released.
    pub fn release_key(&mut self, idx: InputIndex)
        requires
            old(self).wf(),
        ensures
            final(self).wf(),
            final(self).held() == old(self).held() & !key_mask(idx@),
            final(self).leases() == old(self).leases().update(idx@ as int, KeyLease(None)),
    {
        let i = idx.as_usize();
        let mut lease = self.key_leases[i];
        lease.release();
        self.key_leases[i] = lease;
        self.input_state.unset(idx);
        proof {
            assert forall|j: u8| j < 16 implies (key_held(self.held(), j) <==> self.leases()[j as int].0 is Some) by {
                lemma_unset_releases_key(old(self).held(), idx@, j);
            }
        }
    }

    /// Releases every key whose lease ran out by `now`.
    pub fn expire_keys(&mut self, now: Moment)
        requires
            old(self).wf(),
        ensures
            final(self).wf(),
            forall|i: int|
                0 <= i < 16 ==> #[trigger] final(self).leases()[i] == (if old(self).leases()[i].0 matches Some(
                    at,
                ) && now.nanos >= at.nanos {
                    KeyLease(None)
                } else {
                    old(self).leases()[i]
                }),
    {
        let mut slot: usize = 0;
        while slot < 16
            invariant
                0 <= slot <= 16,
                self.wf(),
                forall|i: int|
                    0 <= i < slot ==> #[trigger] self.leases()[i] == (if old(self).leases()[i].0 matches Some(
                        at,
                    ) && now.nanos >= at.nanos {
                        KeyLease(None)
                    } else {
                        old(self).leases()[i]
                    }),
                forall|i: int| slot <= i < 16 ==> #[trigger] self.leases()[i] == old(self).leases()[i],
            decreases 16 - slot,
        {
            let mut lease = self.key_leases[slot];
            let ghost leases0 = self.leases();
            let ghost before = self.held();
            if lease.expire(now) {
                self.key_leases[slot] = lease;
                assert(self.leases() == leases0.update(slot as int, KeyLease(None)));
                let idx = keypad_key(slot as u8);
                self.input_state.unset(idx);
                proof {
                    assert forall|j: u8| j < 16 implies (key_held(self.held(), j) <==> self.leases()[j as int].0 is Some) by {
                        lemma_unset_releases_key(before, idx@, j);
                        assert(key_held(before, j) <==> leases0[j as int].0 is Some);
                    }
                }
            }
            slot = slot + 1;
        }
    }
}

/// How a terminal reports a key.
#[derive(Debug, Copy, Clone, PartialEq, Eq, Structural)]
pub enum KeyKind {
    Press,
    Repeat,
    Release,
}

/// Whether a key asks to quit: C or Q, in either case, with Control and no
/// other modifier.
pub open spec fn is_quit_key(control_only: bool, c: Option<char>) -> bool {
    control_only && (c == Some('c') || c == Some('C') || c == Some('q') || c == Some('Q'))
}

/// The keypad key a reported key is bound to.
pub open spec fn reported_keypad_key(c: Option<char>) -> Option<u8> {
    match c {
        Some(ch) => terminal_key_spec(ch),
        None => None,
    }
}

impl TerminalKeys {
    /// Handles a key the terminal reported at `now`, as the character `c` it
    /// stands for (if any) with `control_only` telling whether Control and no
    /// other modifier was held; the result says whether it asks to quit. A
    /// key bound to the keypad is held on a press or repeat and released on a
    /// release; nothing changes for a quit request or an unbound key.
    pub fn handle_key(&mut self, control_only: bool, c: Option<char>, kind: KeyKind, now: Moment) -> (quit: bool)
        requires
            old(self).wf(),
            now.nanos + SYNTHETIC_RELEASE_AFTER <= u64::MAX,
        ensures
            final(self).wf(),
            quit == is_quit_key(control_only, c),
            match reported_keypad_key(c) {
                Some(v) if !quit => match kind {
                    KeyKind::Release => {
                        &&& final(self).held() == old(self).held() & !key_mask(v)
                        &&& final(self).leases() == old(self).leases().update(v as int, KeyLease(None))
                    },
                    _ => {
                        &&& final(self).held() == old(self).held() | key_mask(v)
                        &&& final(self).leases() == old(self).leases().update(
                            v as int,
                            KeyLease(Some(Moment { nanos: (now.nanos + SYNTHETIC_RELEASE_AFTER) as u64 })),
                        )
                    },
                },
                _ => final(self).held() == old(self).held() && final(self).leases() == old(self).leases(),
            },
    {
        let ch = match c {
            Some(ch) => ch,
            None => return false,
        };
        if control_only && (ch == 'c' || ch == 'C' || ch == 'q' || ch == 'Q') {
            return true;
        }
        if let Some(idx) = map_key(ch) {
            match kind {
                KeyKind::Press | KeyKind::Repeat => self.press_key(idx, now),
                KeyKind::Release => self.release_key(idx),
            }
        }
        false
    }
}

} // verus!
