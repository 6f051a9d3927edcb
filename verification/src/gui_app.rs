use vstd::prelude::*;
use crate::display::Display;
use crate::gui::{GuiEvent, GuiRenderState, Keymap, SettingsOverlayState, default_slot, unbind};
use crate::keyboard::{KEY_ESCAPE, KeyGlyphs, key_label, key_label_spec};
use crate::keys::{Action, action_slot};

verus! {

/// The overlay after `key` is pressed, and the event the window reports.
/// Escape opens the settings page (pausing the emulation) or closes it
/// (resuming it), unless a key is about to be bound; other keys only count
/// while the page is closed: a keypad key is pressed, and the reload key
/// reloads on its press.
pub open spec fn key_pressed_spec(overlay: Option<SettingsOverlayState>, bindings: Map<u64, Action>, key: u64) -> (Option<SettingsOverlayState>, Option<GuiEvent>) {
    if key == KEY_ESCAPE {
        match overlay {
            Some(o) => if o.remap_listening is Some {
                (overlay, None)
            } else {
                (None, Some(GuiEvent::Resume))
            },
            None => (Some(SettingsOverlayState { remap_listening: None, escape_key_released: false }), Some(GuiEvent::Pause)),
        }
    } else if overlay is None && bindings.contains_key(key) {
        match bindings[key] {
            Action::GameInput(i) => (overlay, Some(GuiEvent::KeyPressed(i))),
            Action::ReloadRom => (overlay, Some(GuiEvent::ReloadRom)),
            Action::TogglePause => (overlay, None),
        }
    } else {
        (overlay, None)
    }
}

/// The overlay and the bindings after `key` is released, and the event the
/// window reports. On the settings page, the first release of Escape only
/// ends the press that opened the page; otherwise a release binds the key to
/// the action waiting for one (Escape unbinds it). With the page closed, a
/// keypad key is released, and the pause key toggles pausing on its release.
pub open spec fn key_released_spec(overlay: Option<SettingsOverlayState>, bindings: Map<u64, Action>, key: u64) -> (Option<SettingsOverlayState>, Map<u64, Action>, Option<GuiEvent>) {
    match overlay {
        Some(o) => if key == KEY_ESCAPE && !o.escape_key_released {
            (Some(SettingsOverlayState { escape_key_released: true, ..o }), bindings, None)
        } else {
            match o.remap_listening {
                Some(a) => (
                    Some(SettingsOverlayState { remap_listening: None, ..o }),
                    if key == KEY_ESCAPE {
                        unbind(bindings, a)
                    } else {
                        unbind(bindings, a).insert(key, a)
                    },
                    None,
                ),
                None => (overlay, bindings, None),
            }
        },
        None => if bindings.contains_key(key) {
            match bindings[key] {
                Action::GameInput(i) => (overlay, bindings, Some(GuiEvent::KeyReleased(i))),
                Action::ReloadRom => (overlay, bindings, None),
                Action::TogglePause => (overlay, bindings, Some(GuiEvent::TogglePause)),
            }
        } else {
            (overlay, bindings, None)
        },
    }
}

/// The state of the emulator window apart from its widgets: what it shows,
/// its settings page, and which keys trigger what.
pub struct GuiApp {
    pub render_state: GuiRenderState,
    pub settings_overlay: Option<SettingsOverlayState>,
    pub keymap: Keymap,
}

impl GuiApp {
    /// A blank screen, the settings page closed and the default keymap.
    pub fn new() -> (r: Self)
        ensures
            r.settings_overlay is None,
            r.render_state matches GuiRenderState::Display(d) && d@ == Seq::new(32, |i: int| 0u64),
            forall|k: u64| #[trigger] r.keymap.bindings().contains_key(k) == default_slot(k) is Some,
            forall|k: u64| #[trigger] r.keymap.bindings().contains_key(k) ==> action_slot(r.keymap.bindings()[k]) == default_slot(k)->0,
    {
        let d = Display::new();
        GuiApp { render_state: GuiRenderState::Display(d), settings_overlay: None, keymap: Keymap::default() }
    }

    /// Handles a key press; the result is the event to report, if any.
    pub fn key_pressed(&mut self, key: u64) -> (r: Option<GuiEvent>)
        ensures
            final(self).keymap == old(self).keymap,
            (final(self).settings_overlay, r) == key_pressed_spec(
                old(self).settings_overlay,
                old(self).keymap.bindings(),
                key,
            ),
    {
        if key == KEY_ESCAPE {
            match self.settings_overlay {
                Some(overlay) => {
                    if overlay.remap_listening.is_some() {
                        None
                    } else {
                        self.settings_overlay = None;
                        Some(GuiEvent::Resume)
                    }
                },
                None => {
                    self.settings_overlay = Some(
                        SettingsOverlayState { remap_listening: None, escape_key_released: false },
                    );
                    Some(GuiEvent::Pause)
                },
            }
        } else if self.settings_overlay.is_none() {
            match self.keymap.get(key) {
                Some(Action::GameInput(idx)) => Some(GuiEvent::KeyPressed(idx)),
                Some(Action::ReloadRom) => Some(GuiEvent::ReloadRom),
                Some(Action::TogglePause) => None,
                None => None,
            }
        } else {
            None
        }
    }

    /// Handles a key release; the result is the event to report, if any.
    pub fn key_released(&mut self, key: u64) -> (r: Option<GuiEvent>)
        ensures
            (final(self).settings_overlay, final(self).keymap.bindings(), r) == key_released_spec(
                old(self).settings_overlay,
                old(self).keymap.bindings(),
                key,
            ),
    {
        match self.settings_overlay {
            Some(overlay) => {
                if key == KEY_ESCAPE && !overlay.escape_key_released {
                    self.settings_overlay = Some(
                        SettingsOverlayState { remap_listening: overlay.remap_listening, escape_key_released: true },
                    );
                } else if let Some(listening) = overlay.remap_listening {
                    self.settings_overlay = Some(
                        SettingsOverlayState { remap_listening: None, escape_key_released: overlay.escape_key_released },
                    );
                    self.keymap.remap(key, listening);
                }
                None
            },
            None => match self.keymap.get(key) {
                Some(Action::GameInput(idx)) => Some(GuiEvent::KeyReleased(idx)),
                Some(Action::ReloadRom) => None,
                Some(Action::TogglePause) => Some(GuiEvent::TogglePause),
                None => None,
            },
        }
    }

    /// The settings page waits for a key to bind to `action` (nothing
    /// happens while the page is closed).
    pub fn listen_to_rebind_for(&mut self, action: Action)
        ensures
            final(self).keymap == old(self).keymap,
            final(self).settings_overlay == (match old(self).settings_overlay {
                Some(o) => Some(SettingsOverlayState { remap_listening: Some(action), ..o }),
                None => None,
            }),
    {
        if let Some(overlay) = self.settings_overlay {
            self.settings_overlay = Some(
                SettingsOverlayState { remap_listening: Some(action), escape_key_released: overlay.escape_key_released },
            );
        }
    }

    /// The label of the key bound to `action`, `*` when none is.
    pub fn label_for(&self, action: Action, glyphs: KeyGlyphs) -> (r: &'static str)
        ensures
            r@ == (match self.keymap.keys()[action_slot(action)] {
                Some(k) => key_label_spec(k, glyphs)@,
                None => "*"@,
            }),
    {
        match self.keymap.key_for(action) {
            Some(k) => key_label(k, glyphs),
            None => "*",
        }
    }
}

/// Pressing Escape on the game opens the settings page and pauses; after
/// the press is released, pressing Escape again closes the page and resumes,
/// and the keymap is unchanged throughout.
pub proof fn lemma_settings_page_round_trip(bindings: Map<u64, Action>)
    ensures
        ({
            let (o1, e1) = key_pressed_spec(None, bindings, KEY_ESCAPE);
            let (o2, m2, e2) = key_released_spec(o1, bindings, KEY_ESCAPE);
            let (o3, e3) = key_pressed_spec(o2, m2, KEY_ESCAPE);
            &&& e1 == Some(GuiEvent::Pause)
            &&& o1 is Some
            &&& e2 is None
            &&& m2 == bindings
            &&& e3 == Some(GuiEvent::Resume)
            &&& o3 is None
        }),
{
}

/// On the settings page, once the Escape press that opened it is released,
/// choosing a keypad key and then releasing key `k` binds `k` to it: after
/// the page is closed, pressing `k` presses that keypad key.
pub proof fn lemma_rebound_key_presses(o: SettingsOverlayState, bindings: Map<u64, Action>, i: crate::input::InputIndex, k: u64)
    requires
        o.escape_key_released,
        k != KEY_ESCAPE,
    ensures
        ({
            let listening = SettingsOverlayState { remap_listening: Some(Action::GameInput(i)), ..o };
            let (o1, m1, e1) = key_released_spec(Some(listening), bindings, k);
            let (o2, e2) = key_pressed_spec(o1, m1, KEY_ESCAPE);
            let (o3, e3) = key_pressed_spec(o2, m1, k);
            &&& e1 is None
            &&& e2 == Some(GuiEvent::Resume)
            &&& e3 == Some(GuiEvent::KeyPressed(i))
        }),
{
}

} // verus!
