use chip8::gui::{GuiEvent, GuiInput, GuiRenderState, Keymap, SettingsOverlayState};
use chip8::gui_app::GuiApp;
use chip8::keyboard::{key_label, KeyGlyphs, KEY_A, KEY_C, KEY_DELETE, KEY_DIGIT1, KEY_DIGIT4, KEY_ESCAPE, KEY_F1, KEY_G, KEY_Q, KEY_SPACE, KEY_SUPER_LEFT, KEY_V, KEY_X, FIRST_UNLABELLED_KEY};
use chip8::keys::Action;
use chip8::renderers::PollEventActionRaw;
use chip8::timers::Moment;
use chip8::InputIndex;

fn key(i: usize) -> InputIndex {
    InputIndex::from_usize(i).unwrap()
}

fn at(nanos: u64) -> Moment {
    Moment { nanos }
}

#[test]
fn test_default_keymap() {
    let km = Keymap::default();
    assert_eq!(km.get(KEY_DIGIT1), Some(Action::GameInput(key(0))));
    assert_eq!(km.get(KEY_DIGIT4), Some(Action::GameInput(key(3))));
    assert_eq!(km.get(KEY_Q), Some(Action::GameInput(key(4))));
    assert_eq!(km.get(KEY_A), Some(Action::GameInput(key(8))));
    assert_eq!(km.get(KEY_X), Some(Action::GameInput(key(13))));
    assert_eq!(km.get(KEY_V), Some(Action::GameInput(key(15))));
    assert_eq!(km.get(KEY_DELETE), Some(Action::ReloadRom));
    assert_eq!(km.get(KEY_SPACE), Some(Action::TogglePause));
    assert_eq!(km.get(KEY_ESCAPE), None);
    assert_eq!(km.get(KEY_G), None);
    assert_eq!(km.key_for(Action::TogglePause), Some(KEY_SPACE));
    assert_eq!(km.key_for(Action::GameInput(key(14))), Some(KEY_C));
}

#[test]
fn test_remap() {
    let mut km = Keymap::default();
    // binding G to keypad key 0 frees X
    km.remap(KEY_G, Action::GameInput(key(13)));
    assert_eq!(km.get(KEY_G), Some(Action::GameInput(key(13))));
    assert_eq!(km.get(KEY_X), None);
    assert_eq!(km.key_for(Action::GameInput(key(13))), Some(KEY_G));
    // binding G to pausing takes it away from the keypad key
    km.remap(KEY_G, Action::TogglePause);
    assert_eq!(km.get(KEY_G), Some(Action::TogglePause));
    assert_eq!(km.key_for(Action::GameInput(key(13))), None);
    assert_eq!(km.get(KEY_SPACE), None);
    // Escape only unbinds
    km.remap(KEY_ESCAPE, Action::TogglePause);
    assert_eq!(km.get(KEY_G), None);
    assert_eq!(km.get(KEY_ESCAPE), None);
    assert_eq!(km.key_for(Action::TogglePause), None);
}

#[test]
fn test_from_bindings() {
    let mut list: Vec<(u64, Action)> = InputIndex::all_iter().into_iter().map(|k| (100 + k.as_usize() as u64, Action::GameInput(k))).collect();
    list.push((200, Action::ReloadRom));
    assert!(Keymap::from_bindings(&list).is_none());
    list.push((201, Action::TogglePause));
    let km = Keymap::from_bindings(&list).unwrap();
    assert_eq!(km.get(105), Some(Action::GameInput(key(5))));
    assert_eq!(km.key_for(Action::TogglePause), Some(201));
    // a key bound twice, an action bound twice, Escape bound
    let mut twice = list.clone();
    twice[1].0 = 100;
    assert!(Keymap::from_bindings(&twice).is_none());
    let mut twice = list.clone();
    twice[1].1 = Action::GameInput(key(0));
    assert!(Keymap::from_bindings(&twice).is_none());
    let mut escape = list.clone();
    escape[17].0 = KEY_ESCAPE;
    assert!(Keymap::from_bindings(&escape).is_none());
}

#[test]
fn test_key_labels() {
    assert_eq!(key_label(KEY_Q, KeyGlyphs::Other), "Q");
    assert_eq!(key_label(KEY_SPACE, KeyGlyphs::Other), "␣");
    assert_eq!(key_label(KEY_DELETE, KeyGlyphs::Other), "⌦");
    assert_eq!(key_label(KEY_F1, KeyGlyphs::Apple), "F1");
    assert_eq!(key_label(KEY_SUPER_LEFT, KeyGlyphs::Windows), "L⊞");
    assert_eq!(key_label(KEY_SUPER_LEFT, KeyGlyphs::Apple), "L⌘");
    assert_eq!(key_label(KEY_SUPER_LEFT, KeyGlyphs::Other), "L❖");
    assert_eq!(key_label(FIRST_UNLABELLED_KEY, KeyGlyphs::Other), "?");
    assert_eq!(key_label(KEY_ESCAPE, KeyGlyphs::Other), "?");
}

#[test]
fn test_game_keys_on_press_and_release() {
    let mut app = GuiApp::new();
    assert!(app.settings_overlay.is_none());
    assert!(matches!(app.render_state, GuiRenderState::Display(_)));
    assert_eq!(app.key_pressed(KEY_Q), Some(GuiEvent::KeyPressed(key(4))));
    assert_eq!(app.key_released(KEY_Q), Some(GuiEvent::KeyReleased(key(4))));
    // reload on press, pause on release
    assert_eq!(app.key_pressed(KEY_DELETE), Some(GuiEvent::ReloadRom));
    assert_eq!(app.key_released(KEY_DELETE), None);
    assert_eq!(app.key_pressed(KEY_SPACE), None);
    assert_eq!(app.key_released(KEY_SPACE), Some(GuiEvent::TogglePause));
    assert_eq!(app.key_pressed(KEY_G), None);
    assert_eq!(app.key_released(KEY_G), None);
}

#[test]
fn test_settings_page_rebinds_a_key() {
    let mut app = GuiApp::new();
    assert_eq!(app.key_pressed(KEY_ESCAPE), Some(GuiEvent::Pause));
    assert_eq!(app.settings_overlay, Some(SettingsOverlayState { remap_listening: None, escape_key_released: false }));
    // game keys do nothing while the page is open
    assert_eq!(app.key_pressed(KEY_Q), None);
    assert_eq!(app.key_released(KEY_ESCAPE), None);
    app.listen_to_rebind_for(Action::GameInput(key(0)));
    assert_eq!(app.label_for(Action::GameInput(key(0)), KeyGlyphs::Other), "1");
    // Escape does not close the page while a key is awaited
    assert_eq!(app.key_pressed(KEY_ESCAPE), None);
    assert_eq!(app.key_pressed(KEY_G), None);
    assert_eq!(app.key_released(KEY_G), None);
    assert_eq!(app.label_for(Action::GameInput(key(0)), KeyGlyphs::Other), "G");
    assert_eq!(app.keymap.get(KEY_DIGIT1), None);
    assert_eq!(app.key_pressed(KEY_ESCAPE), Some(GuiEvent::Resume));
    assert!(app.settings_overlay.is_none());
    assert_eq!(app.key_pressed(KEY_G), Some(GuiEvent::KeyPressed(key(0))));
}

#[test]
fn test_settings_page_unbinds_with_escape() {
    let mut app = GuiApp::new();
    app.key_pressed(KEY_ESCAPE);
    app.key_released(KEY_ESCAPE);
    app.listen_to_rebind_for(Action::ReloadRom);
    assert_eq!(app.key_released(KEY_ESCAPE), None);
    assert_eq!(app.label_for(Action::ReloadRom, KeyGlyphs::Other), "*");
    assert_eq!(app.key_pressed(KEY_ESCAPE), Some(GuiEvent::Resume));
    assert_eq!(app.key_pressed(KEY_DELETE), None);
    // listening needs the page open
    app.listen_to_rebind_for(Action::ReloadRom);
    assert!(app.settings_overlay.is_none());
}

#[test]
fn test_gui_input_events() {
    let mut input = GuiInput::new();
    let now = at(1_000);
    let r = input.handle_events(&[GuiEvent::KeyPressed(key(2)), GuiEvent::RequestRedraw], now);
    assert_eq!(r, PollEventActionRaw::Resume { resume_at: now, needs_redraw: true });
    assert_eq!(input.fetch_input_state().bits(), 0b100);
    let r = input.handle_events(&[GuiEvent::KeyReleased(key(2))], now);
    assert_eq!(r, PollEventActionRaw::Resume { resume_at: now, needs_redraw: false });
    assert_eq!(input.fetch_input_state().bits(), 0);
    // a toggle while running pauses
    assert_eq!(input.handle_events(&[GuiEvent::TogglePause], now), PollEventActionRaw::Pause);
    assert!(input.is_paused);
    // key events while paused report a pause again
    assert_eq!(input.handle_events(&[GuiEvent::KeyPressed(key(1))], now), PollEventActionRaw::Pause);
    // a toggle while paused resumes from now
    let later = at(5_000);
    assert_eq!(input.handle_events(&[GuiEvent::TogglePause], later), PollEventActionRaw::Resume { resume_at: later, needs_redraw: false });
    assert!(!input.is_paused);
    // two toggles cancel out
    assert_eq!(input.handle_events(&[GuiEvent::TogglePause, GuiEvent::TogglePause], later), PollEventActionRaw::Resume { resume_at: later, needs_redraw: false });
    assert!(!input.is_paused);
}

#[test]
fn test_gui_input_precedence() {
    let mut input = GuiInput::new();
    let now = at(7);
    // a reload wins over pausing, and a quit over everything
    assert_eq!(input.handle_events(&[GuiEvent::ReloadRom, GuiEvent::Pause], now), PollEventActionRaw::Reload);
    assert_eq!(input.handle_events(&[GuiEvent::Pause, GuiEvent::ReloadRom, GuiEvent::Resume], now), PollEventActionRaw::Reload);
    assert_eq!(input.handle_events(&[GuiEvent::Quit, GuiEvent::ReloadRom], now), PollEventActionRaw::Quit);
    assert_eq!(input.handle_events(&[GuiEvent::Pause], now), PollEventActionRaw::Pause);
    assert!(input.is_paused);
    assert_eq!(input.handle_events(&[GuiEvent::Resume], now), PollEventActionRaw::Resume { resume_at: now, needs_redraw: false });
    // a reload also ends a pause
    input.handle_events(&[GuiEvent::Pause], now);
    assert_eq!(input.handle_events(&[GuiEvent::ReloadRom], now), PollEventActionRaw::Reload);
    assert!(!input.is_paused);
}
