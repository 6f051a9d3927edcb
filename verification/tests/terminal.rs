use chip8::keys::{map_key, KeyKind, KeyLease, TerminalKeys, SYNTHETIC_RELEASE_AFTER};
use chip8::timers::Moment;
use chip8::tui::{centered_origin, changed_runs, usable_terminal_size, RenderMetadata, TerminalCanvas};
use chip8::Display;

fn at(nanos: u64) -> Moment {
    Moment { nanos }
}

#[test]
fn test_terminal_key_layout() {
    let pairs = [
        ('1', 0), ('2', 1), ('3', 2), ('4', 3),
        ('q', 4), ('W', 5), ('e', 6), ('R', 7),
        ('a', 8), ('s', 9), ('D', 10), ('f', 11),
        ('z', 12), ('X', 13), ('c', 14), ('V', 15),
    ];
    for (c, i) in pairs {
        assert_eq!(map_key(c).map(|k| k.as_usize()), Some(i), "{c}");
    }
    assert_eq!(map_key('x').unwrap().as_char(), '0');
    assert!(map_key('5').is_none());
    assert!(map_key('g').is_none());
    assert!(map_key(' ').is_none());
}

#[test]
fn test_key_lease() {
    let mut lease = KeyLease::up();
    assert!(!lease.expire(at(0)));
    lease.press(at(1_000));
    assert_eq!(lease, KeyLease(Some(at(1_000 + SYNTHETIC_RELEASE_AFTER))));
    assert!(!lease.expire(at(1_000 + SYNTHETIC_RELEASE_AFTER - 1)));
    assert!(lease.expire(at(1_000 + SYNTHETIC_RELEASE_AFTER)));
    assert_eq!(lease, KeyLease::up());
    lease.press(at(0));
    lease.release();
    assert_eq!(lease, KeyLease(None));
}

#[test]
fn test_terminal_keys_press_release_and_expire() {
    let mut keys = TerminalKeys::new();
    assert!(!keys.handle_key(false, Some('q'), KeyKind::Press, at(0)));
    assert_eq!(keys.fetch_input_state().bits(), 1 << 4);
    assert!(!keys.handle_key(false, Some('f'), KeyKind::Repeat, at(50_000_000)));
    assert_eq!(keys.fetch_input_state().bits(), (1 << 4) | (1 << 11));
    assert!(!keys.handle_key(false, Some('F'), KeyKind::Release, at(60_000_000)));
    assert_eq!(keys.fetch_input_state().bits(), 1 << 4);
    // unbound keys change nothing
    assert!(!keys.handle_key(false, Some('p'), KeyKind::Press, at(60_000_000)));
    assert!(!keys.handle_key(false, None, KeyKind::Press, at(60_000_000)));
    assert_eq!(keys.fetch_input_state().bits(), 1 << 4);
    // the lease of `q` runs out 100 ms after its press
    keys.expire_keys(at(99_999_999));
    assert_eq!(keys.fetch_input_state().bits(), 1 << 4);
    keys.expire_keys(at(100_000_000));
    assert_eq!(keys.fetch_input_state().bits(), 0);
    keys.press_key(map_key('1').unwrap(), at(0));
    keys.release_key(map_key('1').unwrap());
    assert_eq!(keys.fetch_input_state().bits(), 0);
}

#[test]
fn test_quit_keys() {
    let mut keys = TerminalKeys::new();
    for c in ['c', 'C', 'q', 'Q'] {
        assert!(keys.handle_key(true, Some(c), KeyKind::Press, at(0)));
    }
    assert_eq!(keys.fetch_input_state().bits(), 0);
    assert!(!keys.handle_key(true, Some('x'), KeyKind::Press, at(0)));
    assert_eq!(keys.fetch_input_state().bits(), 1 << 13);
}

#[test]
fn test_layout_in_terminal() {
    let m = RenderMetadata::for_terminal((80, 24));
    assert_eq!((m.pixel, m.out_w, m.out_h, m.draw_h_cells, m.origin_x, m.origin_y), (1, 64, 32, 16, 8, 4));
    let m = RenderMetadata::for_terminal((200, 100));
    assert_eq!((m.pixel, m.out_w, m.out_h, m.draw_h_cells, m.origin_x, m.origin_y), (3, 192, 96, 48, 4, 26));
    assert_eq!((m.terminal_w, m.terminal_h), (200, 100));
    // too small: drawn at scale 1 from the corner
    let m = RenderMetadata::for_terminal((10, 5));
    assert_eq!((m.pixel, m.out_w, m.out_h, m.draw_h_cells, m.origin_x, m.origin_y), (1, 64, 32, 16, 0, 0));
    assert_eq!(usable_terminal_size((0, 0)), (64, 32));
    assert_eq!(TerminalCanvas::new((0, 0)).terminal_size, (64, 32));
    assert_eq!(usable_terminal_size((0, 7)), (0, 7));
    assert_eq!(usable_terminal_size((80, 24)), (80, 24));
    assert_eq!(centered_origin(80, 20), 30);
    assert_eq!(centered_origin(5, 20), 0);
}

#[test]
fn test_changed_runs() {
    let meta = RenderMetadata::for_terminal((64, 16));
    let blank = Display::new();
    // without a previous picture every column is drawn
    assert_eq!(changed_runs(&blank, None, &meta, 0), vec![(0, 64)]);
    assert_eq!(changed_runs(&blank, Some(&blank), &meta, 0), Vec::<(u16, u16)>::new());
    let mut display = Display::new();
    // pixels 2..=4 of row 1 and pixel 10 of row 0 lit
    display.as_board_mut()[1] = 0b111 << (63 - 4);
    display.as_board_mut()[0] = 1 << (63 - 10);
    assert_eq!(changed_runs(&display, Some(&blank), &meta, 0), vec![(2, 5), (10, 11)]);
    assert_eq!(changed_runs(&display, Some(&blank), &meta, 1), Vec::<(u16, u16)>::new());
    display.as_board_mut()[3] = 1;
    assert_eq!(changed_runs(&display, Some(&blank), &meta, 1), vec![(63, 64)]);
}

#[test]
fn test_canvas_remembers_the_picture() {
    let meta = RenderMetadata::for_terminal((80, 24));
    let mut canvas = TerminalCanvas::new((80, 24));
    assert_eq!(canvas.layout(), meta);
    // the first frame clears everything
    assert!(canvas.begin_frame(meta));
    assert!(canvas.comparison(true).is_none());
    let mut display = Display::new();
    display.as_board_mut()[0] = 1;
    canvas.finish_frame(meta, &display);
    // the same layout compares against the last picture
    assert!(!canvas.begin_frame(meta));
    assert_eq!(canvas.comparison(false).map(|d| *d.as_board()), Some(*display.as_board()));
    // a new layout clears again
    assert!(canvas.resize(200, 100));
    assert_eq!(canvas.terminal_size, (200, 100));
    let bigger = canvas.layout();
    assert_eq!(bigger, RenderMetadata::for_terminal((200, 100)));
    assert!(canvas.begin_frame(bigger));
    assert!(canvas.comparison(true).is_none());
}
