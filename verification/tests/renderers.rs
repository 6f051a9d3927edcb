use chip8::renderers::{PacedRenderer, PollEventAction, PollEventActionRaw, Renderer};
use chip8::timers::Moment;
use chip8::{Display, Fault, InputState};

struct Recorder {
    frames: usize,
    fail_next_submit: bool,
    deadlines: Vec<Option<Moment>>,
    reply: PollEventActionRaw,
    faults: Vec<Fault>,
    beeps: usize,
}

impl Recorder {
    fn new() -> Self {
        Recorder {
            frames: 0,
            fail_next_submit: false,
            deadlines: Vec::new(),
            reply: PollEventActionRaw::Quit,
            faults: Vec::new(),
            beeps: 0,
        }
    }
}

impl Renderer for Recorder {
    type Error = String;

    fn exit(self) -> Result<(), String> {
        Ok(())
    }

    fn submit_render(&mut self, _display: &Display) -> Result<(), String> {
        if self.fail_next_submit {
            self.fail_next_submit = false;
            return Err("lost".to_string());
        }
        self.frames += 1;
        Ok(())
    }

    fn show_fault(&mut self, fault: Fault) -> Result<(), String> {
        self.faults.push(fault);
        Ok(())
    }

    fn make_beep(&mut self) -> Result<(), String> {
        self.beeps += 1;
        Ok(())
    }

    fn fetch_input_state(&self) -> InputState {
        InputState::new()
    }

    fn poll_events_raw(&mut self, deadline: Option<Moment>) -> Result<PollEventActionRaw, String> {
        self.deadlines.push(deadline);
        Ok(self.reply)
    }
}

fn at(nanos: u64) -> Moment {
    Moment { nanos }
}

const FRAME_24: u64 = 41_666_666;

#[test]
fn test_frames_are_paced() {
    let display = Display::new();
    let mut paced = PacedRenderer::new(Recorder::new(), 24);
    assert!(paced.needs_redraw());
    paced.request_render(at(0), &display).unwrap();
    assert_eq!(paced.inner().frames, 1);
    assert!(!paced.needs_redraw());
    // too early: skipped, and the picture counts as out of date
    paced.request_render(at(10_000_000), &display).unwrap();
    assert_eq!(paced.inner().frames, 1);
    assert!(paced.needs_redraw());
    paced.request_render(at(FRAME_24), &display).unwrap();
    assert_eq!(paced.inner().frames, 2);
    assert!(!paced.needs_redraw());
}

#[test]
fn test_unlimited_frames() {
    let display = Display::new();
    let mut paced = PacedRenderer::new(Recorder::new(), 0);
    for t in 0..5 {
        paced.request_render(at(t), &display).unwrap();
    }
    assert_eq!(paced.inner().frames, 5);
}

#[test]
fn test_failed_submission_stays_dirty() {
    let display = Display::new();
    let mut paced = PacedRenderer::new(Recorder::new(), 24);
    paced.inner_mut().fail_next_submit = true;
    assert!(paced.request_render(at(0), &display).is_err());
    assert!(paced.needs_redraw());
    assert_eq!(paced.inner().frames, 0);
    paced.request_render(at(1), &display).unwrap();
    assert_eq!(paced.inner().frames, 1);
}

#[test]
fn test_poll_deadline() {
    let display = Display::new();
    let mut paced = PacedRenderer::new(Recorder::new(), 24);
    // out of date: wake up for the next frame at the latest
    assert_eq!(paced.poll_events(at(100), Some(at(1_000_000_000))).unwrap(), PollEventAction::Quit);
    assert_eq!(paced.inner().deadlines, vec![Some(at(100 + FRAME_24))]);
    assert_eq!(paced.poll_deadline(at(100), Some(at(50))), Some(at(50)));
    assert_eq!(paced.poll_deadline(at(100), None), Some(at(100 + FRAME_24)));
    paced.request_render(at(0), &display).unwrap();
    // up to date: only the timers' deadline counts
    assert_eq!(paced.poll_deadline(at(100), Some(at(1_000_000_000))), Some(at(1_000_000_000)));
    assert_eq!(paced.poll_deadline(at(100), None), None);
}

#[test]
fn test_raw_events() {
    let display = Display::new();
    let mut paced = PacedRenderer::new(Recorder::new(), 24);
    paced.request_render(at(0), &display).unwrap();
    paced.inner_mut().reply = PollEventActionRaw::Resume { resume_at: at(9), needs_redraw: false };
    assert_eq!(paced.poll_events(at(5), None).unwrap(), PollEventAction::Resume(at(9)));
    assert!(!paced.needs_redraw());
    paced.inner_mut().reply = PollEventActionRaw::Resume { resume_at: at(9), needs_redraw: true };
    assert_eq!(paced.poll_events(at(5), None).unwrap(), PollEventAction::Resume(at(9)));
    assert!(paced.needs_redraw());
    assert_eq!(paced.handle_raw_event(PollEventActionRaw::Reload), PollEventAction::Reload);
    assert_eq!(paced.handle_raw_event(PollEventActionRaw::Pause), PollEventAction::Pause);
    paced.force_needs_redraw();
    assert!(paced.needs_redraw());
    paced.inner_mut().show_fault(Fault::Memory).unwrap();
    paced.inner_mut().make_beep().unwrap();
    assert_eq!(paced.inner().faults, vec![Fault::Memory]);
    assert_eq!(paced.inner().beeps, 1);
    assert!(paced.exit().is_ok());
}

#[test]
fn test_fault_messages() {
    assert_eq!(Fault::Memory.message(), "memory fault");
    assert_eq!(Fault::StackOverflow.message(), "stack overflow");
    assert_eq!(Fault::StackUnderflow.message(), "stack underflow");
    assert_eq!(Fault::InvalidInputIndex.message(), "invalid input index requested");
    assert_eq!(Fault::InvalidInstruction.message(), "invalid instruction");
}
