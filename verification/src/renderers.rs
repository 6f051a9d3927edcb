use vstd::prelude::*;
use crate::Fault;
use crate::display::Display;
use crate::input::InputState;
use crate::timers::{Moment, earlier_deadline, earlier_deadline_spec};

verus! {

/// What the emulation loop does after polling the host for events.
#[derive(Debug, Copy, Clone, PartialEq, Eq, Structural)]
pub enum PollEventAction {
    /// Run again, from the given moment.
    Resume(Moment),
    Pause,
    Reload,
    Quit,
}

/// What a host reports when polled for events.
#[derive(Debug, Copy, Clone, PartialEq, Eq, Structural)]
pub enum PollEventActionRaw {
    /// Run again from `resume_at`; `needs_redraw` when the host lost the picture.
    Resume { resume_at: Moment, needs_redraw: bool },
    Reload,
    Pause,
    Quit,
}

/// A host that shows the screen, beeps and reports input and events.
pub trait Renderer: Sized {
    type Error;

    /// Whether this host keeps the records below of what it was asked and
    /// answered (hosts that say nothing make no promise).
    open spec fn obeys_host_spec() -> bool {
        false
    }

    /// The pictures the host has accepted so far, oldest first.
    open spec fn frames(&self) -> Seq<Seq<u64>> {
        Seq::empty()
    }

    /// The deadlines the host was polled with so far, oldest first.
    open spec fn polls(&self) -> Seq<Option<Moment>> {
        Seq::empty()
    }

    /// The reports the host gave when polled successfully, oldest first.
    open spec fn replies(&self) -> Seq<PollEventActionRaw> {
        Seq::empty()
    }

    /// The error the host last returned, if any.
    open spec fn last_error(&self) -> Option<Self::Error> {
        None
    }

    /// Shuts the host down.
    fn exit(self) -> Result<(), Self::Error>;

    /// Shows `display`; once accepted it is the host's latest picture.
    fn submit_render(&mut self, display: &Display) -> (r: Result<(), Self::Error>)
        ensures
            Self::obeys_host_spec() ==> (r is Ok ==> final(self).frames() == old(self).frames().push(display@)),
            Self::obeys_host_spec() ==> (r matches Err(e) ==> final(self).last_error() == Some(e)),
    ;

    /// Shows that the machine stopped with `fault`.
    fn show_fault(&mut self, fault: Fault) -> Result<(), Self::Error>;

    fn make_beep(&mut self) -> Result<(), Self::Error>;

    /// The keys held now.
    fn fetch_input_state(&self) -> InputState;

    /// Waits for events until `deadline` (forever when `None`) and reports them.
    fn poll_events_raw(&mut self, deadline: Option<Moment>) -> (r: Result<PollEventActionRaw, Self::Error>)
        ensures
            Self::obeys_host_spec() ==> final(self).polls() == old(self).polls().push(deadline),
            Self::obeys_host_spec() ==> (r matches Ok(raw) ==> final(self).replies() == old(self).replies().push(raw)),
            Self::obeys_host_spec() ==> (r matches Err(e) ==> final(self).last_error() == Some(e)),
    ;
}

/// Nanoseconds per frame at `fps` frames per second; zero (no limit) for zero.
pub open spec fn frame_time_for(fps: u32) -> u64 {
    if fps == 0 {
        0
    } else {
        (1_000_000_000int / (fps as int)) as u64
    }
}

/// Whether a frame may be drawn at `now`: none was drawn yet, frames are not
/// limited, or a frame time has passed since the last one.
pub open spec fn time_to_draw(last_draw: Option<Moment>, frame_time: u64, now: Moment) -> bool {
    match last_draw {
        None => true,
        Some(last) => frame_time == 0 || (if now.nanos > last.nanos { now.nanos - last.nanos } else { 0 })
            >= frame_time,
    }
}

/// The action for a raw host report.
pub open spec fn action_for(raw: PollEventActionRaw) -> PollEventAction {
    match raw {
        PollEventActionRaw::Resume { resume_at, .. } => PollEventAction::Resume(resume_at),
        PollEventActionRaw::Reload => PollEventAction::Reload,
        PollEventActionRaw::Pause => PollEventAction::Pause,
        PollEventActionRaw::Quit => PollEventAction::Quit,
    }
}

/// A renderer that draws at most one frame per frame time and keeps track of
/// whether the host shows an out-of-date picture.
pub struct PacedRenderer<R: Renderer> {
    renderer: R,
    target_time_per_frame: u64,
    last_draw: Option<Moment>,
    display_dirty: bool,
}

impl<R: Renderer> PacedRenderer<R> {
    pub closed spec fn frame_time(&self) -> u64 {
        self.target_time_per_frame
    }

    pub closed spec fn last_draw(&self) -> Option<Moment> {
        self.last_draw
    }

    pub closed spec fn dirty(&self) -> bool {
        self.display_dirty
    }

    /// The host.
    pub closed spec fn host(&self) -> R {
        self.renderer
    }

    /// The deadline to poll the host with: the earlier of `deadline` and, while
    /// the picture is out of date, one frame time after `now`.
    pub open spec fn poll_deadline_spec(&self, now: Moment, deadline: Option<Moment>) -> Option<Moment> {
        let re_render = if self.dirty() && now.nanos + self.frame_time() <= u64::MAX {
            Some(Moment { nanos: (now.nanos + self.frame_time()) as u64 })
        } else {
            None
        };
        earlier_deadline_spec(re_render, deadline)
    }

    /// Paces `renderer` at `fps` frames per second (no limit for zero); the
    /// first frame is due at once.
    pub fn new(renderer: R, fps: u32) -> (r: Self)
        ensures
            r.frame_time() == frame_time_for(fps),
            r.last_draw() is None,
            r.dirty(),
            r.host() == renderer,
    {
        let target_time_per_frame = if fps == 0 { 0 } else { 1_000_000_000u64 / (fps as u64) };
        Self { renderer, target_time_per_frame, last_draw: None, display_dirty: true }
    }

    /// Whether the host shows an out-of-date picture.
    pub fn needs_redraw(&self) -> (r: bool)
        ensures
            r == self.dirty(),
    {
        self.display_dirty
    }

    /// Marks the host's picture out of date.
    pub fn force_needs_redraw(&mut self)
        ensures
            final(self).dirty(),
            final(self).frame_time() == old(self).frame_time(),
            final(self).last_draw() == old(self).last_draw(),
            final(self).host() == old(self).host(),
    {
        self.display_dirty = true
    }

    /// Submits `display` to the host if a frame may be drawn at `now`, and
    /// passes on the host's error. The picture counts as out of date until a
    /// submission succeeds.
    pub fn request_render(&mut self, now: Moment, display: &Display) -> (r: Result<(), R::Error>)
        ensures
            final(self).frame_time() == old(self).frame_time(),
            !time_to_draw(old(self).last_draw(), old(self).frame_time(), now) ==> r is Ok && final(self).dirty()
                && final(self).last_draw() == old(self).last_draw() && final(self).host() == old(self).host(),
            r is Ok && time_to_draw(old(self).last_draw(), old(self).frame_time(), now) ==> !final(self).dirty()
                && final(self).last_draw() == Some(now) && (R::obeys_host_spec() ==> final(self).host().frames()
                == old(self).host().frames().push(display@)),
            r is Err ==> time_to_draw(old(self).last_draw(), old(self).frame_time(), now) && final(self).dirty()
                && final(self).last_draw() == old(self).last_draw(),
            R::obeys_host_spec() ==> (r matches Err(e) ==> final(self).host().last_error() == Some(e)),
    {
        self.display_dirty = true;
        let due = match self.last_draw {
            None => true,
            Some(last_draw) => self.target_time_per_frame == 0 || now.saturating_duration_since(last_draw)
                >= self.target_time_per_frame,
        };
        if !due {
            return Ok(());
        }
        match self.renderer.submit_render(display) {
            Ok(()) => {},
            Err(e) => return Err(e),
        }
        self.display_dirty = false;
        self.last_draw = Some(now);
        Ok(())
    }

    /// Shuts the host down.
    pub fn exit(self) -> Result<(), R::Error> {
        self.renderer.exit()
    }

    /// The deadline to poll the host with at `now`: the earlier of `deadline`
    /// and, while the picture is out of date, one frame time after `now`.
    pub fn poll_deadline(&self, now: Moment, deadline: Option<Moment>) -> (r: Option<Moment>)
        ensures
            r == self.poll_deadline_spec(now, deadline),
    {
        let re_render = if self.display_dirty {
            match now.nanos.checked_add(self.target_time_per_frame) {
                Some(n) => Some(Moment { nanos: n }),
                None => None,
            }
        } else {
            None
        };
        earlier_deadline(re_render, deadline)
    }

    /// The action for the host's report `raw`; a report that the host lost
    /// its picture marks it out of date.
    pub fn handle_raw_event(&mut self, raw: PollEventActionRaw) -> (r: PollEventAction)
        ensures
            r == action_for(raw),
            final(self).dirty() == (old(self).dirty() || raw matches PollEventActionRaw::Resume {
                needs_redraw: true,
                ..
            }),
            final(self).frame_time() == old(self).frame_time(),
            final(self).last_draw() == old(self).last_draw(),
            final(self).host() == old(self).host(),
    {
        match raw {
            PollEventActionRaw::Resume { resume_at, needs_redraw } => {
                self.display_dirty = self.display_dirty || needs_redraw;
                PollEventAction::Resume(resume_at)
            },
            PollEventActionRaw::Reload => PollEventAction::Reload,
            PollEventActionRaw::Pause => PollEventAction::Pause,
            PollEventActionRaw::Quit => PollEventAction::Quit,
        }
    }

    /// Polls the host until the earlier of `deadline` and, while the picture
    /// is out of date, the next frame; then acts on what it reports.
    pub fn poll_events(&mut self, now: Moment, deadline: Option<Moment>) -> (r: Result<PollEventAction, R::Error>)
        ensures
            final(self).frame_time() == old(self).frame_time(),
            final(self).last_draw() == old(self).last_draw(),
            old(self).dirty() ==> final(self).dirty(),
            r is Err ==> final(self).dirty() == old(self).dirty(),
            r matches Ok(a) && !(a is Resume) ==> final(self).dirty() == old(self).dirty(),
            R::obeys_host_spec() ==> final(self).host().polls() == old(self).host().polls().push(
                old(self).poll_deadline_spec(now, deadline),
            ),
            R::obeys_host_spec() ==> (r matches Ok(a) ==> ({
                let raw = final(self).host().replies().last();
                &&& final(self).host().replies() == old(self).host().replies().push(raw)
                &&& a == action_for(raw)
                &&& final(self).dirty() == (old(self).dirty() || raw matches PollEventActionRaw::Resume {
                    needs_redraw: true,
                    ..
                })
            })),
            R::obeys_host_spec() ==> (r matches Err(e) ==> final(self).host().last_error() == Some(e)),
    {
        let deadline = self.poll_deadline(now, deadline);
        let raw = match self.renderer.poll_events_raw(deadline) {
            Ok(raw) => raw,
            Err(e) => return Err(e),
        };
        Ok(self.handle_raw_event(raw))
    }

    /// The host.
    pub fn inner(&self) -> (r: &R)
        ensures
            *r == self.host(),
    {
        &self.renderer
    }

    /// The host, writable.
    pub fn inner_mut(&mut self) -> (r: &mut R)
        ensures
            *r == old(self).host(),
            final(self).host() == *final(r),
            final(self).frame_time() == old(self).frame_time(),
            final(self).last_draw() == old(self).last_draw(),
            final(self).dirty() == old(self).dirty(),
    {
        &mut self.renderer
    }
}

} // verus!
