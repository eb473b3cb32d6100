use vstd::prelude::*;
use crate::filter::{FilterType, filter_for_key};
use crate::geometry::{get_new_size, fitted_size};

verus! {

/// Strength is counted in half steps: 2 stands for 1.0, the lowest allowed.
pub const MIN_STRENGTH_HALVES: u32 = 2;

/// Strength at startup, 2.0.
pub const DEFAULT_STRENGTH_HALVES: u32 = 4;

/// What the scheduler decided for the frame at hand.
#[derive(Clone, Copy, Debug, PartialEq, Eq, Structural)]
pub enum Pace {
    /// Playback is behind: the frame was decoded and is dropped unrendered.
    CatchUp,
    /// Nothing changed since the last render: draw nothing.
    Unchanged,
    /// Resample and draw the frame now.
    Render,
}

/// The scheduler's state, as values.
pub struct PlaybackModel {
    pub filter: FilterType,
    pub strength_halves: u32,
    pub paused: bool,
    pub frame: u64,
    pub anchor: u64,
    pub interval: u64,
    pub skipped: bool,
    pub redraw: bool,
    pub quit: bool,
    pub term: (u16, u16),
}

/// Playback state: the chosen filter and strength, pause, the terminal size,
/// and the pacing clock (the logical frame index, the instant it counts from
/// and the fixed frame interval, in milliseconds).
pub struct PlaybackState {
    filter: FilterType,
    strength_halves: u32,
    paused: bool,
    frame: u64,
    anchor: u64,
    interval: u64,
    skipped: bool,
    redraw: bool,
    quit: bool,
    term: (u16, u16),
}

impl View for PlaybackState {
    type V = PlaybackModel;

    closed spec fn view(&self) -> PlaybackModel {
        PlaybackModel {
            filter: self.filter,
            strength_halves: self.strength_halves,
            paused: self.paused,
            frame: self.frame,
            anchor: self.anchor,
            interval: self.interval,
            skipped: self.skipped,
            redraw: self.redraw,
            quit: self.quit,
            term: self.term,
        }
    }
}

impl PlaybackModel {
    /// The frame interval is a whole positive number of milliseconds, at most
    /// a second, and strength never drops below 1.0.
    pub open spec fn wf(self) -> bool {
        &&& 1 <= self.interval <= 1000
        &&& self.strength_halves >= MIN_STRENGTH_HALVES
    }
}

/// Milliseconds from `anchor` to `now`; none before the anchor.
pub open spec fn elapsed(anchor: u64, now: u64) -> int {
    if now >= anchor {
        now - anchor
    } else {
        0
    }
}

/// The frame that the wall clock says should be showing at `now`.
pub open spec fn expected_frame(m: PlaybackModel, now: u64) -> int {
    elapsed(m.anchor, now) / (m.interval as int)
}

/// The frame interval for a frame rate, when the rate gives a positive one.
pub open spec fn interval_for_rate(frame_rate: u16) -> Option<u64> {
    if 1 <= frame_rate <= 1000 {
        Some((1000int / (frame_rate as int)) as u64)
    } else {
        None
    }
}

/// The state at startup.
pub open spec fn initial_model(interval: u64, term: (u16, u16), now: u64) -> PlaybackModel {
    PlaybackModel {
        filter: FilterType::Gaussian,
        strength_halves: DEFAULT_STRENGTH_HALVES,
        paused: false,
        frame: 0,
        anchor: now,
        interval,
        skipped: true,
        redraw: false,
        quit: false,
        term,
    }
}

/// At the start of a tick a redraw is pending while playing (a new frame is
/// coming), and stays pending if an earlier tick asked for one and has not
/// drawn yet.
pub open spec fn tick_start(m: PlaybackModel) -> PlaybackModel {
    PlaybackModel { redraw: m.redraw || !m.paused, ..m }
}

/// The effect of the terminal becoming `width` x `height` cells.
pub open spec fn resize_step(m: PlaybackModel, width: u16, height: u16) -> PlaybackModel {
    PlaybackModel { term: (width, height), redraw: true, ..m }
}

/// The effect of a key press at `now`.
pub open spec fn key_step(m: PlaybackModel, c: char, now: u64) -> PlaybackModel {
    if c == ' ' {
        if m.paused {
            PlaybackModel { paused: false, frame: 0, anchor: now, redraw: true, ..m }
        } else {
            PlaybackModel { paused: true, redraw: true, ..m }
        }
    } else if c == 'q' {
        PlaybackModel { quit: true, ..m }
    } else if filter_for_key(c) is Some {
        PlaybackModel { filter: filter_for_key(c)->Some_0, redraw: true, ..m }
    } else if c == '[' {
        PlaybackModel {
            strength_halves: if m.strength_halves > MIN_STRENGTH_HALVES {
                (m.strength_halves - 1) as u32
            } else {
                MIN_STRENGTH_HALVES
            },
            redraw: true,
            ..m
        }
    } else if c == ']' {
        PlaybackModel {
            strength_halves: if m.strength_halves < u32::MAX {
                (m.strength_halves + 1) as u32
            } else {
                u32::MAX
            },
            redraw: true,
            ..m
        }
    } else {
        m
    }
}

/// The decision for the frame at hand at `now`. Only while playing is a
/// lagging frame dropped as a tick of its own: a paused picture has no new
/// frames to drop, so its index just moves up to one behind the clock (see
/// `pace_step`) and the tick goes on to decide whether to draw.
pub open spec fn pace_action(m: PlaybackModel, now: u64) -> Pace {
    if !m.paused && m.frame + 1 < expected_frame(m, now) {
        Pace::CatchUp
    } else if !m.redraw && !m.skipped {
        Pace::Unchanged
    } else {
        Pace::Render
    }
}

/// The state after the decision at `now`: a dropped frame advances the index
/// by one and marks the drop; a paused index more than one frame behind the
/// clock moves to one behind it, with no drop marked.
pub open spec fn pace_step(m: PlaybackModel, now: u64) -> PlaybackModel {
    if pace_action(m, now) == Pace::CatchUp {
        PlaybackModel { frame: (m.frame + 1) as u64, skipped: true, ..m }
    } else if m.frame + 1 < expected_frame(m, now) {
        PlaybackModel { frame: (expected_frame(m, now) - 1) as u64, ..m }
    } else {
        m
    }
}

/// How long to wait after a render finished at `now`: the time by which the
/// logical frame is ahead of the clock, in whole frames (saturating).
pub open spec fn sleep_after_render(m: PlaybackModel, now: u64) -> int {
    if m.frame > expected_frame(m, now) {
        let d = m.interval * (m.frame - expected_frame(m, now));
        if d <= u64::MAX { d } else { u64::MAX as int }
    } else {
        0
    }
}

/// The state once a rendered frame has been shown.
pub open spec fn render_step(m: PlaybackModel) -> PlaybackModel {
    PlaybackModel {
        frame: if m.frame < u64::MAX { (m.frame + 1) as u64 } else { m.frame },
        skipped: false,
        redraw: false,
        ..m
    }
}

/// The state after `k` pacing decisions at the same instant.
pub open spec fn pace_steps(m: PlaybackModel, now: u64, k: nat) -> PlaybackModel
    decreases k,
{
    if k == 0 {
        m
    } else {
        pace_step(pace_steps(m, now, (k - 1) as nat), now)
    }
}

/// A tick with no key press, no resize and no frame read: open the tick,
/// decide, and close the render if one was made.
pub open spec fn quiet_tick(m: PlaybackModel, now: u64) -> PlaybackModel {
    let s = tick_start(m);
    if pace_action(s, now) == Pace::Render {
        render_step(pace_step(s, now))
    } else {
        pace_step(s, now)
    }
}

/// Whenever the scheduler draws or idles, playing or paused, the logical
/// frame it goes on with lags the clock by at most one frame; when it drops a
/// frame the lag shrinks by exactly one; the index never moves back; and a
/// sleep is never negative.
pub proof fn lemma_pacing_lag(m: PlaybackModel, now: u64)
    requires
        m.wf(),
    ensures
        pace_action(m, now) != Pace::CatchUp ==> pace_step(m, now).frame + 1 >= expected_frame(
            m,
            now,
        ),
        pace_action(m, now) != Pace::CatchUp ==> pace_step(m, now).skipped == m.skipped,
        pace_step(m, now).frame >= m.frame,
        m.paused ==> pace_action(m, now) != Pace::CatchUp,
        pace_action(m, now) == Pace::CatchUp ==> pace_step(m, now).frame == m.frame + 1
            && expected_frame(pace_step(m, now), now) == expected_frame(m, now),
        sleep_after_render(m, now) >= 0,
        m.frame <= expected_frame(m, now) ==> sleep_after_render(m, now) == 0,
{
}

/// After a render, below the machine limits of the index and of the sleep,
/// the scheduler sleeps exactly the frames it is ahead of the clock times the
/// frame interval (none if it is not ahead), then the index moves on by one
/// and no drop is marked.
pub proof fn lemma_sleep_after_render(m: PlaybackModel, now: u64)
    requires
        m.wf(),
        m.frame < u64::MAX,
        m.frame > expected_frame(m, now) ==> m.interval * (m.frame - expected_frame(m, now))
            <= u64::MAX,
    ensures
        sleep_after_render(m, now) == if m.frame > expected_frame(m, now) {
            m.interval * (m.frame - expected_frame(m, now))
        } else {
            0
        },
        render_step(m).frame == m.frame + 1,
        !render_step(m).skipped,
{
}

proof fn lemma_pace_steps_advance(m: PlaybackModel, now: u64, j: nat)
    requires
        m.wf(),
        !m.paused,
        m.frame + j + 1 <= expected_frame(m, now),
    ensures
        pace_steps(m, now, j).frame == m.frame + j,
        pace_steps(m, now, j).anchor == m.anchor,
        pace_steps(m, now, j).interval == m.interval,
        pace_steps(m, now, j).paused == m.paused,
        pace_steps(m, now, j).wf(),
    decreases j,
{
    if j > 0 {
        lemma_pace_steps_advance(m, now, (j - 1) as nat);
    }
}

/// However far behind the clock playing falls, dropping frames brings it
/// back: after `expected - frame - 1` dropped frames the logical frame is one
/// behind the clock, and the next decision is no longer a drop.
pub proof fn lemma_catch_up_bounded(m: PlaybackModel, now: u64)
    requires
        m.wf(),
        !m.paused,
        m.frame + 1 < expected_frame(m, now),
    ensures
        ({
            let k = (expected_frame(m, now) - m.frame - 1) as nat;
            &&& pace_steps(m, now, k).frame + 1 == expected_frame(m, now)
            &&& pace_action(pace_steps(m, now, k), now) != Pace::CatchUp
        }),
{
    let k = (expected_frame(m, now) - m.frame - 1) as nat;
    lemma_pace_steps_advance(m, now, k);
}

/// While paused, with no key press and no resize, the second of two ticks
/// draws nothing.
pub proof fn lemma_paused_quiet_ticks_do_not_redraw(m: PlaybackModel, t1: u64, t2: u64)
    requires
        m.wf(),
        m.paused,
    ensures
        pace_action(tick_start(quiet_tick(m, t1)), t2) != Pace::Render,
{
}

/// A pending redraw (a resize, a new filter or strength, a pause or resume)
/// survives to the next tick, even one whose frame read failed and paused
/// playback, and that tick draws unless it drops a frame.
pub proof fn lemma_redraw_is_not_lost(m: PlaybackModel, width: u16, height: u16, now: u64)
    requires
        m.wf(),
    ensures
        pace_action(tick_start(resize_step(m, width, height)), now) != Pace::Unchanged,
        pace_action(tick_start(PlaybackModel { paused: true, ..resize_step(m, width, height) }), now)
            == Pace::Render,
        m.redraw ==> pace_action(tick_start(m), now) != Pace::Unchanged,
        tick_start(resize_step(m, width, height)).term == (width, height),
{
}

/// Pausing and then resuming restarts pacing: the logical frame is 0, the
/// clock counts from the instant of resuming, and the clock expects frame 0
/// at that instant.
pub proof fn lemma_pause_resume_restarts(m: PlaybackModel, t1: u64, t2: u64)
    requires
        m.wf(),
        !m.paused,
    ensures
        ({
            let r = key_step(key_step(m, ' ', t1), ' ', t2);
            &&& !r.paused
            &&& r.frame == 0
            &&& r.anchor == t2
            &&& expected_frame(r, t2) == 0
        }),
{
}

impl PlaybackState {
    /// Starts playing at `now_ms` with the Gaussian filter at strength 2.0.
    /// The frame interval is `1000 / frame_rate` milliseconds; a rate of 0, or
    /// one above 1000 (whose interval would be 0), gives `None`.
    pub fn new(frame_rate: u16, term_size: (u16, u16), now_ms: u64) -> (r: Option<PlaybackState>)
        ensures
            r is None <==> interval_for_rate(frame_rate) is None,
            r matches Some(s) ==> s@ == initial_model(
                interval_for_rate(frame_rate)->Some_0,
                term_size,
                now_ms,
            ),
            r matches Some(s) ==> s@.wf(),
    {
        if frame_rate == 0 || frame_rate > 1000 {
            return None;
        }
        let interval: u64 = (1000 / frame_rate) as u64;
        assert(1 <= 1000int / (frame_rate as int) <= 1000) by (nonlinear_arith)
            requires
                1 <= frame_rate <= 1000,
        ;
        Some(
            PlaybackState {
                filter: FilterType::Gaussian,
                strength_halves: DEFAULT_STRENGTH_HALVES,
                paused: false,
                frame: 0,
                anchor: now_ms,
                interval,
                skipped: true,
                redraw: false,
                quit: false,
                term: term_size,
            },
        )
    }

    /// Opens a tick: a redraw is pending while playing, or if one was asked
    /// for and not yet drawn.
    pub fn begin_tick(&mut self)
        ensures
            final(self)@ == tick_start(old(self)@),
    {
        self.redraw = self.redraw || !self.paused;
    }

    /// Applies a key press at `now_ms`: space toggles pause (resuming restarts
    /// the clock at frame 0), `q` quits, `1`-`5` pick a filter, `[` and `]`
    /// lower and raise strength by 0.5, never below 1.0.
    pub fn handle_key(&mut self, c: char, now_ms: u64)
        requires
            old(self)@.wf(),
        ensures
            final(self)@ == key_step(old(self)@, c, now_ms),
            final(self)@.wf(),
    {
        if c == ' ' {
            self.paused = !self.paused;
            self.redraw = true;
            if !self.paused {
                self.frame = 0;
                self.anchor = now_ms;
            }
        } else if c == 'q' {
            self.quit = true;
        } else if let Some(f) = FilterType::from_key(c) {
            self.filter = f;
            self.redraw = true;
        } else if c == '[' {
            if self.strength_halves > MIN_STRENGTH_HALVES {
                self.strength_halves = self.strength_halves - 1;
            } else {
                self.strength_halves = MIN_STRENGTH_HALVES;
            }
            self.redraw = true;
        } else if c == ']' {
            self.strength_halves = self.strength_halves.saturating_add(1);
            self.redraw = true;
        }
    }

    /// The terminal now has `width` x `height` cells; the frame is drawn again.
    pub fn handle_resize(&mut self, width: u16, height: u16)
        ensures
            final(self)@ == resize_step(old(self)@, width, height),
    {
        self.term = (width, height);
        self.redraw = true;
    }

    /// The frame source ran dry: playback pauses, and the process goes on.
    pub fn end_of_stream(&mut self)
        ensures
            final(self)@ == (PlaybackModel { paused: true, ..old(self)@ }),
    {
        self.paused = true;
    }

    /// The frame index that the clock expects at `now_ms`.
    pub fn expected_frame(&self, now_ms: u64) -> (r: u64)
        requires
            self@.wf(),
        ensures
            r == expected_frame(self@, now_ms),
    {
        let el: u64 = if now_ms >= self.anchor {
            now_ms - self.anchor
        } else {
            0
        };
        el / self.interval
    }

    /// Decides what to do with the frame at hand at `now_ms`. When paused and
    /// behind by more than one frame it moves the index to one behind the
    /// clock. When playing and behind by more than one frame it drops the frame and advances the index; when
    /// nothing changed since the last render it draws nothing; else it renders.
    pub fn pace(&mut self, now_ms: u64) -> (r: Pace)
        requires
            old(self)@.wf(),
        ensures
            r == pace_action(old(self)@, now_ms),
            final(self)@ == pace_step(old(self)@, now_ms),
            final(self)@.wf(),
    {
        let expected = self.expected_frame(now_ms);
        if (self.frame as u128) + 1 < expected as u128 {
            if !self.paused {
                self.frame = self.frame + 1;
                self.skipped = true;
                return Pace::CatchUp;
            }
            self.frame = expected - 1;
        }
        if !self.redraw && !self.skipped {
            Pace::Unchanged
        } else {
            Pace::Render
        }
    }

    /// Closes a render that ended at `now_ms`: returns how many milliseconds
    /// to sleep so the next frame is not early, advances the frame index and
    /// clears the pending redraw.
    pub fn finish_render(&mut self, now_ms: u64) -> (r: u64)
        requires
            old(self)@.wf(),
        ensures
            r == sleep_after_render(old(self)@, now_ms),
            final(self)@ == render_step(old(self)@),
            final(self)@.wf(),
    {
        let expected = self.expected_frame(now_ms);
        let sleep: u64 = if self.frame > expected {
            let ahead: u128 = (self.frame - expected) as u128;
            assert(self.interval as u128 * ahead <= 1000 * 0xffff_ffff_ffff_ffffu128)
                by (nonlinear_arith)
                requires
                    self.interval <= 1000,
                    ahead <= 0xffff_ffff_ffff_ffffu128,
            ;
            let d: u128 = self.interval as u128 * ahead;
            if d <= u64::MAX as u128 {
                d as u64
            } else {
                u64::MAX
            }
        } else {
            0
        };
        if self.frame < u64::MAX {
            self.frame = self.frame + 1;
        }
        self.skipped = false;
        self.redraw = false;
        sleep
    }

    /// The size to resample a `source` picture to for the current terminal.
    pub fn output_size(&self, source: (usize, usize)) -> (r: (usize, usize))
        requires
            source.0 > 0,
            source.1 > 0,
        ensures
            r.0 as int == fitted_size(source, self@.term).0,
            r.1 as int == fitted_size(source, self@.term).1,
            r.0 >= 1,
            r.1 >= 1,
    {
        get_new_size(source, self.term)
    }

    /// The filter in use.
    pub fn filter(&self) -> (r: FilterType)
        ensures
            r == self@.filter,
    {
        self.filter
    }

    /// The strength in half steps (4 is 2.0).
    pub fn strength_halves(&self) -> (r: u32)
        ensures
            r == self@.strength_halves,
    {
        self.strength_halves
    }

    /// Whether playback is paused.
    pub fn is_paused(&self) -> (r: bool)
        ensures
            r == self@.paused,
    {
        self.paused
    }

    /// Whether quitting was asked for.
    pub fn should_quit(&self) -> (r: bool)
        ensures
            r == self@.quit,
    {
        self.quit
    }

    /// The logical frame index.
    pub fn frame_index(&self) -> (r: u64)
        ensures
            r == self@.frame,
    {
        self.frame
    }

    /// The instant, in milliseconds, that pacing counts from.
    pub fn anchor_ms(&self) -> (r: u64)
        ensures
            r == self@.anchor,
    {
        self.anchor
    }

    /// The fixed frame interval in milliseconds.
    pub fn interval_ms(&self) -> (r: u64)
        ensures
            r == self@.interval,
    {
        self.interval
    }

    /// The terminal size in cells.
    pub fn term_size(&self) -> (r: (u16, u16))
        ensures
            r == self@.term,
    {
        self.term
    }
}

} // verus!
