//! Timeline: navigation through radar scan times with playback settings.

use vstd::prelude::*;
use crate::text::{owned, push_char, push_decimal, push_str, push_two_digits, decimal, two_digits};

verus! {

/// Playback speeds the timeline accepts.
pub open spec fn is_valid_speed(speed: u32) -> bool {
    speed == 1 || speed == 2 || speed == 5 || speed == 10
}

/// Time range presets, in hours, the timeline accepts.
pub open spec fn is_valid_time_range(hours: u32) -> bool {
    hours == 1 || hours == 6 || hours == 24
}

/// Messages the timeline handles.
#[derive(Debug, Clone)]
pub enum TimelineMessage {
    /// New scan times (seconds since the Unix epoch, UTC) from the data source.
    ScanTimesUpdated(Vec<i64>),
    /// The user clicked the timeline; the index nearest to the click, that
    /// is the rounded product of the position (clamped to 0..=1) and the
    /// last index.
    TimelineClicked(usize),
    /// The user dragged the scrubber; the index nearest to the drag
    /// position, computed as for a click.
    TimelineDragged(usize),
    /// Play/pause pressed.
    PlayPauseToggled,
    /// Playback speed chosen (1, 2, 5 or 10).
    SpeedChanged(u32),
    /// Loop mode toggled.
    LoopToggled,
    /// Time range preset chosen (1, 6 or 24 hours).
    TimeRangeChanged(u32),
    /// Step to the next scan.
    StepForward,
    /// Step to the previous scan.
    StepBackward,
}

/// State of the timeline.
#[derive(Debug)]
pub struct TimelineState {
    scan_times: Vec<i64>,
    current_index: usize,
    is_playing: bool,
    playback_speed: u32,
    is_looping: bool,
    time_range_hours: u32,
}

/// The value of a timeline state.
pub struct TimelineView {
    pub scan_times: Seq<i64>,
    pub current_index: int,
    pub is_playing: bool,
    pub playback_speed: u32,
    pub is_looping: bool,
    pub time_range_hours: u32,
}

/// A state the timeline can be in: the index lies on a scan (or is 0 when
/// there is none), and the speed and range are among the presets.
pub open spec fn timeline_valid(s: TimelineView) -> bool {
    &&& 0 <= s.current_index
    &&& (s.scan_times.len() == 0 ==> s.current_index == 0)
    &&& (s.scan_times.len() > 0 ==> s.current_index < s.scan_times.len())
    &&& is_valid_speed(s.playback_speed)
    &&& is_valid_time_range(s.time_range_hours)
}

/// The state after stepping forward.
pub open spec fn stepped_forward(s: TimelineView) -> TimelineView {
    let n = s.scan_times.len();
    if n == 0 {
        s
    } else if s.current_index < n - 1 {
        TimelineView { current_index: s.current_index + 1, ..s }
    } else if s.is_looping {
        TimelineView { current_index: 0, ..s }
    } else {
        s
    }
}

/// The state after stepping backward.
pub open spec fn stepped_backward(s: TimelineView) -> TimelineView {
    let n = s.scan_times.len();
    if n == 0 {
        s
    } else if s.current_index > 0 {
        TimelineView { current_index: s.current_index - 1, ..s }
    } else if s.is_looping {
        TimelineView { current_index: n - 1, ..s }
    } else {
        s
    }
}

/// The state after a click or drag that lands nearest to `target`.
pub open spec fn sought(s: TimelineView, target: int) -> TimelineView {
    let n = s.scan_times.len();
    if n == 0 {
        s
    } else {
        TimelineView { current_index: if target < n - 1 { target } else { n - 1 }, ..s }
    }
}

/// The state after new scan times arrive: the index is kept when it still
/// lies on a scan and otherwise moves to the last scan (or 0).
pub open spec fn with_scan_times(s: TimelineView, times: Seq<i64>) -> TimelineView {
    let idx = if s.current_index >= times.len() {
        if times.len() == 0 { 0 } else { times.len() - 1 }
    } else {
        s.current_index
    };
    TimelineView { scan_times: times, current_index: idx, ..s }
}

/// The state after a message.
pub open spec fn timeline_next(s: TimelineView, m: TimelineMessage) -> TimelineView {
    match m {
        TimelineMessage::ScanTimesUpdated(times) => with_scan_times(s, times@),
        TimelineMessage::TimelineClicked(target) => sought(s, target as int),
        TimelineMessage::TimelineDragged(target) => sought(s, target as int),
        TimelineMessage::PlayPauseToggled => TimelineView { is_playing: !s.is_playing, ..s },
        TimelineMessage::SpeedChanged(speed) => if is_valid_speed(speed) {
            TimelineView { playback_speed: speed, ..s }
        } else {
            s
        },
        TimelineMessage::LoopToggled => TimelineView { is_looping: !s.is_looping, ..s },
        TimelineMessage::TimeRangeChanged(hours) => if is_valid_time_range(hours) {
            TimelineView { time_range_hours: hours, ..s }
        } else {
            s
        },
        TimelineMessage::StepForward => stepped_forward(s),
        TimelineMessage::StepBackward => stepped_backward(s),
    }
}

/// The seconds since midnight (UTC) of a Unix timestamp.
pub open spec fn seconds_of_day(ts: int) -> int {
    ts % 86400
}

/// The time of day `HH:MM` (UTC) of a Unix timestamp.
pub open spec fn hour_minute_text(ts: int) -> Seq<char> {
    let secs = seconds_of_day(ts);
    two_digits((secs / 3600) as nat) + seq![':'] + two_digits(((secs % 3600) / 60) as nat)
}

/// Before the epoch, the time of day counts back from the end of the day.
proof fn lemma_time_of_day_before_epoch(t: int)
    requires
        t < 0,
    ensures
        t % 86400 == 86399 - (-(t + 1)) % 86400,
{
    let a = -(t + 1);
    vstd::arithmetic::div_mod::lemma_fundamental_div_mod(a, 86400);
    let q = a / 86400;
    let r = a % 86400;
    vstd::arithmetic::div_mod::lemma_fundamental_div_mod_converse(t, 86400, -q - 1, 86399 - r);
}

/// The `HH:MM` text (UTC) of a Unix timestamp, as `format("%H:%M")` shows it.
pub fn hour_minute(ts: i64) -> (s: String)
    ensures
        s@ == hour_minute_text(ts as int),
{
    let secs: u64 = if ts >= 0 {
        (ts as u64) % 86400
    } else {
        let a: u64 = (-(ts + 1)) as u64;
        86399 - a % 86400
    };
    proof {
        if ts < 0 {
            lemma_time_of_day_before_epoch(ts as int);
        }
        assert(secs == seconds_of_day(ts as int));
    }
    let h: u32 = (secs / 3600) as u32;
    let m: u32 = ((secs % 3600) / 60) as u32;
    let mut s = String::new();
    push_two_digits(&mut s, h);
    push_char(&mut s, ':');
    push_two_digits(&mut s, m);
    proof {
        assert(s@ =~= hour_minute_text(ts as int));
    }
    s
}

/// How a tick of the timeline bar stands out.
#[derive(Debug, Clone, Copy, PartialEq, Eq)]
pub enum TickEmphasis {
    /// The tick of the current scan.
    Current,
    /// A tick next to the current one.
    Near,
    /// Any other tick.
    Other,
}

/// A tick of the timeline bar: the scan it stands for, how it stands out,
/// and its time label, if it has one. Clicking it sends
/// `TimelineClicked(index)`.
#[derive(Debug, Clone, PartialEq, Eq)]
pub struct TimelineTick {
    pub index: usize,
    pub emphasis: TickEmphasis,
    pub label: Option<String>,
}

/// Every how many ticks a label is shown, for `n` scans.
pub open spec fn label_interval(n: int) -> int {
    if n <= 6 {
        1
    } else if n <= 12 {
        2
    } else if n <= 24 {
        4
    } else if n / 6 > 1 {
        n / 6
    } else {
        1
    }
}

/// How tick `i` stands out when scan `cur` is current.
pub open spec fn tick_emphasis(cur: int, i: int) -> TickEmphasis {
    if i == cur {
        TickEmphasis::Current
    } else if -1 <= i - cur <= 1 {
        TickEmphasis::Near
    } else {
        TickEmphasis::Other
    }
}

/// Whether tick `i` of `n` carries a label when scan `cur` is current.
pub open spec fn tick_labeled(n: int, cur: int, i: int) -> bool {
    i % label_interval(n) == 0 || i == cur
}

/// What the tick of scan `i` is.
pub open spec fn tick_spec(s: TimelineView, i: int) -> (usize, TickEmphasis, Option<Seq<char>>) {
    (
        i as usize,
        tick_emphasis(s.current_index, i),
        if tick_labeled(s.scan_times.len() as int, s.current_index, i) {
            Some(hour_minute_text(s.scan_times[i] as int))
        } else {
            None
        },
    )
}

/// The value of a tick.
pub open spec fn tick_view(t: TimelineTick) -> (usize, TickEmphasis, Option<Seq<char>>) {
    (t.index, t.emphasis, match t.label {
        Some(l) => Some(l@),
        None => None,
    })
}

/// The text of the play/pause button.
pub open spec fn play_pause_text(playing: bool) -> Seq<char> {
    if playing { "⏸ Pause"@ } else { "▶ Play"@ }
}

/// The text of the loop button.
pub open spec fn loop_text(looping: bool) -> Seq<char> {
    if looping { "🔁 Loop: On"@ } else { "🔁 Loop"@ }
}

/// The text of the button of a speed preset: `{speed}x`.
pub open spec fn speed_text(speed: u32) -> Seq<char> {
    decimal(speed as nat) + "x"@
}

/// The text of the button of a time range preset: `{hours}h`, with ` ✓`
/// when it is the one chosen.
pub open spec fn range_text(hours: u32, chosen: bool) -> Seq<char> {
    decimal(hours as nat) + if chosen { "h ✓"@ } else { "h"@ }
}

impl View for TimelineState {
    type V = TimelineView;

    closed spec fn view(&self) -> TimelineView {
        TimelineView {
            scan_times: self.scan_times@,
            current_index: self.current_index as int,
            is_playing: self.is_playing,
            playback_speed: self.playback_speed,
            is_looping: self.is_looping,
            time_range_hours: self.time_range_hours,
        }
    }
}

impl Clone for TimelineState {
    fn clone(&self) -> (r: Self)
        ensures
            r@ == self@,
    {
        proof {
            use_type_invariant(self);
        }
        let r = TimelineState {
            scan_times: self.scan_times.clone(),
            current_index: self.current_index,
            is_playing: self.is_playing,
            playback_speed: self.playback_speed,
            is_looping: self.is_looping,
            time_range_hours: self.time_range_hours,
        };
        assert(r.scan_times@ =~= self.scan_times@);
        r
    }
}

impl TimelineState {
    #[verifier::type_invariant]
    spec fn inv(self) -> bool {
        timeline_valid(self@)
    }

    /// A timeline with no scans, paused, at speed 1, not looping, over 1 hour.
    pub fn new() -> (t: Self)
        ensures
            timeline_valid(t@),
            t@ == (TimelineView {
                scan_times: Seq::empty(),
                current_index: 0,
                is_playing: false,
                playback_speed: 1,
                is_looping: false,
                time_range_hours: 1,
            }),
    {
        let t = TimelineState {
            scan_times: Vec::new(),
            current_index: 0,
            is_playing: false,
            playback_speed: 1,
            is_looping: false,
            time_range_hours: 1,
        };
        assert(t@.scan_times =~= Seq::empty());
        t
    }

    /// The timestamp of the current scan, if there is one.
    pub fn current_time(&self) -> (r: Option<i64>)
        ensures
            self@.scan_times.len() == 0 ==> r is None,
            self@.scan_times.len() > 0 ==> r == Some(self@.scan_times[self@.current_index]),
    {
        proof {
            use_type_invariant(self);
        }
        if self.current_index < self.scan_times.len() {
            Some(self.scan_times[self.current_index])
        } else {
            None
        }
    }

    /// The current scan index.
    pub fn current_index(&self) -> (r: usize)
        ensures
            r == self@.current_index,
    {
        self.current_index
    }

    /// Whether playback is active.
    pub fn is_playing(&self) -> (r: bool)
        ensures
            r == self@.is_playing,
    {
        self.is_playing
    }

    /// The playback speed multiplier.
    pub fn playback_speed(&self) -> (r: u32)
        ensures
            r == self@.playback_speed,
    {
        self.playback_speed
    }

    /// Whether looping is enabled.
    pub fn is_looping(&self) -> (r: bool)
        ensures
            r == self@.is_looping,
    {
        self.is_looping
    }

    /// The time range in hours.
    pub fn time_range_hours(&self) -> (r: u32)
        ensures
            r == self@.time_range_hours,
    {
        self.time_range_hours
    }

    /// The number of available scans.
    pub fn scan_count(&self) -> (r: usize)
        ensures
            r == self@.scan_times.len(),
    {
        self.scan_times.len()
    }

    /// All scan times.
    pub fn scan_times(&self) -> (r: &[i64])
        ensures
            r@ == self@.scan_times,
    {
        self.scan_times.as_slice()
    }

    /// Handles a message.
    pub fn update(&mut self, message: TimelineMessage)
        ensures
            final(self)@ == timeline_next(old(self)@, message),
            timeline_valid(final(self)@),
    {
        proof {
            use_type_invariant(&*self);
        }
        match message {
            TimelineMessage::ScanTimesUpdated(times) => {
                let n = times.len();
                let idx = if self.current_index >= n {
                    if n == 0 { 0 } else { n - 1 }
                } else {
                    self.current_index
                };
                *self = TimelineState {
                    scan_times: times,
                    current_index: idx,
                    is_playing: self.is_playing,
                    playback_speed: self.playback_speed,
                    is_looping: self.is_looping,
                    time_range_hours: self.time_range_hours,
                };
            },
            TimelineMessage::TimelineClicked(target) => {
                self.seek(target);
            },
            TimelineMessage::TimelineDragged(target) => {
                self.seek(target);
            },
            TimelineMessage::PlayPauseToggled => {
                self.is_playing = !self.is_playing;
            },
            TimelineMessage::SpeedChanged(speed) => {
                if speed == 1 || speed == 2 || speed == 5 || speed == 10 {
                    self.playback_speed = speed;
                }
            },
            TimelineMessage::LoopToggled => {
                self.is_looping = !self.is_looping;
            },
            TimelineMessage::TimeRangeChanged(hours) => {
                if hours == 1 || hours == 6 || hours == 24 {
                    self.time_range_hours = hours;
                }
            },
            TimelineMessage::StepForward => {
                let n = self.scan_times.len();
                if n > 0 {
                    if self.current_index < n - 1 {
                        self.current_index = self.current_index + 1;
                    } else if self.is_looping {
                        self.current_index = 0;
                    }
                }
            },
            TimelineMessage::StepBackward => {
                let n = self.scan_times.len();
                if n > 0 {
                    if self.current_index > 0 {
                        self.current_index = self.current_index - 1;
                    } else if self.is_looping {
                        self.current_index = n - 1;
                    }
                }
            },
        }
    }

    /// The ticks of the timeline bar, one per scan in order (none without
    /// scans).
    pub fn ticks(&self) -> (v: Vec<TimelineTick>)
        ensures
            v@.len() == self@.scan_times.len(),
            forall|i: int| 0 <= i < v@.len() ==> tick_view(#[trigger] v@[i]) == tick_spec(self@, i),
    {
        proof {
            use_type_invariant(self);
        }
        let n = self.scan_times.len();
        let cur = self.current_index;
        let interval: usize = if n <= 6 {
            1
        } else if n <= 12 {
            2
        } else if n <= 24 {
            4
        } else if n / 6 > 1 {
            n / 6
        } else {
            1
        };
        let mut v: Vec<TimelineTick> = Vec::new();
        let mut i: usize = 0;
        while i < n
            invariant
                n == self@.scan_times.len(),
                cur == self@.current_index,
                n > 0 ==> cur < n,
                interval == label_interval(n as int),
                i <= n,
                v@.len() == i,
                forall|k: int| 0 <= k < i ==> tick_view(#[trigger] v@[k]) == tick_spec(self@, k),
            decreases n - i,
        {
            let emphasis = if i == cur {
                TickEmphasis::Current
            } else if i + 1 == cur || i == cur + 1 {
                TickEmphasis::Near
            } else {
                TickEmphasis::Other
            };
            let label = if i % interval == 0 || i == cur {
                Some(hour_minute(self.scan_times[i]))
            } else {
                None
            };
            let tick = TimelineTick { index: i, emphasis, label };
            assert(tick_view(tick) == tick_spec(self@, i as int));
            v.push(tick);
            i = i + 1;
        }
        v
    }

    /// The text of the play/pause button.
    pub fn play_pause_label(&self) -> (s: &'static str)
        ensures
            s@ == play_pause_text(self@.is_playing),
    {
        proof {
            reveal_strlit("⏸ Pause");
            reveal_strlit("▶ Play");
        }
        if self.is_playing { "⏸ Pause" } else { "▶ Play" }
    }

    /// The text of the loop button.
    pub fn loop_label(&self) -> (s: &'static str)
        ensures
            s@ == loop_text(self@.is_looping),
    {
        if self.is_looping { "🔁 Loop: On" } else { "🔁 Loop" }
    }

    /// The speed presets with the texts of their buttons, in order.
    pub fn speed_labels(&self) -> (v: Vec<(u32, String)>)
        ensures
            v@.len() == 4,
            v@[0].0 == 1 && v@[1].0 == 2 && v@[2].0 == 5 && v@[3].0 == 10,
            forall|i: int| 0 <= i < 4 ==> (#[trigger] v@[i]).1@ == speed_text(v@[i].0),
    {
        let mut v: Vec<(u32, String)> = Vec::new();
        v.push((1, speed_label(1)));
        v.push((2, speed_label(2)));
        v.push((5, speed_label(5)));
        v.push((10, speed_label(10)));
        v
    }

    /// The time range presets with the texts of their buttons, in order;
    /// the chosen one is marked.
    pub fn range_labels(&self) -> (v: Vec<(u32, String)>)
        ensures
            v@.len() == 3,
            v@[0].0 == 1 && v@[1].0 == 6 && v@[2].0 == 24,
            forall|i: int| 0 <= i < 3 ==> (#[trigger] v@[i]).1@ == range_text(v@[i].0, v@[i].0 == self@.time_range_hours),
    {
        let mut v: Vec<(u32, String)> = Vec::new();
        v.push((1, range_label(1, self.time_range_hours == 1)));
        v.push((6, range_label(6, self.time_range_hours == 6)));
        v.push((24, range_label(24, self.time_range_hours == 24)));
        v
    }

    fn seek(&mut self, target: usize)
        ensures
            final(self)@ == sought(old(self)@, target as int),
    {
        proof {
            use_type_invariant(&*self);
        }
        let n = self.scan_times.len();
        if n > 0 {
            self.current_index = if target < n - 1 { target } else { n - 1 };
        }
    }
}

/// The text of a speed button.
fn speed_label(speed: u32) -> (s: String)
    ensures
        s@ == speed_text(speed),
{
    let mut s = String::new();
    push_decimal(&mut s, speed as u64);
    push_str(&mut s, "x");
    proof {
        assert(s@ =~= speed_text(speed));
    }
    s
}

/// The text of a time range button.
fn range_label(hours: u32, chosen: bool) -> (s: String)
    ensures
        s@ == range_text(hours, chosen),
{
    let mut s = String::new();
    push_decimal(&mut s, hours as u64);
    if chosen {
        push_str(&mut s, "h ✓");
    } else {
        push_str(&mut s, "h");
    }
    proof {
        assert(s@ =~= range_text(hours, chosen));
    }
    s
}

/// Whatever message arrives, a valid timeline stays valid: the current
/// index keeps lying on a scan (or is 0 with no scans), and the speed and
/// time range stay among their presets.
pub proof fn lemma_update_keeps_valid(s: TimelineView, m: TimelineMessage)
    requires
        timeline_valid(s),
    ensures
        timeline_valid(timeline_next(s, m)),
{
}

/// Stepping backward undoes stepping forward whenever the forward step moved
/// (not at the last scan, or looping).
pub proof fn lemma_backward_undoes_forward(s: TimelineView)
    requires
        timeline_valid(s),
        s.scan_times.len() > 0,
        s.current_index < s.scan_times.len() - 1 || s.is_looping,
    ensures
        stepped_backward(stepped_forward(s)) == s,
{
}

/// Stepping forward undoes stepping backward whenever the backward step
/// moved (not at the first scan, or looping).
pub proof fn lemma_forward_undoes_backward(s: TimelineView)
    requires
        timeline_valid(s),
        s.scan_times.len() > 0,
        s.current_index > 0 || s.is_looping,
    ensures
        stepped_forward(stepped_backward(s)) == s,
{
}

/// Toggling play/pause or looping twice restores the state.
pub proof fn lemma_toggles_are_involutions(s: TimelineView)
    ensures
        timeline_next(timeline_next(s, TimelineMessage::PlayPauseToggled), TimelineMessage::PlayPauseToggled) == s,
        timeline_next(timeline_next(s, TimelineMessage::LoopToggled), TimelineMessage::LoopToggled) == s,
{
}

/// When new scan times arrive, the timeline takes them and keeps its scan
/// index while that still lies on a scan; an index past the end moves to
/// the last (latest) scan, or to 0 when there is none. Playback settings
/// are left alone.
pub proof fn lemma_new_scan_times_keep_or_clamp(s: TimelineView, times: Vec<i64>)
    requires
        timeline_valid(s),
    ensures
        timeline_next(s, TimelineMessage::ScanTimesUpdated(times)).scan_times == times@,
        times@.len() == 0 ==> timeline_next(s, TimelineMessage::ScanTimesUpdated(times)).current_index == 0,
        times@.len() > 0 && s.current_index >= times@.len() ==> timeline_next(
            s,
            TimelineMessage::ScanTimesUpdated(times),
        ).current_index == times@.len() - 1,
        0 <= s.current_index < times@.len() ==> timeline_next(
            s,
            TimelineMessage::ScanTimesUpdated(times),
        ).current_index == s.current_index,
        timeline_next(s, TimelineMessage::ScanTimesUpdated(times)).is_playing == s.is_playing,
        timeline_next(s, TimelineMessage::ScanTimesUpdated(times)).is_looping == s.is_looping,
        timeline_next(s, TimelineMessage::ScanTimesUpdated(times)).playback_speed == s.playback_speed,
        timeline_next(s, TimelineMessage::ScanTimesUpdated(times)).time_range_hours == s.time_range_hours,
{
}

} // verus!
