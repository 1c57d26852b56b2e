use vstd::prelude::*;
use crate::progress::{elapsed_of, lemma_sampled_wf, ProgressView, TypingProgress};
use crate::text::{decode_latin1, encode_latin1, filtered, replace_tabs};
use crate::typing::{acc_value, capped_wpm, Phase, Typing, TypingError};

verus! {

/// The shortest preset countdown length, in seconds.
pub const SHORTEST_TIME: u64 = 15;
/// The longest preset countdown length, in seconds.
pub const LONGEST_TIME: u64 = 120;

/// The next countdown length to the right in the menu.
pub open spec fn next_time_of(time: u64, custom: u64) -> u64 {
    if time == 15 {
        30
    } else if time == 30 {
        60
    } else if time == 60 {
        120
    } else if time == 120 {
        custom
    } else if 15 <= custom <= 120 {
        custom
    } else {
        15
    }
}

/// The next countdown length to the left in the menu.
pub open spec fn prev_time_of(time: u64, custom: u64) -> u64 {
    if time == 15 {
        custom
    } else if time == 30 {
        15
    } else if time == 60 {
        30
    } else if time == 120 {
        60
    } else {
        120
    }
}

pub open spec fn is_selectable(x: u64, custom: u64) -> bool {
    x == 15 || x == 30 || x == 60 || x == 120 || x == custom
}

/// A key press, as far as the session cares: a character (with whether Control was held),
/// Enter, the left and right arrows, or anything else.
#[derive(Clone, Copy, Debug, PartialEq, Eq, Structural)]
pub enum Key {
    Char(char, bool),
    Enter,
    Left,
    Right,
    Other,
}

/// What a key press asks for in the current phase.
#[derive(Clone, Copy, Debug, PartialEq, Eq, Structural)]
pub enum KeyAction {
    NextTime,
    PrevTime,
    Type(char),
    Finish,
    Restart,
    Quit,
    Ignore,
}

pub const QUIT_COMMAND: char = 'q';
pub const EXIT_COMMAND: char = 'c';
pub const RESTART_COMMAND: char = 'r';

/// Before the start the arrows choose the countdown, `q` or Control-C quit and any other
/// character starts typing; while running, Enter types a newline, Control-C ends the session
/// and characters are typed; once finished, `r` restarts and `q` or Control-C quit.
pub open spec fn key_action(phase: Phase, key: Key) -> KeyAction {
    match phase {
        Phase::BeforeStart => match key {
            Key::Right => KeyAction::NextTime,
            Key::Left => KeyAction::PrevTime,
            Key::Char(c, ctrl) => if c == QUIT_COMMAND || (c == EXIT_COMMAND && ctrl) {
                KeyAction::Quit
            } else {
                KeyAction::Type(c)
            },
            _ => KeyAction::Ignore,
        },
        Phase::Running => match key {
            Key::Enter => KeyAction::Type('\n'),
            Key::Char(c, ctrl) => if c == EXIT_COMMAND && ctrl {
                KeyAction::Finish
            } else {
                KeyAction::Type(c)
            },
            _ => KeyAction::Ignore,
        },
        Phase::Finished => match key {
            Key::Char(c, ctrl) => if c == RESTART_COMMAND {
                KeyAction::Restart
            } else if c == QUIT_COMMAND || (c == EXIT_COMMAND && ctrl) {
                KeyAction::Quit
            } else {
                KeyAction::Ignore
            },
            _ => KeyAction::Ignore,
        },
    }
}

/// The final figures of a session and its charts.
pub struct TypingResult {
    pub wpm: u64,
    pub acc: usize,
    pub typed: usize,
    pub typo: usize,
    pub wpm_max: u64,
    pub wpm_plot: Vec<(u64, u64)>,
    pub acc_plot: Vec<(u64, u64)>,
}

/// A session with its samples and the countdown lengths on offer (in seconds).
pub struct App {
    pub time: u64,
    pub typing: Typing,
    pub progress: TypingProgress,
    pub custom_time: u64,
}

impl App {
    /// The session is well formed, and so are its samples: none before the start, and none
    /// later than the countdown time used so far.
    pub open spec fn wf(&self) -> bool {
        &&& self.typing@.wf()
        &&& self.progress@.wf()
        &&& self.typing@.phase == Phase::BeforeStart ==> self.progress@.wpm.len() == 0
        &&& self.progress@.wpm.len() > 0 ==> self.progress@.wpm.last().0 <= elapsed_of(self.typing@)
    }

    /// A session over the normalised `text`, with a countdown of `remaining_time` seconds.
    pub fn new(text: &str, remaining_time: u64, display_lines: usize) -> (r: Result<App, TypingError>)
        requires
            filtered(text@).len() < usize::MAX,
        ensures
            match r {
                Ok(a) => filtered(text@).len() > 0 && a.wf() && a.typing@ == crate::typing::fresh_session(
                    filtered(text@),
                    remaining_time as nat,
                    display_lines as nat,
                ) && a.time == remaining_time && a.custom_time == remaining_time && a.progress@
                    == ProgressView::empty(),
                Err(e) => filtered(text@).len() == 0 && e == TypingError::InvalidInput,
            },
    {
        let text = App::filter_text(text);
        match Typing::new(text.as_str(), remaining_time, display_lines) {
            Ok(typing) => Ok(
                App { typing, time: remaining_time, custom_time: remaining_time, progress: TypingProgress::new() },
            ),
            Err(e) => Err(e),
        }
    }

    /// The figures of the session and its samples so far.
    pub fn result(&self) -> (r: TypingResult)
        requires
            self.wf(),
        ensures
            exists|secs: nat| r.wpm as nat == capped_wpm(self.typing@.typed, secs),
            r.acc as nat == acc_value(self.typing@.typed, self.typing@.typo),
            r.typed == self.typing@.typed,
            r.typo == self.typing@.typo,
            r.wpm_max == self.progress@.wpm_max,
            r.wpm_plot@ == self.progress@.wpm,
            r.acc_plot@ == self.progress@.acc,
            (ProgressView { wpm: r.wpm_plot@, acc: r.acc_plot@, wpm_max: r.wpm_max }).wf(),
    {
        TypingResult {
            wpm: self.typing.wpm(),
            acc: self.typing.acc(),
            typed: self.typing.typed(),
            typo: self.typing.typo(),
            wpm_max: self.progress.wpm_max(),
            wpm_plot: self.progress.wpm_plot(),
            acc_plot: self.progress.acc_plot(),
        }
    }

    /// Starts a session that has not started, with the countdown length now selected.
    pub fn start(self) -> (r: App)
        requires
            self.wf(),
        ensures
            r.wf(),
            r.typing@ == self.typing@.with_time(self.time as nat).start(),
            r.time == self.time,
            r.custom_time == self.custom_time,
            r.progress@ == self.progress@,
            self.typing@.phase != Phase::BeforeStart ==> r == self,
    {
        let App { time, typing, progress, custom_time } = self;
        let typing = if typing.is_before_start() {
            typing.update_remaining_time(time).start()
        } else {
            typing
        };
        App { time, typing, progress, custom_time }
    }

    /// From a finished session, a fresh one over the normalised `text` with the selected
    /// countdown length and no samples; otherwise nothing changes.
    pub fn restart(self, text: &str) -> (r: App)
        requires
            self.wf(),
            filtered(text@).len() < usize::MAX,
        ensures
            r.wf(),
            r.typing@ == self.typing@.restart(filtered(text@), self.time as nat),
            r.time == self.time,
            r.custom_time == self.custom_time,
            self.typing@.phase == Phase::Finished ==> r.progress@ == ProgressView::empty(),
            self.typing@.phase != Phase::Finished ==> r == self,
    {
        let App { time, typing, progress, custom_time } = self;
        let text = App::filter_text(text);
        if typing.is_finish() {
            App { time, typing: typing.restart(text.as_str(), time), progress: TypingProgress::new(), custom_time }
        } else {
            App { time, typing, progress, custom_time }
        }
    }

    pub fn finish(self) -> (r: App)
        requires
            self.wf(),
        ensures
            r.wf(),
            r.typing@ == self.typing@.finish(),
            r.time == self.time,
            r.custom_time == self.custom_time,
            r.progress@ == self.progress@,
            self.typing@.phase != Phase::Running ==> r == self,
    {
        let App { time, typing, progress, custom_time } = self;
        App { time, typing: typing.finish(), progress, custom_time }
    }

    pub fn input(self, c: char) -> (r: App)
        requires
            self.wf(),
        ensures
            r.wf(),
            r.typing@ == self.typing@.input(c),
            r.time == self.time,
            r.custom_time == self.custom_time,
            r.progress@ == self.progress@,
            self.typing@.phase == Phase::Finished ==> r == self,
    {
        let App { time, typing, progress, custom_time } = self;
        App { time, typing: typing.input(c), progress, custom_time }
    }

    /// One second: the countdown moves on and, while the session still runs, a sample is taken.
    pub fn tick(self) -> (r: App)
        requires
            self.wf(),
        ensures
            r.wf(),
            r.typing@ == self.typing@.tick(),
            exists|secs: nat|
                r.progress@ == self.progress@.sampled(
                    r.typing@.phase == Phase::Running,
                    elapsed_of(r.typing@) as u64,
                    capped_wpm(r.typing@.typed, secs) as u64,
                    acc_value(r.typing@.typed, r.typing@.typo) as u64,
                ),
            r.time == self.time,
            r.custom_time == self.custom_time,
            self.typing@.phase != Phase::Running ==> r == self,
    {
        let App { time, typing, progress, custom_time } = self;
        let ghost p0 = progress@;
        let typing = typing.tick();
        let progress = progress.add(&typing);
        proof {
            if typing@.phase == Phase::Running {
                let e = elapsed_of(typing@) as u64;
                let a = acc_value(typing@.typed, typing@.typo) as u64;
                let secs = choose|secs: nat| progress@ == p0.sampled(true, e, capped_wpm(typing@.typed, secs) as u64, a);
                lemma_sampled_wf(p0, true, e, capped_wpm(typing@.typed, secs) as u64, a);
            }
        }
        App { time, typing, progress, custom_time }
    }

    /// The countdown lengths on offer, in increasing order and without repeats.
    pub fn selectable_time(&self) -> (r: Vec<u64>)
        ensures
            forall|i: int, j: int| 0 <= i < j < r@.len() ==> r@[i] < r@[j],
            forall|x: u64| r@.contains(x) <==> is_selectable(x, self.custom_time),
    {
        let c = self.custom_time;
        let v: Vec<u64> = if c < 15 {
            vec![c, 15, 30, 60, 120]
        } else if c == 15 || c == 30 || c == 60 || c == 120 {
            vec![15, 30, 60, 120]
        } else if c < 30 {
            vec![15, c, 30, 60, 120]
        } else if c < 60 {
            vec![15, 30, c, 60, 120]
        } else if c < 120 {
            vec![15, 30, 60, c, 120]
        } else {
            vec![15, 30, 60, 120, c]
        };
        assert forall|x: u64| v@.contains(x) <==> is_selectable(x, c) by {
            if v@.contains(x) {
                let k = choose|k: int| 0 <= k < v@.len() && v@[k] == x;
                assert(k == 0 || k == 1 || k == 2 || k == 3 || k == 4);
            }
            if is_selectable(x, c) {
                if v@.len() == 5 {
                    assert(v@[0] == x || v@[1] == x || v@[2] == x || v@[3] == x || v@[4] == x);
                } else {
                    assert(v@[0] == x || v@[1] == x || v@[2] == x || v@[3] == x);
                }
            }
        }
        v
    }

    /// Selects the next countdown length to the right.
    pub fn next_time(self) -> (r: App)
        ensures
            r.time == next_time_of(self.time, self.custom_time),
            r.custom_time == self.custom_time,
            r.typing == self.typing,
            r.progress == self.progress,
    {
        let App { time, typing, progress, custom_time } = self;
        let t: u64 = if time == 15 {
            30
        } else if time == 30 {
            60
        } else if time == 60 {
            120
        } else if time == 120 {
            custom_time
        } else if SHORTEST_TIME <= custom_time && custom_time <= LONGEST_TIME {
            custom_time
        } else {
            SHORTEST_TIME
        };
        App { time: t, typing, progress, custom_time }
    }

    /// Selects the next countdown length to the left.
    pub fn prev_time(self) -> (r: App)
        ensures
            r.time == prev_time_of(self.time, self.custom_time),
            r.custom_time == self.custom_time,
            r.typing == self.typing,
            r.progress == self.progress,
    {
        let App { time, typing, progress, custom_time } = self;
        let t: u64 = if time == 15 {
            custom_time
        } else if time == 30 {
            15
        } else if time == 60 {
            30
        } else if time == 120 {
            60
        } else {
            LONGEST_TIME
        };
        App { time: t, typing, progress, custom_time }
    }

    /// What `key` asks for in the session's current phase.
    pub fn classify_key(&self, key: Key) -> (r: KeyAction)
        ensures
            r == key_action(self.typing@.phase, key),
    {
        if self.typing.is_before_start() {
            match key {
                Key::Right => KeyAction::NextTime,
                Key::Left => KeyAction::PrevTime,
                Key::Char(c, ctrl) => if c == QUIT_COMMAND || (c == EXIT_COMMAND && ctrl) {
                    KeyAction::Quit
                } else {
                    KeyAction::Type(c)
                },
                _ => KeyAction::Ignore,
            }
        } else if self.typing.is_running() {
            match key {
                Key::Enter => KeyAction::Type('\n'),
                Key::Char(c, ctrl) => if c == EXIT_COMMAND && ctrl {
                    KeyAction::Finish
                } else {
                    KeyAction::Type(c)
                },
                _ => KeyAction::Ignore,
            }
        } else {
            match key {
                Key::Char(c, ctrl) => if c == RESTART_COMMAND {
                    KeyAction::Restart
                } else if c == QUIT_COMMAND || (c == EXIT_COMMAND && ctrl) {
                    KeyAction::Quit
                } else {
                    KeyAction::Ignore
                },
                _ => KeyAction::Ignore,
            }
        }
    }

    /// Handles one key press; `text` is the passage a restart starts over. The flag is true
    /// when the key asks to quit, and the session is then left as it is.
    pub fn on_key(self, key: Key, text: &str) -> (r: (App, bool))
        requires
            self.wf(),
            filtered(text@).len() < usize::MAX,
        ensures
            r.0.wf(),
            r.1 == (key_action(self.typing@.phase, key) == KeyAction::Quit),
            r.0.custom_time == self.custom_time,
            key_action(self.typing@.phase, key) == KeyAction::Restart ==> r.0.progress@ == ProgressView::empty(),
            key_action(self.typing@.phase, key) != KeyAction::Restart ==> r.0.progress@ == self.progress@,
            match key_action(self.typing@.phase, key) {
                KeyAction::NextTime => r.0.time == next_time_of(self.time, self.custom_time)
                    && r.0.typing@ == self.typing@,
                KeyAction::PrevTime => r.0.time == prev_time_of(self.time, self.custom_time)
                    && r.0.typing@ == self.typing@,
                KeyAction::Type(c) => r.0.time == self.time
                    && r.0.typing@ == self.typing@.with_time(self.time as nat).start().input(c),
                KeyAction::Finish => r.0.time == self.time && r.0.typing@ == self.typing@.finish(),
                KeyAction::Restart => r.0.time == self.time
                    && r.0.typing@ == self.typing@.restart(filtered(text@), self.time as nat),
                _ => r.0.time == self.time && r.0.typing@ == self.typing@,
            },
    {
        match self.classify_key(key) {
            KeyAction::NextTime => (self.next_time(), false),
            KeyAction::PrevTime => (self.prev_time(), false),
            KeyAction::Type(c) => (self.start().input(c), false),
            KeyAction::Finish => (self.finish(), false),
            KeyAction::Restart => (self.restart(text), false),
            KeyAction::Quit => (self, true),
            KeyAction::Ignore => (self, false),
        }
    }

    /// Normalises a passage: keeps only what ISO-8859-1 can represent and expands tabs.
    pub fn filter_text(text: &str) -> (r: String)
        ensures
            r@ == filtered(text@),
    {
        match encode_latin1(text) {
            Some(bytes) => match decode_latin1(bytes.as_slice()) {
                Some(s) => replace_tabs(s.as_str()),
                None => String::new(),
            },
            None => String::new(),
        }
    }

    /// Seconds used of the selected countdown length; zero if more remain than were selected.
    pub fn elapsed_time(&self) -> (r: u64)
        ensures
            r == (if self.typing@.remaining <= self.time { self.time - self.typing@.remaining } else { 0 }),
    {
        let rem = self.typing.get_remaining_time();
        if rem <= self.time { self.time - rem } else { 0 }
    }
}

} // verus!
