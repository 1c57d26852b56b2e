use vstd::prelude::*;
use std::time::Instant;
use crate::clock::{now, secs_between, secs_since};
use crate::line::{Line, LineView};
use vstd::string::*;
use crate::text::{lemma_split_lines_nonempty, split_lines};

verus! {

/// Why a session could not be built.
#[derive(Debug, PartialEq, Eq, Structural)]
pub enum TypingError {
    /// The passage was empty.
    InvalidInput,
}

#[derive(Debug, PartialEq, Eq, Structural)]
pub enum Phase {
    BeforeStart,
    Running,
    Finished,
}

/// Mathematical picture of a session: everything but the clock readings.
pub struct SessionView {
    pub phase: Phase,
    pub lines: Seq<LineView>,
    pub current: nat,
    pub typed: nat,
    pub typo: nat,
    pub is_error: bool,
    /// Whether the start has been stamped with the clock.
    pub started: bool,
    /// Whether the end has been stamped with the clock.
    pub ended: bool,
    pub remaining: nat,
    pub total: nat,
    pub display: nat,
}

/// One more, unless the counter already stands at the largest `usize`.
pub open spec fn bump(x: nat) -> nat {
    if x < usize::MAX { x + 1 } else { x }
}

/// Words per minute: five characters make a word, and less than a second counts as one.
pub open spec fn wpm_value(typed: nat, secs: nat) -> nat {
    (typed * 12) / (if secs == 0 { 1 } else { secs })
}

/// Accuracy in percent, rounded to the nearest integer (halves up); 100 before any keystroke.
pub open spec fn acc_value(typed: nat, typo: nat) -> nat {
    if typed + typo == 0 {
        100
    } else {
        (200 * typed + (typed + typo)) / (2 * (typed + typo))
    }
}

/// The lines of a fresh session over `text`, numbered from 1.
pub open spec fn fresh_lines(text: Seq<char>) -> Seq<LineView> {
    Seq::new(split_lines(text).len(), |i: int| LineView::fresh((i + 1) as nat, split_lines(text)[i]))
}

/// A session over `text` that has not started, with a countdown of `secs` seconds.
pub open spec fn fresh_session(text: Seq<char>, secs: nat, display: nat) -> SessionView {
    SessionView {
        phase: Phase::BeforeStart,
        lines: fresh_lines(text),
        current: 0,
        typed: 0,
        typo: 0,
        is_error: false,
        started: false,
        ended: false,
        remaining: secs,
        total: secs,
        display,
    }
}

impl SessionView {
    pub open spec fn wf(self) -> bool {
        &&& self.lines.len() >= 1
        &&& self.current < self.lines.len()
        &&& forall|i: int| 0 <= i < self.lines.len() ==> (#[trigger] self.lines[i]).wf()
        &&& self.typed <= usize::MAX
        &&& self.typo <= usize::MAX
        &&& self.remaining <= self.total
        &&& self.total <= u64::MAX
        &&& self.phase == Phase::BeforeStart ==> {
            &&& !self.started
            &&& !self.ended
            &&& self.typed == 0
            &&& self.typo == 0
            &&& self.current == 0
            &&& !self.is_error
        }
        &&& self.phase == Phase::Running ==> self.started && !self.ended
        &&& self.phase == Phase::Finished ==> self.started && self.ended
    }

    pub open spec fn current_line(self) -> LineView {
        self.lines[self.current as int]
    }

    pub open spec fn on_last_line(self) -> bool {
        self.current + 1 == self.lines.len()
    }

    /// One keystroke while running.
    pub open spec fn key(self, c: char) -> SessionView {
        let l = self.current_line();
        if l.complete() {
            if c == '\n' {
                if self.on_last_line() {
                    SessionView { phase: Phase::Finished, ended: true, ..self }
                } else {
                    SessionView { current: self.current + 1, is_error: false, ..self }
                }
            } else {
                SessionView { typo: bump(self.typo), is_error: true, ..self }
            }
        } else {
            let ok = c == l.text[l.cursor as int];
            let nl = l.advanced(ok);
            SessionView {
                phase: if self.on_last_line() && nl.complete() { Phase::Finished } else { self.phase },
                ended: self.ended || (self.on_last_line() && nl.complete()),
                lines: self.lines.update(self.current as int, nl),
                typed: if ok { bump(self.typed) } else { self.typed },
                typo: if ok { self.typo } else { bump(self.typo) },
                is_error: !ok,
                ..self
            }
        }
    }

    pub open spec fn start(self) -> SessionView {
        if self.phase == Phase::BeforeStart {
            SessionView { phase: Phase::Running, started: true, ..self }
        } else {
            self
        }
    }

    /// A keystroke: it starts a session that has not started, and is ignored once finished.
    pub open spec fn input(self, c: char) -> SessionView {
        match self.phase {
            Phase::BeforeStart => self.start().key(c),
            Phase::Running => self.key(c),
            Phase::Finished => self,
        }
    }

    /// One second of the countdown; the session finishes when it reaches zero.
    pub open spec fn tick(self) -> SessionView {
        if self.phase == Phase::Running {
            let r: nat = if self.remaining > 0 { (self.remaining - 1) as nat } else { 0 };
            SessionView {
                phase: if r == 0 { Phase::Finished } else { Phase::Running },
                ended: r == 0,
                remaining: r,
                ..self
            }
        } else {
            self
        }
    }

    pub open spec fn finish(self) -> SessionView {
        if self.phase == Phase::Running {
            SessionView { phase: Phase::Finished, ended: true, ..self }
        } else {
            self
        }
    }

    /// A new countdown length, taken only before the start.
    pub open spec fn with_time(self, secs: nat) -> SessionView {
        if self.phase == Phase::BeforeStart {
            SessionView { remaining: secs, total: secs, ..self }
        } else {
            self
        }
    }

    /// From a finished session, a fresh one over `text`; otherwise nothing changes.
    pub open spec fn restart(self, text: Seq<char>, secs: nat) -> SessionView {
        if self.phase == Phase::Finished {
            fresh_session(text, secs, self.display)
        } else {
            self
        }
    }
}

/// The record shared by the three phases of a session.
pub struct State {
    pub current_index: usize,
    pub display_lines: usize,
    pub end_time: Option<Instant>,
    pub is_error: bool,
    pub lines: Vec<Line>,
    pub remaining_time: u64,
    pub total_time: u64,
    pub start_time: Option<Instant>,
    pub typed: usize,
    pub typo: usize,
}

impl State {
    pub open spec fn view_as(&self, phase: Phase) -> SessionView {
        SessionView {
            phase,
            lines: self.lines@.map_values(|l: Line| l@),
            current: self.current_index as nat,
            typed: self.typed as nat,
            typo: self.typo as nat,
            is_error: self.is_error,
            started: self.start_time is Some,
            ended: self.end_time is Some,
            remaining: self.remaining_time as nat,
            total: self.total_time as nat,
            display: self.display_lines as nat,
        }
    }
}

/// A typing session: the same record in one of three phases.
pub enum Typing {
    BeforeStart(State),
    Running(State),
    Finish(State),
}

impl View for Typing {
    type V = SessionView;

    open spec fn view(&self) -> SessionView {
        match self {
            Typing::BeforeStart(s) => s.view_as(Phase::BeforeStart),
            Typing::Running(s) => s.view_as(Phase::Running),
            Typing::Finish(s) => s.view_as(Phase::Finished),
        }
    }
}

fn bump_count(x: usize) -> (r: usize)
    ensures
        r == bump(x as nat),
{
    if x < usize::MAX { x + 1 } else { x }
}

/// `wpm_value`, capped at the largest `u64`.
pub open spec fn capped_wpm(typed: nat, secs: nat) -> nat {
    if wpm_value(typed, secs) <= u64::MAX {
        wpm_value(typed, secs)
    } else {
        u64::MAX as nat
    }
}

/// Words per minute for `typed` correct characters over `secs` seconds.
pub fn words_per_minute(typed: usize, secs: u64) -> (r: u64)
    ensures
        r as nat == capped_wpm(typed as nat, secs as nat),
{
    let d: u128 = if secs == 0 { 1 } else { secs as u128 };
    let w: u128 = (typed as u128) * 12 / d;
    if w <= u64::MAX as u128 {
        w as u64
    } else {
        u64::MAX
    }
}

/// Accuracy in percent of `typed` correct and `typo` wrong keystrokes.
pub fn accuracy(typed: usize, typo: usize) -> (r: usize)
    ensures
        r as nat == acc_value(typed as nat, typo as nat),
        r <= 100,
{
    if typed == 0 && typo == 0 {
        100
    } else {
        let t: u128 = typed as u128;
        let total: u128 = typed as u128 + typo as u128;
        let a: u128 = (200 * t + total) / (2 * total);
        assert(a <= 100) by (nonlinear_arith)
            requires
                a == (200 * t + total) / (2 * total),
                t <= total,
                total > 0,
        {
            assert(200 * t + total < 101 * (2 * total));
        }
        a as usize
    }
}

fn to_lines(text: &str) -> (r: Vec<Line>)
    requires
        text@.len() < usize::MAX,
    ensures
        r@.map_values(|l: Line| l@) == fresh_lines(text@),
        r@.len() >= 1,
{
    let n = text.unicode_len();
    let mut lines: Vec<Line> = Vec::new();
    let mut cur: Vec<char> = Vec::new();
    let mut i: usize = 0;
    while i < n
        invariant
            n == text@.len(),
            i <= n,
            lines@.len() <= i,
            lines@.len() + 1 == split_lines(text@.take(i as int)).len(),
            forall|j: int| 0 <= j < lines@.len() ==> (#[trigger] lines@[j])@ == LineView::fresh(
                (j + 1) as nat,
                split_lines(text@.take(i as int))[j],
            ),
            cur@ == split_lines(text@.take(i as int)).last(),
        decreases n - i,
    {
        let c = text.get_char(i);
        proof {
            let s = text@.take(i as int + 1);
            assert(s.drop_last() =~= text@.take(i as int));
            assert(s.last() == c);
            lemma_split_lines_nonempty(text@.take(i as int));
        }
        if c == '\n' {
            let l = Line::new(lines.len() + 1, cur);
            lines.push(l);
            cur = Vec::new();
        } else {
            cur.push(c);
        }
        i = i + 1;
    }
    proof {
        assert(text@.take(n as int) =~= text@);
        lemma_split_lines_nonempty(text@);
    }
    let l = Line::new(lines.len() + 1, cur);
    lines.push(l);
    assert(lines@.map_values(|l: Line| l@) =~= fresh_lines(text@));
    lines
}


impl Typing {
    pub open spec fn state(&self) -> State {
        match self {
            Typing::BeforeStart(s) => *s,
            Typing::Running(s) => *s,
            Typing::Finish(s) => *s,
        }
    }

    /// A session over `text` with a countdown of `remaining_time` seconds, showing
    /// `display_lines` lines at a time. An empty passage is refused.
    pub fn new(text: &str, remaining_time: u64, display_lines: usize) -> (r: Result<Typing, TypingError>)
        requires
            text@.len() < usize::MAX,
        ensures
            match r {
                Ok(t) => text@.len() > 0 && t@ == fresh_session(text@, remaining_time as nat, display_lines as nat)
                    && t@.wf(),
                Err(e) => text@.len() == 0 && e == TypingError::InvalidInput,
            },
    {
        if text.is_empty() {
            Err(TypingError::InvalidInput)
        } else {
            let lines = to_lines(text);
            let t = Typing::BeforeStart(State {
                current_index: 0,
                lines,
                start_time: None,
                end_time: None,
                remaining_time,
                total_time: remaining_time,
                typed: 0,
                typo: 0,
                is_error: false,
                display_lines,
            });
            assert(t@ == fresh_session(text@, remaining_time as nat, display_lines as nat));
            Ok(t)
        }
    }

    /// From a finished session, a fresh one over `text` with a countdown of
    /// `remaining_time` seconds; in any other phase the session is returned unchanged.
    pub fn restart(self, text: &str, remaining_time: u64) -> (r: Typing)
        requires
            self@.wf(),
            text@.len() < usize::MAX,
        ensures
            r@ == self@.restart(text@, remaining_time as nat),
            r@.wf(),
            self@.phase != Phase::Finished ==> r == self,
    {
        match self {
            Typing::Finish(s) => {
                let lines = to_lines(text);
                let t = Typing::BeforeStart(State {
                    current_index: 0,
                    lines,
                    start_time: None,
                    end_time: None,
                    remaining_time,
                    total_time: remaining_time,
                    typed: 0,
                    typo: 0,
                    is_error: false,
                    display_lines: s.display_lines,
                });
                assert(t@ == fresh_session(text@, remaining_time as nat, s.display_lines as nat));
                t
            },
            other => other,
        }
    }

    /// Starts the countdown of a session that has not started.
    pub fn start(self) -> (r: Typing)
        requires
            self@.wf(),
        ensures
            r@ == self@.start(),
            r@.wf(),
            self@.phase != Phase::BeforeStart ==> r == self,
    {
        match self {
            Typing::BeforeStart(s) => {
                let t = Typing::Running(State { start_time: Some(now()), ..s });
                assert(t@ == s.view_as(Phase::BeforeStart).start());
                t
            },
            other => other,
        }
    }

    /// Sets the countdown length of a session that has not started.
    pub fn update_remaining_time(self, remaining_time: u64) -> (r: Typing)
        requires
            self@.wf(),
        ensures
            r@ == self@.with_time(remaining_time as nat),
            r@.wf(),
            self@.phase != Phase::BeforeStart ==> r == self,
    {
        match self {
            Typing::BeforeStart(s) => {
                let t = Typing::BeforeStart(State { remaining_time, total_time: remaining_time, ..s });
                assert(t@ == s.view_as(Phase::BeforeStart).with_time(remaining_time as nat));
                t
            },
            other => other,
        }
    }

    /// A keystroke; `'\n'` moves on from a completed line.
    pub fn input(self, c: char) -> (r: Typing)
        requires
            self@.wf(),
        ensures
            r@ == self@.input(c),
            r@.wf(),
            self@.phase == Phase::Finished ==> r == self,
    {
        match self {
            Typing::BeforeStart(_) => {
                let t = self.start();
                match t {
                    Typing::Running(s) => key(s, c),
                    other => other,
                }
            },
            Typing::Running(s) => key(s, c),
            Typing::Finish(s) => Typing::Finish(s),
        }
    }

    /// One second of the countdown.
    pub fn tick(self) -> (r: Typing)
        requires
            self@.wf(),
        ensures
            r@ == self@.tick(),
            r@.wf(),
            self@.phase != Phase::Running ==> r == self,
    {
        match self {
            Typing::Running(s) => {
                let remaining_time: u64 = if s.remaining_time > 0 { s.remaining_time - 1 } else { 0 };
                if remaining_time == 0 {
                    let t = Typing::Finish(State { remaining_time, end_time: Some(now()), ..s });
                    assert(t@ == s.view_as(Phase::Running).tick());
                    t
                } else {
                    let t = Typing::Running(State { remaining_time, ..s });
                    assert(t@ == s.view_as(Phase::Running).tick());
                    t
                }
            },
            other => other,
        }
    }

    /// Ends a running session at once.
    pub fn finish(self) -> (r: Typing)
        requires
            self@.wf(),
        ensures
            r@ == self@.finish(),
            r@.wf(),
            self@.phase != Phase::Running ==> r == self,
    {
        match self {
            Typing::Running(s) => {
                let t = Typing::Finish(State { end_time: Some(now()), ..s });
                assert(t@ == s.view_as(Phase::Running).finish());
                t
            },
            other => other,
        }
    }

    pub fn is_before_start(&self) -> (r: bool)
        ensures
            r == (self@.phase == Phase::BeforeStart),
    {
        match self {
            Typing::BeforeStart(_) => true,
            _ => false,
        }
    }

    pub fn is_running(&self) -> (r: bool)
        ensures
            r == (self@.phase == Phase::Running),
    {
        match self {
            Typing::Running(_) => true,
            _ => false,
        }
    }

    pub fn is_finish(&self) -> (r: bool)
        ensures
            r == (self@.phase == Phase::Finished),
    {
        match self {
            Typing::Finish(_) => true,
            _ => false,
        }
    }

    fn record(&self) -> (r: &State)
        ensures
            *r == self.state(),
    {
        match self {
            Typing::BeforeStart(s) => s,
            Typing::Running(s) => s,
            Typing::Finish(s) => s,
        }
    }

    pub fn typed(&self) -> (r: usize)
        ensures
            r == self@.typed,
    {
        self.record().typed
    }

    pub fn typo(&self) -> (r: usize)
        ensures
            r == self@.typo,
    {
        self.record().typo
    }

    pub fn is_error(&self) -> (r: bool)
        ensures
            r == self@.is_error,
    {
        self.record().is_error
    }

    /// Index (from 0) of the line being typed.
    pub fn current_line_index(&self) -> (r: usize)
        ensures
            r == self@.current,
    {
        self.record().current_index
    }

    pub fn get_remaining_time(&self) -> (r: u64)
        ensures
            r == self@.remaining,
    {
        self.record().remaining_time
    }

    /// The countdown length the session was started with, in seconds.
    pub fn total_time(&self) -> (r: u64)
        ensures
            r == self@.total,
    {
        self.record().total_time
    }

    /// Seconds of the countdown used so far.
    pub fn elapsed_secs(&self) -> (r: u64)
        requires
            self@.wf(),
        ensures
            r == (if self@.remaining <= self@.total { self@.total - self@.remaining } else { 0 }),
    {
        let s = self.record();
        if s.remaining_time <= s.total_time { s.total_time - s.remaining_time } else { 0 }
    }

    pub fn lines(&self) -> (r: &Vec<Line>)
        ensures
            r@.map_values(|l: Line| l@) == self@.lines,
    {
        &self.record().lines
    }

    /// The indices `[from, to)` of the lines to show: from the current line on, at most
    /// `display_lines` of them.
    pub fn display_range(&self) -> (r: (usize, usize))
        requires
            self@.wf(),
        ensures
            r.0 == self@.current,
            r.1 == (if self@.current + self@.display <= self@.lines.len() {
                self@.current + self@.display
            } else {
                self@.lines.len()
            }),
    {
        let s = self.record();
        let n = s.lines.len();
        if s.display_lines <= n - s.current_index {
            (s.current_index, s.current_index + s.display_lines)
        } else {
            (s.current_index, n)
        }
    }

    /// Accuracy in percent of the keystrokes so far.
    pub fn acc(&self) -> (r: usize)
        ensures
            r as nat == acc_value(self@.typed, self@.typo),
    {
        accuracy(self.typed(), self.typo())
    }

    /// Words per minute if `secs` seconds have gone by.
    pub fn wpm_at(&self, secs: u64) -> (r: u64)
        ensures
            r as nat == capped_wpm(self@.typed, secs as nat),
    {
        words_per_minute(self.typed(), secs)
    }

    /// Words per minute by the clock: since the start while running, from start to end once
    /// finished, and over no time before the start.
    pub fn wpm(&self) -> (r: u64)
        ensures
            exists|secs: nat| r as nat == capped_wpm(self@.typed, secs),
            self@.phase == Phase::BeforeStart ==> r as nat == capped_wpm(self@.typed, 0),
    {
        let secs: u64 = match self {
            Typing::BeforeStart(_) => 0,
            Typing::Running(s) => match &s.start_time {
                Some(st) => secs_since(st),
                None => 0,
            },
            Typing::Finish(s) => match (&s.start_time, &s.end_time) {
                (Some(st), Some(en)) => secs_between(st, en),
                _ => 0,
            },
        };
        self.wpm_at(secs)
    }
}

/// One keystroke on a running session.
fn key(s: State, c: char) -> (r: Typing)
    requires
        s.view_as(Phase::Running).wf(),
    ensures
        r@ == s.view_as(Phase::Running).key(c),
        r@.wf(),
{
    let ghost v = s.view_as(Phase::Running);
    let mut s = s;
    let cur = s.current_index;
    let last = s.lines.len() - 1;
    assert(s.lines@[cur as int]@ == v.current_line());
    if s.lines[cur].is_complete() {
        if c == '\n' {
            if cur == last {
                let t = Typing::Finish(State { end_time: Some(now()), ..s });
                assert(t@ == v.key(c));
                t
            } else {
                s.current_index = cur + 1;
                s.is_error = false;
                let t = Typing::Running(s);
                assert(t@ == v.key(c));
                t
            }
        } else {
            s.typo = bump_count(s.typo);
            s.is_error = true;
            let t = Typing::Running(s);
            assert(t@ == v.key(c));
            t
        }
    } else {
        let expected = s.lines[cur].text[s.lines[cur].cursor];
        let ok = c == expected;
        let mut l = s.lines.remove(cur);
        l.advance(ok);
        let done = cur == last && l.is_complete();
        s.lines.insert(cur, l);
        assert(s.lines@.map_values(|l: Line| l@) =~= v.lines.update(cur as int, v.current_line().advanced(ok)));
        if ok {
            s.typed = bump_count(s.typed);
        } else {
            s.typo = bump_count(s.typo);
        }
        s.is_error = !ok;
        if done {
            let t = Typing::Finish(State { end_time: Some(now()), ..s });
            assert(t@ == v.key(c));
            t
        } else {
            let t = Typing::Running(s);
            assert(t@ == v.key(c));
            t
        }
    }
}

} // verus!
