use vstd::prelude::*;
use crate::text::lemma_split_lines_nonempty;
use crate::typing::{bump, fresh_session, Phase, SessionView};

verus! {

impl SessionView {
    /// Keystrokes given one after another.
    pub open spec fn inputs(self, keys: Seq<char>) -> SessionView
        decreases keys.len(),
    {
        if keys.len() == 0 {
            self
        } else {
            self.inputs(keys.drop_last()).input(keys.last())
        }
    }

    /// Whether a keystroke is scored: the session has not finished and the key is not the
    /// newline that moves on from a completed line.
    pub open spec fn scores(self, c: char) -> bool {
        self.phase != Phase::Finished && !(self.current_line().complete() && c == '\n')
    }

    /// How many of the keystrokes are scored.
    pub open spec fn scored(self, keys: Seq<char>) -> nat
        decreases keys.len(),
    {
        if keys.len() == 0 {
            0
        } else {
            self.scored(keys.drop_last()) + if self.inputs(keys.drop_last()).scores(keys.last()) {
                1nat
            } else {
                0nat
            }
        }
    }

    /// The countdown advanced `n` seconds.
    pub open spec fn ticks(self, n: nat) -> SessionView
        decreases n,
    {
        if n == 0 {
            self
        } else {
            self.ticks((n - 1) as nat).tick()
        }
    }
}

/// Law: a keystroke keeps a session well formed.
pub proof fn lemma_input_wf(v: SessionView, c: char)
    requires
        v.wf(),
    ensures
        v.input(c).wf(),
{
    let r = v.input(c);
    if v.phase != Phase::Finished {
        let l = v.current_line();
        if !l.complete() {
            let ok = c == l.text[l.cursor as int];
            assert(l.advanced(ok).wf());
            assert forall|i: int| 0 <= i < r.lines.len() implies (#[trigger] r.lines[i]).wf() by {
                if i != v.current {
                    assert(r.lines[i] == v.lines[i]);
                }
            }
        }
    }
}

/// Law: a session built from a non-empty passage has not started, has scored nothing, and
/// is well formed.
pub proof fn lemma_fresh_session(text: Seq<char>, secs: u64, display: usize)
    requires
        text.len() > 0,
    ensures
        fresh_session(text, secs as nat, display as nat).phase == Phase::BeforeStart,
        fresh_session(text, secs as nat, display as nat).typed == 0,
        fresh_session(text, secs as nat, display as nat).typo == 0,
        fresh_session(text, secs as nat, display as nat).current == 0,
        fresh_session(text, secs as nat, display as nat).wf(),
{
    lemma_split_lines_nonempty(text);
}

/// Law: a keystroke on a line that is not complete consumes exactly one character. A correct
/// one counts as typed and clears the error flag; a wrong one counts as a typo and sets it.
pub proof fn lemma_keystroke(v: SessionView, c: char)
    requires
        v.wf(),
        v.phase != Phase::Finished,
        !v.current_line().complete(),
    ensures
        ({
            let r = v.input(c);
            let l = v.current_line();
            let ok = c == l.text[l.cursor as int];
            &&& r.current == v.current
            &&& r.current_line().cursor == l.cursor + 1
            &&& r.is_error == !ok
            &&& ok ==> r.typed == bump(v.typed) && r.typo == v.typo
            &&& !ok ==> r.typo == bump(v.typo) && r.typed == v.typed
        }),
{
}

/// Law: consuming the last character of the last line finishes the session, whatever is
/// left of the countdown.
pub proof fn lemma_last_character_finishes(v: SessionView, c: char)
    requires
        v.wf(),
        v.phase != Phase::Finished,
        v.on_last_line(),
        v.current_line().cursor + 1 == v.current_line().text.len(),
    ensures
        v.input(c).phase == Phase::Finished,
{
}

/// Law: typed plus typo grows by one for every scored keystroke and by nothing otherwise
/// (as long as the counters stay below the largest `usize`).
pub proof fn lemma_keystroke_count(v: SessionView, keys: Seq<char>)
    requires
        v.wf(),
        v.typed + v.typo + keys.len() < usize::MAX,
    ensures
        v.inputs(keys).wf(),
        v.inputs(keys).typed + v.inputs(keys).typo == v.typed + v.typo + v.scored(keys),
    decreases keys.len(),
{
    if keys.len() > 0 {
        lemma_keystroke_count(v, keys.drop_last());
        let p = v.inputs(keys.drop_last());
        lemma_input_wf(p, keys.last());
        assert(v.scored(keys.drop_last()) <= keys.len() - 1) by {
            lemma_scored_bound(v, keys.drop_last());
        }
    }
}

proof fn lemma_scored_bound(v: SessionView, keys: Seq<char>)
    ensures
        v.scored(keys) <= keys.len(),
    decreases keys.len(),
{
    if keys.len() > 0 {
        lemma_scored_bound(v, keys.drop_last());
    }
}

/// Law: a running session with `n` seconds left finishes after exactly `n` ticks, with no
/// time left; before that it keeps running.
pub proof fn lemma_countdown(v: SessionView, n: nat)
    requires
        v.wf(),
        v.phase == Phase::Running,
        v.remaining == n,
        n > 0,
    ensures
        v.ticks(n).phase == Phase::Finished,
        v.ticks(n).remaining == 0,
        forall|k: nat| k < n ==> (#[trigger] v.ticks(k)).phase == Phase::Running,
{
    assert forall|k: nat| k <= n implies (#[trigger] v.ticks(k)).remaining == n - k && (k < n
        ==> v.ticks(k).phase == Phase::Running) && (k == n ==> v.ticks(k).phase == Phase::Finished) by {
        lemma_countdown_steps(v, n, k);
    }
}

proof fn lemma_countdown_steps(v: SessionView, n: nat, k: nat)
    requires
        v.phase == Phase::Running,
        v.remaining == n,
        k <= n,
    ensures
        v.ticks(k).remaining == n - k,
        k < n ==> v.ticks(k).phase == Phase::Running,
        k == n && n > 0 ==> v.ticks(k).phase == Phase::Finished,
    decreases k,
{
    if k > 0 {
        lemma_countdown_steps(v, n, (k - 1) as nat);
    }
}

/// Law: restarting a finished session gives one that has not started, with nothing scored,
/// on the first line, with the countdown length it was given.
pub proof fn lemma_restart(v: SessionView, text: Seq<char>, secs: u64)
    requires
        v.wf(),
        v.phase == Phase::Finished,
    ensures
        v.restart(text, secs as nat).phase == Phase::BeforeStart,
        v.restart(text, secs as nat).typed == 0,
        v.restart(text, secs as nat).typo == 0,
        v.restart(text, secs as nat).current == 0,
        v.restart(text, secs as nat).remaining == secs,
        v.restart(text, secs as nat).total == secs,
        v.restart(text, secs as nat).display == v.display,
        v.restart(text, secs as nat).wf(),
{
    lemma_split_lines_nonempty(text);
}

} // verus!
