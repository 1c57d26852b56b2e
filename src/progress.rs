use vstd::prelude::*;
use crate::typing::{acc_value, capped_wpm, Phase, SessionView, Typing};

verus! {

/// Mathematical picture of the samples: (elapsed seconds, value) pairs and the largest wpm.
pub struct ProgressView {
    pub wpm: Seq<(u64, u64)>,
    pub acc: Seq<(u64, u64)>,
    pub wpm_max: u64,
}

/// Seconds of the countdown used so far.
pub open spec fn elapsed_of(v: SessionView) -> nat {
    if v.remaining <= v.total { (v.total - v.remaining) as nat } else { 0 }
}

/// The largest wpm among samples given as (elapsed seconds, wpm, accuracy), at least `floor`.
pub open spec fn max_wpm(floor: u64, ss: Seq<(u64, u64, u64)>) -> u64
    decreases ss.len(),
{
    if ss.len() == 0 {
        floor
    } else {
        let m = max_wpm(floor, ss.drop_last());
        if ss.last().1 > m { ss.last().1 } else { m }
    }
}

/// The largest wpm in a series of (elapsed seconds, wpm) points; 0 for none.
pub open spec fn plot_max(s: Seq<(u64, u64)>) -> u64
    decreases s.len(),
{
    if s.len() == 0 {
        0
    } else {
        let m = plot_max(s.drop_last());
        if s.last().1 > m { s.last().1 } else { m }
    }
}

impl ProgressView {
    /// Both series sample the same seconds, in increasing order, and the maximum is the
    /// largest sampled wpm.
    pub open spec fn wf(self) -> bool {
        &&& self.wpm.len() == self.acc.len()
        &&& forall|i: int| 0 <= i < self.wpm.len() ==> (#[trigger] self.wpm[i]).0 == self.acc[i].0
        &&& forall|i: int, j: int| 0 <= i < j < self.wpm.len() ==> self.wpm[i].0 < self.wpm[j].0
        &&& self.wpm_max == plot_max(self.wpm)
    }

    /// Whether a sample taken at `secs` seconds comes after every sample so far.
    pub open spec fn later(self, secs: u64) -> bool {
        self.wpm.len() > 0 ==> self.wpm.last().0 < secs
    }

    pub open spec fn empty() -> ProgressView {
        ProgressView { wpm: Seq::empty(), acc: Seq::empty(), wpm_max: 0 }
    }

    /// One sample; it is kept only while the session runs.
    pub open spec fn sampled(self, running: bool, secs: u64, wpm: u64, acc: u64) -> ProgressView {
        if running {
            ProgressView {
                wpm: self.wpm.push((secs, wpm)),
                acc: self.acc.push((secs, acc)),
                wpm_max: if wpm > self.wpm_max { wpm } else { self.wpm_max },
            }
        } else {
            self
        }
    }

    /// Samples taken in turn from a running session.
    pub open spec fn sampled_all(self, ss: Seq<(u64, u64, u64)>) -> ProgressView
        decreases ss.len(),
    {
        if ss.len() == 0 {
            self
        } else {
            let s = ss.last();
            self.sampled_all(ss.drop_last()).sampled(true, s.0, s.1, s.2)
        }
    }
}

/// Law: samples taken from a running session add one entry to each series per sample, in
/// order, and the maximum is the largest wpm seen.
pub proof fn lemma_samples(p: ProgressView, ss: Seq<(u64, u64, u64)>)
    ensures
        p.sampled_all(ss).wpm == p.wpm + ss.map_values(|s: (u64, u64, u64)| (s.0, s.1)),
        p.sampled_all(ss).acc == p.acc + ss.map_values(|s: (u64, u64, u64)| (s.0, s.2)),
        p.sampled_all(ss).wpm_max == max_wpm(p.wpm_max, ss),
    decreases ss.len(),
{
    if ss.len() > 0 {
        lemma_samples(p, ss.drop_last());
        assert(ss.map_values(|s: (u64, u64, u64)| (s.0, s.1)) =~= ss.drop_last().map_values(
            |s: (u64, u64, u64)| (s.0, s.1),
        ).push((ss.last().0, ss.last().1)));
        assert(ss.map_values(|s: (u64, u64, u64)| (s.0, s.2)) =~= ss.drop_last().map_values(
            |s: (u64, u64, u64)| (s.0, s.2),
        ).push((ss.last().0, ss.last().2)));
    } else {
        assert(p.wpm + ss.map_values(|s: (u64, u64, u64)| (s.0, s.1)) =~= p.wpm);
        assert(p.acc + ss.map_values(|s: (u64, u64, u64)| (s.0, s.2)) =~= p.acc);
    }
}

/// Law: a sample taken after every earlier one keeps the series well formed.
pub proof fn lemma_sampled_wf(p: ProgressView, running: bool, secs: u64, wpm: u64, acc: u64)
    requires
        p.wf(),
        p.later(secs),
    ensures
        p.sampled(running, secs, wpm, acc).wf(),
{
    if running {
        let q = p.sampled(running, secs, wpm, acc);
        assert(q.wpm.drop_last() =~= p.wpm);
        assert forall|i: int, j: int| 0 <= i < j < q.wpm.len() implies q.wpm[i].0 < q.wpm[j].0 by {
            if j == q.wpm.len() - 1 && i < j - 1 {
                assert(p.wpm[i].0 < p.wpm[j - 1].0);
            }
        }
    }
}

/// The wpm and accuracy of a session, sampled once a second for charting.
pub struct TypingProgress {
    pub wpm_plot: Vec<(u64, u64)>,
    pub acc_plot: Vec<(u64, u64)>,
    pub wpm_max: u64,
}

impl View for TypingProgress {
    type V = ProgressView;

    open spec fn view(&self) -> ProgressView {
        ProgressView { wpm: self.wpm_plot@, acc: self.acc_plot@, wpm_max: self.wpm_max }
    }
}

fn copy_points(v: &Vec<(u64, u64)>) -> (r: Vec<(u64, u64)>)
    ensures
        r@ == v@,
{
    let mut r: Vec<(u64, u64)> = Vec::new();
    let mut i: usize = 0;
    while i < v.len()
        invariant
            i <= v@.len(),
            r@ == v@.take(i as int),
        decreases v@.len() - i,
    {
        r.push(v[i]);
        i = i + 1;
        assert(r@ =~= v@.take(i as int));
    }
    assert(v@.take(i as int) =~= v@);
    r
}

impl TypingProgress {
    pub fn new() -> (r: TypingProgress)
        ensures
            r@ == ProgressView::empty(),
            r@.wf(),
    {
        TypingProgress { wpm_plot: Vec::new(), acc_plot: Vec::new(), wpm_max: 0 }
    }

    /// Adds one sample taken `secs` seconds in, if the session is `running`.
    pub fn record(self, running: bool, secs: u64, wpm: u64, acc: u64) -> (r: TypingProgress)
        ensures
            r@ == self@.sampled(running, secs, wpm, acc),
            !running ==> r == self,
    {
        let mut p = self;
        if running {
            p.wpm_plot.push((secs, wpm));
            p.acc_plot.push((secs, acc));
            if wpm > p.wpm_max {
                p.wpm_max = wpm;
            }
        }
        p
    }

    /// Samples the session's wpm and accuracy at the elapsed countdown time; nothing is
    /// added unless it is running.
    pub fn add(self, typing: &Typing) -> (r: TypingProgress)
        requires
            typing@.wf(),
        ensures
            exists|secs: nat|
                r@ == self@.sampled(
                    typing@.phase == Phase::Running,
                    elapsed_of(typing@) as u64,
                    capped_wpm(typing@.typed, secs) as u64,
                    acc_value(typing@.typed, typing@.typo) as u64,
                ),
            typing@.phase != Phase::Running ==> r == self,
    {
        let running = typing.is_running();
        let secs = typing.elapsed_secs();
        let wpm = typing.wpm();
        let acc = typing.acc() as u64;
        self.record(running, secs, wpm, acc)
    }

    pub fn wpm_max(&self) -> (r: u64)
        ensures
            r == self@.wpm_max,
    {
        self.wpm_max
    }

    pub fn wpm_plot(&self) -> (r: Vec<(u64, u64)>)
        ensures
            r@ == self@.wpm,
    {
        copy_points(&self.wpm_plot)
    }

    pub fn acc_plot(&self) -> (r: Vec<(u64, u64)>)
        ensures
            r@ == self@.acc,
    {
        copy_points(&self.acc_plot)
    }
}

} // verus!
