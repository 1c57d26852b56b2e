use vstd::prelude::*;

verus! {

/// Mathematical picture of one line of the passage and how far it has been typed.
pub struct LineView {
    pub index: nat,
    pub text: Seq<char>,
    pub cursor: nat,
    pub errors: Seq<bool>,
}

impl LineView {
    /// A freshly built line: nothing typed and no mistakes recorded.
    pub open spec fn fresh(index: nat, text: Seq<char>) -> LineView {
        LineView { index, text, cursor: 0, errors: Seq::new(text.len(), |i: int| false) }
    }

    pub open spec fn wf(self) -> bool {
        &&& self.cursor <= self.text.len()
        &&& self.errors.len() == self.text.len()
    }

    pub open spec fn complete(self) -> bool {
        self.cursor == self.text.len()
    }

    /// Consume the character under the cursor, marking it as a mistake when `correct` is false.
    /// A complete line is left as it is.
    pub open spec fn advanced(self, correct: bool) -> LineView {
        if self.cursor < self.text.len() {
            LineView {
                cursor: self.cursor + 1,
                errors: if correct { self.errors } else { self.errors.update(self.cursor as int, true) },
                ..self
            }
        } else {
            self
        }
    }
}

/// One line of the passage with its typing progress.
pub struct Line {
    pub index: usize,
    pub text: Vec<char>,
    pub cursor: usize,
    pub errors: Vec<bool>,
}

impl View for Line {
    type V = LineView;

    open spec fn view(&self) -> LineView {
        LineView {
            index: self.index as nat,
            text: self.text@,
            cursor: self.cursor as nat,
            errors: self.errors@,
        }
    }
}

impl Line {
    pub fn new(index: usize, text: Vec<char>) -> (r: Line)
        ensures
            r@ == LineView::fresh(index as nat, text@),
            r@.wf(),
    {
        let mut errors: Vec<bool> = Vec::new();
        let n = text.len();
        while errors.len() < n
            invariant
                n == text@.len(),
                errors@.len() <= n,
                forall|i: int| 0 <= i < errors@.len() ==> !errors@[i],
            decreases n - errors@.len(),
        {
            errors.push(false);
        }
        let r = Line { index, text, cursor: 0, errors };
        assert(r@.errors =~= LineView::fresh(index as nat, r.text@).errors);
        r
    }

    /// Move past the character under the cursor, recording a mistake when `correct` is false.
    pub fn advance(&mut self, correct: bool)
        requires
            old(self)@.wf(),
        ensures
            final(self)@ == old(self)@.advanced(correct),
            final(self)@.wf(),
    {
        if self.cursor < self.text.len() {
            if !correct {
                self.errors.set(self.cursor, true);
            }
            self.cursor = self.cursor + 1;
        }
    }

    pub fn is_complete(&self) -> (r: bool)
        requires
            self@.wf(),
        ensures
            r == self@.complete(),
    {
        self.cursor == self.text.len()
    }

    /// 1-based position of the line in the passage.
    pub fn line_no(&self) -> (r: usize)
        ensures
            r == self.index,
    {
        self.index
    }

    /// The character under the cursor, if the line is not complete.
    pub fn current_char(&self) -> (r: Option<char>)
        requires
            self@.wf(),
        ensures
            r == (if self@.complete() { None } else { Some(self@.text[self@.cursor as int]) }),
    {
        if self.cursor < self.text.len() {
            Some(self.text[self.cursor])
        } else {
            None
        }
    }

    /// Whether the already typed position `i` was entered wrongly.
    pub fn is_error_at(&self, i: usize) -> (r: bool)
        requires
            self@.wf(),
        ensures
            r == (i < self@.cursor && self@.errors[i as int]),
    {
        i < self.cursor && self.errors[i]
    }

    /// The characters consumed so far.
    pub fn entered_text(&self) -> (r: Vec<char>)
        requires
            self@.wf(),
        ensures
            r@ == self@.text.subrange(0, self@.cursor as int),
    {
        slice_chars(&self.text, 0, self.cursor)
    }

    /// The character under the cursor, or nothing once the line is complete.
    pub fn current_text(&self) -> (r: Vec<char>)
        requires
            self@.wf(),
        ensures
            r@ == (if self@.complete() { Seq::<char>::empty() } else {
                self@.text.subrange(self@.cursor as int, self@.cursor + 1 as int)
            }),
    {
        if self.cursor < self.text.len() {
            slice_chars(&self.text, self.cursor, self.cursor + 1)
        } else {
            Vec::new()
        }
    }

    /// The characters after the one under the cursor.
    pub fn rest_text(&self) -> (r: Vec<char>)
        requires
            self@.wf(),
        ensures
            r@ == (if self@.complete() { Seq::<char>::empty() } else {
                self@.text.subrange(self@.cursor + 1 as int, self@.text.len() as int)
            }),
    {
        if self.cursor < self.text.len() {
            slice_chars(&self.text, self.cursor + 1, self.text.len())
        } else {
            Vec::new()
        }
    }
}

/// Where a line stands relative to the line being typed.
#[derive(Clone, Copy, Debug, PartialEq, Eq, Structural)]
pub enum LineRole {
    /// Before the current line.
    Behind,
    /// The line being typed.
    Current,
    /// After the current line.
    Ahead,
}

/// The role of the line numbered `line_no` (from 1) when the line at index `current` (from 0)
/// is being typed.
pub fn line_role(line_no: usize, current: usize) -> (r: LineRole)
    ensures
        r == (if line_no == current + 1 {
            LineRole::Current
        } else if line_no > current + 1 {
            LineRole::Ahead
        } else {
            LineRole::Behind
        }),
{
    if line_no == 0 {
        LineRole::Behind
    } else if line_no - 1 == current {
        LineRole::Current
    } else if line_no - 1 > current {
        LineRole::Ahead
    } else {
        LineRole::Behind
    }
}

fn slice_chars(v: &Vec<char>, from: usize, to: usize) -> (r: Vec<char>)
    requires
        from <= to <= v@.len(),
    ensures
        r@ == v@.subrange(from as int, to as int),
{
    let mut r: Vec<char> = Vec::new();
    let mut i: usize = from;
    while i < to
        invariant
            from <= i <= to <= v@.len(),
            r@ == v@.subrange(from as int, i as int),
        decreases to - i,
    {
        r.push(v[i]);
        i = i + 1;
        assert(r@ =~= v@.subrange(from as int, i as int));
    }
    r
}

} // verus!
