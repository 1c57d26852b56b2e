use vstd::prelude::*;
use vstd::string::*;

verus! {

/// Colour scheme of the screen.
#[derive(Clone, Copy, Debug, PartialEq, Eq, Structural)]
pub enum Theme {
    Dark,
    Light,
}

fn same_text(a: &str, b: &str) -> (r: bool)
    ensures
        r == (a@ == b@),
{
    let n = a.unicode_len();
    let m = b.unicode_len();
    if n != m {
        return false;
    }
    let mut i: usize = 0;
    while i < n
        invariant
            n == a@.len(),
            m == b@.len(),
            n == m,
            i <= n,
            a@.take(i as int) == b@.take(i as int),
        decreases n - i,
    {
        if a.get_char(i) != b.get_char(i) {
            assert(a@[i as int] != b@[i as int]);
            return false;
        }
        assert(a@.take(i as int + 1) =~= a@.take(i as int).push(a@[i as int]));
        assert(b@.take(i as int + 1) =~= b@.take(i as int).push(b@[i as int]));
        i = i + 1;
    }
    assert(a@ =~= a@.take(n as int));
    assert(b@ =~= b@.take(n as int));
    true
}

impl Theme {
    /// `"light"` names the light scheme; every other name gives the dark one.
    pub fn new(theme: &str) -> (r: Theme)
        ensures
            r == (if theme@ == "light"@ { Theme::Light } else { Theme::Dark }),
    {
        if same_text(theme, "light") {
            Theme::Light
        } else {
            Theme::Dark
        }
    }
}

} // verus!
