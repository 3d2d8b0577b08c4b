use vstd::prelude::*;

verus! {

/// `n` copies of `ch`.
pub open spec fn repeat_char(ch: char, n: nat) -> Seq<char> {
    Seq::new(n, |_i: int| ch)
}

/// Relies on `String::push`: the character is added at the end.
#[verifier::external_body]
pub(crate) fn push_char(s: &mut String, ch: char)
    ensures
        final(s)@ == old(s)@.push(ch),
{
    s.push(ch)
}

/// A string of `n` copies of `ch`.
pub(crate) fn repeated(ch: char, n: usize) -> (r: String)
    ensures
        r@ == repeat_char(ch, n as nat),
{
    let mut r = String::new();
    let mut i: usize = 0;
    while i < n
        invariant
            i <= n,
            r@ == repeat_char(ch, i as nat),
        decreases n - i,
    {
        push_char(&mut r, ch);
        i += 1;
        assert(r@ =~= repeat_char(ch, i as nat));
    }
    r
}

} // verus!
