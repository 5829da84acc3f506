use vstd::prelude::*;

verus! {

/// Relies on `String::push`, which appends one character to the text.
#[verifier::external_body]
fn push_char(s: &mut String, c: char)
    ensures
        final(s)@ == old(s)@.push(c),
{
    s.push(c);
}

/// Returns the given text with its characters in reverse order.
///
/// Total over every input: the empty text comes back empty, and
/// multi-byte characters are kept intact, because the reversal works
/// on characters, never on raw bytes.
pub fn reverse(input: &str) -> (r: String)
    ensures
        r@ == input@.reverse(),
{
    let mut buf: Vec<char> = Vec::new();
    for c in it: input.chars()
        invariant
            buf@ == it.history(),
    {
        buf.push(c);
    }
    assert(buf@ =~= input@);
    let mut out = String::new();
    let mut i: usize = buf.len();
    while i > 0
        invariant
            i <= buf.len(),
            buf@ == input@,
            out@.len() == buf@.len() - i,
            forall|k: int| 0 <= k < out@.len() ==> out@[k] == buf@[buf@.len() - 1 - k],
        decreases i,
    {
        i = i - 1;
        let c = buf[i];
        push_char(&mut out, c);
    }
    proof {
        assert(out@ =~= input@.reverse());
    }
    out
}

/// Reversing a sequence of characters twice gives back the original
/// sequence: character reversal is an involution.
pub proof fn lemma_reverse_involution(s: Seq<char>)
    ensures
        s.reverse().reverse() == s,
{
    assert(s.reverse().reverse() =~= s);
}

} // verus!
