use vstd::prelude::*;

verus! {

/// Relies on String::push from std: appends the given character to the
/// end of the string, with no other effect.
pub assume_specification[ String::push ](s: &mut String, ch: char)
    ensures
        final(s)@ == old(s)@.push(ch),
;

/// Builds a `String` holding exactly the characters of `chars`, in order.
pub fn chars_to_string(chars: &Vec<char>) -> (r: String)
    ensures
        r@ == chars@,
{
    let mut r = String::new();
    let mut i: usize = 0;
    while i < chars.len()
        invariant
            i <= chars@.len(),
            r@ == chars@.take(i as int),
        decreases chars@.len() - i,
    {
        r.push(chars[i]);
        proof {
            assert(chars@.take(i as int).push(chars@[i as int]) =~= chars@.take(i + 1 as int));
        }
        i = i + 1;
    }
    proof {
        assert(chars@.take(chars@.len() as int) =~= chars@);
    }
    r
}

/// Builds a `String` of `n` copies of `mask`: what a password prompt shows
/// in place of its buffer.
pub fn masked_string(n: usize, mask: char) -> (r: String)
    ensures
        r@.len() == n,
        forall|i: int| 0 <= i < n ==> r@[i] == mask,
{
    let mut r = String::new();
    let mut i: usize = 0;
    while i < n
        invariant
            i <= n,
            r@.len() == i,
            forall|j: int| 0 <= j < i ==> r@[j] == mask,
        decreases n - i,
    {
        r.push(mask);
        i = i + 1;
    }
    r
}

/// The number of newline characters in `s`.
pub open spec fn spec_newlines(s: Seq<char>) -> nat
    decreases s.len(),
{
    if s.len() == 0 {
        0
    } else {
        spec_newlines(s.drop_last()) + if s.last() == '\n' {
            1nat
        } else {
            0nat
        }
    }
}

proof fn lemma_newlines_le_len(s: Seq<char>)
    ensures
        spec_newlines(s) <= s.len(),
    decreases s.len(),
{
    if s.len() > 0 {
        lemma_newlines_le_len(s.drop_last());
    }
}

/// Counts the lines of a frame: one more than the number of newline
/// characters, so that a frame without a trailing newline still counts
/// its last, unterminated line.
pub fn line_count(text: &str) -> (r: usize)
    requires
        text@.len() < usize::MAX,
    ensures
        r == 1 + spec_newlines(text@),
{
    let n = text.unicode_len();
    let mut count: usize = 0;
    let mut i: usize = 0;
    while i < n
        invariant
            n == text@.len() < usize::MAX,
            i <= n,
            count == spec_newlines(text@.take(i as int)),
            count <= i,
        decreases n - i,
    {
        let c = text.get_char(i);
        proof {
            assert(text@.take(i + 1 as int).drop_last() =~= text@.take(i as int));
            assert(text@.take(i + 1 as int).last() == text@[i as int]);
        }
        if c == '\n' {
            count = count + 1;
        }
        i = i + 1;
    }
    proof {
        assert(text@.take(n as int) =~= text@);
        lemma_newlines_le_len(text@);
    }
    count + 1
}

} // verus!
