//! Character-indexed string editing helpers.
//!
//! The edit text of the input state machine is changed one character at a
//! time; these helpers rebuild the string so that every edit is described
//! over the string's character sequence.
use vstd::prelude::*;

verus! {

/// `s` with `c` inserted before character position `i`.
pub open spec fn insert_char_spec(s: Seq<char>, i: int, c: char) -> Seq<char> {
    s.take(i).push(c) + s.skip(i)
}

/// `s` without the character at position `i`.
pub open spec fn remove_char_spec(s: Seq<char>, i: int) -> Seq<char> {
    s.take(i) + s.skip(i + 1)
}

/// `n` copies of `c`.
pub open spec fn repeat_char_spec(c: char, n: nat) -> Seq<char> {
    Seq::new(n, |i: int| c)
}

/// Relies on `String::push`: appends exactly the given character.
pub assume_specification[ String::push ](s: &mut String, c: char)
    ensures
        final(s)@ == old(s)@.push(c),
;

/// Build the string that is `s` with `c` inserted before character
/// position `i`.
pub fn string_insert_char(s: &str, i: usize, c: char) -> (r: String)
    requires
        i <= s@.len(),
    ensures
        r@ == insert_char_spec(s@, i as int, c),
{
    let len = s.unicode_len();
    let mut out = String::new();
    let mut k: usize = 0;
    while k < i
        invariant
            k <= i <= len,
            len == s@.len(),
            out@ == s@.take(k as int),
        decreases i - k,
    {
        out.push(s.get_char(k));
        proof {
            assert(out@ =~= s@.take(k as int + 1));
        }
        k = k + 1;
    }
    out.push(c);
    let mut k: usize = i;
    while k < len
        invariant
            i <= k <= len,
            len == s@.len(),
            out@ == s@.take(i as int).push(c) + s@.subrange(i as int, k as int),
        decreases len - k,
    {
        out.push(s.get_char(k));
        proof {
            assert(out@ =~= s@.take(i as int).push(c) + s@.subrange(i as int, k as int + 1));
        }
        k = k + 1;
    }
    proof {
        assert(out@ =~= insert_char_spec(s@, i as int, c));
    }
    out
}

/// Build the string that is `s` without the character at position `i`.
pub fn string_remove_char(s: &str, i: usize) -> (r: String)
    requires
        i < s@.len(),
    ensures
        r@ == remove_char_spec(s@, i as int),
{
    let len = s.unicode_len();
    let mut out = String::new();
    let mut k: usize = 0;
    while k < i
        invariant
            k <= i < len,
            len == s@.len(),
            out@ == s@.take(k as int),
        decreases i - k,
    {
        out.push(s.get_char(k));
        proof {
            assert(out@ =~= s@.take(k as int + 1));
        }
        k = k + 1;
    }
    let mut k: usize = i + 1;
    while k < len
        invariant
            i + 1 <= k <= len,
            len == s@.len(),
            out@ == s@.take(i as int) + s@.subrange(i as int + 1, k as int),
        decreases len - k,
    {
        out.push(s.get_char(k));
        proof {
            assert(out@ =~= s@.take(i as int) + s@.subrange(i as int + 1, k as int + 1));
        }
        k = k + 1;
    }
    proof {
        assert(out@ =~= remove_char_spec(s@, i as int));
    }
    out
}

/// Build the string of `n` copies of `c`.
pub fn repeat_char(c: char, n: usize) -> (r: String)
    ensures
        r@ == repeat_char_spec(c, n as nat),
{
    let mut out = String::new();
    let mut k: usize = 0;
    while k < n
        invariant
            k <= n,
            out@ == repeat_char_spec(c, k as nat),
        decreases n - k,
    {
        out.push(c);
        proof {
            assert(out@ =~= repeat_char_spec(c, k as nat + 1));
        }
        k = k + 1;
    }
    out
}

} // verus!
