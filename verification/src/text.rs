//! Checks and transforms on text: a minimal e-mail shape check, and the
//! per-line transform of an uppercasing stream adapter.

use vstd::prelude::*;
use vstd::std_specs::iter::IteratorSpec;

verus! {

/// Membership in a sequence extended by one element.
proof fn lemma_push_contains(s: Seq<char>, v: char, x: char)
    ensures
        s.push(v).contains(x) == (s.contains(x) || v == x),
{
    if s.contains(x) {
        let i = choose|i: int| 0 <= i < s.len() && s[i] == x;
        assert(s.push(v)[i] == x);
    }
    if v == x {
        assert(s.push(v)[s.len() as int] == x);
    }
    if s.push(v).contains(x) && v != x {
        let i = choose|i: int| 0 <= i < s.push(v).len() && s.push(v)[i] == x;
        if i < s.len() {
            assert(s[i] == x);
        }
    }
}

/// A minimal shape check for an e-mail address: it is non-empty and
/// holds an `@` somewhere.
pub fn is_email_valid(email: &str) -> (r: bool)
    ensures
        r == (email@.len() > 0 && email@.contains('@')),
{
    let mut it = email.chars();
    let mut found = false;
    let ghost mut k: int = 0;
    loop
        invariant
            0 <= k <= email@.len(),
            it.remaining() =~= email@.skip(k),
            found == email@.take(k).contains('@'),
        ensures
            found == email@.contains('@'),
        decreases email@.len() - k,
    {
        match it.next() {
            Some(c) => {
                proof {
                    assert(email@.skip(k)[0] == email@[k]);
                    assert(email@.take(k + 1) =~= email@.take(k).push(email@[k]));
                    lemma_push_contains(email@.take(k), email@[k], '@');
                    assert(email@.skip(k).drop_first() =~= email@.skip(k + 1));
                    k = k + 1;
                }
                if c == '@' {
                    found = true;
                }
            },
            None => {
                proof {
                    assert(email@.take(k) =~= email@);
                }
                break;
            },
        }
    }
    proof {
        if email@.len() == 0 {
            assert(!email@.contains('@'));
        }
    }
    found
}

/// What `str::to_uppercase` maps a sequence of characters to.
pub uninterp spec fn upper_of(s: Seq<char>) -> Seq<char>;

/// Relies on `str::to_uppercase`: the result is a function of the
/// characters alone, and an empty string stays empty.
#[verifier::external_body]
fn to_upper(s: &str) -> (r: String)
    ensures
        r@ == upper_of(s@),
        s@.len() == 0 ==> r@.len() == 0,
{
    s.to_uppercase()
}

/// One line of the uppercasing stream adapter: the line uppercased, with
/// a newline appended.
pub fn upper_line(line: &str) -> (r: String)
    ensures
        r@ == upper_of(line@).push('\n'),
{
    let mut s = to_upper(line);
    s.append("\n");
    proof {
        reveal_strlit("\n");
        assert(upper_of(line@) + "\n"@ =~= upper_of(line@).push('\n'));
    }
    s
}

} // verus!
