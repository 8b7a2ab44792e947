//! Small verified helpers over `str`/`String` used across the crate.

use vstd::prelude::*;

verus! {

broadcast use vstd::string::group_string_axioms;

/// The characters of `s`, in order.
pub fn chars_of(s: &str) -> (v: Vec<char>)
    ensures
        v@ == s@,
{
    let mut v: Vec<char> = Vec::new();
    for c in it: s.chars()
        invariant
            v@ == it.seq().take(it.index() as int),
    {
        v.push(c);
    }
    v
}

} // verus!

verus! {

/// Trusted wrapper around `String::push`, which appends one character to the
/// end of the string (std documents exactly that effect).
#[verifier::external_body]
pub fn push_char(s: &mut String, c: char)
    ensures
        final(s)@ == old(s)@.push(c),
{
    s.push(c)
}

/// A `String` holding exactly the characters of `chars`.
pub fn string_from_chars(chars: &[char]) -> (s: String)
    ensures
        s@ == chars@,
{
    let mut s = String::new();
    let n = chars.len();
    let mut i: usize = 0;
    while i < n
        invariant
            n == chars@.len(),
            i <= n,
            s@ == chars@.take(i as int),
        decreases n - i,
    {
        push_char(&mut s, chars[i]);
        proof {
            assert(chars@.take(i as int + 1) =~= chars@.take(i as int).push(chars@[i as int]));
        }
        i += 1;
    }
    proof {
        assert(chars@.take(n as int) =~= chars@);
    }
    s
}

/// Whether two character sequences held in vectors are equal.
pub fn chars_eq(a: &[char], b: &[char]) -> (r: bool)
    ensures
        r == (a@ == b@),
{
    if a.len() != b.len() {
        return false;
    }
    let n = a.len();
    let mut i: usize = 0;
    while i < n
        invariant
            n == a@.len(),
            n == b@.len(),
            i <= n,
            forall|k: int| 0 <= k < i ==> a@[k] == b@[k],
        decreases n - i,
    {
        if a[i] != b[i] {
            return false;
        }
        i += 1;
    }
    proof {
        assert(a@ =~= b@);
    }
    true
}

} // verus!

verus! {

/// `prefix` is a prefix of `s`.
pub open spec fn has_prefix(s: Seq<char>, prefix: Seq<char>) -> bool {
    prefix.len() <= s.len() && s.take(prefix.len() as int) == prefix
}

/// Whether `s` starts with `prefix` (as `str::starts_with` with a `&str`
/// pattern).
pub fn starts_with(s: &str, prefix: &str) -> (b: bool)
    ensures
        b == has_prefix(s@, prefix@),
{
    let sc = chars_of(s);
    let pc = chars_of(prefix);
    if pc.len() > sc.len() {
        return false;
    }
    let n = pc.len();
    let mut i: usize = 0;
    while i < n
        invariant
            sc@ == s@,
            pc@ == prefix@,
            n == pc@.len(),
            n <= sc@.len(),
            i <= n,
            forall|k: int| 0 <= k < i ==> sc@[k] == pc@[k],
        decreases n - i,
    {
        if sc[i] != pc[i] {
            proof {
                assert(sc@.take(n as int)[i as int] == sc@[i as int]);
                assert(sc@.take(n as int)[i as int] != pc@[i as int]);
                assert(sc@.take(n as int) != pc@);
            }
            return false;
        }
        i += 1;
    }
    proof {
        assert(sc@.take(n as int) =~= pc@);
    }
    true
}

} // verus!

verus! {

/// Whether two strings hold the same characters.
pub fn str_eq(a: &str, b: &str) -> (r: bool)
    ensures
        r == (a@ == b@),
{
    let ac = chars_of(a);
    let bc = chars_of(b);
    chars_eq(ac.as_slice(), bc.as_slice())
}

} // verus!

verus! {

/// Append the characters of `t` to `s`.
pub fn push_str(s: &mut String, t: &str)
    ensures
        final(s)@ == old(s)@ + t@,
{
    let tc = chars_of(t);
    let n = tc.len();
    let mut i: usize = 0;
    while i < n
        invariant
            n == tc@.len(),
            tc@ == t@,
            i <= n,
            s@ == old(s)@ + t@.take(i as int),
        decreases n - i,
    {
        push_char(s, tc[i]);
        proof {
            assert(t@.take(i as int + 1) =~= t@.take(i as int).push(t@[i as int]));
        }
        i += 1;
    }
    proof {
        assert(t@.take(n as int) =~= t@);
    }
}

/// `a` followed by `b`, as a new string.
pub fn concat(a: &str, b: &str) -> (r: String)
    ensures
        r@ == a@ + b@,
{
    let mut r = a.to_owned();
    push_str(&mut r, b);
    r
}

/// The characters of `s` after its first `k`, as a new string.
pub fn suffix_from(s: &str, k: usize) -> (r: String)
    requires
        k <= s@.len(),
    ensures
        r@ == s@.subrange(k as int, s@.len() as int),
{
    let sc = chars_of(s);
    let mut r = String::new();
    let n = sc.len();
    let mut i: usize = k;
    while i < n
        invariant
            n == sc@.len(),
            sc@ == s@,
            k <= i <= n,
            r@ == s@.subrange(k as int, i as int),
        decreases n - i,
    {
        push_char(&mut r, sc[i]);
        proof {
            assert(s@.subrange(k as int, i as int + 1) =~= s@.subrange(k as int, i as int).push(
                s@[i as int],
            ));
        }
        i += 1;
    }
    r
}

} // verus!
