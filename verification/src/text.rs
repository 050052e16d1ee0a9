//! Character-level building blocks: decimal rendering, padding runs,
//! prefix tests and pattern replacement, each with its meaning as a
//! sequence of characters.
use vstd::prelude::*;

verus! {

broadcast use vstd::string::group_string_axioms;

/// The character that writes the decimal digit `d` (for `d < 10`).
pub open spec fn digit_char(d: nat) -> char {
    if d == 0 {
        '0'
    } else if d == 1 {
        '1'
    } else if d == 2 {
        '2'
    } else if d == 3 {
        '3'
    } else if d == 4 {
        '4'
    } else if d == 5 {
        '5'
    } else if d == 6 {
        '6'
    } else if d == 7 {
        '7'
    } else if d == 8 {
        '8'
    } else {
        '9'
    }
}

/// The decimal notation of `n`, without sign or leading zeros
/// (`0` is written as the single digit `'0'`).
pub open spec fn decimal(n: nat) -> Seq<char>
    decreases n,
{
    if n < 10 {
        seq![digit_char(n)]
    } else {
        decimal(n / 10).push(digit_char(n % 10))
    }
}

/// A run of `count` copies of `c`.
pub open spec fn run_of(c: char, count: nat) -> Seq<char> {
    Seq::new(count, |_i: int| c)
}

/// `s` with every leftmost, non-overlapping occurrence of the non-empty
/// `pattern` replaced by `with`; with an empty pattern, `with` is put before
/// every character and at the end, as `str::replace` does.
pub open spec fn replaced(s: Seq<char>, pattern: Seq<char>, with: Seq<char>) -> Seq<char>
    decreases s.len(),
{
    if pattern.len() == 0 {
        if s.len() == 0 {
            with
        } else {
            with + seq![s[0]] + replaced(s.drop_first(), pattern, with)
        }
    } else if s.len() < pattern.len() {
        s
    } else if s.take(pattern.len() as int) == pattern {
        with + replaced(s.skip(pattern.len() as int), pattern, with)
    } else {
        seq![s[0]] + replaced(s.drop_first(), pattern, with)
    }
}

/// Every numeral is at least one digit long, and a numeral of a number
/// below `10^k` has at most `k` digits.
pub proof fn lemma_decimal_len(n: nat)
    ensures
        decimal(n).len() >= 1,
        n < 10 ==> decimal(n).len() == 1,
        n < 100 ==> decimal(n).len() <= 2,
        n < 1000 ==> decimal(n).len() <= 3,
        n >= 10 ==> decimal(n).len() == decimal(n / 10).len() + 1,
    decreases n,
{
    if n >= 10 {
        lemma_decimal_len(n / 10);
    }
}

/// A single-character string.
///
/// Trusted: calls `char::to_string` (std), documented to yield the string
/// holding exactly that character.
#[verifier::external_body]
fn char_string(c: char) -> (s: String)
    ensures
        s@ == seq![c],
{
    c.to_string()
}

/// Appends one character to `s`.
pub fn push_char(s: &mut String, c: char)
    ensures
        final(s)@ == old(s)@.push(c),
{
    let one = char_string(c);
    s.append(one.as_str());
}

/// The characters of `s`, in order.
pub fn chars_of(s: &str) -> (v: Vec<char>)
    ensures
        v@ == s@,
{
    let mut v: Vec<char> = Vec::new();
    for c in it: s.chars()
        invariant
            v@ == it.seq().take(it.index() as int),
    {
        v.push(c);
    }
    v
}

/// The string holding the characters of `v`, in order.
pub fn string_of(v: &Vec<char>) -> (s: String)
    ensures
        s@ == v@,
{
    let mut s = String::new();
    let mut i: usize = 0;
    while i < v.len()
        invariant
            i <= v.len(),
            s@ == v@.take(i as int),
        decreases v.len() - i,
    {
        push_char(&mut s, v[i]);
        assert(v@.take(i as int).push(v@[i as int]) =~= v@.take(i + 1));
        i = i + 1;
    }
    assert(v@.take(v.len() as int) =~= v@);
    s
}

/// The character for a digit value below ten.
pub fn digit_to_char(d: u64) -> (c: char)
    requires
        d < 10,
    ensures
        c == digit_char(d as nat),
{
    if d == 0 {
        '0'
    } else if d == 1 {
        '1'
    } else if d == 2 {
        '2'
    } else if d == 3 {
        '3'
    } else if d == 4 {
        '4'
    } else if d == 5 {
        '5'
    } else if d == 6 {
        '6'
    } else if d == 7 {
        '7'
    } else if d == 8 {
        '8'
    } else {
        '9'
    }
}

/// The decimal notation of `n`, as `u64`'s `Display` writes it.
pub fn decimal_string(n: u64) -> (s: String)
    ensures
        s@ == decimal(n as nat),
    decreases n,
{
    if n < 10 {
        char_string(digit_to_char(n))
    } else {
        let mut s = decimal_string(n / 10);
        push_char(&mut s, digit_to_char(n % 10));
        s
    }
}

} // verus!

verus! {

/// Whether `s` begins with `prefix`.
pub fn starts_with(s: &str, prefix: &str) -> (b: bool)
    ensures
        b == prefix@.is_prefix_of(s@),
{
    let sc = chars_of(s);
    let pc = chars_of(prefix);
    if pc.len() > sc.len() {
        return false;
    }
    let mut i: usize = 0;
    while i < pc.len()
        invariant
            pc@ == prefix@,
            sc@ == s@,
            pc.len() <= sc.len(),
            i <= pc.len(),
            forall|j: int| 0 <= j < i ==> pc@[j] == sc@[j],
        decreases pc.len() - i,
    {
        if pc[i] != sc[i] {
            assert(s@.subrange(0, prefix@.len() as int)[i as int] != prefix@[i as int]);
            return false;
        }
        i = i + 1;
    }
    assert(prefix@ =~= s@.subrange(0, prefix@.len() as int));
    true
}

} // verus!

verus! {

/// Whether `pattern` occurs in `v` at position `i`.
fn occurs_at(v: &Vec<char>, i: usize, pattern: &Vec<char>) -> (b: bool)
    requires
        i <= v.len(),
    ensures
        b == (i + pattern.len() <= v.len() && v@.subrange(i as int, i + pattern.len())
            == pattern@),
{
    if pattern.len() > v.len() - i {
        return false;
    }
    let mut k: usize = 0;
    while k < pattern.len()
        invariant
            i + pattern.len() <= v.len(),
            k <= pattern.len(),
            forall|j: int| 0 <= j < k ==> v@[i + j] == pattern@[j],
        decreases pattern.len() - k,
    {
        if v[i + k] != pattern[k] {
            assert(v@.subrange(i as int, i + pattern.len())[k as int] != pattern@[k as int]);
            return false;
        }
        k = k + 1;
    }
    assert(v@.subrange(i as int, i + pattern.len()) =~= pattern@);
    true
}

/// `s` with `pattern` replaced by `with`, as `str::replace` does it: every
/// leftmost occurrence that does not overlap an earlier one is replaced.
pub fn replace_all(s: &str, pattern: &str, with: &str) -> (r: String)
    ensures
        r@ == replaced(s@, pattern@, with@),
{
    let v = chars_of(s);
    let p = chars_of(pattern);
    let n = v.len();
    let m = p.len();
    let mut out = String::new();
    let mut i: usize = 0;
    assert(s@.skip(0) =~= s@);
    assert(out@ + replaced(s@, pattern@, with@) =~= replaced(s@, pattern@, with@));
    if m == 0 {
        while i < n
            invariant
                v@ == s@,
                p@ == pattern@,
                n == v.len(),
                m == p.len(),
                m == 0,
                i <= n,
                replaced(s@, pattern@, with@) == out@ + replaced(s@.skip(i as int), pattern@, with@),
            decreases n - i,
        {
            let ghost rest = s@.skip(i as int);
            assert(rest.drop_first() =~= s@.skip(i + 1));
            let ghost before = out@;
            out.append(with);
            push_char(&mut out, v[i]);
            assert(out@ =~= before + with@ + seq![rest[0]]);
            assert(replaced(rest, pattern@, with@) == with@ + seq![rest[0]] + replaced(
                rest.drop_first(),
                pattern@,
                with@,
            ));
            assert(before + replaced(rest, pattern@, with@) =~= out@ + replaced(
                s@.skip(i + 1),
                pattern@,
                with@,
            ));
            i = i + 1;
        }
        out.append(with);
        assert(s@.skip(n as int) =~= Seq::<char>::empty());
        return out;
    }
    while i < n
        invariant
            v@ == s@,
            p@ == pattern@,
            n == v.len(),
            m == p.len(),
            m > 0,
            i <= n,
            replaced(s@, pattern@, with@) == out@ + replaced(s@.skip(i as int), pattern@, with@),
        decreases n - i,
    {
        let ghost rest = s@.skip(i as int);
        if occurs_at(&v, i, &p) {
            assert(rest.take(m as int) =~= s@.subrange(i as int, i + m));
            assert(rest.skip(m as int) =~= s@.skip(i + m));
            out.append(with);
            i = i + m;
        } else {
            assert(rest.len() >= m ==> rest.take(m as int) =~= s@.subrange(i as int, i + m));
            assert(rest.drop_first() =~= s@.skip(i + 1));
            proof {
                if rest.len() < m {
                    assert(rest =~= seq![rest[0]] + rest.drop_first());
                }
            }
            let ghost before = out@;
            push_char(&mut out, v[i]);
            assert(out@ =~= before + seq![rest[0]]);
            i = i + 1;
        }
    }
    assert(s@.skip(n as int) =~= Seq::<char>::empty());
    out
}

} // verus!

verus! {

/// Whether `a` and `b` hold the same characters.
pub fn same_text(a: &str, b: &str) -> (same: bool)
    ensures
        same == (a@ == b@),
{
    let ac = chars_of(a);
    let bc = chars_of(b);
    if ac.len() != bc.len() {
        return false;
    }
    let mut i: usize = 0;
    while i < ac.len()
        invariant
            ac@ == a@,
            bc@ == b@,
            ac.len() == bc.len(),
            i <= ac.len(),
            forall|j: int| 0 <= j < i ==> ac@[j] == bc@[j],
        decreases ac.len() - i,
    {
        if ac[i] != bc[i] {
            return false;
        }
        i = i + 1;
    }
    assert(a@ =~= b@);
    true
}

} // verus!

verus! {

/// `pattern` occurs somewhere in `s`.
pub open spec fn occurs_in(s: Seq<char>, pattern: Seq<char>) -> bool {
    exists|i: int|
        0 <= i && i + pattern.len() <= s.len() && #[trigger] s.subrange(i, i + pattern.len())
            == pattern
}

/// Replacing a non-empty pattern that does not occur leaves the text as it
/// is.
pub proof fn lemma_replace_absent(s: Seq<char>, pattern: Seq<char>, with: Seq<char>)
    requires
        pattern.len() > 0,
        !occurs_in(s, pattern),
    ensures
        replaced(s, pattern, with) == s,
    decreases s.len(),
{
    if s.len() >= pattern.len() {
        assert(s.take(pattern.len() as int) =~= s.subrange(0, pattern.len() as int));
        assert(s.subrange(0, 0 + pattern.len() as int) != pattern);
        let rest = s.drop_first();
        assert forall|i: int| 0 <= i && i + pattern.len() <= rest.len() implies #[trigger] rest.subrange(
            i,
            i + pattern.len(),
        ) != pattern by {
            assert(rest.subrange(i, i + pattern.len()) =~= s.subrange(i + 1, i + 1 + pattern.len()));
        }
        lemma_replace_absent(rest, pattern, with);
        assert(seq![s[0]] + rest =~= s);
    }
}

/// Replacing one character by another keeps the length and changes
/// exactly the positions that held the replaced character.
pub proof fn lemma_replace_char(s: Seq<char>, from: char, to: char)
    ensures
        replaced(s, seq![from], seq![to]).len() == s.len(),
        forall|i: int|
            0 <= i < s.len() ==> #[trigger] replaced(s, seq![from], seq![to])[i] == if s[i]
                == from {
                to
            } else {
                s[i]
            },
    decreases s.len(),
{
    if s.len() > 0 {
        let rest = s.drop_first();
        lemma_replace_char(rest, from, to);
        let r = replaced(s, seq![from], seq![to]);
        if s.take(1) == seq![from] {
            assert(s.skip(1) =~= rest);
            assert(s[0] == s.take(1)[0]);
        } else {
            assert(s.take(1) =~= seq![s[0]]);
        }
        assert forall|i: int| 0 <= i < s.len() implies #[trigger] r[i] == if s[i] == from {
            to
        } else {
            s[i]
        } by {
            if i > 0 {
                assert(rest[i - 1] == s[i]);
            }
        }
    }
}

/// The digit characters are the ten consecutive code points from `'0'`:
/// the character of `d` is `'0'` moved forward by `d`.
pub proof fn lemma_digit_char(d: nat)
    requires
        d < 10,
    ensures
        digit_char(d) as u32 == '0' as u32 + d,
{
}

} // verus!
