//! Character-sequence helpers shared by the configuration, routing and
//! session modules: Unicode white space, trimming, prefixes, splitting and
//! decimal rendering, each with a specification over `Seq<char>`.

use vstd::prelude::*;

verus! {

/// The Unicode `White_Space` property, which `char::is_whitespace` tests.
pub open spec fn is_white_space(c: char) -> bool {
    let v = c as u32;
    ||| 0x09 <= v <= 0x0d
    ||| v == 0x20
    ||| v == 0x85
    ||| v == 0xa0
    ||| v == 0x1680
    ||| 0x2000 <= v <= 0x200a
    ||| v == 0x2028
    ||| v == 0x2029
    ||| v == 0x202f
    ||| v == 0x205f
    ||| v == 0x3000
}

/// Every character of `s` is white space (so `s.trim()` is empty).
pub open spec fn all_white_space(s: Seq<char>) -> bool {
    forall|i: int| 0 <= i < s.len() ==> is_white_space(#[trigger] s[i])
}

/// Tests the Unicode `White_Space` property of one character.
pub fn is_white_space_char(c: char) -> (b: bool)
    ensures
        b == is_white_space(c),
{
    let v: u32 = c as u32;
    (0x09 <= v && v <= 0x0d) || v == 0x20 || v == 0x85 || v == 0xa0 || v == 0x1680 || (0x2000 <= v
        && v <= 0x200a) || v == 0x2028 || v == 0x2029 || v == 0x202f || v == 0x205f || v == 0x3000
}

/// The characters of `s`, in order.
pub fn chars_of(s: &str) -> (v: Vec<char>)
    ensures
        v@ == s@,
{
    let mut v: Vec<char> = Vec::new();
    for c in it: s.chars()
        invariant
            it.seq() == s@,
            v@ == it.seq().take(it.index() as int),
    {
        v.push(c);
    }
    v
}

/// True when `s` holds nothing but white space.
pub fn is_blank(s: &str) -> (b: bool)
    ensures
        b == all_white_space(s@),
{
    let cs = chars_of(s);
    let mut i: usize = 0;
    while i < cs.len()
        invariant
            cs@ == s@,
            i <= cs.len(),
            forall|j: int| 0 <= j < i ==> is_white_space(#[trigger] cs@[j]),
        decreases cs.len() - i,
    {
        if !is_white_space_char(cs[i]) {
            return false;
        }
        i = i + 1;
    }
    true
}

} // verus!

verus! {

/// A class of characters that trimming removes.
#[derive(Clone, Copy, Debug, PartialEq, Eq)]
pub enum CharClass {
    /// Unicode white space (as `str::trim` removes).
    WhiteSpace,
    /// One given character (as `str::trim_matches(c)` removes).
    Exactly(char),
}

pub open spec fn in_class(cls: CharClass, c: char) -> bool {
    match cls {
        CharClass::WhiteSpace => is_white_space(c),
        CharClass::Exactly(d) => c == d,
    }
}

/// `s` without its leading characters of class `cls`.
pub open spec fn trim_start(s: Seq<char>, cls: CharClass) -> Seq<char>
    decreases s.len(),
{
    if s.len() > 0 && in_class(cls, s[0]) {
        trim_start(s.drop_first(), cls)
    } else {
        s
    }
}

/// `s` without its trailing characters of class `cls`.
pub open spec fn trim_end(s: Seq<char>, cls: CharClass) -> Seq<char>
    decreases s.len(),
{
    if s.len() > 0 && in_class(cls, s.last()) {
        trim_end(s.drop_last(), cls)
    } else {
        s
    }
}

/// `s` without leading and trailing characters of class `cls`.
pub open spec fn trim(s: Seq<char>, cls: CharClass) -> Seq<char> {
    trim_end(trim_start(s, cls), cls)
}

/// `s` begins with `prefix`.
pub open spec fn starts_with(s: Seq<char>, prefix: Seq<char>) -> bool {
    prefix.len() <= s.len() && s.subrange(0, prefix.len() as int) == prefix
}

/// `s` with every leading repetition of `pat` removed (`str::trim_start_matches`).
pub open spec fn trim_start_matches(s: Seq<char>, pat: Seq<char>) -> Seq<char>
    decreases s.len(),
{
    if pat.len() > 0 && starts_with(s, pat) {
        trim_start_matches(s.subrange(pat.len() as int, s.len() as int), pat)
    } else {
        s
    }
}

/// The pieces of `s` between occurrences of `sep` (`str::split(sep)`): a
/// separator in front starts a new empty piece, any other character joins the
/// first piece of the rest.
pub open spec fn split_on(s: Seq<char>, sep: char) -> Seq<Seq<char>>
    decreases s.len(),
{
    if s.len() == 0 {
        seq![Seq::<char>::empty()]
    } else {
        let rest = split_on(s.drop_first(), sep);
        if s[0] == sep {
            seq![Seq::<char>::empty()] + rest
        } else {
            rest.update(0, seq![s[0]] + rest[0])
        }
    }
}

pub open spec fn digit_char(d: nat) -> char {
    if d == 0 { '0' }
    else if d == 1 { '1' }
    else if d == 2 { '2' }
    else if d == 3 { '3' }
    else if d == 4 { '4' }
    else if d == 5 { '5' }
    else if d == 6 { '6' }
    else if d == 7 { '7' }
    else if d == 8 { '8' }
    else { '9' }
}

/// The decimal rendering of `n`, without sign or leading zeros.
pub open spec fn decimal(n: nat) -> Seq<char>
    decreases n,
{
    if n < 10 {
        seq![digit_char(n)]
    } else {
        decimal(n / 10).push(digit_char(n % 10))
    }
}

/// Ten to the power `k`.
pub open spec fn ten_pow(k: nat) -> nat
    decreases k,
{
    if k == 0 {
        1
    } else {
        10 * ten_pow((k - 1) as nat)
    }
}

/// A number below `10^k` has at most `k` decimal digits.
pub proof fn lemma_decimal_len(n: nat, k: nat)
    requires
        1 <= k,
        n < ten_pow(k),
    ensures
        decimal(n).len() <= k,
    decreases k,
{
    if n >= 10 {
        let t = ten_pow((k - 1) as nat);
        if k == 1 {
            assert(ten_pow(0) == 1);
        }
        assert(n / 10 < t) by (nonlinear_arith)
            requires
                n < 10 * t,
        ;
        lemma_decimal_len(n / 10, (k - 1) as nat);
    }
}

/// Without a separator, `s` is a single piece.
pub proof fn lemma_split_on_single(s: Seq<char>, sep: char)
    requires
        forall|i: int| 0 <= i < s.len() ==> s[i] != sep,
    ensures
        split_on(s, sep) == seq![s],
    decreases s.len(),
{
    if s.len() > 0 {
        lemma_split_on_single(s.drop_first(), sep);
        assert(seq![s[0]] + s.drop_first() =~= s);
        assert(split_on(s, sep) =~= seq![s]);
    } else {
        assert(s =~= Seq::<char>::empty());
    }
}

/// A first separator at `k` ends the first piece.
pub proof fn lemma_split_on_first(s: Seq<char>, sep: char, k: int)
    requires
        0 <= k < s.len(),
        s[k] == sep,
        forall|i: int| 0 <= i < k ==> s[i] != sep,
    ensures
        split_on(s, sep) == seq![s.subrange(0, k)] + split_on(s.subrange(k + 1, s.len() as int), sep),
    decreases k,
{
    if k == 0 {
        assert(s.drop_first() =~= s.subrange(1, s.len() as int));
        assert(s.subrange(0, 0) =~= Seq::<char>::empty());
    } else {
        let t = s.drop_first();
        lemma_split_on_first(t, sep, k - 1);
        assert(t.subrange(k, t.len() as int) =~= s.subrange(k + 1, s.len() as int));
        assert(seq![s[0]] + t.subrange(0, k - 1) =~= s.subrange(0, k));
        let rest = split_on(t, sep);
        assert(split_on(s, sep) =~= seq![s.subrange(0, k)] + split_on(
            s.subrange(k + 1, s.len() as int),
            sep,
        ));
    }
}

proof fn lemma_trim_start_step(s: Seq<char>, i: int, cls: CharClass)
    requires
        0 <= i < s.len(),
        in_class(cls, s[i]),
    ensures
        trim_start(s.subrange(i, s.len() as int), cls) == trim_start(
            s.subrange(i + 1, s.len() as int),
            cls,
        ),
{
    let t = s.subrange(i, s.len() as int);
    assert(t.drop_first() =~= s.subrange(i + 1, s.len() as int));
}

proof fn lemma_trim_end_step(s: Seq<char>, lo: int, j: int, cls: CharClass)
    requires
        0 <= lo < j <= s.len(),
        in_class(cls, s[j - 1]),
    ensures
        trim_end(s.subrange(lo, j), cls) == trim_end(s.subrange(lo, j - 1), cls),
{
    let t = s.subrange(lo, j);
    assert(t.drop_last() =~= s.subrange(lo, j - 1));
}

pub fn char_in_class(cls: CharClass, c: char) -> (b: bool)
    ensures
        b == in_class(cls, c),
{
    match cls {
        CharClass::WhiteSpace => is_white_space_char(c),
        CharClass::Exactly(d) => c == d,
    }
}

/// Bounds `(a, b)` with `v[a..b]` equal to `v[lo..hi]` trimmed of class `cls`.
pub fn trim_bounds(v: &Vec<char>, lo: usize, hi: usize, cls: CharClass) -> (r: (usize, usize))
    requires
        lo <= hi <= v.len(),
    ensures
        lo <= r.0 <= r.1 <= hi,
        v@.subrange(r.0 as int, r.1 as int) == trim(v@.subrange(lo as int, hi as int), cls),
{
    let mut a: usize = lo;
    while a < hi && char_in_class(cls, v[a])
        invariant
            lo <= a <= hi <= v.len(),
            trim_start(v@.subrange(lo as int, hi as int), cls) == trim_start(
                v@.subrange(a as int, hi as int),
                cls,
            ),
        decreases hi - a,
    {
        proof {
            lemma_trim_start_step(v@.subrange(lo as int, hi as int), a - lo, cls);
            assert(v@.subrange(lo as int, hi as int).subrange(a - lo, hi - lo) =~= v@.subrange(
                a as int,
                hi as int,
            ));
            assert(v@.subrange(lo as int, hi as int).subrange(a - lo + 1, hi - lo) =~= v@.subrange(
                a + 1,
                hi as int,
            ));
        }
        a = a + 1;
    }
    proof {
        let t = v@.subrange(a as int, hi as int);
        if t.len() > 0 {
            assert(t[0] == v@[a as int]);
        }
        assert(trim_start(t, cls) == t);
    }
    let mut b: usize = hi;
    while b > a && char_in_class(cls, v[b - 1])
        invariant
            lo <= a <= b <= hi <= v.len(),
            trim_end(v@.subrange(a as int, hi as int), cls) == trim_end(
                v@.subrange(a as int, b as int),
                cls,
            ),
        decreases b - a,
    {
        proof {
            lemma_trim_end_step(v@, a as int, b as int, cls);
        }
        b = b - 1;
    }
    proof {
        let t = v@.subrange(a as int, b as int);
        if t.len() > 0 {
            assert(t.last() == v@[b - 1]);
        }
        assert(trim_end(t, cls) == t);
    }
    (a, b)
}

/// Whether `v[lo..hi]` begins with `prefix`.
pub fn has_prefix_at(v: &Vec<char>, lo: usize, hi: usize, prefix: &Vec<char>) -> (b: bool)
    requires
        lo <= hi <= v.len(),
    ensures
        b == starts_with(v@.subrange(lo as int, hi as int), prefix@),
{
    if prefix.len() > hi - lo {
        return false;
    }
    let mut i: usize = 0;
    while i < prefix.len()
        invariant
            lo <= hi <= v.len(),
            prefix.len() <= hi - lo,
            i <= prefix.len(),
            forall|j: int| 0 <= j < i ==> v@[lo + j] == prefix@[j],
        decreases prefix.len() - i,
    {
        if v[lo + i] != prefix[i] {
            proof {
                assert(v@.subrange(lo as int, hi as int).subrange(0, prefix.len() as int)[i as int]
                    != prefix@[i as int]);
            }
            return false;
        }
        i = i + 1;
    }
    proof {
        assert(v@.subrange(lo as int, hi as int).subrange(0, prefix.len() as int) =~= prefix@);
    }
    true
}

/// Start of `v[lo..hi]` with every leading repetition of `pat` removed.
pub fn trim_start_matches_from(v: &Vec<char>, lo: usize, hi: usize, pat: &Vec<char>) -> (k: usize)
    requires
        lo <= hi <= v.len(),
    ensures
        lo <= k <= hi,
        v@.subrange(k as int, hi as int) == trim_start_matches(
            v@.subrange(lo as int, hi as int),
            pat@,
        ),
{
    let mut k: usize = lo;
    if pat.len() == 0 {
        return k;
    }
    while has_prefix_at(v, k, hi, pat)
        invariant
            lo <= k <= hi <= v.len(),
            pat.len() > 0,
            trim_start_matches(v@.subrange(lo as int, hi as int), pat@) == trim_start_matches(
                v@.subrange(k as int, hi as int),
                pat@,
            ),
        decreases hi - k,
    {
        proof {
            let t = v@.subrange(k as int, hi as int);
            assert(t.subrange(pat.len() as int, t.len() as int) =~= v@.subrange(
                k + pat.len(),
                hi as int,
            ));
        }
        k = k + pat.len();
    }
    k
}

/// A `String` holding exactly the characters `v[lo..hi]`: the slice collected
/// through std's `FromIterator<&char> for String`, which vstd leaves
/// unspecified; the contract claims the collected string has those characters.
#[verifier::external_body]
pub fn string_from_range(v: &Vec<char>, lo: usize, hi: usize) -> (s: String)
    requires
        lo <= hi <= v.len(),
    ensures
        s@ == v@.subrange(lo as int, hi as int),
{
    v[lo..hi].iter().collect()
}

/// Appends the decimal rendering of `n` to `out`.
pub fn push_decimal(out: &mut Vec<char>, n: u64)
    ensures
        final(out)@ == old(out)@ + decimal(n as nat),
    decreases n,
{
    if n >= 10 {
        push_decimal(out, n / 10);
    }
    let d: u64 = n % 10;
    let c: char = if d == 0 { '0' }
    else if d == 1 { '1' }
    else if d == 2 { '2' }
    else if d == 3 { '3' }
    else if d == 4 { '4' }
    else if d == 5 { '5' }
    else if d == 6 { '6' }
    else if d == 7 { '7' }
    else if d == 8 { '8' }
    else { '9' };
    out.push(c);
    proof {
        if n >= 10 {
            assert(decimal(n as nat) == decimal((n / 10) as nat).push(digit_char((n % 10) as nat)));
        }
    }
}

/// Appends the characters of `s` to `out`.
pub fn push_str(out: &mut Vec<char>, s: &str)
    ensures
        final(out)@ == old(out)@ + s@,
{
    let cs = chars_of(s);
    let mut i: usize = 0;
    while i < cs.len()
        invariant
            cs@ == s@,
            i <= cs.len(),
            out@ == old(out)@ + cs@.subrange(0, i as int),
        decreases cs.len() - i,
    {
        out.push(cs[i]);
        proof {
            assert(cs@.subrange(0, i + 1) =~= cs@.subrange(0, i as int).push(cs@[i as int]));
        }
        i = i + 1;
    }
    proof {
        assert(cs@.subrange(0, cs.len() as int) =~= cs@);
    }
}

/// Appends `v[lo..hi]` to `out`.
pub fn push_range(out: &mut Vec<char>, v: &Vec<char>, lo: usize, hi: usize)
    requires
        lo <= hi <= v.len(),
    ensures
        final(out)@ == old(out)@ + v@.subrange(lo as int, hi as int),
{
    let mut i: usize = lo;
    while i < hi
        invariant
            lo <= i <= hi <= v.len(),
            out@ == old(out)@ + v@.subrange(lo as int, i as int),
        decreases hi - i,
    {
        out.push(v[i]);
        proof {
            assert(v@.subrange(lo as int, i + 1) =~= v@.subrange(lo as int, i as int).push(
                v@[i as int],
            ));
        }
        i = i + 1;
    }
}

/// A `String` holding exactly the characters of `v`.
pub fn string_of(v: &Vec<char>) -> (s: String)
    ensures
        s@ == v@,
{
    let s = string_from_range(v, 0, v.len());
    proof {
        assert(v@.subrange(0, v@.len() as int) =~= v@);
    }
    s
}

} // verus!

verus! {

/// Whether `a` and `b` hold the same characters.
pub fn str_equal(a: &str, b: &str) -> (r: bool)
    ensures
        r == (a@ == b@),
{
    let x = chars_of(a);
    let y = chars_of(b);
    if x.len() != y.len() {
        return false;
    }
    let mut i: usize = 0;
    while i < x.len()
        invariant
            x@ == a@,
            y@ == b@,
            x.len() == y.len(),
            i <= x.len(),
            forall|j: int| 0 <= j < i ==> x@[j] == y@[j],
        decreases x.len() - i,
    {
        if x[i] != y[i] {
            return false;
        }
        i = i + 1;
    }
    assert(x@ =~= y@);
    true
}

} // verus!

verus! {

/// What `trim_start` leaves does not begin with a character of the class.
pub proof fn lemma_trim_start_first(s: Seq<char>, cls: CharClass)
    ensures
        trim_start(s, cls).len() > 0 ==> !in_class(cls, trim_start(s, cls)[0]),
        trim_start(s, cls).len() <= s.len(),
        trim_start(s, cls) == s.subrange(s.len() - trim_start(s, cls).len(), s.len() as int),
    decreases s.len(),
{
    if s.len() > 0 && in_class(cls, s[0]) {
        lemma_trim_start_first(s.drop_first(), cls);
        let t = trim_start(s.drop_first(), cls);
        assert(s.drop_first().subrange(s.len() - 1 - t.len(), s.len() - 1) =~= s.subrange(
            s.len() - t.len(),
            s.len() as int,
        ));
    } else {
        assert(s.subrange(0, s.len() as int) =~= s);
    }
}

/// What `trim_end` leaves does not end with a character of the class, and is
/// a prefix of the input.
pub proof fn lemma_trim_end_last(s: Seq<char>, cls: CharClass)
    ensures
        trim_end(s, cls).len() > 0 ==> !in_class(cls, trim_end(s, cls).last()),
        trim_end(s, cls).len() <= s.len(),
        trim_end(s, cls) == s.subrange(0, trim_end(s, cls).len() as int),
    decreases s.len(),
{
    if s.len() > 0 && in_class(cls, s.last()) {
        lemma_trim_end_last(s.drop_last(), cls);
        let t = trim_end(s.drop_last(), cls);
        assert(s.drop_last().subrange(0, t.len() as int) =~= s.subrange(0, t.len() as int));
    } else {
        assert(s.subrange(0, s.len() as int) =~= s);
    }
}

/// What `trim` leaves neither begins nor ends with a character of the class.
pub proof fn lemma_trim_ends(s: Seq<char>, cls: CharClass)
    ensures
        trim(s, cls).len() > 0 ==> !in_class(cls, trim(s, cls)[0]) && !in_class(
            cls,
            trim(s, cls).last(),
        ),
{
    let a = trim_start(s, cls);
    lemma_trim_start_first(s, cls);
    lemma_trim_end_last(a, cls);
    let b = trim_end(a, cls);
    if b.len() > 0 {
        assert(b[0] == a[0]);
    }
}

/// A sequence whose ends are outside the class is unchanged by `trim`.
pub proof fn lemma_trim_clean(s: Seq<char>, cls: CharClass)
    requires
        s.len() > 0 ==> !in_class(cls, s[0]) && !in_class(cls, s.last()),
    ensures
        trim(s, cls) == s,
{
}

/// One class character in front of a clean sequence is all that `trim` removes.
pub proof fn lemma_trim_one_in_front(c: char, s: Seq<char>, cls: CharClass)
    requires
        in_class(cls, c),
        s.len() > 0 ==> !in_class(cls, s[0]) && !in_class(cls, s.last()),
    ensures
        trim(seq![c] + s, cls) == s,
{
    let t = seq![c] + s;
    assert(t.drop_first() =~= s);
    assert(trim_start(t, cls) == trim_start(s, cls));
    lemma_trim_clean(s, cls);
}

} // verus!
