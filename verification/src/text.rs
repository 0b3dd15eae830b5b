//! Character-level text operations used throughout the assistant.
//!
//! Strings are modelled by their views, sequences of `char`.
use vstd::prelude::*;

verus! {

// ---------------------------------------------------------------------------
// Specifications
// ---------------------------------------------------------------------------

/// `p` occurs in `s` at index `i`.
pub open spec fn occurs_at(s: Seq<char>, p: Seq<char>, i: int) -> bool {
    0 <= i && i + p.len() <= s.len() && s.subrange(i, i + p.len()) == p
}

/// `p` occurs somewhere in `s` (what `str::contains` answers).
pub open spec fn contains_seq(s: Seq<char>, p: Seq<char>) -> bool {
    exists|i: int| occurs_at(s, p, i)
}

/// `s` ends with `p` (what `str::ends_with` answers).
pub open spec fn ends_with_seq(s: Seq<char>, p: Seq<char>) -> bool {
    p.len() <= s.len() && s.subrange(s.len() - p.len(), s.len() as int) == p
}

/// Every non-overlapping occurrence of the non-empty pattern `p` in `s`,
/// taken from the left, replaced by `r` (what `str::replace` computes).
pub open spec fn replace_all(s: Seq<char>, p: Seq<char>, r: Seq<char>) -> Seq<char>
    recommends
        p.len() > 0,
    decreases s.len(),
{
    if p.len() == 0 || s.len() < p.len() {
        s
    } else if s.take(p.len() as int) == p {
        r + replace_all(s.skip(p.len() as int), p, r)
    } else {
        seq![s[0]] + replace_all(s.skip(1), p, r)
    }
}

/// Lexicographic order on character sequences: `a` sorts before or equal to `b`.
///
/// For valid strings this is the order of `str`'s `Ord`, since UTF-8 keeps
/// the order of code points.
pub open spec fn lex_le(a: Seq<char>, b: Seq<char>) -> bool
    decreases a.len(),
{
    if a.len() == 0 {
        true
    } else if b.len() == 0 {
        false
    } else if a[0] != b[0] {
        (a[0] as int) < (b[0] as int)
    } else {
        lex_le(a.drop_first(), b.drop_first())
    }
}

/// The decimal digit character for `d < 10`.
pub open spec fn digit_char(d: nat) -> char {
    ((d + 48) as u8) as char
}

/// The decimal representation of `n`, without leading zeros.
pub open spec fn decimal(n: nat) -> Seq<char>
    decreases n,
{
    if n < 10 {
        seq![digit_char(n)]
    } else {
        decimal(n / 10).push(digit_char(n % 10))
    }
}

// ---------------------------------------------------------------------------
// Laws about the specifications
// ---------------------------------------------------------------------------

/// `p` occurs in `s` exactly when `s` is something, then `p`, then something.
pub proof fn lemma_contains_split(s: Seq<char>, p: Seq<char>)
    ensures
        contains_seq(s, p) <==> exists|a: Seq<char>, b: Seq<char>| s == #[trigger] (a + p + b),
{
    if contains_seq(s, p) {
        let i = choose|i: int| occurs_at(s, p, i);
        let a = s.take(i);
        let b = s.skip(i + p.len());
        assert(s =~= a + p + b);
    }
    if exists|a: Seq<char>, b: Seq<char>| s == #[trigger] (a + p + b) {
        let (a, b) = choose|a: Seq<char>, b: Seq<char>| s == #[trigger] (a + p + b);
        assert(s.subrange(a.len() as int, a.len() + p.len() as int) =~= p);
        assert(occurs_at(s, p, a.len() as int));
    }
}

/// Where the pattern does not occur, replacing it changes nothing.
pub proof fn lemma_replace_without_match(s: Seq<char>, p: Seq<char>, r: Seq<char>)
    requires
        p.len() > 0,
        !contains_seq(s, p),
    ensures
        replace_all(s, p, r) == s,
    decreases s.len(),
{
    if s.len() >= p.len() {
        assert(s.take(p.len() as int) != p) by {
            if s.take(p.len() as int) == p {
                assert(s.subrange(0, p.len() as int) =~= s.take(p.len() as int));
                assert(occurs_at(s, p, 0));
            }
        }
        let tail = s.skip(1);
        assert(!contains_seq(tail, p)) by {
            if contains_seq(tail, p) {
                let i = choose|i: int| occurs_at(tail, p, i);
                assert(tail.subrange(i, i + p.len()) =~= s.subrange(i + 1, i + 1 + p.len()));
                assert(occurs_at(s, p, i + 1));
            }
        }
        lemma_replace_without_match(tail, p, r);
        assert(seq![s[0]] + tail =~= s);
    }
}

/// Lexicographic order is total.
pub proof fn lemma_lex_total(a: Seq<char>, b: Seq<char>)
    ensures
        lex_le(a, b) || lex_le(b, a),
    decreases a.len(),
{
    if a.len() > 0 && b.len() > 0 {
        if a[0] == b[0] {
            lemma_lex_total(a.drop_first(), b.drop_first());
        } else {
            assert((a[0] as int) != (b[0] as int));
        }
    }
}

/// Lexicographic order is transitive.
pub proof fn lemma_lex_trans(a: Seq<char>, b: Seq<char>, c: Seq<char>)
    requires
        lex_le(a, b),
        lex_le(b, c),
    ensures
        lex_le(a, c),
    decreases a.len(),
{
    if a.len() > 0 && b.len() > 0 && c.len() > 0 && a[0] == b[0] && b[0] == c[0] {
        lemma_lex_trans(a.drop_first(), b.drop_first(), c.drop_first());
    }
}

/// Lexicographic order is reflexive.
pub proof fn lemma_lex_refl(a: Seq<char>)
    ensures
        lex_le(a, a),
    decreases a.len(),
{
    if a.len() > 0 {
        lemma_lex_refl(a.drop_first());
    }
}

/// A common prefix does not change the order of two sequences.
pub proof fn lemma_lex_common_prefix(p: Seq<char>, a: Seq<char>, b: Seq<char>)
    ensures
        lex_le(p + a, p + b) == lex_le(a, b),
    decreases p.len(),
{
    if p.len() > 0 {
        assert((p + a).drop_first() =~= p.drop_first() + a);
        assert((p + b).drop_first() =~= p.drop_first() + b);
        lemma_lex_common_prefix(p.drop_first(), a, b);
    } else {
        assert(p + a =~= a);
        assert(p + b =~= b);
    }
}

/// The number that a string of decimal digits stands for.
pub open spec fn digits_value(s: Seq<char>) -> int
    decreases s.len(),
{
    if s.len() == 0 {
        0
    } else {
        digits_value(s.drop_last()) * 10 + (s.last() as int - 48)
    }
}

/// `decimal(n)` is the usual way to write `n`: a non-empty string of the
/// digits `0` to `9` that stands for `n`, with no leading zero unless `n` is 0.
pub proof fn lemma_decimal_writes_number(n: nat)
    ensures
        decimal(n).len() > 0,
        forall|i: int| 0 <= i < decimal(n).len() ==> 48 <= #[trigger] (decimal(n)[i] as int) <= 57,
        digits_value(decimal(n)) == n,
        n > 0 ==> decimal(n)[0] != '0',
    decreases n,
{
    if n < 10 {
        assert(seq![digit_char(n)].drop_last() =~= Seq::<char>::empty());
        assert(digits_value(Seq::<char>::empty()) == 0);
        assert(digits_value(seq![digit_char(n)]) == 0 * 10 + ((digit_char(n) as int) - 48));
    } else {
        let q = n / 10;
        let r = n % 10;
        lemma_decimal_writes_number(q);
        let d = decimal(q);
        assert(decimal(n) == d.push(digit_char(r)));
        assert(d.push(digit_char(r)).drop_last() =~= d);
        assert(n == q * 10 + r) by (nonlinear_arith)
            requires
                q == n / 10,
                r == n % 10,
        ;
        assert(forall|i: int| 0 <= i < d.len() ==> d.push(digit_char(r))[i] == d[i]);
        assert(digits_value(d.push(digit_char(r))) == digits_value(d) * 10 + ((digit_char(r) as int)
            - 48));
    }
}

/// Ten to the power `w`.
pub open spec fn ten_pow(w: nat) -> nat
    decreases w,
{
    if w == 0 {
        1
    } else {
        10 * ten_pow((w - 1) as nat)
    }
}

/// The last `w` decimal digits of `n`, with leading zeros: `n` written in
/// exactly `w` digits when `n < 10^w`.
pub open spec fn padded(n: nat, w: nat) -> Seq<char>
    decreases w,
{
    if w == 0 {
        Seq::empty()
    } else {
        padded(n / 10, (w - 1) as nat).push(digit_char(n % 10))
    }
}

/// A padded number has exactly `w` digits.
pub proof fn lemma_padded_len(n: nat, w: nat)
    ensures
        padded(n, w).len() == w,
    decreases w,
{
    if w > 0 {
        lemma_padded_len(n / 10, (w - 1) as nat);
    }
}

/// Two sequences that start with parts of the same length compare by those
/// parts, and by what follows where the parts are equal.
pub proof fn lemma_lex_concat(s: Seq<char>, t: Seq<char>, u: Seq<char>, v: Seq<char>)
    requires
        s.len() == t.len(),
    ensures
        lex_le(s + u, t + v) == if s == t {
            lex_le(u, v)
        } else {
            lex_le(s, t)
        },
    decreases s.len(),
{
    if s.len() == 0 {
        assert(s =~= t);
        assert(s + u =~= u);
        assert(t + v =~= v);
    } else {
        assert((s + u)[0] == s[0]);
        assert((t + v)[0] == t[0]);
        assert((s + u).drop_first() =~= s.drop_first() + u);
        assert((t + v).drop_first() =~= t.drop_first() + v);
        lemma_lex_concat(s.drop_first(), t.drop_first(), u, v);
        if s[0] == t[0] {
            if s.drop_first() == t.drop_first() {
                assert forall|i: int| 0 <= i < s.len() implies s[i] == t[i] by {
                    if i > 0 {
                        assert(s[i] == s.drop_first()[i - 1]);
                        assert(t[i] == t.drop_first()[i - 1]);
                    }
                }
                assert(s =~= t);
            } else {
                assert(s != t) by {
                    if s == t {
                        assert(s.drop_first() =~= t.drop_first());
                    }
                }
            }
        }
    }
}

/// Numbers below `10^w` written in `w` digits sort as the numbers do, and
/// are written alike only when equal.
pub proof fn lemma_padded_order(a: nat, b: nat, w: nat)
    requires
        a < ten_pow(w),
        b < ten_pow(w),
    ensures
        lex_le(padded(a, w), padded(b, w)) == (a <= b),
        (padded(a, w) == padded(b, w)) == (a == b),
    decreases w,
{
    if w == 0 {
        assert(a == 0 && b == 0);
    } else {
        let w1 = (w - 1) as nat;
        let (qa, qb, ra, rb) = (a / 10, b / 10, a % 10, b % 10);
        assert(qa < ten_pow(w1) && qb < ten_pow(w1)) by (nonlinear_arith)
            requires
                a < 10 * ten_pow(w1),
                b < 10 * ten_pow(w1),
                qa == a / 10,
                qb == b / 10,
        ;
        lemma_padded_order(qa, qb, w1);
        lemma_padded_len(qa, w1);
        lemma_padded_len(qb, w1);
        let da = seq![digit_char(ra)];
        let db = seq![digit_char(rb)];
        assert(padded(a, w) =~= padded(qa, w1) + da);
        assert(padded(b, w) =~= padded(qb, w1) + db);
        lemma_lex_concat(padded(qa, w1), padded(qb, w1), da, db);
        assert((digit_char(ra) as int) == ra + 48);
        assert((digit_char(rb) as int) == rb + 48);
        assert(lex_le(da, db) == (ra <= rb)) by {
            assert(da.drop_first() =~= Seq::<char>::empty());
            assert(db.drop_first() =~= Seq::<char>::empty());
            assert(lex_le(Seq::<char>::empty(), Seq::<char>::empty()));
            assert(da[0] == digit_char(ra) && db[0] == digit_char(rb));
        }
        assert(a == 10 * qa + ra && b == 10 * qb + rb);
        if padded(a, w) == padded(b, w) {
            assert(padded(a, w).drop_last() =~= padded(qa, w1));
            assert(padded(b, w).drop_last() =~= padded(qb, w1));
            assert(padded(a, w).last() == digit_char(ra));
            assert(padded(b, w).last() == digit_char(rb));
        }
    }
}

// ---------------------------------------------------------------------------
// Trusted pieces of std's `String`
// ---------------------------------------------------------------------------

/// `String::push`: appends one character.
#[verifier::external_body]
pub(crate) fn push_char(s: &mut String, c: char)
    ensures
        final(s)@ == old(s)@.push(c),
{
    s.push(c)
}

/// `String::pop`: removes and returns the last character, if any.
#[verifier::external_body]
pub(crate) fn pop_char(s: &mut String) -> (r: Option<char>)
    ensures
        old(s)@.len() == 0 ==> r is None && final(s)@ == old(s)@,
        old(s)@.len() > 0 ==> r == Some(old(s)@.last()) && final(s)@ == old(s)@.drop_last(),
{
    s.pop()
}

// ---------------------------------------------------------------------------
// Executable operations
// ---------------------------------------------------------------------------

/// The characters of `s`, in order.
pub fn chars_of(s: &str) -> (v: Vec<char>)
    ensures
        v@ == s@,
{
    let mut v: Vec<char> = Vec::new();
    for c in it: s.chars()
        invariant
            v@ == it.seq().take(it.index() as int),
    {
        v.push(c);
    }
    v
}

/// A string holding exactly the characters of `v`.
pub fn string_from_chars(v: &Vec<char>) -> (s: String)
    ensures
        s@ == v@,
{
    let mut s = String::new();
    let n = v.len();
    for i in 0..n
        invariant
            n == v@.len(),
            s@ == v@.take(i as int),
    {
        push_char(&mut s, v[i]);
        assert(v@.take(i as int).push(v@[i as int]) =~= v@.take(i + 1));
    }
    assert(v@.take(n as int) =~= v@);
    s
}

/// The concatenation of `a` and `b`.
pub fn concat_text(a: &str, b: &str) -> (s: String)
    ensures
        s@ == a@ + b@,
{
    let mut s = String::from_str(a);
    s.append(b);
    s
}

/// Whether `p` occurs in `s` at index `i`.
fn matches_at(s: &Vec<char>, p: &Vec<char>, i: usize) -> (b: bool)
    requires
        i + p@.len() <= s@.len(),
    ensures
        b == occurs_at(s@, p@, i as int),
{
    let m = p.len();
    let sl = s.len();
    let mut j: usize = 0;
    while j < m
        invariant
            m == p@.len(),
            sl == s@.len(),
            i + m <= s@.len(),
            j <= m,
            forall|k: int| 0 <= k < j ==> s@[i + k] == p@[k],
        decreases m - j,
    {
        if s[i + j] != p[j] {
            assert(s@.subrange(i as int, i + m)[j as int] != p@[j as int]);
            return false;
        }
        j = j + 1;
    }
    assert(s@.subrange(i as int, i + m) =~= p@);
    true
}

/// Whether `p` occurs in `s`, as `str::contains` answers.
pub fn contains(s: &str, p: &str) -> (b: bool)
    ensures
        b == contains_seq(s@, p@),
{
    let sv = chars_of(s);
    let pv = chars_of(p);
    let n = sv.len();
    let m = pv.len();
    if m > n {
        return false;
    }
    let last = n - m;
    let mut i: usize = 0;
    loop
        invariant
            n == sv@.len(),
            m == pv@.len(),
            last == n - m,
            i <= last,
            sv@ == s@,
            pv@ == p@,
            forall|k: int| 0 <= k < i ==> !occurs_at(s@, p@, k),
        decreases last - i,
    {
        if matches_at(&sv, &pv, i) {
            return true;
        }
        if i == last {
            assert forall|k: int| occurs_at(s@, p@, k) implies false by {
                assert(k <= last);
            }
            return false;
        }
        i = i + 1;
    }
}

/// Whether `s` ends with `p`, as `str::ends_with` answers.
pub fn ends_with(s: &str, p: &str) -> (b: bool)
    ensures
        b == ends_with_seq(s@, p@),
{
    let sv = chars_of(s);
    let pv = chars_of(p);
    if pv.len() > sv.len() {
        return false;
    }
    let r = matches_at(&sv, &pv, sv.len() - pv.len());
    r
}

/// Whether `a` and `b` hold the same characters.
pub fn same_text(a: &str, b: &str) -> (r: bool)
    ensures
        r == (a@ == b@),
{
    let av = chars_of(a);
    let bv = chars_of(b);
    if av.len() != bv.len() {
        return false;
    }
    let n = av.len();
    let mut i: usize = 0;
    while i < n
        invariant
            av@ == a@,
            bv@ == b@,
            n == av@.len(),
            n == bv@.len(),
            i <= n,
            forall|k: int| 0 <= k < i ==> av@[k] == bv@[k],
        decreases n - i,
    {
        if av[i] != bv[i] {
            assert(av@[i as int] != bv@[i as int]);
            return false;
        }
        i = i + 1;
    }
    assert(av@ =~= bv@);
    true
}

/// Whether `a` sorts before or equal to `b`, comparing character by character.
pub fn text_le(a: &str, b: &str) -> (r: bool)
    ensures
        r == lex_le(a@, b@),
{
    let av = chars_of(a);
    let bv = chars_of(b);
    assert(av@.skip(0) =~= av@);
    assert(bv@.skip(0) =~= bv@);
    let mut i: usize = 0;
    while i < av.len() && i < bv.len()
        invariant
            av@ == a@,
            bv@ == b@,
            i <= av@.len(),
            i <= bv@.len(),
            forall|k: int| 0 <= k < i ==> av@[k] == bv@[k],
            lex_le(av@, bv@) == lex_le(av@.skip(i as int), bv@.skip(i as int)),
        decreases av@.len() - i,
    {
        if av[i] != bv[i] {
            let lt = av[i] < bv[i];
            assert(av@.skip(i as int)[0] == av@[i as int]);
            assert(bv@.skip(i as int)[0] == bv@[i as int]);
            assert(av@.skip(i as int).len() > 0 && bv@.skip(i as int).len() > 0);
            return lt;
        }
        assert(av@.skip(i as int).drop_first() =~= av@.skip(i + 1));
        assert(bv@.skip(i as int).drop_first() =~= bv@.skip(i + 1));
        i = i + 1;
    }
    i == av.len()
}

/// `s` with every non-overlapping occurrence of `p`, from the left, replaced
/// by `r`, as `str::replace` computes it.
pub fn replace(s: &str, p: &str, r: &str) -> (out: String)
    requires
        p@.len() > 0,
    ensures
        out@ == replace_all(s@, p@, r@),
{
    let sv = chars_of(s);
    let pv = chars_of(p);
    let rv = chars_of(r);
    let n = sv.len();
    let m = pv.len();
    let mut out: Vec<char> = Vec::new();
    assert(sv@.skip(0) =~= sv@);
    assert(out@ + replace_all(sv@, pv@, rv@) =~= replace_all(sv@, pv@, rv@));
    let mut i: usize = 0;
    while i < n
        invariant
            n == sv@.len(),
            m == pv@.len(),
            m > 0,
            i <= n,
            sv@ == s@,
            pv@ == p@,
            rv@ == r@,
            out@ + replace_all(sv@.skip(i as int), pv@, rv@) == replace_all(sv@, pv@, rv@),
        decreases n - i,
    {
        let ghost rest = sv@.skip(i as int);
        if m <= n - i && matches_at(&sv, &pv, i) {
            assert(rest.take(m as int) =~= sv@.subrange(i as int, i + m));
            assert(rest.skip(m as int) =~= sv@.skip(i + m));
            let mut k: usize = 0;
            let ghost out0 = out@;
            while k < rv.len()
                invariant
                    k <= rv@.len(),
                    out@ == out0 + rv@.take(k as int),
                decreases rv@.len() - k,
            {
                out.push(rv[k]);
                assert(rv@.take(k as int).push(rv@[k as int]) =~= rv@.take(k + 1));
                assert((out0 + rv@.take(k as int)).push(rv@[k as int]) =~= out0 + rv@.take(k + 1));
                k = k + 1;
            }
            assert(rv@.take(rv@.len() as int) =~= rv@);
            assert(out0 + (rv@ + replace_all(sv@.skip(i + m), pv@, rv@)) =~= (out0 + rv@)
                + replace_all(sv@.skip(i + m), pv@, rv@));
            i = i + m;
        } else {
            if m <= n - i {
                assert(rest.take(m as int) =~= sv@.subrange(i as int, i + m));
            }
            assert(rest.skip(1) =~= sv@.skip(i + 1));
            assert(rest[0] == sv@[i as int]);
            let ghost out0 = out@;
            out.push(sv[i]);
            assert(out0 + (seq![sv@[i as int]] + replace_all(sv@.skip(i + 1), pv@, rv@))
                =~= out0.push(sv@[i as int]) + replace_all(sv@.skip(i + 1), pv@, rv@));
            i = i + 1;
        }
    }
    assert(sv@.skip(n as int) =~= Seq::<char>::empty());
    assert(out@ + Seq::<char>::empty() =~= out@);
    string_from_chars(&out)
}

/// The decimal digit character for `d < 10`.
fn digit(d: u64) -> (c: char)
    requires
        d < 10,
    ensures
        c == digit_char(d as nat),
{
    let b: u8 = d as u8 + 48;
    b as char
}

/// The decimal representation of `n`, as `format!("{}", n)` writes it.
pub fn decimal_string(n: u64) -> (s: String)
    ensures
        s@ == decimal(n as nat),
    decreases n,
{
    if n < 10 {
        let mut s = String::new();
        push_char(&mut s, digit(n));
        s
    } else {
        let mut s = decimal_string(n / 10);
        push_char(&mut s, digit(n % 10));
        s
    }
}

/// Appends `n` written in exactly `w` digits, with leading zeros.
pub fn push_padded(s: &mut String, n: u32, w: u32)
    ensures
        final(s)@ == old(s)@ + padded(n as nat, w as nat),
    decreases w,
{
    if w > 0 {
        push_padded(s, n / 10, w - 1);
        push_char(s, digit((n % 10) as u64));
        assert(padded(n as nat, w as nat) =~= padded((n / 10) as nat, (w - 1) as nat).push(
            digit_char((n % 10) as nat),
        ));
    } else {
        assert(old(s)@ + padded(n as nat, 0) =~= old(s)@);
    }
}

} // verus!
