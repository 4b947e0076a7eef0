//! String primitives shared by the rest of the crate. Every routine here is
//! specified over `Seq<char>` and proved against that specification.

use vstd::prelude::*;
use vstd::string::*;

verus! {

/// `p` is a prefix of `s`.
pub open spec fn is_prefix(p: Seq<char>, s: Seq<char>) -> bool {
    p.len() <= s.len() && s.subrange(0, p.len() as int) == p
}

/// `p` is a suffix of `s`.
pub open spec fn is_suffix(p: Seq<char>, s: Seq<char>) -> bool {
    p.len() <= s.len() && s.subrange(s.len() - p.len(), s.len() as int) == p
}

/// `p` occurs in `s` starting at index `i`.
pub open spec fn occurs_at(p: Seq<char>, s: Seq<char>, i: int) -> bool {
    0 <= i && i + p.len() <= s.len() && s.subrange(i, i + p.len()) == p
}

/// `p` occurs somewhere in `s`.
pub open spec fn occurs_in(p: Seq<char>, s: Seq<char>) -> bool {
    exists|i: int| occurs_at(p, s, i)
}

/// ASCII upper-case letters map to lower case; every other character is kept.
pub open spec fn ascii_lower(c: char) -> char {
    if 'A' <= c && c <= 'Z' {
        ((c as u8) + 32u8) as char
    } else {
        c
    }
}

/// Two strings are equal up to the case of their ASCII letters.
pub open spec fn eq_ignore_case(a: Seq<char>, b: Seq<char>) -> bool {
    a.len() == b.len() && forall|i: int| 0 <= i < a.len() ==> ascii_lower(#[trigger] a[i]) == ascii_lower(b[i])
}

/// Number of trailing occurrences of `c` in `s`.
pub open spec fn trailing_run(s: Seq<char>, c: char) -> nat
    decreases s.len(),
{
    if s.len() > 0 && s.last() == c {
        1 + trailing_run(s.drop_last(), c)
    } else {
        0
    }
}

/// Number of leading occurrences of `c` in `s`.
pub open spec fn leading_run(s: Seq<char>, c: char) -> nat
    decreases s.len(),
{
    if s.len() > 0 && s.first() == c {
        1 + leading_run(s.drop_first(), c)
    } else {
        0
    }
}

/// `s` without its trailing run of `c`.
pub open spec fn trim_end(s: Seq<char>, c: char) -> Seq<char> {
    s.subrange(0, s.len() - trailing_run(s, c))
}

/// `s` without its leading run of `c`.
pub open spec fn trim_start(s: Seq<char>, c: char) -> Seq<char> {
    s.subrange(leading_run(s, c) as int, s.len() as int)
}

/// A run of `k` copies of `c` at the end of `s`, preceded by something else
/// (or by nothing), is the whole trailing run.
proof fn lemma_trailing_run_is(s: Seq<char>, c: char, k: nat)
    requires
        k <= s.len(),
        forall|j: int| s.len() - k <= j < s.len() ==> s[j] == c,
        k == s.len() || s[s.len() - k - 1] != c,
    ensures
        trailing_run(s, c) == k,
    decreases k,
{
    if k > 0 {
        let t = s.drop_last();
        assert(s.last() == c);
        assert forall|j: int| t.len() - (k - 1) <= j < t.len() implies t[j] == c by {
            assert(t[j] == s[j]);
        }
        if k - 1 != t.len() {
            assert(t[t.len() - (k - 1) - 1] == s[s.len() - k - 1]);
        }
        lemma_trailing_run_is(t, c, (k - 1) as nat);
    }
}

/// A run of `k` copies of `c` at the start of `s`, followed by something else
/// (or by nothing), is the whole leading run.
proof fn lemma_leading_run_is(s: Seq<char>, c: char, k: nat)
    requires
        k <= s.len(),
        forall|j: int| 0 <= j < k ==> s[j] == c,
        k == s.len() || s[k as int] != c,
    ensures
        leading_run(s, c) == k,
    decreases k,
{
    if k > 0 {
        let t = s.drop_first();
        assert(s.first() == c);
        assert forall|j: int| 0 <= j < k - 1 implies t[j] == c by {
            assert(t[j] == s[j + 1]);
        }
        if k - 1 != t.len() {
            assert(t[k - 1] == s[k as int]);
        }
        lemma_leading_run_is(t, c, (k - 1) as nat);
    }
}

/// The characters of `s`, in order.
pub fn chars_of(s: &str) -> (v: Vec<char>)
    ensures
        v@ == s@,
{
    let n: usize = s.unicode_len();
    let mut v: Vec<char> = Vec::new();
    let mut i: usize = 0;
    while i < n
        invariant
            n == s@.len(),
            i <= n,
            v@ == s@.subrange(0, i as int),
        decreases n - i,
    {
        v.push(s.get_char(i));
        proof {
            assert(v@ =~= s@.subrange(0, i + 1));
        }
        i = i + 1;
    }
    proof {
        assert(v@ =~= s@);
    }
    v
}

fn lower(c: char) -> (r: char)
    ensures
        r == ascii_lower(c),
{
    if 'A' <= c && c <= 'Z' {
        ((c as u8) + 32u8) as char
    } else {
        c
    }
}

fn chars_match_at(s: &Vec<char>, p: &Vec<char>, at: usize) -> (r: bool)
    requires
        at + p@.len() <= s@.len(),
    ensures
        r == occurs_at(p@, s@, at as int),
{
    let m: usize = p.len();
    let n: usize = s.len();
    let mut j: usize = 0;
    while j < m
        invariant
            m == p@.len(),
            n == s@.len(),
            at + m <= n,
            j <= m,
            forall|k: int| 0 <= k < j ==> s@[at + k] == p@[k],
        decreases m - j,
    {
        if s[at + j] != p[j] {
            proof {
                let w = s@.subrange(at as int, at + m);
                assert(w[j as int] == s@[at + j]);
            }
            return false;
        }
        j = j + 1;
    }
    proof {
        assert(s@.subrange(at as int, at + m) =~= p@);
    }
    true
}

/// Whether `s` begins with `p`.
pub fn starts_with(s: &str, p: &str) -> (r: bool)
    ensures
        r == is_prefix(p@, s@),
{
    let sv = chars_of(s);
    let pv = chars_of(p);
    if pv.len() > sv.len() {
        return false;
    }
    chars_match_at(&sv, &pv, 0)
}

/// Whether `s` ends with `p`.
pub fn ends_with(s: &str, p: &str) -> (r: bool)
    ensures
        r == is_suffix(p@, s@),
{
    let sv = chars_of(s);
    let pv = chars_of(p);
    if pv.len() > sv.len() {
        return false;
    }
    chars_match_at(&sv, &pv, sv.len() - pv.len())
}

/// Whether `p` occurs anywhere in `s`.
pub fn contains(s: &str, p: &str) -> (r: bool)
    ensures
        r == occurs_in(p@, s@),
{
    let sv = chars_of(s);
    let pv = chars_of(p);
    if pv.len() > sv.len() {
        return false;
    }
    let last: usize = sv.len() - pv.len();
    let mut i: usize = 0;
    loop
        invariant
            sv@ == s@,
            pv@ == p@,
            last + pv@.len() == sv@.len(),
            i <= last,
            forall|k: int| 0 <= k < i ==> !occurs_at(p@, s@, k),
        decreases last - i,
    {
        if chars_match_at(&sv, &pv, i) {
            return true;
        }
        if i == last {
            return false;
        }
        i = i + 1;
    }
}

/// Whether `a` and `b` are equal up to the case of their ASCII letters.
pub fn eq_ignore_ascii_case(a: &str, b: &str) -> (r: bool)
    ensures
        r == eq_ignore_case(a@, b@),
{
    let av = chars_of(a);
    let bv = chars_of(b);
    if av.len() != bv.len() {
        return false;
    }
    let n: usize = av.len();
    let mut i: usize = 0;
    while i < n
        invariant
            av@ == a@,
            bv@ == b@,
            n == av@.len(),
            n == bv@.len(),
            i <= n,
            forall|k: int| 0 <= k < i ==> ascii_lower(#[trigger] a@[k]) == ascii_lower(b@[k]),
        decreases n - i,
    {
        if lower(av[i]) != lower(bv[i]) {
            return false;
        }
        i = i + 1;
    }
    true
}

/// Whether the two strings hold the same characters.
pub fn same_text(a: &str, b: &str) -> (r: bool)
    ensures
        r == (a@ == b@),
{
    let av = chars_of(a);
    let bv = chars_of(b);
    if av.len() != bv.len() {
        return false;
    }
    let r = chars_match_at(&av, &bv, 0);
    proof {
        assert(av@.subrange(0, av@.len() as int) =~= av@);
    }
    r
}

/// `s` with every trailing `c` removed.
pub fn trim_end_matches(s: &str, c: char) -> (r: String)
    ensures
        r@ == trim_end(s@, c),
{
    let sv = chars_of(s);
    let n: usize = sv.len();
    let mut keep: usize = n;
    while keep > 0 && sv[keep - 1] == c
        invariant
            sv@ == s@,
            n == sv@.len(),
            keep <= n,
            forall|j: int| keep <= j < n ==> s@[j] == c,
        decreases keep,
    {
        keep = keep - 1;
    }
    proof {
        lemma_trailing_run_is(s@, c, (n - keep) as nat);
    }
    String::from_str(s.substring_char(0, keep))
}

/// `s` with every leading `c` removed.
pub fn trim_start_matches(s: &str, c: char) -> (r: String)
    ensures
        r@ == trim_start(s@, c),
{
    let sv = chars_of(s);
    let n: usize = sv.len();
    let mut skip: usize = 0;
    while skip < n && sv[skip] == c
        invariant
            sv@ == s@,
            n == sv@.len(),
            skip <= n,
            forall|j: int| 0 <= j < skip ==> s@[j] == c,
        decreases n - skip,
    {
        skip = skip + 1;
    }
    proof {
        lemma_leading_run_is(s@, c, skip as nat);
    }
    String::from_str(s.substring_char(skip, n))
}

/// The decimal digit for `d`, `0 <= d < 10`.
pub open spec fn digit(d: int) -> char {
    seq!['0', '1', '2', '3', '4', '5', '6', '7', '8', '9'][d]
}

/// Decimal representation of a natural number, without leading zeros.
pub open spec fn decimal_nat(n: nat) -> Seq<char>
    decreases n,
{
    if n < 10 {
        seq![digit(n as int)]
    } else {
        decimal_nat(n / 10).push(digit((n % 10) as int))
    }
}

/// Decimal representation of an integer, with `-` in front of a negative one.
pub open spec fn decimal(n: int) -> Seq<char> {
    if n < 0 {
        seq!['-'] + decimal_nat((-n) as nat)
    } else {
        decimal_nat(n as nat)
    }
}

fn digit_char(d: u64) -> (r: char)
    requires
        d < 10,
    ensures
        r == digit(d as int),
{
    if d == 0 {
        '0'
    } else if d == 1 {
        '1'
    } else if d == 2 {
        '2'
    } else if d == 3 {
        '3'
    } else if d == 4 {
        '4'
    } else if d == 5 {
        '5'
    } else if d == 6 {
        '6'
    } else if d == 7 {
        '7'
    } else if d == 8 {
        '8'
    } else {
        '9'
    }
}

/// The decimal representation of a natural number.
pub fn nat_text(n: u64) -> (r: String)
    ensures
        r@ == decimal_nat(n as nat),
    decreases n,
{
    if n < 10 {
        let mut r = String::new();
        push_char(&mut r, digit_char(n));
        proof {
            assert(r@ =~= seq![digit(n as int)]);
        }
        r
    } else {
        let mut r = nat_text(n / 10);
        push_char(&mut r, digit_char(n % 10));
        r
    }
}

/// The decimal representation of an integer.
pub fn int_text(n: i64) -> (r: String)
    ensures
        r@ == decimal(n as int),
{
    if n < 0 {
        let magnitude: u64 = if n == i64::MIN {
            9223372036854775808u64
        } else {
            (-n) as u64
        };
        let mut r = String::new();
        push_char(&mut r, '-');
        r.append(nat_text(magnitude).as_str());
        proof {
            assert(r@ =~= seq!['-'] + decimal_nat((-n) as nat));
        }
        r
    } else {
        nat_text(n as u64)
    }
}

/// Calls `String::push` of std. The contract claims what its documentation
/// says: the character is appended and nothing else changes.
#[verifier::external_body]
pub(crate) fn push_char(s: &mut String, c: char)
    ensures
        final(s)@ == old(s)@.push(c),
{
    s.push(c)
}

/// `c` as it stands in escaped text: after a backslash where it is special.
pub open spec fn escape_one(c: char, special: Seq<char>) -> Seq<char> {
    if special.contains(c) {
        seq!['\\', c]
    } else {
        seq![c]
    }
}

/// `s` with a backslash in front of every special character.
pub open spec fn escape_text(s: Seq<char>, special: Seq<char>) -> Seq<char>
    decreases s.len(),
{
    if s.len() == 0 {
        Seq::empty()
    } else {
        escape_text(s.drop_last(), special) + escape_one(s.last(), special)
    }
}

/// Whether `c` is one of `set`.
pub fn char_in(c: char, set: &Vec<char>) -> (r: bool)
    ensures
        r == set@.contains(c),
{
    let n: usize = set.len();
    let mut i: usize = 0;
    while i < n
        invariant
            n == set@.len(),
            i <= n,
            forall|k: int| 0 <= k < i ==> set@[k] != c,
        decreases n - i,
    {
        if set[i] == c {
            return true;
        }
        i = i + 1;
    }
    false
}

/// Puts a backslash in front of every special character of `s`.
pub fn escape(s: &str, special: &Vec<char>) -> (r: String)
    ensures
        r@ == escape_text(s@, special@),
{
    let v = chars_of(s);
    let n: usize = v.len();
    let mut r = String::new();
    let mut i: usize = 0;
    while i < n
        invariant
            v@ == s@,
            n == v@.len(),
            i <= n,
            r@ == escape_text(s@.subrange(0, i as int), special@),
        decreases n - i,
    {
        let c = v[i];
        proof {
            let next = s@.subrange(0, i + 1);
            assert(next.drop_last() =~= s@.subrange(0, i as int));
            assert(next.last() == c);
        }
        if char_in(c, special) {
            push_char(&mut r, '\\');
            push_char(&mut r, c);
            proof {
                assert(r@ =~= escape_text(s@.subrange(0, i as int), special@) + seq!['\\', c]);
            }
        } else {
            push_char(&mut r, c);
            proof {
                assert(r@ =~= escape_text(s@.subrange(0, i as int), special@) + seq![c]);
            }
        }
        i = i + 1;
    }
    proof {
        assert(s@.subrange(0, n as int) =~= s@);
    }
    r
}

/// The characters of an optional string.
pub open spec fn opt_text(o: Option<String>) -> Option<Seq<char>> {
    match o {
        Some(s) => Some(s@),
        None => None,
    }
}

/// The concatenation of two strings.
pub fn join2(a: &str, b: &str) -> (r: String)
    ensures
        r@ == a@ + b@,
{
    let mut r = String::from_str(a);
    r.append(b);
    r
}

/// The concatenation of three strings.
pub fn join3(a: &str, b: &str, c: &str) -> (r: String)
    ensures
        r@ == a@ + b@ + c@,
{
    let mut r = String::from_str(a);
    r.append(b);
    r.append(c);
    r
}

} // verus!
