//! Character-level text operations used by the URL, cookie and header logic.
//!
//! Every operation is specified over `Seq<char>`, the view of `str` and `String`.
use vstd::prelude::*;

verus! {

broadcast use vstd::string::group_string_axioms;

/// `pat` occurs in `s` starting at position `i`.
pub open spec fn occurs_at(s: Seq<char>, pat: Seq<char>, i: int) -> bool {
    0 <= i <= s.len() && pat.is_prefix_of(s.skip(i))
}

/// `pat` occurs somewhere in `s` (the empty pattern occurs everywhere).
pub open spec fn seq_contains(s: Seq<char>, pat: Seq<char>) -> bool {
    exists|i: int| occurs_at(s, pat, i)
}

/// The position of the leftmost occurrence of `pat` in `s`.
pub open spec fn find_first(s: Seq<char>, pat: Seq<char>) -> Option<int>
    decreases s.len(),
{
    if pat.is_prefix_of(s) {
        Some(0)
    } else if s.len() == 0 {
        None
    } else {
        match find_first(s.skip(1), pat) {
            Some(i) => Some(i + 1),
            None => None,
        }
    }
}

/// `s` with every occurrence of `from` replaced by `to`, scanning from the left and
/// never letting two replaced occurrences overlap.
pub open spec fn replaced(s: Seq<char>, from: Seq<char>, to: Seq<char>) -> Seq<char>
    decreases s.len(),
{
    if s.len() == 0 {
        Seq::empty()
    } else if from.len() > 0 && from.is_prefix_of(s) {
        to + replaced(s.skip(from.len() as int), from, to)
    } else {
        seq![s[0]] + replaced(s.skip(1), from, to)
    }
}

/// What precedes the first occurrence of `pat` (all of `s` when it does not occur).
pub open spec fn before_first(s: Seq<char>, pat: Seq<char>) -> Seq<char> {
    match find_first(s, pat) {
        Some(i) => s.take(i),
        None => s,
    }
}

/// What follows the first occurrence of `pat`, if it occurs.
pub open spec fn after_first(s: Seq<char>, pat: Seq<char>) -> Option<Seq<char>> {
    match find_first(s, pat) {
        Some(i) => Some(s.skip(i + pat.len())),
        None => None,
    }
}

/// The parts joined with `sep` between consecutive parts.
pub open spec fn joined(parts: Seq<Seq<char>>, sep: Seq<char>) -> Seq<char>
    decreases parts.len(),
{
    if parts.len() == 0 {
        Seq::empty()
    } else if parts.len() == 1 {
        parts[0]
    } else {
        joined(parts.drop_last(), sep) + sep + parts.last()
    }
}

/// The decimal digit for `d < 10`.
pub open spec fn digit_char(d: nat) -> char {
    if d == 0 { '0' }
    else if d == 1 { '1' }
    else if d == 2 { '2' }
    else if d == 3 { '3' }
    else if d == 4 { '4' }
    else if d == 5 { '5' }
    else if d == 6 { '6' }
    else if d == 7 { '7' }
    else if d == 8 { '8' }
    else { '9' }
}

/// The decimal notation of `n`, without leading zeros.
pub open spec fn decimal(n: nat) -> Seq<char>
    decreases n,
{
    if n < 10 {
        seq![digit_char(n)]
    } else {
        decimal(n / 10) + seq![digit_char(n % 10)]
    }
}

/// The characters of `s`, in order.
pub fn chars_of(s: &str) -> (v: Vec<char>)
    ensures
        v@ == s@,
{
    let mut v: Vec<char> = Vec::new();
    for c in it: s.chars()
        invariant
            v@ == it.seq().take(it.index() as int),
            it.seq() == s@,
    {
        v.push(c);
    }
    v
}

/// Whether `pat` occurs in `s` at position `i`.
fn matches_at(s: &Vec<char>, pat: &Vec<char>, i: usize) -> (r: bool)
    requires
        i <= s@.len(),
    ensures
        r == pat@.is_prefix_of(s@.skip(i as int)),
{
    if pat.len() > s.len() - i {
        return false;
    }
    let mut k: usize = 0;
    while k < pat.len()
        invariant
            i + pat@.len() <= s@.len(),
            s@.len() <= usize::MAX,
            k <= pat@.len(),
            forall|j: int| 0 <= j < k ==> pat@[j] == s@[i + j],
        decreases pat@.len() - k,
    {
        if pat[k] != s[i + k] {
            assert(pat@[k as int] != s@.skip(i as int).subrange(0, pat@.len() as int)[k as int]);
            return false;
        }
        k = k + 1;
    }
    assert(pat@ =~= s@.skip(i as int).subrange(0, pat@.len() as int));
    true
}

proof fn lemma_find_first_step(s: Seq<char>, pat: Seq<char>, i: int)
    requires
        0 <= i < s.len(),
        !pat.is_prefix_of(s.skip(i)),
    ensures
        find_first(s.skip(i), pat) == match find_first(s.skip(i + 1), pat) {
            Some(k) => Some(k + 1),
            None => None::<int>,
        },
{
    assert(s.skip(i).skip(1) =~= s.skip(i + 1));
}

pub proof fn lemma_find_first_some(s: Seq<char>, pat: Seq<char>)
    ensures
        find_first(s, pat) matches Some(i) ==> 0 <= i <= s.len() && occurs_at(s, pat, i)
            && forall|j: int| 0 <= j < i ==> !occurs_at(s, pat, j),
        find_first(s, pat) is None ==> !seq_contains(s, pat),
    decreases s.len(),
{
    if pat.is_prefix_of(s) {
        assert(s.skip(0) =~= s);
    } else if s.len() == 0 {
        assert forall|j: int| !occurs_at(s, pat, j) by {
            if 0 <= j <= s.len() {
                assert(s.skip(j) =~= s);
            }
        }
    } else {
        lemma_find_first_some(s.skip(1), pat);
        assert(s.skip(0) =~= s);
        assert forall|j: int| 1 <= j <= s.len() implies (occurs_at(s, pat, j) == occurs_at(
            s.skip(1),
            pat,
            j - 1,
        )) by {
            assert(s.skip(1).skip(j - 1) =~= s.skip(j));
        }
    }
}

/// An occurring pattern is found.
pub proof fn lemma_contains_find(s: Seq<char>, pat: Seq<char>)
    ensures
        seq_contains(s, pat) ==> find_first(s, pat) is Some,
{
    lemma_find_first_some(s, pat);
}

/// The position (in characters) of the leftmost occurrence of `pat` in `s`.
pub fn find(s: &str, pat: &str) -> (r: Option<usize>)
    ensures
        r matches Some(i) ==> find_first(s@, pat@) == Some(i as int),
        r is None ==> find_first(s@, pat@) is None,
{
    let sv = chars_of(s);
    let pv = chars_of(pat);
    find_in(&sv, &pv)
}

fn find_in(sv: &Vec<char>, pv: &Vec<char>) -> (r: Option<usize>)
    ensures
        r matches Some(i) ==> find_first(sv@, pv@) == Some(i as int),
        r is None ==> find_first(sv@, pv@) is None,
{
    let mut i: usize = 0;
    assert(sv@.skip(0) =~= sv@);
    while i < sv.len()
        invariant
            i <= sv@.len(),
            find_first(sv@, pv@) == match find_first(sv@.skip(i as int), pv@) {
                Some(k) => Some(k + i),
                None => None::<int>,
            },
        decreases sv@.len() - i,
    {
        if matches_at(sv, pv, i) {
            return Some(i);
        }
        proof {
            lemma_find_first_step(sv@, pv@, i as int);
        }
        i = i + 1;
    }
    assert(sv@.skip(i as int).len() == 0);
    if matches_at(sv, pv, i) {
        Some(i)
    } else {
        None
    }
}

/// Whether `a` and `b` hold the same characters.
pub fn text_eq(a: &str, b: &str) -> (r: bool)
    ensures
        r == (a@ == b@),
{
    let av = chars_of(a);
    let bv = chars_of(b);
    if av.len() != bv.len() {
        return false;
    }
    assert(av@.skip(0) =~= av@);
    let r = matches_at(&av, &bv, 0);
    proof {
        if r {
            assert(bv@ =~= av@);
        }
    }
    r
}

/// Whether `pat` occurs in `s`.
pub fn contains(s: &str, pat: &str) -> (r: bool)
    ensures
        r == seq_contains(s@, pat@),
{
    proof {
        lemma_find_first_some(s@, pat@);
    }
    find(s, pat).is_some()
}

/// Whether `s` begins with `pat`.
pub fn starts_with(s: &str, pat: &str) -> (r: bool)
    ensures
        r == pat@.is_prefix_of(s@),
{
    let sv = chars_of(s);
    let pv = chars_of(pat);
    assert(sv@.skip(0) =~= sv@);
    matches_at(&sv, &pv, 0)
}

/// `s` with every occurrence of the non-empty `from` replaced by `to`, left to right.
pub fn replace_all(s: &str, from: &str, to: &str) -> (r: String)
    requires
        from@.len() > 0,
    ensures
        r@ == replaced(s@, from@, to@),
{
    let sv = chars_of(s);
    let fv = chars_of(from);
    let n = sv.len();
    let mut out = String::new();
    let mut run_start: usize = 0;
    let mut i: usize = 0;
    assert(s@.skip(0) =~= s@);
    assert(s@.subrange(0, 0) =~= Seq::<char>::empty());
    while i < n
        invariant
            n == sv@.len(),
            sv@ == s@,
            fv@ == from@,
            fv@.len() > 0,
            run_start <= i <= n,
            replaced(s@, from@, to@) == out@ + s@.subrange(run_start as int, i as int) + replaced(
                s@.skip(i as int),
                from@,
                to@,
            ),
        decreases n - i,
    {
        let ghost rest = s@.skip(i as int);
        if matches_at(&sv, &fv, i) {
            let piece = s.substring_char(run_start, i);
            out.append(piece);
            out.append(to);
            assert(rest.skip(from@.len() as int) =~= s@.skip(i + from@.len()));
            i = i + fv.len();
            run_start = i;
            assert(s@.subrange(run_start as int, i as int) =~= Seq::<char>::empty());
        } else {
            assert(rest.skip(1) =~= s@.skip(i + 1));
            assert(rest[0] == s@[i as int]);
            assert(s@.subrange(run_start as int, i as int) + seq![s@[i as int]] =~= s@.subrange(
                run_start as int,
                i + 1,
            ));
            i = i + 1;
        }
    }
    let piece = s.substring_char(run_start, n);
    out.append(piece);
    assert(s@.skip(n as int).len() == 0);
    out
}

/// The parts joined with `sep` between consecutive parts.
pub fn join(parts: &Vec<String>, sep: &str) -> (r: String)
    ensures
        r@ == joined(parts.deep_view(), sep@),
{
    let ghost views = parts.deep_view();
    let mut out = String::new();
    let mut i: usize = 0;
    while i < parts.len()
        invariant
            views == parts.deep_view(),
            i <= parts@.len(),
            out@ == joined(views.take(i as int), sep@),
        decreases parts@.len() - i,
    {
        assert(views.take(i + 1).drop_last() =~= views.take(i as int));
        assert(views[i as int] == parts@[i as int]@);
        if i > 0 {
            out.append(sep);
        }
        out.append(parts[i].as_str());
        i = i + 1;
    }
    assert(views.take(parts@.len() as int) =~= views);
    out
}

fn digit_str(d: u64) -> (r: &'static str)
    requires
        d < 10,
    ensures
        r@ == seq![digit_char(d as nat)],
{
    proof {
        reveal_strlit("0");
        reveal_strlit("1");
        reveal_strlit("2");
        reveal_strlit("3");
        reveal_strlit("4");
        reveal_strlit("5");
        reveal_strlit("6");
        reveal_strlit("7");
        reveal_strlit("8");
        reveal_strlit("9");
    }
    if d == 0 { "0" }
    else if d == 1 { "1" }
    else if d == 2 { "2" }
    else if d == 3 { "3" }
    else if d == 4 { "4" }
    else if d == 5 { "5" }
    else if d == 6 { "6" }
    else if d == 7 { "7" }
    else if d == 8 { "8" }
    else { "9" }
}

/// The decimal notation of `n`.
pub fn decimal_string(n: u64) -> (r: String)
    ensures
        r@ == decimal(n as nat),
    decreases n,
{
    if n < 10 {
        String::from_str(digit_str(n))
    } else {
        let mut head = decimal_string(n / 10);
        head.append(digit_str(n % 10));
        head
    }
}

} // verus!
