//! Character-level text primitives with their mathematical meaning.
//!
//! Every function here works on the `Seq<char>` view of a string: the
//! exact spec functions (`trim`, `split_on`, `lines`, ...) say what a
//! result is, and the executable functions are proved against them.
use vstd::prelude::*;
use vstd::std_specs::iter::IteratorSpec;

verus! {

broadcast use vstd::string::group_string_axioms;

// ---------------------------------------------------------------------
// Specifications
// ---------------------------------------------------------------------
/// Unicode `White_Space`, which is what `char::is_whitespace` tests.
pub open spec fn is_ws(c: char) -> bool {
    let u = c as u32;
    ||| 9 <= u <= 13
    ||| u == 32
    ||| u == 0x85
    ||| u == 0xA0
    ||| u == 0x1680
    ||| 0x2000 <= u <= 0x200A
    ||| u == 0x2028
    ||| u == 0x2029
    ||| u == 0x202F
    ||| u == 0x205F
    ||| u == 0x3000
}

/// `s` without its leading whitespace.
pub open spec fn trim_start(s: Seq<char>) -> Seq<char>
    decreases s.len(),
{
    if s.len() > 0 && is_ws(s[0]) {
        trim_start(s.drop_first())
    } else {
        s
    }
}

/// `s` without its trailing whitespace.
pub open spec fn trim_end(s: Seq<char>) -> Seq<char>
    decreases s.len(),
{
    if s.len() > 0 && is_ws(s.last()) {
        trim_end(s.drop_last())
    } else {
        s
    }
}

/// `s` without leading and trailing whitespace (`str::trim`).
pub open spec fn trim(s: Seq<char>) -> Seq<char> {
    trim_end(trim_start(s))
}

/// `s` begins with `p`.
pub open spec fn starts_with(s: Seq<char>, p: Seq<char>) -> bool {
    p.len() <= s.len() && s.take(p.len() as int) == p
}

/// `s` ends with `p`.
pub open spec fn ends_with(s: Seq<char>, p: Seq<char>) -> bool {
    p.len() <= s.len() && s.skip(s.len() - p.len()) == p
}

/// `p` occurs in `s` at position `i`.
pub open spec fn occurs_at(s: Seq<char>, p: Seq<char>, i: int) -> bool {
    0 <= i && i + p.len() <= s.len() && s.subrange(i, i + p.len()) == p
}

/// `p` occurs somewhere in `s` (`str::contains`).
pub open spec fn contains(s: Seq<char>, p: Seq<char>) -> bool {
    exists|i: int| occurs_at(s, p, i)
}

/// Position of the first occurrence of `p` in `s` (`str::find`).
#[verifier::opaque]
pub open spec fn find(s: Seq<char>, p: Seq<char>) -> Option<int> {
    if contains(s, p) {
        Some(choose|i: int| occurs_at(s, p, i) && forall|j: int| 0 <= j < i ==> !occurs_at(s, p, j))
    } else {
        None
    }
}

/// The pieces of `s` separated by `c` (`str::split` with a char pattern).
pub open spec fn split_on(s: Seq<char>, c: char) -> Seq<Seq<char>>
    decreases s.len(),
{
    if s.len() == 0 {
        seq![Seq::<char>::empty()]
    } else {
        let rest = split_on(s.drop_first(), c);
        if s[0] == c {
            seq![Seq::<char>::empty()] + rest
        } else {
            rest.update(0, seq![s[0]] + rest[0])
        }
    }
}

/// A line taken up to its `\n` loses one trailing `\r`.
pub open spec fn strip_cr(s: Seq<char>) -> Seq<char> {
    if s.len() > 0 && s.last() == '\r' {
        s.drop_last()
    } else {
        s
    }
}

/// The lines of `s` (`str::lines`): pieces between `\n`, each that ended in
/// `\n` without one trailing `\r`, and no final empty piece.
pub open spec fn lines(s: Seq<char>) -> Seq<Seq<char>> {
    let p = split_on(s, '\n');
    let n = p.len() as int;
    Seq::new((n - 1) as nat, |i: int| strip_cr(p[i])) + if p[n - 1].len() == 0 {
        Seq::<Seq<char>>::empty()
    } else {
        seq![p[n - 1]]
    }
}

/// ASCII lower-casing of one character (`char::to_ascii_lowercase`).
pub open spec fn lower_char(c: char) -> char {
    if 65 <= (c as u32) <= 90 {
        ((c as u32) + 32) as char
    } else {
        c
    }
}

/// ASCII lower-casing (`str::to_ascii_lowercase`).
pub open spec fn lower(s: Seq<char>) -> Seq<char> {
    s.map_values(|c: char| lower_char(c))
}

/// ASCII upper-casing of one character (`char::to_ascii_uppercase`).
pub open spec fn upper_char(c: char) -> char {
    if 97 <= (c as u32) <= 122 {
        ((c as u32) - 32) as char
    } else {
        c
    }
}

/// ASCII upper-casing (`str::to_ascii_uppercase`).
pub open spec fn upper(s: Seq<char>) -> Seq<char> {
    s.map_values(|c: char| upper_char(c))
}

/// The pieces of `parts` joined with `sep` between them (`[String]::join`).
pub open spec fn join(parts: Seq<Seq<char>>, sep: Seq<char>) -> Seq<char>
    decreases parts.len(),
{
    if parts.len() == 0 {
        Seq::empty()
    } else if parts.len() == 1 {
        parts[0]
    } else {
        join(parts.drop_last(), sep) + sep + parts.last()
    }
}

/// The views of a sequence of strings.
pub open spec fn views(v: Seq<String>) -> Seq<Seq<char>> {
    v.map_values(|s: String| s@)
}

/// The view of an optional string.
pub open spec fn opt_string_view(o: Option<String>) -> Option<Seq<char>> {
    match o {
        Some(s) => Some(s@),
        None => None,
    }
}

/// Decimal digits of `n` (`usize::to_string`).
pub open spec fn decimal(n: nat) -> Seq<char>
    decreases n,
{
    if n < 10 {
        seq![digit_char(n)]
    } else {
        decimal(n / 10) + seq![digit_char(n % 10)]
    }
}

pub open spec fn digit_char(d: nat) -> char {
    ((48 + d) as u32) as char
}

pub open spec fn is_digit(c: char) -> bool {
    48 <= (c as u32) <= 57
}

/// The number written by the decimal digits `s`.
pub open spec fn digits_value(s: Seq<char>) -> nat
    decreases s.len(),
{
    if s.len() == 0 {
        0
    } else {
        digits_value(s.drop_last()) * 10 + ((s.last() as u32) - 48) as nat
    }
}

/// `s` without one leading `+`.
pub open spec fn sign_stripped(s: Seq<char>) -> Seq<char> {
    if s.len() > 0 && s[0] == '+' {
        s.drop_first()
    } else {
        s
    }
}

/// Every character of `d` is an ASCII digit.
pub open spec fn all_digits(d: Seq<char>) -> bool {
    forall|i: int| 0 <= i < d.len() ==> is_digit(#[trigger] d[i])
}

/// What `str::parse::<usize>` gives on `s`: an optional `+`, then at least
/// one digit and nothing else, with a value that fits in `usize`.
pub open spec fn parse_usize(s: Seq<char>) -> Option<nat> {
    let d = sign_stripped(s);
    if d.len() > 0 && all_digits(d) && digits_value(d) <= usize::MAX {
        Some(digits_value(d))
    } else {
        None
    }
}

/// `str::split_once`: the parts before and after the first `p`.
pub open spec fn split_once(s: Seq<char>, p: Seq<char>) -> Option<(Seq<char>, Seq<char>)> {
    match find(s, p) {
        Some(i) => Some((s.take(i), s.skip(i + p.len()))),
        None => None,
    }
}

/// `str::trim_start_matches` with a string pattern: every leading copy of `p` removed.
pub open spec fn strip_prefix_all(s: Seq<char>, p: Seq<char>) -> Seq<char>
    decreases s.len(),
{
    if p.len() > 0 && starts_with(s, p) {
        strip_prefix_all(s.skip(p.len() as int), p)
    } else {
        s
    }
}

/// `str::trim_start_matches(c)`.
pub open spec fn strip_leading_char(s: Seq<char>, c: char) -> Seq<char>
    decreases s.len(),
{
    if s.len() > 0 && s[0] == c {
        strip_leading_char(s.drop_first(), c)
    } else {
        s
    }
}

/// `str::trim_end_matches(c)`.
pub open spec fn strip_trailing_char(s: Seq<char>, c: char) -> Seq<char>
    decreases s.len(),
{
    if s.len() > 0 && s.last() == c {
        strip_trailing_char(s.drop_last(), c)
    } else {
        s
    }
}

// ---------------------------------------------------------------------
// Lemmas
// ---------------------------------------------------------------------
/// One more element of the input adds at most one element to a `filter_map`.
pub proof fn lemma_filter_map_step<A, B>(s: Seq<A>, f: spec_fn(A) -> Option<B>, i: int)
    requires
        0 <= i < s.len(),
    ensures
        s.take(i + 1).filter_map(f) == match f(s[i]) {
            Some(b) => s.take(i).filter_map(f).push(b),
            None => s.take(i).filter_map(f),
        },
{
    assert(s.take(i + 1).drop_last() =~= s.take(i));
    assert(s.take(i + 1).last() == s[i]);
    match f(s[i]) {
        Some(b) => {
            assert(s.take(i).filter_map(f) + seq![b] =~= s.take(i).filter_map(f).push(b));
        },
        None => {},
    }
}

pub proof fn lemma_split_on_len(s: Seq<char>, c: char)
    ensures
        split_on(s, c).len() >= 1,
    decreases s.len(),
{
    if s.len() > 0 {
        lemma_split_on_len(s.drop_first(), c);
    }
}

/// Without `c`, `s` is one piece.
pub proof fn lemma_split_on_none(s: Seq<char>, c: char)
    requires
        forall|i: int| 0 <= i < s.len() ==> s[i] != c,
    ensures
        split_on(s, c) == seq![s],
    decreases s.len(),
{
    if s.len() > 0 {
        lemma_split_on_none(s.drop_first(), c);
        assert(seq![s[0]] + s.drop_first() =~= s);
        assert(split_on(s, c) =~= seq![s]);
    } else {
        assert(s =~= Seq::<char>::empty());
    }
}

/// The first `c` in `s`, at `k`, ends the first piece.
pub proof fn lemma_split_on_first(s: Seq<char>, c: char, k: int)
    requires
        0 <= k < s.len(),
        s[k] == c,
        forall|i: int| 0 <= i < k ==> s[i] != c,
    ensures
        split_on(s, c) == seq![s.take(k)] + split_on(s.skip(k + 1), c),
    decreases k,
{
    if k == 0 {
        assert(s.drop_first() =~= s.skip(1));
        assert(s.take(0) =~= Seq::<char>::empty());
    } else {
        let t = s.drop_first();
        assert forall|i: int| 0 <= i < k - 1 implies t[i] != c by {
            assert(t[i] == s[i + 1]);
        }
        lemma_split_on_first(t, c, k - 1);
        assert(t.skip(k) =~= s.skip(k + 1));
        lemma_split_on_len(t.skip(k), c);
        assert(seq![s[0]] + t.take(k - 1) =~= s.take(k));
        assert(split_on(s, c) =~= seq![s.take(k)] + split_on(s.skip(k + 1), c));
    }
}

/// Text that is not empty has at least one line.
pub proof fn lemma_lines_nonempty(s: Seq<char>)
    requires
        s.len() > 0,
    ensures
        lines(s).len() >= 1,
{
    lemma_split_on_len(s.drop_first(), '\n');
    let p = split_on(s, '\n');
    assert(p.len() >= 2 || p[0].len() > 0);
}

pub proof fn lemma_trim_start_stops(s: Seq<char>)
    requires
        s.len() == 0 || !is_ws(s[0]),
    ensures
        trim_start(s) == s,
{
}

pub proof fn lemma_trim_end_stops(s: Seq<char>)
    requires
        s.len() == 0 || !is_ws(s.last()),
    ensures
        trim_end(s) == s,
{
}

/// What `trim_start` leaves begins with no whitespace.
pub proof fn lemma_trim_start_clean(s: Seq<char>)
    ensures
        trim_start(s).len() == 0 || !is_ws(trim_start(s)[0]),
        trim_start(s).len() <= s.len(),
        trim_start(s) == s.skip(s.len() - trim_start(s).len()),
    decreases s.len(),
{
    if s.len() > 0 && is_ws(s[0]) {
        lemma_trim_start_clean(s.drop_first());
        assert(trim_start(s) == trim_start(s.drop_first()));
        assert(s.drop_first().skip(s.drop_first().len() - trim_start(s).len()) =~= s.skip(
            s.len() - trim_start(s).len(),
        ));
    } else {
        assert(s.skip(0) =~= s);
    }
}

/// What `trim_end` leaves is a prefix of its argument and ends with no
/// whitespace.
pub proof fn lemma_trim_end_clean(s: Seq<char>)
    ensures
        trim_end(s).len() == 0 || !is_ws(trim_end(s).last()),
        trim_end(s).len() <= s.len(),
        trim_end(s) == s.take(trim_end(s).len() as int),
    decreases s.len(),
{
    if s.len() > 0 && is_ws(s.last()) {
        lemma_trim_end_clean(s.drop_last());
        assert(s.drop_last().take(trim_end(s).len() as int) =~= s.take(trim_end(s).len() as int));
    } else {
        assert(s.take(s.len() as int) =~= s);
    }
}

/// Trimming twice trims no more than trimming once.
pub proof fn lemma_trim_idempotent(s: Seq<char>)
    ensures
        trim(trim(s)) == trim(s),
{
    let t = trim_start(s);
    let u = trim_end(t);
    lemma_trim_start_clean(s);
    lemma_trim_end_clean(t);
    if u.len() > 0 {
        assert(u[0] == t[0]);
        lemma_trim_start_stops(u);
    } else {
        lemma_trim_start_stops(u);
    }
    lemma_trim_end_stops(u);
}

pub proof fn lemma_decimal_nonempty(n: nat)
    ensures
        decimal(n).len() >= 1,
    decreases n,
{
    if n >= 10 {
        lemma_decimal_nonempty(n / 10);
    }
}

// ---------------------------------------------------------------------
// Executable functions
// ---------------------------------------------------------------------
/// Calls `String::push`: the string gains `c` at its end.
#[verifier::external_body]
pub(crate) fn push_char(s: &mut String, c: char)
    ensures
        final(s)@ == old(s)@.push(c),
{
    s.push(c);
}

/// The characters of a string slice, in order.
pub fn chars_of(s: &str) -> (res: Vec<char>)
    ensures
        res@ == s@,
{
    let mut res: Vec<char> = Vec::new();
    for c in it: s.chars()
        invariant
            it.seq() == s@,
            res@ == s@.take(it.index() as int),
    {
        res.push(c);
    }
    assert(res@ =~= s@);
    res
}

/// A copy of a string slice as an owned string.
pub fn owned(s: &str) -> (res: String)
    ensures
        res@ == s@,
{
    s.to_owned()
}

/// The characters `v[lo..hi]` as a string.
pub fn string_of_range(v: &Vec<char>, lo: usize, hi: usize) -> (res: String)
    requires
        lo <= hi <= v.len(),
    ensures
        res@ == v@.subrange(lo as int, hi as int),
{
    let mut res = String::new();
    let mut i = lo;
    while i < hi
        invariant
            lo <= i <= hi <= v.len(),
            res@ == v@.subrange(lo as int, i as int),
        decreases hi - i,
    {
        push_char(&mut res, v[i]);
        assert(v@.subrange(lo as int, i as int).push(v@[i as int]) =~= v@.subrange(
            lo as int,
            i + 1,
        ));
        i = i + 1;
    }
    res
}

/// All characters of `v` as a string.
pub fn string_of(v: &Vec<char>) -> (res: String)
    ensures
        res@ == v@,
{
    let r = string_of_range(v, 0, v.len());
    assert(v@.subrange(0, v@.len() as int) =~= v@);
    r
}

/// `a` followed by `b`.
pub fn cat(a: &str, b: &str) -> (res: String)
    ensures
        res@ == a@ + b@,
{
    let s = a.to_owned();
    s.concat(b)
}

/// `a`, then `b`, then `c`.
pub fn cat3(a: &str, b: &str, c: &str) -> (res: String)
    ensures
        res@ == a@ + b@ + c@,
{
    let s = a.to_owned();
    let s = s.concat(b);
    s.concat(c)
}

/// Whether `c` is whitespace (`char::is_whitespace`).
pub fn is_whitespace(c: char) -> (res: bool)
    ensures
        res == is_ws(c),
{
    let u = c as u32;
    (9 <= u && u <= 13) || u == 32 || u == 0x85 || u == 0xA0 || u == 0x1680 || (0x2000 <= u && u
        <= 0x200A) || u == 0x2028 || u == 0x2029 || u == 0x202F || u == 0x205F || u == 0x3000
}

/// Bounds of the trimmed part of `v[lo..hi]`.
pub fn trim_range(v: &Vec<char>, lo: usize, hi: usize) -> (r: (usize, usize))
    requires
        lo <= hi <= v.len(),
    ensures
        lo <= r.0 <= r.1 <= hi,
        v@.subrange(r.0 as int, r.1 as int) == trim(v@.subrange(lo as int, hi as int)),
        v@.subrange(r.0 as int, hi as int) == trim_start(v@.subrange(lo as int, hi as int)),
{
    let mut a = lo;
    while a < hi && is_whitespace(v[a])
        invariant
            lo <= a <= hi <= v.len(),
            trim_start(v@.subrange(lo as int, hi as int)) == trim_start(
                v@.subrange(a as int, hi as int),
            ),
        decreases hi - a,
    {
        assert(v@.subrange(a as int, hi as int).drop_first() =~= v@.subrange(a + 1, hi as int));
        a = a + 1;
    }
    proof {
        lemma_trim_start_stops(v@.subrange(a as int, hi as int));
    }
    let mut b = hi;
    while b > a && is_whitespace(v[b - 1])
        invariant
            lo <= a <= b <= hi <= v.len(),
            trim_end(v@.subrange(a as int, hi as int)) == trim_end(
                v@.subrange(a as int, b as int),
            ),
        decreases b - a,
    {
        assert(v@.subrange(a as int, b as int).drop_last() =~= v@.subrange(a as int, b - 1));
        b = b - 1;
    }
    proof {
        lemma_trim_end_stops(v@.subrange(a as int, b as int));
    }
    (a, b)
}

/// `str::trim`, as an owned string.
pub fn trimmed(s: &str) -> (res: String)
    ensures
        res@ == trim(s@),
{
    let v = chars_of(s);
    let (a, b) = trim_range(&v, 0, v.len());
    assert(v@.subrange(0, v@.len() as int) =~= v@);
    string_of_range(&v, a, b)
}

/// `str::trim_end`, as an owned string.
pub fn trimmed_end(s: &str) -> (res: String)
    ensures
        res@ == trim_end(s@),
{
    let v = chars_of(s);
    let mut b = v.len();
    assert(v@.subrange(0, v@.len() as int) =~= v@);
    while b > 0 && is_whitespace(v[b - 1])
        invariant
            b <= v.len(),
            trim_end(v@) == trim_end(v@.subrange(0, b as int)),
        decreases b,
    {
        assert(v@.subrange(0, b as int).drop_last() =~= v@.subrange(0, b - 1));
        b = b - 1;
    }
    proof {
        assert(v@.subrange(0, v@.len() as int) =~= v@);
        lemma_trim_end_stops(v@.subrange(0, b as int));
    }
    string_of_range(&v, 0, b)
}

/// Whether the trimmed `s` is empty (`s.trim().is_empty()`).
pub fn is_blank(s: &str) -> (res: bool)
    ensures
        res == (trim(s@).len() == 0),
{
    let t = trimmed(s);
    t.as_str().unicode_len() == 0
}

/// `v[i..i + p.len()] == p`.
pub fn matches_at(v: &Vec<char>, i: usize, p: &Vec<char>) -> (res: bool)
    ensures
        res == occurs_at(v@, p@, i as int),
{
    if i > v.len() || p.len() > v.len() - i {
        return false;
    }
    let mut k: usize = 0;
    while k < p.len()
        invariant
            i + p.len() <= v.len(),
            k <= p.len(),
            forall|j: int| 0 <= j < k ==> v@[i + j] == p@[j],
        decreases p.len() - k,
    {
        if v[i + k] != p[k] {
            return false;
        }
        k = k + 1;
    }
    assert(v@.subrange(i as int, i + p.len()) =~= p@);
    true
}

/// The first position at or after `from` where `p` occurs in `v`.
pub fn find_from(v: &Vec<char>, from: usize, p: &Vec<char>) -> (res: Option<usize>)
    requires
        from <= v.len(),
    ensures
        match res {
            Some(i) => from <= i && occurs_at(v@, p@, i as int) && forall|j: int|
                from <= j < i ==> !occurs_at(v@, p@, j),
            None => forall|j: int| from <= j ==> !occurs_at(v@, p@, j),
        },
{
    if p.len() == 0 {
        assert(v@.subrange(from as int, from as int) =~= p@);
        return Some(from);
    }
    let mut i = from;
    while i <= v.len() && p.len() <= v.len() - i
        invariant
            from <= i,
            p.len() > 0,
            forall|j: int| from <= j < i ==> !occurs_at(v@, p@, j),
        decreases v.len() + 1 - i,
    {
        if matches_at(v, i, p) {
            return Some(i);
        }
        i = i + 1;
    }
    None
}

/// The first occurrence of `p` in `v` (`str::find`).
pub fn find_first(v: &Vec<char>, p: &Vec<char>) -> (res: Option<usize>)
    ensures
        match res {
            Some(i) => find(v@, p@) == Some(i as int) && occurs_at(v@, p@, i as int),
            None => find(v@, p@) is None,
        },
{
    let r = find_from(v, 0, p);
    proof {
        reveal(find);
    }
    match r {
        Some(i) => {
            assert(contains(v@, p@));
            let ghost w = choose|k: int|
                occurs_at(v@, p@, k) && forall|j: int| 0 <= j < k ==> !occurs_at(v@, p@, j);
            assert(occurs_at(v@, p@, w) && forall|j: int| 0 <= j < w ==> !occurs_at(v@, p@, j));
            assert(w == i as int) by {
                if w < i {
                } else if w > i {
                }
            }
        },
        None => {
            assert(!contains(v@, p@));
        },
    }
    r
}

/// Whether `p` occurs in `s` (`str::contains`).
pub fn contains_str(s: &str, p: &str) -> (res: bool)
    ensures
        res == contains(s@, p@),
{
    let v = chars_of(s);
    let q = chars_of(p);
    let r = find_from(&v, 0, &q);
    match r {
        Some(i) => true,
        None => {
            assert(!contains(s@, p@));
            false
        },
    }
}

/// Whether `s` begins with `p` (`str::starts_with`).
pub fn starts_with_str(s: &str, p: &str) -> (res: bool)
    ensures
        res == starts_with(s@, p@),
{
    let v = chars_of(s);
    let q = chars_of(p);
    let r = matches_at(&v, 0, &q);
    assert(r == starts_with(s@, p@)) by {
        if q.len() <= v.len() {
            assert(v@.subrange(0, q@.len() as int) =~= v@.take(q@.len() as int));
        }
    }
    r
}

/// Whether `s` ends with `p` (`str::ends_with`).
pub fn ends_with_str(s: &str, p: &str) -> (res: bool)
    ensures
        res == ends_with(s@, p@),
{
    let v = chars_of(s);
    let q = chars_of(p);
    if q.len() > v.len() {
        return false;
    }
    let r = matches_at(&v, v.len() - q.len(), &q);
    assert(r == ends_with(s@, p@)) by {
        assert(v@.subrange(v@.len() - q@.len(), v@.len() as int) =~= v@.skip(
            v@.len() - q@.len(),
        ));
    }
    r
}

/// Whether two string slices hold the same characters.
pub fn str_eq(a: &str, b: &str) -> (res: bool)
    ensures
        res == (a@ == b@),
{
    let v = chars_of(a);
    let w = chars_of(b);
    if v.len() != w.len() {
        return false;
    }
    let r = matches_at(&v, 0, &w);
    if r {
        assert(v@ =~= w@);
    } else {
        assert(v@.subrange(0, w@.len() as int) =~= v@);
    }
    r
}

/// `r` marks out, in order, where each of `pieces` lies in `v`.
pub open spec fn ranges_match(v: Seq<char>, pieces: Seq<Seq<char>>, r: Seq<(usize, usize)>) -> bool {
    &&& r.len() == pieces.len()
    &&& forall|i: int|
        0 <= i < r.len() ==> {
            &&& (#[trigger] r[i]).0 <= r[i].1 <= v.len()
            &&& v.subrange(r[i].0 as int, r[i].1 as int) == pieces[i]
        }
}

/// Ranges of the pieces of `v` between occurrences of `c`.
pub fn split_ranges(v: &Vec<char>, c: char) -> (res: Vec<(usize, usize)>)
    ensures
        ranges_match(v@, split_on(v@, c), res@),
{
    let mut res: Vec<(usize, usize)> = Vec::new();
    assert(v@.skip(0) =~= v@);
    assert(res@.map_values(|r: (usize, usize)| v@.subrange(r.0 as int, r.1 as int)) =~= Seq::<
        Seq<char>,
    >::empty());
    let mut st: usize = 0;
    let mut i: usize = 0;
    while i < v.len()
        invariant
            st <= i <= v.len(),
            forall|k: int| st <= k < i ==> v@[k] != c,
            split_on(v@, c) == res@.map_values(
                |r: (usize, usize)| v@.subrange(r.0 as int, r.1 as int),
            ) + split_on(v@.skip(st as int), c),
            forall|k: int| 0 <= k < res@.len() ==> (#[trigger] res@[k]).0 <= res@[k].1 <= v.len(),
        decreases v.len() - i,
    {
        if v[i] == c {
            let ghost t = v@.skip(st as int);
            proof {
                assert forall|k: int| 0 <= k < i - st implies t[k] != c by {
                    assert(t[k] == v@[st + k]);
                }
                lemma_split_on_first(t, c, i - st);
                assert(t.take(i - st) =~= v@.subrange(st as int, i as int));
                assert(t.skip(i - st + 1) =~= v@.skip(i + 1));
            }
            let ghost before = res@;
            res.push((st, i));
            assert(forall|k: int| 0 <= k < before.len() ==> res@[k] == before[k]);
            assert(res@[res@.len() - 1] == (st, i));
            proof {
                assert(res@.map_values(|r: (usize, usize)| v@.subrange(r.0 as int, r.1 as int))
                    =~= old_map_push(v@, res@));
            }
            st = i + 1;
        }
        i = i + 1;
    }
    proof {
        let t = v@.skip(st as int);
        assert forall|k: int| 0 <= k < t.len() implies t[k] != c by {
            assert(t[k] == v@[st + k]);
        }
        lemma_split_on_none(t, c);
        assert(t =~= v@.subrange(st as int, v@.len() as int));
    }
    res.push((st, v.len()));
    proof {
        let m = res@.map_values(|r: (usize, usize)| v@.subrange(r.0 as int, r.1 as int));
        assert(split_on(v@, c) =~= m);
    }
    res
}

spec fn old_map_push(v: Seq<char>, res: Seq<(usize, usize)>) -> Seq<Seq<char>> {
    res.drop_last().map_values(|r: (usize, usize)| v.subrange(r.0 as int, r.1 as int)).push(
        v.subrange(res.last().0 as int, res.last().1 as int),
    )
}

/// The pieces of `s` separated by `c` (`str::split(c)`), as strings.
pub fn split_char(s: &str, c: char) -> (res: Vec<String>)
    ensures
        views(res@) == split_on(s@, c),
{
    let v = chars_of(s);
    let ranges = split_ranges(&v, c);
    let mut res: Vec<String> = Vec::new();
    let mut i: usize = 0;
    while i < ranges.len()
        invariant
            i <= ranges.len(),
            ranges_match(v@, split_on(v@, c), ranges@),
            views(res@) == split_on(v@, c).take(i as int),
        decreases ranges.len() - i,
    {
        let (a, b) = ranges[i];
        assert(ranges@[i as int].0 <= ranges@[i as int].1 <= v.len());
        let piece = string_of_range(&v, a, b);
        assert(piece@ == split_on(v@, c)[i as int]);
        let ghost before = res@;
        res.push(piece);
        assert(views(res@) =~= views(before).push(piece@));
        assert(views(res@) =~= split_on(v@, c).take(i + 1));
        i = i + 1;
    }
    assert(split_on(v@, c).take(i as int) =~= split_on(v@, c));
    res
}

/// The lines of `s` (`str::lines`), as strings.
pub fn lines_of(s: &str) -> (res: Vec<String>)
    ensures
        views(res@) == lines(s@),
{
    let v = chars_of(s);
    let ranges = split_ranges(&v, '\n');
    proof {
        lemma_split_on_len(v@, '\n');
    }
    let n = ranges.len();
    let ghost p = split_on(v@, '\n');
    let mut res: Vec<String> = Vec::new();
    let mut i: usize = 0;
    while i + 1 < n
        invariant
            n == ranges@.len(),
            n == p.len(),
            n >= 1,
            i < n,
            p == split_on(v@, '\n'),
            ranges_match(v@, p, ranges@),
            views(res@) == Seq::new(i as nat, |k: int| strip_cr(p[k])),
        decreases n - i,
    {
        let (a, b) = ranges[i];
        assert(ranges@[i as int].0 <= ranges@[i as int].1 <= v.len());
        let e = if b > a && v[b - 1] == '\r' {
            b - 1
        } else {
            b
        };
        let piece = string_of_range(&v, a, e);
        proof {
            if b > a && v@[b - 1] == '\r' {
                assert(v@.subrange(a as int, b as int).drop_last() =~= v@.subrange(
                    a as int,
                    b - 1,
                ));
            }
        }
        assert(piece@ == strip_cr(p[i as int]));
        let ghost before = res@;
        res.push(piece);
        assert(views(res@) =~= views(before).push(piece@));
        assert(views(res@) =~= Seq::new((i + 1) as nat, |k: int| strip_cr(p[k])));
        i = i + 1;
    }
    let (a, b) = ranges[n - 1];
    assert(ranges@[n - 1].0 <= ranges@[n - 1].1 <= v.len());
    if b > a {
        let last = string_of_range(&v, a, b);
        res.push(last);
    }
    assert(views(res@) =~= lines(s@));
    res
}

/// `c.to_ascii_lowercase()`.
pub fn lower_char_exec(c: char) -> (res: char)
    ensures
        res == lower_char(c),
{
    let u = c as u32;
    if 65 <= u && u <= 90 {
        ((u + 32) as u8) as char
    } else {
        c
    }
}

/// `s.to_ascii_lowercase()`.
pub fn lowercase(s: &str) -> (res: String)
    ensures
        res@ == lower(s@),
{
    let v = chars_of(s);
    let mut res = String::new();
    let mut i: usize = 0;
    while i < v.len()
        invariant
            i <= v.len(),
            res@ == lower(v@.take(i as int)),
        decreases v.len() - i,
    {
        push_char(&mut res, lower_char_exec(v[i]));
        assert(lower(v@.take(i as int)).push(lower_char(v@[i as int])) =~= lower(
            v@.take(i + 1),
        ));
        i = i + 1;
    }
    assert(v@.take(i as int) =~= v@);
    res
}

/// The pieces joined with `sep` between them (`parts.join(sep)`).
pub fn join_strings(parts: &Vec<String>, sep: &str) -> (res: String)
    ensures
        res@ == join(views(parts@), sep@),
{
    let mut res = String::new();
    let mut i: usize = 0;
    while i < parts.len()
        invariant
            i <= parts.len(),
            res@ == join(views(parts@).take(i as int), sep@),
        decreases parts.len() - i,
    {
        let ghost before = views(parts@).take(i as int);
        if i == 0 {
            res = parts[0].clone();
            assert(views(parts@).take(1) =~= seq![parts@[0]@]);
        } else {
            res = res.concat(sep);
            res = res.concat(parts[i].as_str());
            assert(views(parts@).take(i + 1).drop_last() =~= before);
        }
        i = i + 1;
    }
    assert(views(parts@).take(i as int) =~= views(parts@));
    res
}

/// The decimal digits of `n` (`n.to_string()`).
pub fn decimal_string(n: usize) -> (res: String)
    ensures
        res@ == decimal(n as nat),
    decreases n,
{
    if n < 10 {
        let mut s = String::new();
        push_char(&mut s, ((48 + n) as u8) as char);
        assert(s@ =~= seq![digit_char(n as nat)]);
        s
    } else {
        let mut s = decimal_string(n / 10);
        push_char(&mut s, ((48 + n % 10) as u8) as char);
        s
    }
}

/// The decimal digits of a 64-bit number.
pub fn decimal_string_u64(n: u64) -> (res: String)
    ensures
        res@ == decimal(n as nat),
    decreases n,
{
    if n < 10 {
        let mut s = String::new();
        push_char(&mut s, ((48 + n) as u8) as char);
        assert(s@ =~= seq![digit_char(n as nat)]);
        s
    } else {
        let mut s = decimal_string_u64(n / 10);
        push_char(&mut s, ((48 + n % 10) as u8) as char);
        s
    }
}

/// `s.parse::<usize>().ok()`.
pub fn parse_usize_exec(s: &str) -> (res: Option<usize>)
    ensures
        match res {
            Some(n) => parse_usize(s@) == Some(n as nat),
            None => parse_usize(s@) is None,
        },
{
    let v = chars_of(s);
    let start: usize = if v.len() > 0 && v[0] == '+' {
        1
    } else {
        0
    };
    let ghost d = sign_stripped(v@);
    assert(d =~= v@.skip(start as int));
    if start >= v.len() {
        return None;
    }
    let mut acc: usize = 0;
    let mut i = start;
    while i < v.len()
        invariant
            start <= i <= v.len(),
            v@ == s@,
            d == sign_stripped(v@),
            d == v@.skip(start as int),
            forall|k: int| start <= k < i ==> is_digit(v@[k]),
            acc as nat == digits_value(v@.subrange(start as int, i as int)),
        decreases v.len() - i,
    {
        let c = v[i];
        let u = c as u32;
        if !(48 <= u && u <= 57) {
            assert(d[i - start] == v@[i as int]);
            assert(!is_digit(v@[i as int]));
            assert(!is_digit(d[i - start]));
            assert(!all_digits(d));
            assert(sign_stripped(s@) == d);
            assert(!all_digits(sign_stripped(s@)));
            assert(parse_usize(s@) is None);
            return None;
        }
        assert(v@.subrange(start as int, i + 1).drop_last() =~= v@.subrange(
            start as int,
            i as int,
        ));
        let dgt = (u - 48) as usize;
        if acc > (usize::MAX - dgt) / 10 {
            proof {
                let t = v@.subrange(start as int, i + 1);
                assert(digits_value(t) == acc * 10 + dgt);
                assert(acc * 10 + dgt > usize::MAX) by (nonlinear_arith)
                    requires
                        acc > (usize::MAX - dgt) / 10,
                        dgt <= 9,
                ;
                assert(d.take(t.len() as int) =~= t);
                if all_digits(d) {
                    lemma_digits_value_prefix_le(d, t.len() as int);
                }
                assert(parse_usize(s@) is None);
            }
            return None;
        }
        assert(acc * 10 + dgt <= usize::MAX) by (nonlinear_arith)
            requires
                acc <= (usize::MAX - dgt) / 10,
                dgt <= 9,
        ;
        acc = acc * 10 + dgt;
        i = i + 1;
    }
    assert(v@.subrange(start as int, v@.len() as int) =~= d);
    Some(acc)
}

/// A longer digit string is worth at least as much as its prefix.
proof fn lemma_digits_value_prefix_le(d: Seq<char>, k: int)
    requires
        0 <= k <= d.len(),
        all_digits(d),
    ensures
        digits_value(d.take(k)) <= digits_value(d),
    decreases d.len() - k,
{
    if k < d.len() {
        lemma_digits_value_prefix_le(d, k + 1);
        assert(d.take(k + 1).drop_last() =~= d.take(k));
        assert(digits_value(d.take(k)) <= digits_value(d.take(k + 1))) by (nonlinear_arith)
            requires
                digits_value(d.take(k + 1)) == digits_value(d.take(k)) * 10 + ((d.take(
                    k + 1,
                ).last() as u32) - 48) as nat,
        ;
    } else {
        assert(d.take(k) =~= d);
    }
}

/// `s.split_once(p)`, as owned strings.
pub fn split_once_str(s: &str, p: &str) -> (res: Option<(String, String)>)
    ensures
        match res {
            Some((a, b)) => split_once(s@, p@) == Some((a@, b@)),
            None => split_once(s@, p@) is None,
        },
{
    let v = chars_of(s);
    let q = chars_of(p);
    match find_first(&v, &q) {
        Some(i) => {
            assert(occurs_at(v@, q@, i as int));
            assert(i + q@.len() <= v@.len());
            assert(v@.len() == v.len());
            assert(i + q.len() <= v.len());
            let a = string_of_range(&v, 0, i);
            let b = string_of_range(&v, i + q.len(), v.len());
            assert(v@.subrange(0, i as int) =~= v@.take(i as int));
            assert(v@.subrange(i + q@.len(), v@.len() as int) =~= v@.skip(i + q@.len()));
            Some((a, b))
        },
        None => None,
    }
}

/// `s.trim_start_matches(p)`, as an owned string.
pub fn strip_prefix_all_str(s: &str, p: &str) -> (res: String)
    ensures
        res@ == strip_prefix_all(s@, p@),
{
    let v = chars_of(s);
    let q = chars_of(p);
    if q.len() == 0 {
        return string_of(&v);
    }
    let mut i: usize = 0;
    assert(v@.skip(0) =~= v@);
    while i <= v.len() && q.len() <= v.len() - i && matches_at(&v, i, &q)
        invariant
            i <= v.len(),
            q@.len() > 0,
            strip_prefix_all(v@, q@) == strip_prefix_all(v@.skip(i as int), q@),
        decreases v.len() - i,
    {
        proof {
            assert(v@.skip(i as int).take(q@.len() as int) =~= v@.subrange(i as int, i + q@.len()));
            assert(v@.skip(i as int).skip(q@.len() as int) =~= v@.skip(i + q@.len()));
        }
        i = i + q.len();
    }
    proof {
        if q@.len() <= v@.len() - i {
            assert(v@.skip(i as int).take(q@.len() as int) =~= v@.subrange(i as int, i + q@.len()));
        }
        assert(v@.subrange(i as int, v@.len() as int) =~= v@.skip(i as int));
    }
    string_of_range(&v, i, v.len())
}

/// `s.trim_start_matches(c).trim_end_matches(d)`, as an owned string.
pub fn strip_outer_chars(s: &str, c: char, d: char) -> (res: String)
    ensures
        res@ == strip_trailing_char(strip_leading_char(s@, c), d),
{
    let v = chars_of(s);
    let mut a: usize = 0;
    assert(v@.subrange(0, v@.len() as int) =~= v@);
    while a < v.len() && v[a] == c
        invariant
            a <= v.len(),
            strip_leading_char(v@, c) == strip_leading_char(v@.subrange(a as int, v@.len() as int), c),
        decreases v.len() - a,
    {
        assert(v@.subrange(a as int, v@.len() as int).drop_first() =~= v@.subrange(a + 1, v@.len() as int));
        a = a + 1;
    }
    let mut b: usize = v.len();
    while b > a && v[b - 1] == d
        invariant
            a <= b <= v.len(),
            strip_trailing_char(v@.subrange(a as int, v@.len() as int), d) == strip_trailing_char(
                v@.subrange(a as int, b as int),
                d,
            ),
        decreases b - a,
    {
        assert(v@.subrange(a as int, b as int).drop_last() =~= v@.subrange(a as int, b - 1));
        b = b - 1;
    }
    string_of_range(&v, a, b)
}

/// `c.to_ascii_uppercase()`.
pub fn upper_char_exec(c: char) -> (res: char)
    ensures
        res == upper_char(c),
{
    let u = c as u32;
    if 97 <= u && u <= 122 {
        ((u - 32) as u8) as char
    } else {
        c
    }
}

/// `s.to_ascii_uppercase()`.
pub fn uppercase(s: &str) -> (res: String)
    ensures
        res@ == upper(s@),
{
    let v = chars_of(s);
    let mut res = String::new();
    let mut i: usize = 0;
    while i < v.len()
        invariant
            i <= v.len(),
            res@ == upper(v@.take(i as int)),
        decreases v.len() - i,
    {
        push_char(&mut res, upper_char_exec(v[i]));
        assert(upper(v@.take(i as int)).push(upper_char(v@[i as int])) =~= upper(
            v@.take(i + 1),
        ));
        i = i + 1;
    }
    assert(v@.take(i as int) =~= v@);
    res
}

/// `s.trim_start_matches(c)`, as an owned string.
pub fn strip_leading_char_str(s: &str, c: char) -> (res: String)
    ensures
        res@ == strip_leading_char(s@, c),
{
    let v = chars_of(s);
    let mut a: usize = 0;
    assert(v@.subrange(0, v@.len() as int) =~= v@);
    while a < v.len() && v[a] == c
        invariant
            a <= v.len(),
            strip_leading_char(v@, c) == strip_leading_char(v@.subrange(a as int, v@.len() as int), c),
        decreases v.len() - a,
    {
        assert(v@.subrange(a as int, v@.len() as int).drop_first() =~= v@.subrange(a + 1, v@.len() as int));
        a = a + 1;
    }
    string_of_range(&v, a, v.len())
}

} // verus!
