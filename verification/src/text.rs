//! Text helpers: decimal digits, trimming, joining, lines, and the string
//! operations of `std` with their contracts.
use vstd::prelude::*;

verus! {

// ── Decimal rendering of integers ─────────────────────────────────────

/// The decimal digits of a natural number, most significant first.
pub open spec fn decimal_nat(n: nat) -> Seq<char>
    decreases n,
{
    if n < 10 {
        seq![digit_char(n)]
    } else {
        decimal_nat(n / 10).push(digit_char(n % 10))
    }
}

/// The decimal rendering of an integer, with a leading `-` when negative.
pub open spec fn decimal_int(i: int) -> Seq<char> {
    if i < 0 {
        seq!['-'] + decimal_nat((-i) as nat)
    } else {
        decimal_nat(i as nat)
    }
}

pub open spec fn digit_char(d: nat) -> char {
    if d == 0 { '0' } else if d == 1 { '1' } else if d == 2 { '2' } else if d == 3 { '3' }
    else if d == 4 { '4' } else if d == 5 { '5' } else if d == 6 { '6' } else if d == 7 { '7' }
    else if d == 8 { '8' } else { '9' }
}

/// Appends one character to a string (`String::push`).
#[verifier::external_body]
pub(crate) fn push_char(s: &mut String, c: char)
    ensures
        final(s)@ == old(s)@.push(c),
{
    s.push(c);
}

/// Removes the last character of a string (`String::pop`).
#[verifier::external_body]
pub(crate) fn pop_char(s: &mut String) -> (c: Option<char>)
    ensures
        old(s)@.len() == 0 ==> c is None && final(s)@ == old(s)@,
        old(s)@.len() > 0 ==> c == Some(old(s)@.last()) && final(s)@ == old(s)@.drop_last(),
{
    s.pop()
}

/// Appends a string slice to a string (`String::push_str`).
#[verifier::external_body]
pub(crate) fn push_str(s: &mut String, t: &str)
    ensures
        final(s)@ == old(s)@ + t@,
{
    s.push_str(t);
}

/// An owned copy of a string slice.
pub fn to_owned_string(s: &str) -> (r: String)
    ensures
        r@ == s@,
{
    s.to_owned()
}

fn digit_of(d: u64) -> (c: char)
    requires
        d < 10,
    ensures
        c == digit_char(d as nat),
{
    if d == 0 { '0' } else if d == 1 { '1' } else if d == 2 { '2' } else if d == 3 { '3' }
    else if d == 4 { '4' } else if d == 5 { '5' } else if d == 6 { '6' } else if d == 7 { '7' }
    else if d == 8 { '8' } else { '9' }
}

/// Decimal text of an unsigned integer.
pub fn u64_to_string(n: u64) -> (s: String)
    ensures
        s@ == decimal_nat(n as nat),
    decreases n,
{
    let mut s = if n >= 10 { u64_to_string(n / 10) } else { String::new() };
    push_char(&mut s, digit_of(n % 10));
    s
}

/// Decimal text of a signed integer.
pub fn i64_to_string(i: i64) -> (s: String)
    ensures
        s@ == decimal_int(i as int),
{
    if i < 0 {
        let magnitude: u64 = (0i128 - (i as i128)) as u64;
        let mut s = String::new();
        push_char(&mut s, '-');
        let digits = u64_to_string(magnitude);
        push_str(&mut s, digits.as_str());
        s
    } else {
        u64_to_string(i as u64)
    }
}

/// Decimal text of an `i32`.
pub fn i32_to_string(i: i32) -> (s: String)
    ensures
        s@ == decimal_int(i as int),
{
    i64_to_string(i as i64)
}

/// Decimal text of a `usize`.
pub fn usize_to_string(n: usize) -> (s: String)
    ensures
        s@ == decimal_nat(n as nat),
{
    u64_to_string(n as u64)
}

// ── Characters and comparisons ─────────────────────────────────────────

/// The characters of a string slice, in order.
pub fn chars_of(s: &str) -> (v: Vec<char>)
    ensures
        v@ == s@,
{
    let mut v: Vec<char> = Vec::new();
    for c in it: s.chars()
        invariant
            v@ == it.seq().take(it.index() as int),
            it.seq() == s@,
    {
        v.push(c);
    }
    v
}

/// A string holding the given characters.
pub fn string_of_chars(v: &Vec<char>) -> (s: String)
    ensures
        s@ == v@,
{
    let mut s = String::new();
    for i in 0..v.len()
        invariant
            s@ == v@.take(i as int),
    {
        push_char(&mut s, v[i]);
        assert(v@.take(i + 1) == v@.take(i as int).push(v@[i as int]));
    }
    assert(v@.take(v.len() as int) == v@);
    s
}

/// Whether two string slices hold the same characters.
pub(crate) fn str_eq(a: &str, b: &str) -> (r: bool)
    ensures
        r == (a@ == b@),
{
    let va = chars_of(a);
    let vb = chars_of(b);
    if va.len() != vb.len() {
        return false;
    }
    let r = matches_at(&va, 0, &vb);
    assert(va@.subrange(0, va@.len() as int) =~= va@);
    assert(r ==> va@.subrange(0, vb@.len() as int) == vb@);
    if r {
        assert(va@ =~= vb@);
    }
    r
}

/// Whether `needle` occurs as a contiguous run of characters in `hay`.
pub open spec fn is_substring(needle: Seq<char>, hay: Seq<char>) -> bool {
    exists|i: int|
        0 <= i && i + needle.len() <= hay.len() && #[trigger] hay.subrange(i, i + needle.len())
            == needle
}

/// Whether `needle` occurs in `hay`, searched position by position.
pub(crate) fn contains(hay: &str, needle: &str) -> (r: bool)
    ensures
        r == is_substring(needle@, hay@),
{
    let v = chars_of(hay);
    let n = chars_of(needle);
    if n.len() > v.len() {
        return false;
    }
    let last = v.len() - n.len();
    let mut i: usize = 0;
    loop
        invariant
            v@ == hay@,
            n@ == needle@,
            last == v@.len() - n@.len(),
            n@.len() <= v@.len(),
            i <= last,
            forall|j: int| 0 <= j < i ==> #[trigger] hay@.subrange(j, j + needle@.len()) != needle@,
        decreases last - i,
    {
        let found = matches_at(&v, i, &n);
        assert(v@.subrange(i as int, v@.len() as int).subrange(0, n@.len() as int) =~= v@.subrange(
            i as int,
            i + n@.len(),
        ));
        if found {
            return true;
        }
        if i == last {
            proof {
                if is_substring(needle@, hay@) {
                    let j = choose|j: int|
                        0 <= j && j + needle@.len() <= hay@.len() && #[trigger] hay@.subrange(j, j + needle@.len())
                            == needle@;
                    assert(hay@.subrange(j, j + needle@.len()) != needle@);
                }
            }
            return false;
        }
        i = i + 1;
    }
}

/// Whether `p` is a prefix of `s`.
pub open spec fn has_prefix(s: Seq<char>, p: Seq<char>) -> bool {
    p.len() <= s.len() && s.subrange(0, p.len() as int) == p
}

/// Whether `s` begins with `p`.
pub(crate) fn starts_with(s: &str, p: &str) -> (r: bool)
    ensures
        r == has_prefix(s@, p@),
{
    let v = chars_of(s);
    let pv = chars_of(p);
    assert(v@.subrange(0, v@.len() as int) =~= v@);
    matches_at(&v, 0, &pv)
}

/// What `str::to_lowercase` returns for a string with the given characters.
pub uninterp spec fn lowercase(s: Seq<char>) -> Seq<char>;

/// Unicode lower-casing (`str::to_lowercase`). Its result is a function of
/// the characters alone; which characters it yields is left to the name.
#[verifier::external_body]
pub(crate) fn to_lowercase(s: &str) -> (r: String)
    ensures
        r@ == lowercase(s@),
{
    s.to_lowercase()
}

/// What `char::to_uppercase` yields for a character, collected into a string.
pub uninterp spec fn uppercase_char(c: char) -> Seq<char>;

/// The ASCII upper case of a character: `a`..`z` become `A`..`Z`, every
/// other character stays.
pub open spec fn ascii_upper(c: char) -> char {
    if 'a' <= c && c <= 'z' {
        ((c as u32) - 32) as char
    } else {
        c
    }
}

/// Unicode upper-casing of one character (`char::to_uppercase`, collected).
/// On ASCII it is ASCII upper-casing, one character for one, as the
/// documentation of `char::to_uppercase` and of `to_ascii_uppercase` gives
/// it; beyond ASCII the result is named only.
#[verifier::external_body]
pub(crate) fn char_to_uppercase(c: char) -> (r: String)
    ensures
        r@ == uppercase_char(c),
        (c as u32) < 128 ==> r@ == seq![ascii_upper(c)],
{
    c.to_uppercase().to_string()
}

/// What `format!("{:?}", s)` renders for a string with the given characters.
pub uninterp spec fn debug_quoted(s: Seq<char>) -> Seq<char>;

/// The `Debug` rendering of a string slice (quoted and escaped).
#[verifier::external_body]
pub(crate) fn debug_string(s: &str) -> (r: String)
    ensures
        r@ == debug_quoted(s@),
{
    format!("{:?}", s)
}

/// ASCII lower-casing of one character (`char::to_ascii_lowercase`).
pub open spec fn ascii_lower(c: char) -> char {
    if 'A' <= c && c <= 'Z' {
        ((c as u32) + 32) as char
    } else {
        c
    }
}

pub fn char_ascii_lower(c: char) -> (r: char)
    ensures
        r == ascii_lower(c),
{
    if 'A' <= c && c <= 'Z' {
        let code: u32 = c as u32;
        assert(65 <= code <= 90);
        let lower: u8 = (code + 32) as u8;
        lower as char
    } else {
        c
    }
}


// ── Whitespace trimming ────────────────────────────────────────────────

/// The Unicode `White_Space` characters (those `char::is_whitespace` accepts).
pub open spec fn is_space(c: char) -> bool {
    let u = c as u32;
    (0x09 <= u && u <= 0x0D) || u == 0x20 || u == 0x85 || u == 0xA0 || u == 0x1680
        || (0x2000 <= u && u <= 0x200A) || u == 0x2028 || u == 0x2029 || u == 0x202F
        || u == 0x205F || u == 0x3000
}

pub fn char_is_space(c: char) -> (r: bool)
    ensures
        r == is_space(c),
{
    let u: u32 = c as u32;
    (0x09 <= u && u <= 0x0D) || u == 0x20 || u == 0x85 || u == 0xA0 || u == 0x1680
        || (0x2000 <= u && u <= 0x200A) || u == 0x2028 || u == 0x2029 || u == 0x202F
        || u == 0x205F || u == 0x3000
}

/// Index of the first non-space character, or the length when there is none.
pub open spec fn trim_start_index(s: Seq<char>) -> int
    decreases s.len(),
{
    if s.len() == 0 {
        0
    } else if is_space(s[0]) {
        1 + trim_start_index(s.drop_first())
    } else {
        0
    }
}

/// Index just past the last non-space character, or zero when there is none.
pub open spec fn trim_end_index(s: Seq<char>) -> int
    decreases s.len(),
{
    if s.len() == 0 {
        0
    } else if is_space(s.last()) {
        trim_end_index(s.drop_last())
    } else {
        s.len() as int
    }
}

/// `s` without its leading and trailing white space (`str::trim`).
pub open spec fn trimmed(s: Seq<char>) -> Seq<char> {
    if trim_start_index(s) >= trim_end_index(s) {
        Seq::empty()
    } else {
        s.subrange(trim_start_index(s), trim_end_index(s))
    }
}

proof fn lemma_trim_start_index(s: Seq<char>)
    ensures
        0 <= trim_start_index(s) <= s.len(),
        forall|k: int| 0 <= k < trim_start_index(s) ==> is_space(#[trigger] s[k]),
        trim_start_index(s) < s.len() ==> !is_space(s[trim_start_index(s)]),
    decreases s.len(),
{
    if s.len() > 0 && is_space(s[0]) {
        lemma_trim_start_index(s.drop_first());
        assert forall|k: int| 0 <= k < trim_start_index(s) implies is_space(#[trigger] s[k]) by {
            if k > 0 {
                assert(s[k] == s.drop_first()[k - 1]);
            }
        }
    }
}

proof fn lemma_trim_end_index(s: Seq<char>)
    ensures
        0 <= trim_end_index(s) <= s.len(),
        forall|k: int| trim_end_index(s) <= k < s.len() ==> is_space(#[trigger] s[k]),
        trim_end_index(s) > 0 ==> !is_space(s[trim_end_index(s) - 1]),
    decreases s.len(),
{
    if s.len() > 0 && is_space(s.last()) {
        lemma_trim_end_index(s.drop_last());
        assert forall|k: int| trim_end_index(s) <= k < s.len() implies is_space(#[trigger] s[k]) by {
            if k < s.len() - 1 {
                assert(s[k] == s.drop_last()[k]);
            }
        }
    }
}

/// Leading and trailing white space removed.
pub fn trim(s: &str) -> (r: String)
    ensures
        r@ == trimmed(s@),
{
    let v = chars_of(s);
    let n = v.len();
    let mut i: usize = 0;
    proof {
        lemma_trim_start_index(s@);
        lemma_trim_end_index(s@);
    }
    while i < n && char_is_space(v[i])
        invariant
            n == v.len(),
            v@ == s@,
            i <= trim_start_index(s@),
            0 <= trim_start_index(s@) <= s@.len(),
            forall|k: int| 0 <= k < trim_start_index(s@) ==> is_space(#[trigger] s@[k]),
            trim_start_index(s@) < s@.len() ==> !is_space(s@[trim_start_index(s@)]),
        decreases n - i,
    {
        i = i + 1;
    }
    let mut j: usize = n;
    while j > i && char_is_space(v[j - 1])
        invariant
            n == v.len(),
            v@ == s@,
            i == trim_start_index(s@),
            i <= j <= n,
            trim_end_index(s@) <= j || j == i,
            0 <= trim_end_index(s@) <= s@.len(),
            forall|k: int| trim_end_index(s@) <= k < s@.len() ==> is_space(#[trigger] s@[k]),
            trim_end_index(s@) > 0 ==> !is_space(s@[trim_end_index(s@) - 1]),
            forall|k: int| j <= k < n ==> is_space(#[trigger] s@[k]),
        decreases j,
    {
        j = j - 1;
    }
    proof {
        if j > i {
            // s[j-1] is not white space, and everything from j on is.
            if trim_end_index(s@) > j {
                assert(is_space(s@[trim_end_index(s@) - 1]));
            }
            assert(trim_end_index(s@) == j);
        } else {
            if trim_end_index(s@) > i {
                assert(is_space(s@[trim_end_index(s@) - 1]));
                assert(!is_space(s@[i as int]));
            }
        }
    }
    let mut out = String::new();
    let mut k: usize = i;
    while k < j
        invariant
            i <= k <= j <= n,
            n == v.len(),
            out@ == v@.subrange(i as int, k as int),
        decreases j - k,
    {
        push_char(&mut out, v[k]);
        assert(v@.subrange(i as int, k + 1) == v@.subrange(i as int, k as int).push(v@[k as int]));
        k = k + 1;
    }
    out
}

// ── Prefix stripping ──────────────────────────────────────────────────

/// `s` with every leading repetition of `p` removed (`str::trim_start_matches`).
pub open spec fn strip_all(s: Seq<char>, p: Seq<char>) -> Seq<char>
    decreases s.len(),
{
    if p.len() > 0 && has_prefix(s, p) {
        strip_all(s.subrange(p.len() as int, s.len() as int), p)
    } else {
        s
    }
}

fn matches_at(v: &Vec<char>, at: usize, p: &Vec<char>) -> (r: bool)
    requires
        at <= v@.len(),
    ensures
        r == has_prefix(v@.subrange(at as int, v@.len() as int), p@),
{
    if p.len() > v.len() - at {
        return false;
    }
    let mut k: usize = 0;
    while k < p.len()
        invariant
            at + p@.len() <= v@.len(),
            v@.len() <= usize::MAX,
            k <= p@.len(),
            forall|m: int| 0 <= m < k ==> v@[at + m] == p@[m],
        decreases p.len() - k,
    {
        if v[at + k] != p[k] {
            assert(v@.subrange(at as int, v@.len() as int).subrange(0, p@.len() as int)[k as int]
                != p@[k as int]);
            return false;
        }
        k = k + 1;
    }
    assert(v@.subrange(at as int, v@.len() as int).subrange(0, p@.len() as int) =~= p@);
    true
}

/// Every leading repetition of `p` removed from `s`.
pub fn trim_start_matches(s: &str, p: &str) -> (r: String)
    ensures
        r@ == strip_all(s@, p@),
{
    let v = chars_of(s);
    let pv = chars_of(p);
    let mut at: usize = 0;
    assert(s@.subrange(0, s@.len() as int) =~= s@);
    if pv.len() > 0 {
        while matches_at(&v, at, &pv)
            invariant
                v@ == s@,
                pv@ == p@,
                pv@.len() > 0,
                at <= v@.len(),
                strip_all(s@, p@) == strip_all(s@.subrange(at as int, s@.len() as int), p@),
            decreases v.len() - at,
        {
            let ghost rest = s@.subrange(at as int, s@.len() as int);
            assert(rest.subrange(p@.len() as int, rest.len() as int) =~= s@.subrange(
                at + p@.len(),
                s@.len() as int,
            ));
            at = at + pv.len();
        }
    } else {
        assert(s@.subrange(0, s@.len() as int) =~= s@);
    }
    let mut out = String::new();
    let mut k: usize = at;
    while k < v.len()
        invariant
            at <= k <= v@.len(),
            out@ == v@.subrange(at as int, k as int),
        decreases v.len() - k,
    {
        push_char(&mut out, v[k]);
        assert(v@.subrange(at as int, k + 1) == v@.subrange(at as int, k as int).push(v@[k as int]));
        k = k + 1;
    }
    proof {
        if pv@.len() > 0 {
            assert(!has_prefix(s@.subrange(at as int, s@.len() as int), p@));
        }
    }
    out
}

// ── Joining ────────────────────────────────────────────────────────────

/// The parts separated by `sep` (`[String]::join`).
pub open spec fn join_seq(parts: Seq<Seq<char>>, sep: Seq<char>) -> Seq<char>
    decreases parts.len(),
{
    if parts.len() == 0 {
        Seq::empty()
    } else if parts.len() == 1 {
        parts[0]
    } else {
        join_seq(parts.drop_last(), sep) + sep + parts.last()
    }
}

/// The views of a vector of strings.
pub open spec fn views(v: Seq<String>) -> Seq<Seq<char>> {
    v.map_values(|s: String| s@)
}

/// Appending a string appends its view.
pub proof fn lemma_views_push(s: Seq<String>, x: String)
    ensures
        views(s.push(x)) == views(s).push(x@),
{
    assert(views(s.push(x)) =~= views(s).push(x@));
}

/// The strings joined with `sep` between neighbours.
pub fn join(parts: &Vec<String>, sep: &str) -> (r: String)
    ensures
        r@ == join_seq(views(parts@), sep@),
{
    let mut r = String::new();
    for i in 0..parts.len()
        invariant
            r@ == join_seq(views(parts@).take(i as int), sep@),
    {
        assert(views(parts@).take(i + 1).drop_last() == views(parts@).take(i as int));
        if i != 0 {
            push_str(&mut r, sep);
        }
        push_str(&mut r, parts[i].as_str());
    }
    assert(views(parts@).take(parts.len() as int) == views(parts@));
    r
}

// ── Lines ──────────────────────────────────────────────────────────────

/// `line` without one trailing carriage return.
pub open spec fn strip_cr(line: Seq<char>) -> Seq<char> {
    if line.len() > 0 && line.last() == '\r' {
        line.drop_last()
    } else {
        line
    }
}

/// The finished lines and the unfinished tail after reading `s` left to right.
pub open spec fn line_scan(s: Seq<char>) -> (Seq<Seq<char>>, Seq<char>)
    decreases s.len(),
{
    if s.len() == 0 {
        (Seq::empty(), Seq::empty())
    } else {
        let (done, cur) = line_scan(s.drop_last());
        if s.last() == '\n' {
            (done.push(strip_cr(cur)), Seq::empty())
        } else {
            (done, cur.push(s.last()))
        }
    }
}

/// The lines of a text (`str::lines`): split at `\n`, a `\r` before the
/// `\n` dropped, and no empty line after a final line ending.
pub open spec fn lines_of(s: Seq<char>) -> Seq<Seq<char>> {
    let (done, cur) = line_scan(s);
    if cur.len() == 0 {
        done
    } else {
        done.push(cur)
    }
}

/// The lines of a text, as `str::lines` splits them.
pub fn lines(s: &str) -> (r: Vec<String>)
    ensures
        views(r@) == lines_of(s@),
{
    let v = chars_of(s);
    let mut done: Vec<String> = Vec::new();
    let mut cur: Vec<char> = Vec::new();
    for i in 0..v.len()
        invariant
            v@ == s@,
            (views(done@), cur@) == line_scan(s@.take(i as int)),
    {
        assert(s@.take(i + 1).drop_last() == s@.take(i as int));
        if v[i] == '\n' {
            let n = cur.len();
            if n > 0 && cur[n - 1] == '\r' {
                cur.pop();
            }
            let line = string_of_chars(&cur);
            done.push(line);
            assert(views(done@) == line_scan(s@.take(i + 1)).0);
            cur = Vec::new();
        } else {
            cur.push(v[i]);
        }
    }
    assert(s@.take(v.len() as int) == s@);
    if cur.len() > 0 {
        let line = string_of_chars(&cur);
        done.push(line);
        assert(views(done@) == lines_of(s@));
    }
    done
}

} // verus!
