//! Character-level string helpers with exact specifications.
//!
//! Strings are reasoned about through their `Seq<char>` views. The few std
//! string operations that vstd leaves unspecified are wrapped here, one std
//! function per wrapper.
use vstd::prelude::*;

verus! {

/// Whether two strings have the same characters.
pub fn str_eq(a: &str, b: &str) -> (r: bool)
    ensures
        r == (a@ == b@),
{
    let ca = chars_of(a);
    let cb = chars_of(b);
    let n = ca.len();
    if n != cb.len() {
        return false;
    }
    for i in 0..n
        invariant
            n == ca@.len(),
            n == cb@.len(),
            ca@ == a@,
            cb@ == b@,
            forall|j: int| 0 <= j < i ==> ca@[j] == cb@[j],
    {
        if ca[i] != cb[i] {
            return false;
        }
    }
    assert(a@ =~= b@);
    true
}

/// `a` sorts before `b` in `str`'s order: character by character by code
/// point, a proper prefix first.
pub open spec fn chars_lt(a: Seq<char>, b: Seq<char>) -> bool
    decreases a.len(),
{
    if a.len() == 0 {
        b.len() > 0
    } else if b.len() == 0 {
        false
    } else if a[0] != b[0] {
        (a[0] as int) < (b[0] as int)
    } else {
        chars_lt(a.skip(1), b.skip(1))
    }
}

/// No string sorts before itself.
pub proof fn lemma_lt_irreflexive(a: Seq<char>)
    ensures
        !chars_lt(a, a),
    decreases a.len(),
{
    if a.len() > 0 {
        lemma_lt_irreflexive(a.skip(1));
    }
}

/// The order is transitive.
pub proof fn lemma_lt_transitive(a: Seq<char>, b: Seq<char>, c: Seq<char>)
    requires
        chars_lt(a, b),
        chars_lt(b, c),
    ensures
        chars_lt(a, c),
    decreases a.len(),
{
    if a.len() > 0 && b.len() > 0 && c.len() > 0 && a[0] == b[0] && b[0] == c[0] {
        lemma_lt_transitive(a.skip(1), b.skip(1), c.skip(1));
    }
}

/// Of two different strings, one sorts before the other.
pub proof fn lemma_lt_total(a: Seq<char>, b: Seq<char>)
    requires
        a != b,
    ensures
        chars_lt(a, b) || chars_lt(b, a),
    decreases a.len(),
{
    if a.len() > 0 && b.len() > 0 && a[0] == b[0] {
        if a.skip(1) == b.skip(1) {
            assert(a =~= seq![a[0]] + a.skip(1));
            assert(b =~= seq![b[0]] + b.skip(1));
        }
        lemma_lt_total(a.skip(1), b.skip(1));
    } else if a.len() == 0 && b.len() == 0 {
        assert(a =~= b);
    }
}

/// Whether `a` sorts before `b` (`<str as Ord>::cmp` is `Less`).
pub fn str_lt(a: &str, b: &str) -> (r: bool)
    ensures
        r == chars_lt(a@, b@),
{
    let ca = chars_of(a);
    let cb = chars_of(b);
    let na = ca.len();
    let nb = cb.len();
    let mut i: usize = 0;
    assert(ca@.skip(0) =~= a@);
    assert(cb@.skip(0) =~= b@);
    while i < na && i < nb
        invariant
            na == ca@.len(),
            nb == cb@.len(),
            i <= na,
            i <= nb,
            chars_lt(a@, b@) == chars_lt(ca@.skip(i as int), cb@.skip(i as int)),
        decreases na - i,
    {
        assert(ca@.skip(i as int)[0] == ca@[i as int]);
        assert(cb@.skip(i as int)[0] == cb@[i as int]);
        if ca[i] != cb[i] {
            return ca[i] < cb[i];
        }
        assert(ca@.skip(i as int).skip(1) =~= ca@.skip(i + 1));
        assert(cb@.skip(i as int).skip(1) =~= cb@.skip(i + 1));
        i = i + 1;
    }
    assert(ca@.skip(i as int).len() == na - i);
    na < nb
}

/// `String::push`, which appends one character.
#[verifier::external_body]
pub(crate) fn push_char(s: &mut String, c: char)
    ensures
        final(s)@ == old(s)@.push(c),
{
    s.push(c)
}

/// Copies a string slice into an owned `String`.
pub fn owned(s: &str) -> (r: String)
    ensures
        r@ == s@,
{
    String::from_str(s)
}

/// The characters of a string slice, in order.
pub fn chars_of(s: &str) -> (v: Vec<char>)
    ensures
        v@ == s@,
{
    let mut v: Vec<char> = Vec::new();
    for c in it: s.chars()
        invariant
            it.seq() == s@,
            v@ == it.seq().take(it.index() as int),
    {
        v.push(c);
    }
    v
}

/// Builds an owned string from a sequence of characters.
pub fn string_of(cs: &[char]) -> (r: String)
    ensures
        r@ == cs@,
{
    let mut r = String::new();
    let n = cs.len();
    for i in 0..n
        invariant
            n == cs@.len(),
            r@ == cs@.take(i as int),
    {
        push_char(&mut r, cs[i]);
        assert(cs@.take(i + 1) == cs@.take(i as int).push(cs@[i as int]));
    }
    assert(cs@.take(n as int) == cs@);
    r
}

/// Concatenation of two string slices into a new string.
pub fn concat(a: &str, b: &str) -> (r: String)
    ensures
        r@ == a@ + b@,
{
    let mut r = String::from_str(a);
    r.append(b);
    r
}

/// `prefix` is a prefix of `s`.
pub open spec fn has_prefix(s: Seq<char>, prefix: Seq<char>) -> bool {
    prefix.len() <= s.len() && s.take(prefix.len() as int) == prefix
}

/// `suffix` is a suffix of `s`.
pub open spec fn has_suffix(s: Seq<char>, suffix: Seq<char>) -> bool {
    suffix.len() <= s.len() && s.skip(s.len() - suffix.len()) == suffix
}

/// Whether `prefix` is a prefix of `s` (`str::starts_with`).
pub fn starts_with(s: &str, prefix: &str) -> (r: bool)
    ensures
        r == has_prefix(s@, prefix@),
{
    let sc = chars_of(s);
    let pc = chars_of(prefix);
    if pc.len() > sc.len() {
        return false;
    }
    let n = pc.len();
    for i in 0..n
        invariant
            n == pc@.len(),
            n <= sc@.len(),
            sc@ == s@,
            pc@ == prefix@,
            forall|j: int| 0 <= j < i ==> sc@[j] == pc@[j],
    {
        if sc[i] != pc[i] {
            return false;
        }
    }
    assert(sc@.take(n as int) =~= pc@);
    true
}

/// Whether `suffix` is a suffix of `s` (`str::ends_with`).
pub fn ends_with(s: &str, suffix: &str) -> (r: bool)
    ensures
        r == has_suffix(s@, suffix@),
{
    let sc = chars_of(s);
    let pc = chars_of(suffix);
    if pc.len() > sc.len() {
        return false;
    }
    let n = pc.len();
    let off = sc.len() - n;
    for i in 0..n
        invariant
            n == pc@.len(),
            off + n == sc.len(),
            sc@ == s@,
            pc@ == suffix@,
            forall|j: int| 0 <= j < i ==> sc@[off + j] == pc@[j],
    {
        if sc[off + i] != pc[i] {
            assert(sc@.skip(off as int)[i as int] == sc@[off + i]);
            return false;
        }
    }
    assert(sc@.skip(off as int) =~= pc@);
    true
}

/// Whether `c` occurs in `s` (`str::contains` with a `char` pattern).
pub fn contains_char(s: &str, c: char) -> (r: bool)
    ensures
        r == s@.contains(c),
{
    let sc = chars_of(s);
    let n = sc.len();
    for i in 0..n
        invariant
            n == sc@.len(),
            sc@ == s@,
            forall|j: int| 0 <= j < i ==> sc@[j] != c,
    {
        if sc[i] == c {
            return true;
        }
    }
    false
}

/// `s` with every trailing occurrence of `c` removed (`str::trim_end_matches`
/// with a `char` pattern).
pub open spec fn trim_end_char(s: Seq<char>, c: char) -> Seq<char>
    decreases s.len(),
{
    if s.len() > 0 && s.last() == c {
        trim_end_char(s.drop_last(), c)
    } else {
        s
    }
}

/// Removes every trailing occurrence of `c` from `s`.
pub fn trim_end_matches_char(s: &str, c: char) -> (r: String)
    ensures
        r@ == trim_end_char(s@, c),
{
    let sc = chars_of(s);
    let mut end = sc.len();
    assert(sc@.take(end as int) =~= sc@);
    while end > 0 && sc[end - 1] == c
        invariant
            end <= sc@.len(),
            sc@ == s@,
            trim_end_char(sc@.take(end as int), c) == trim_end_char(s@, c),
        decreases end,
    {
        assert(sc@.take(end - 1) == sc@.take(end as int).drop_last());
        end = end - 1;
    }
    assert(sc@.take(end as int) == trim_end_char(sc@.take(end as int), c));
    string_of(&sc.as_slice()[0..end])
}

/// `s` with every leading occurrence of `prefix` removed
/// (`str::trim_start_matches` with a string pattern).
pub open spec fn trim_start_str(s: Seq<char>, prefix: Seq<char>) -> Seq<char>
    decreases s.len(),
{
    if prefix.len() > 0 && has_prefix(s, prefix) {
        trim_start_str(s.skip(prefix.len() as int), prefix)
    } else {
        s
    }
}

/// Removes every leading occurrence of `prefix` from `s`.
pub fn trim_start_matches(s: &str, prefix: &str) -> (r: String)
    ensures
        r@ == trim_start_str(s@, prefix@),
{
    let sc = chars_of(s);
    let pc = chars_of(prefix);
    let p = pc.len();
    if p == 0 {
        return owned(s);
    }
    let mut start: usize = 0;
    assert(sc@.skip(0) =~= sc@);
    loop
        invariant
            start <= sc@.len(),
            sc@ == s@,
            pc@ == prefix@,
            p == pc@.len(),
            p > 0,
            trim_start_str(sc@.skip(start as int), pc@) == trim_start_str(s@, prefix@),
        ensures
            start <= sc@.len(),
            trim_start_str(sc@.skip(start as int), pc@) == trim_start_str(s@, prefix@),
            !has_prefix(sc@.skip(start as int), pc@),
        decreases sc@.len() - start,
    {
        if sc.len() - start < p {
            assert(!has_prefix(sc@.skip(start as int), pc@));
            break;
        }
        let mut matched = true;
        let mut i: usize = 0;
        while i < p
            invariant
                i <= p,
                p == pc@.len(),
                start + p <= sc.len(),
                matched == (forall|j: int| 0 <= j < i ==> sc@[start + j] == pc@[j]),
            decreases p - i,
        {
            if sc[start + i] != pc[i] {
                matched = false;
            }
            i = i + 1;
        }
        assert(matched == (sc@.skip(start as int).take(p as int) =~= pc@));
        if !matched {
            assert(!has_prefix(sc@.skip(start as int), pc@));
            break;
        }
        assert(sc@.skip(start as int).skip(p as int) =~= sc@.skip(start + p));
        assert(has_prefix(sc@.skip(start as int), pc@));
        start = start + p;
    }
    assert(sc@.skip(start as int) == sc@.subrange(start as int, sc@.len() as int));
    assert(trim_start_str(sc@.skip(start as int), pc@) == sc@.skip(start as int));
    string_of(&sc.as_slice()[start..sc.len()])
}

/// Replaces every backslash with a forward slash (`str::replace('\\', "/")`).
pub open spec fn forward_slashes(s: Seq<char>) -> Seq<char> {
    s.map_values(|c: char| if c == '\\' { '/' } else { c })
}

/// Normalises path separators to forward slashes.
pub fn to_forward_slashes(s: &str) -> (r: String)
    ensures
        r@ == forward_slashes(s@),
{
    let sc = chars_of(s);
    let mut out: Vec<char> = Vec::new();
    let n = sc.len();
    for i in 0..n
        invariant
            n == sc@.len(),
            sc@ == s@,
            out@ == forward_slashes(sc@.take(i as int)),
    {
        let c = sc[i];
        out.push(if c == '\\' { '/' } else { c });
        assert(sc@.take(i + 1) == sc@.take(i as int).push(c));
    }
    assert(sc@.take(n as int) == sc@);
    string_of(out.as_slice())
}

/// Left-to-right, non-overlapping replacement of every occurrence of a
/// non-empty pattern (`str::replace`).
pub open spec fn replace_all(s: Seq<char>, pat: Seq<char>, rep: Seq<char>) -> Seq<char>
    decreases s.len(),
{
    if pat.len() == 0 || s.len() < pat.len() {
        s
    } else if s.take(pat.len() as int) == pat {
        rep + replace_all(s.skip(pat.len() as int), pat, rep)
    } else {
        seq![s[0]] + replace_all(s.skip(1), pat, rep)
    }
}

proof fn lemma_skip_skip(s: Seq<char>, a: int, b: int)
    requires
        0 <= a,
        0 <= b,
        a + b <= s.len(),
    ensures
        s.skip(a).skip(b) == s.skip(a + b),
{
    assert(s.skip(a).skip(b) =~= s.skip(a + b));
}

/// Replaces every occurrence of the non-empty pattern `pat` in `s` with `rep`.
pub fn replace_str(s: &str, pat: &str, rep: &str) -> (r: String)
    requires
        pat@.len() > 0,
    ensures
        r@ == replace_all(s@, pat@, rep@),
{
    let sc = chars_of(s);
    let pc = chars_of(pat);
    let rc = chars_of(rep);
    let p = pc.len();
    let mut out: Vec<char> = Vec::new();
    let mut i: usize = 0;
    assert(sc@.skip(0) =~= sc@);
    while i < sc.len()
        invariant
            i <= sc@.len(),
            sc@ == s@,
            pc@ == pat@,
            rc@ == rep@,
            p == pc@.len(),
            p > 0,
            replace_all(s@, pat@, rep@) == out@ + replace_all(sc@.skip(i as int), pc@, rc@),
        decreases sc@.len() - i,
    {
        let ghost rest = sc@.skip(i as int);
        if sc.len() - i < p {
            assert(replace_all(rest, pc@, rc@) == rest);
            let ghost before = out@;
            let mut k: usize = i;
            while k < sc.len()
                invariant
                    i <= k <= sc@.len(),
                    rest == sc@.skip(i as int),
                    out@ == before + rest.take(k - i),
                decreases sc@.len() - k,
            {
                out.push(sc[k]);
                assert(rest.take(k + 1 - i) == rest.take(k - i).push(sc@[k as int]));
                k = k + 1;
            }
            assert(rest.take(k - i) == rest);
            return string_of(out.as_slice());
        }
        let mut matched = true;
        let mut j: usize = 0;
        while j < p
            invariant
                j <= p,
                p == pc@.len(),
                i + p <= sc.len(),
                matched == (forall|t: int| 0 <= t < j ==> sc@[i + t] == pc@[t]),
            decreases p - j,
        {
            if sc[i + j] != pc[j] {
                matched = false;
            }
            j = j + 1;
        }
        assert(matched == (rest.take(p as int) =~= pc@));
        if matched {
            let m = rc.len();
            let ghost before = out@;
            for t in 0..m
                invariant
                    m == rc@.len(),
                    out@ == before + rc@.take(t as int),
            {
                out.push(rc[t]);
                assert(rc@.take(t + 1) == rc@.take(t as int).push(rc@[t as int]));
            }
            assert(rc@.take(m as int) == rc@);
            proof {
                lemma_skip_skip(sc@, i as int, p as int);
                assert(before + rc@ + replace_all(sc@.skip(i + p), pc@, rc@)
                    == before + (rc@ + replace_all(sc@.skip(i + p), pc@, rc@)));
            }
            i = i + p;
        } else {
            out.push(sc[i]);
            proof {
                lemma_skip_skip(sc@, i as int, 1);
                assert(rest[0] == sc@[i as int]);
            }
            i = i + 1;
        }
    }
    assert(sc@.skip(i as int) =~= Seq::<char>::empty());
    string_of(out.as_slice())
}

/// Decimal digits of a natural number, most significant first.
pub open spec fn decimal(n: nat) -> Seq<char>
    decreases n,
{
    if n < 10 {
        seq![digit_char(n)]
    } else {
        decimal(n / 10) + seq![digit_char(n % 10)]
    }
}

/// The ASCII digit character for `d < 10`.
pub open spec fn digit_char(d: nat) -> char {
    if d == 0 {
        '0'
    } else if d == 1 {
        '1'
    } else if d == 2 {
        '2'
    } else if d == 3 {
        '3'
    } else if d == 4 {
        '4'
    } else if d == 5 {
        '5'
    } else if d == 6 {
        '6'
    } else if d == 7 {
        '7'
    } else if d == 8 {
        '8'
    } else {
        '9'
    }
}

fn digit(d: u64) -> (c: char)
    requires
        d < 10,
    ensures
        c == digit_char(d as nat),
{
    if d == 0 {
        '0'
    } else if d == 1 {
        '1'
    } else if d == 2 {
        '2'
    } else if d == 3 {
        '3'
    } else if d == 4 {
        '4'
    } else if d == 5 {
        '5'
    } else if d == 6 {
        '6'
    } else if d == 7 {
        '7'
    } else if d == 8 {
        '8'
    } else {
        '9'
    }
}

/// The decimal representation of `n` (`u64::to_string`).
pub fn decimal_string(n: u64) -> (r: String)
    ensures
        r@ == decimal(n as nat),
    decreases n,
{
    if n < 10 {
        let mut r = String::new();
        push_char(&mut r, digit(n));
        r
    } else {
        let mut r = decimal_string(n / 10);
        push_char(&mut r, digit(n % 10));
        r
    }
}

/// Unicode `White_Space` (`char::is_whitespace`).
pub open spec fn is_ws(c: char) -> bool {
    ||| ('\u{9}' <= c && c <= '\u{d}')
    ||| c == ' '
    ||| c == '\u{85}'
    ||| c == '\u{a0}'
    ||| c == '\u{1680}'
    ||| ('\u{2000}' <= c && c <= '\u{200a}')
    ||| c == '\u{2028}'
    ||| c == '\u{2029}'
    ||| c == '\u{202f}'
    ||| c == '\u{205f}'
    ||| c == '\u{3000}'
}

/// Every character is whitespace, i.e. `str::trim` leaves nothing.
pub open spec fn blank(s: Seq<char>) -> bool {
    forall|i: int| 0 <= i < s.len() ==> is_ws(#[trigger] s[i])
}

/// Whether `c` is whitespace (`char::is_whitespace`).
pub fn is_whitespace(c: char) -> (r: bool)
    ensures
        r == is_ws(c),
{
    ('\u{9}' <= c && c <= '\u{d}') || c == ' ' || c == '\u{85}' || c == '\u{a0}' || c
        == '\u{1680}' || ('\u{2000}' <= c && c <= '\u{200a}') || c == '\u{2028}' || c
        == '\u{2029}' || c == '\u{202f}' || c == '\u{205f}' || c == '\u{3000}'
}

/// Whether `s.trim()` is empty.
pub fn is_blank(s: &str) -> (r: bool)
    ensures
        r == blank(s@),
{
    let sc = chars_of(s);
    let n = sc.len();
    for i in 0..n
        invariant
            n == sc@.len(),
            sc@ == s@,
            forall|j: int| 0 <= j < i ==> is_ws(#[trigger] sc@[j]),
    {
        if !is_whitespace(sc[i]) {
            return false;
        }
    }
    true
}

/// ASCII digit `0`-`9`.
pub open spec fn is_digit(c: char) -> bool {
    '0' <= c && c <= '9'
}

/// ASCII letter or digit (`char::is_ascii_alphanumeric`).
pub open spec fn is_alnum(c: char) -> bool {
    is_digit(c) || ('a' <= c && c <= 'z') || ('A' <= c && c <= 'Z')
}

/// `char::to_ascii_lowercase`.
pub open spec fn lower_ascii(c: char) -> char {
    if 'A' <= c && c <= 'Z' {
        ((c as u32) + 32) as char
    } else {
        c
    }
}

/// Lower-cases ASCII letters and leaves every other character alone.
pub fn to_ascii_lowercase(c: char) -> (r: char)
    ensures
        r == lower_ascii(c),
{
    if 'A' <= c && c <= 'Z' {
        ((c as u8) + 32) as char
    } else {
        c
    }
}

/// Position of the first `'\n'` at or after `i`, or `s.len()`.
pub open spec fn newline_from(s: Seq<char>, i: int) -> int
    decreases s.len() - i,
{
    if i < 0 || i >= s.len() {
        s.len() as int
    } else if s[i] == '\n' {
        i
    } else {
        newline_from(s, i + 1)
    }
}

proof fn lemma_newline_from_bounds(s: Seq<char>, i: int)
    requires
        0 <= i,
    ensures
        i <= newline_from(s, i) <= s.len() || (i > s.len() && newline_from(s, i) == s.len()),
        newline_from(s, i) < s.len() ==> s[newline_from(s, i)] == '\n',
    decreases s.len() - i,
{
    if i < s.len() && s[i] != '\n' {
        lemma_newline_from_bounds(s, i + 1);
    }
}

proof fn lemma_newline_from_exact(s: Seq<char>, a: int, b: int)
    requires
        0 <= a <= b <= s.len(),
        forall|k: int| a <= k < b ==> s[k] != '\n',
        b == s.len() || s[b] == '\n',
    ensures
        newline_from(s, a) == b,
    decreases b - a,
{
    if a < b {
        lemma_newline_from_exact(s, a + 1, b);
    }
}

/// A line without its trailing carriage return.
pub open spec fn strip_cr(l: Seq<char>) -> Seq<char> {
    if l.len() > 0 && l.last() == '\r' {
        l.drop_last()
    } else {
        l
    }
}

/// The lines of a text as `str::lines` yields them: split after each
/// `'\n'`, with the `"\n"` or `"\r\n"` ending removed; a final line without
/// a newline is kept as it is, and no empty line follows a final newline.
pub open spec fn lines_of(s: Seq<char>) -> Seq<Seq<char>>
    decreases s.len(),
{
    if s.len() == 0 {
        seq![]
    } else {
        let j = newline_from(s, 0);
        if j >= s.len() || j < 0 {
            seq![s]
        } else {
            seq![strip_cr(s.take(j))] + lines_of(s.skip(j + 1))
        }
    }
}

/// The characters of each string slice.
pub open spec fn str_views(v: Seq<&str>) -> Seq<Seq<char>> {
    v.map_values(|x: &str| x@)
}

/// The views of a sequence of strings.
pub open spec fn views(v: Seq<String>) -> Seq<Seq<char>> {
    v.map_values(|x: String| x@)
}

fn strip_cr_string(cs: &[char], from: usize, to: usize) -> (r: String)
    requires
        from <= to <= cs@.len(),
    ensures
        r@ == strip_cr(cs@.subrange(from as int, to as int)),
{
    if to > from && cs[to - 1] == '\r' {
        assert(cs@.subrange(from as int, to as int).drop_last() == cs@.subrange(
            from as int,
            to - 1,
        ));
        string_of(&cs[from..to - 1])
    } else {
        string_of(&cs[from..to])
    }
}

/// Splits a text into lines (`str::lines`).
pub fn split_lines(s: &str) -> (out: Vec<String>)
    ensures
        views(out@) == lines_of(s@),
{
    let sc = chars_of(s);
    let n = sc.len();
    let mut out: Vec<String> = Vec::new();
    let mut start: usize = 0;
    assert(sc@.skip(0) =~= sc@);
    for i in 0..n
        invariant
            n == sc@.len(),
            sc@ == s@,
            start <= i,
            forall|k: int| start <= k < i ==> sc@[k] != '\n',
            lines_of(s@) == views(out@) + lines_of(sc@.skip(start as int)),
    {
        if sc[i] == '\n' {
            let line = strip_cr_string(sc.as_slice(), start, i);
            proof {
                let t = sc@.skip(start as int);
                lemma_newline_from_exact(t, 0, i - start);
                assert(t.take(i - start) =~= sc@.subrange(start as int, i as int));
                assert(t.skip(i - start + 1) =~= sc@.skip(i + 1));
                assert(lines_of(t) == seq![line@] + lines_of(sc@.skip(i + 1)));
                assert(views(out@.push(line)) =~= views(out@).push(line@));
                assert(views(out@) + lines_of(t) =~= views(out@).push(line@) + lines_of(
                    sc@.skip(i + 1),
                ));
            }
            out.push(line);
            start = i + 1;
        }
    }
    if start < n {
        let line = string_of(&sc.as_slice()[start..n]);
        proof {
            let t = sc@.skip(start as int);
            lemma_newline_from_exact(t, 0, t.len() as int);
            assert(t =~= sc@.subrange(start as int, n as int));
            assert(lines_of(t) == seq![t]);
            assert(views(out@.push(line)) =~= views(out@).push(line@));
            assert(views(out@) + seq![t] =~= views(out@).push(line@));
        }
        out.push(line);
    } else {
        assert(sc@.skip(start as int) =~= Seq::<char>::empty());
        assert(views(out@) + Seq::<Seq<char>>::empty() =~= views(out@));
    }
    out
}

/// Copies a vector of strings.
pub fn copy_strings(v: &Vec<String>) -> (r: Vec<String>)
    ensures
        views(r@) == views(v@),
{
    let mut r: Vec<String> = Vec::new();
    let n = v.len();
    for i in 0..n
        invariant
            n == v@.len(),
            views(r@) == views(v@).take(i as int),
    {
        let x = v[i].clone();
        proof {
            assert(views(r@.push(x)) =~= views(r@).push(x@));
            assert(views(v@).take(i + 1) =~= views(v@).take(i as int).push(v@[i as int]@));
        }
        r.push(x);
    }
    assert(views(v@).take(n as int) =~= views(v@));
    r
}

/// The characters of an optional string.
pub open spec fn opt_chars(o: Option<String>) -> Option<Seq<char>> {
    match o {
        Some(s) => Some(s@),
        None => None,
    }
}

/// Copies an optional string.
pub fn copy_opt(o: &Option<String>) -> (r: Option<String>)
    ensures
        opt_chars(r) == opt_chars(*o),
{
    match o {
        Some(s) => Some(s.clone()),
        None => None,
    }
}

/// The parts joined with `sep` between each two neighbours.
pub open spec fn joined(parts: Seq<Seq<char>>, sep: Seq<char>) -> Seq<char>
    decreases parts.len(),
{
    if parts.len() == 0 {
        Seq::empty()
    } else if parts.len() == 1 {
        parts[0]
    } else {
        joined(parts.drop_last(), sep) + sep + parts.last()
    }
}

/// Joins the strings with `sep` between each two neighbours (`[T]::join`).
pub fn join_strings(parts: &[String], sep: &str) -> (r: String)
    ensures
        r@ == joined(views(parts@), sep@),
{
    let n = parts.len();
    if n == 0 {
        return String::new();
    }
    let mut out = parts[0].clone();
    assert(views(parts@).take(1).drop_last() =~= Seq::<Seq<char>>::empty());
    for i in 1..n
        invariant
            1 <= n == parts@.len(),
            out@ == joined(views(parts@).take(i as int), sep@),
    {
        proof {
            assert(views(parts@).take(i + 1).drop_last() =~= views(parts@).take(i as int));
        }
        out = concat(out.as_str(), sep);
        out = concat(out.as_str(), parts[i].as_str());
    }
    assert(views(parts@).take(n as int) =~= views(parts@));
    out
}

/// The strings of `v` followed by those of `extra`.
pub fn append_strings(v: &mut Vec<String>, extra: &[String])
    ensures
        views(final(v)@) == views(old(v)@) + views(extra@),
{
    let n = extra.len();
    let ghost start = views(v@);
    for i in 0..n
        invariant
            n == extra@.len(),
            views(v@) == start + views(extra@).take(i as int),
    {
        let x = extra[i].clone();
        proof {
            assert(views(v@.push(x)) =~= views(v@).push(x@));
            assert(views(extra@).take(i + 1) =~= views(extra@).take(i as int).push(extra@[i as int]@));
        }
        v.push(x);
    }
    assert(views(extra@).take(n as int) =~= views(extra@));
}

/// The Unicode lowercase of a string (`str::to_lowercase`).
pub uninterp spec fn unicode_lower(s: Seq<char>) -> Seq<char>;

/// `str::to_lowercase`: the Unicode lowercase mapping of every character,
/// its result named [`unicode_lower`].
#[verifier::external_body]
pub(crate) fn to_lowercase(s: &str) -> (r: String)
    ensures
        r@ == unicode_lower(s@),
{
    s.to_lowercase()
}

/// Whether `t` occurs in `s` as a contiguous run.
pub open spec fn has_infix(s: Seq<char>, t: Seq<char>) -> bool {
    exists|i: int| 0 <= i <= s.len() - t.len() && #[trigger] s.subrange(i, i + t.len()) == t
}

/// Whether `t` occurs in `s` (`str::contains` with a string pattern).
pub fn contains_str(s: &str, t: &str) -> (r: bool)
    ensures
        r == has_infix(s@, t@),
{
    let sc = chars_of(s);
    let tc = chars_of(t);
    let n = sc.len();
    let m = tc.len();
    if m > n {
        return false;
    }
    let mut i: usize = 0;
    while i <= n - m
        invariant
            n == sc@.len(),
            m == tc@.len(),
            m <= n,
            sc@ == s@,
            tc@ == t@,
            i <= n - m + 1,
            forall|k: int| 0 <= k < i ==> #[trigger] sc@.subrange(k, k + m) != tc@,
        decreases n - m + 1 - i,
    {
        let mut j: usize = 0;
        let mut same = true;
        while j < m
            invariant
                j <= m,
                i <= n - m,
                n == sc@.len(),
                m == tc@.len(),
                same == (forall|q: int| 0 <= q < j ==> sc@[i + q] == tc@[q]),
            decreases m - j,
        {
            if sc[i + j] != tc[j] {
                same = false;
            }
            j = j + 1;
        }
        if same {
            assert(sc@.subrange(i as int, i + m) =~= tc@);
            return true;
        }
        assert(sc@.subrange(i as int, i + m) != tc@) by {
            let q = choose|q: int| 0 <= q < m && sc@[i + q] != tc@[q];
            assert(sc@.subrange(i as int, i + m)[q] == sc@[i + q]);
        }
        i = i + 1;
    }
    false
}

/// `s` without its leading whitespace (`str::trim_start`).
pub open spec fn trim_ws_start(s: Seq<char>) -> Seq<char>
    decreases s.len(),
{
    if s.len() > 0 && is_ws(s[0]) {
        trim_ws_start(s.skip(1))
    } else {
        s
    }
}

/// `s` without its trailing whitespace (`str::trim_end`).
pub open spec fn trim_ws_end(s: Seq<char>) -> Seq<char>
    decreases s.len(),
{
    if s.len() > 0 && is_ws(s.last()) {
        trim_ws_end(s.drop_last())
    } else {
        s
    }
}

/// `s` without leading and trailing whitespace (`str::trim`).
pub open spec fn trim_ws(s: Seq<char>) -> Seq<char> {
    trim_ws_end(trim_ws_start(s))
}

/// Removes leading and trailing whitespace.
pub fn trim(s: &str) -> (r: String)
    ensures
        r@ == trim_ws(s@),
{
    let sc = chars_of(s);
    let n = sc.len();
    let mut start: usize = 0;
    assert(sc@.skip(0) =~= sc@);
    while start < n && is_whitespace(sc[start])
        invariant
            start <= n,
            n == sc@.len(),
            sc@ == s@,
            trim_ws_start(sc@.skip(start as int)) == trim_ws_start(s@),
        decreases n - start,
    {
        assert(sc@.skip(start as int).skip(1) =~= sc@.skip(start + 1));
        start = start + 1;
    }
    let mut end: usize = n;
    let ghost mid = sc@.skip(start as int);
    assert(trim_ws_start(mid) == mid);
    assert(mid == trim_ws_start(s@));
    assert(sc@.subrange(start as int, n as int) =~= mid);
    while end > start && is_whitespace(sc[end - 1])
        invariant
            start <= end <= n,
            n == sc@.len(),
            mid == sc@.skip(start as int),
            trim_ws_end(sc@.subrange(start as int, end as int)) == trim_ws_end(mid),
        decreases end,
    {
        assert(sc@.subrange(start as int, end as int).drop_last() =~= sc@.subrange(
            start as int,
            end - 1,
        ));
        end = end - 1;
    }
    let ghost t = sc@.subrange(start as int, end as int);
    assert(trim_ws_end(t) == t);
    string_of(&sc.as_slice()[start..end])
}

/// Position of the first whitespace character at or after `i`, or the
/// length.
pub open spec fn ws_from(s: Seq<char>, i: int) -> int
    decreases s.len() - i,
{
    if i < 0 || i >= s.len() {
        s.len() as int
    } else if is_ws(s[i]) {
        i
    } else {
        ws_from(s, i + 1)
    }
}

proof fn lemma_ws_from_exact(s: Seq<char>, a: int, b: int)
    requires
        0 <= a <= b <= s.len(),
        forall|k: int| a <= k < b ==> !is_ws(#[trigger] s[k]),
        b == s.len() || is_ws(s[b]),
    ensures
        ws_from(s, a) == b,
    decreases b - a,
{
    if a < b {
        lemma_ws_from_exact(s, a + 1, b);
    }
}

/// The words of a text as `str::split_whitespace` yields them: the maximal
/// runs of characters that are not whitespace.
pub open spec fn ws_words(s: Seq<char>) -> Seq<Seq<char>>
    decreases s.len(),
{
    if s.len() == 0 {
        seq![]
    } else if is_ws(s[0]) {
        ws_words(s.skip(1))
    } else {
        let j = ws_from(s, 0);
        if j <= 0 || j > s.len() {
            seq![s]
        } else {
            seq![s.take(j)] + ws_words(s.skip(j))
        }
    }
}

/// Splits a text into its whitespace-separated words.
pub fn split_whitespace(s: &str) -> (out: Vec<String>)
    ensures
        views(out@) == ws_words(s@),
{
    let sc = chars_of(s);
    let n = sc.len();
    let mut out: Vec<String> = Vec::new();
    let mut i: usize = 0;
    assert(sc@.skip(0) =~= sc@);
    while i < n
        invariant
            i <= n,
            n == sc@.len(),
            sc@ == s@,
            ws_words(s@) == views(out@) + ws_words(sc@.skip(i as int)),
        decreases n - i,
    {
        if is_whitespace(sc[i]) {
            assert(sc@.skip(i as int).skip(1) =~= sc@.skip(i + 1));
            i = i + 1;
        } else {
            let mut j = i + 1;
            while j < n && !is_whitespace(sc[j])
                invariant
                    i < j <= n,
                    n == sc@.len(),
                    forall|k: int| i <= k < j ==> !is_ws(#[trigger] sc@[k]),
                decreases n - j,
            {
                j = j + 1;
            }
            let w = string_of(&sc.as_slice()[i..j]);
            proof {
                let t = sc@.skip(i as int);
                assert forall|k: int| 0 <= k < j - i implies !is_ws(#[trigger] t[k]) by {
                    assert(t[k] == sc@[i + k]);
                }
                lemma_ws_from_exact(t, 0, j - i);
                assert(t.take(j - i) =~= sc@.subrange(i as int, j as int));
                assert(t.skip(j - i) =~= sc@.skip(j as int));
                assert(views(out@.push(w)) =~= views(out@).push(w@));
                assert(views(out@) + ws_words(t) =~= views(out@).push(w@) + ws_words(sc@.skip(j as int)));
            }
            out.push(w);
            i = j;
        }
    }
    assert(sc@.skip(n as int) =~= Seq::<char>::empty());
    assert(views(out@) + Seq::<Seq<char>>::empty() =~= views(out@));
    out
}

} // verus!
