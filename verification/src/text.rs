//! Character-level text helpers shared by the agents: trimming, blank checks,
//! substring search, line splitting, joining and decimal rendering.

use vstd::prelude::*;

verus! {

broadcast use vstd::string::group_string_axioms;

/// Unicode `White_Space` property, the notion of whitespace used by
/// `char::is_whitespace`, `str::trim` and `str::split_whitespace`.
pub open spec fn is_ws(c: char) -> bool {
    let u = c as u32;
    ||| 0x9 <= u <= 0xd
    ||| u == 0x20
    ||| u == 0x85
    ||| u == 0xa0
    ||| u == 0x1680
    ||| 0x2000 <= u <= 0x200a
    ||| u == 0x2028
    ||| u == 0x2029
    ||| u == 0x202f
    ||| u == 0x205f
    ||| u == 0x3000
}

/// Whether `c` is a whitespace character.
pub fn is_whitespace(c: char) -> (r: bool)
    ensures
        r == is_ws(c),
{
    let u = c as u32;
    (0x9 <= u && u <= 0xd) || u == 0x20 || u == 0x85 || u == 0xa0 || u == 0x1680 || (0x2000
        <= u && u <= 0x200a) || u == 0x2028 || u == 0x2029 || u == 0x202f || u == 0x205f || u
        == 0x3000
}

/// Leading whitespace removed.
pub open spec fn trim_start(s: Seq<char>) -> Seq<char>
    decreases s.len(),
{
    if s.len() > 0 && is_ws(s[0]) {
        trim_start(s.drop_first())
    } else {
        s
    }
}

/// Trailing whitespace removed.
pub open spec fn trim_end(s: Seq<char>) -> Seq<char>
    decreases s.len(),
{
    if s.len() > 0 && is_ws(s.last()) {
        trim_end(s.drop_last())
    } else {
        s
    }
}

/// Leading and trailing whitespace removed, as `str::trim` does.
pub open spec fn trim(s: Seq<char>) -> Seq<char> {
    trim_end(trim_start(s))
}

/// Every character is whitespace (the empty sequence included).
pub open spec fn all_ws(s: Seq<char>) -> bool {
    forall|i: int| 0 <= i < s.len() ==> is_ws(#[trigger] s[i])
}

/// A text is blank when nothing remains after trimming.
pub open spec fn is_blank_text(s: Seq<char>) -> bool {
    trim(s).len() == 0
}

pub proof fn lemma_trim_start_skip(s: Seq<char>, i: int)
    requires
        0 <= i <= s.len(),
        forall|k: int| 0 <= k < i ==> is_ws(#[trigger] s[k]),
    ensures
        trim_start(s) == trim_start(s.subrange(i, s.len() as int)),
    decreases i,
{
    if i > 0 {
        assert(s.drop_first() =~= s.subrange(1, s.len() as int));
        lemma_trim_start_skip(s.drop_first(), i - 1);
        assert(s.drop_first().subrange(i - 1, s.drop_first().len() as int) =~= s.subrange(
            i,
            s.len() as int,
        ));
    } else {
        assert(s.subrange(0, s.len() as int) =~= s);
    }
}

pub proof fn lemma_trim_end_skip(s: Seq<char>, j: int)
    requires
        0 <= j <= s.len(),
        forall|k: int| j <= k < s.len() ==> is_ws(#[trigger] s[k]),
    ensures
        trim_end(s) == trim_end(s.subrange(0, j)),
    decreases s.len() - j,
{
    if j < s.len() {
        assert(s.drop_last() =~= s.subrange(0, s.len() - 1));
        lemma_trim_end_skip(s.drop_last(), j);
        assert(s.drop_last().subrange(0, j) =~= s.subrange(0, j));
    } else {
        assert(s.subrange(0, j) =~= s);
    }
}

pub proof fn lemma_trim_start_first(s: Seq<char>)
    ensures
        trim_start(s).len() > 0 ==> !is_ws(trim_start(s)[0]),
        trim_start(s).len() == 0 <==> all_ws(s),
    decreases s.len(),
{
    if s.len() > 0 && is_ws(s[0]) {
        lemma_trim_start_first(s.drop_first());
        if all_ws(s.drop_first()) {
            assert forall|i: int| 0 <= i < s.len() implies is_ws(#[trigger] s[i]) by {
                if i > 0 {
                    assert(s[i] == s.drop_first()[i - 1]);
                }
            }
        }
        if all_ws(s) {
            assert forall|i: int| 0 <= i < s.drop_first().len() implies is_ws(
                #[trigger] s.drop_first()[i],
            ) by {
                assert(s.drop_first()[i] == s[i + 1]);
            }
        }
    } else if s.len() > 0 {
        assert(!is_ws(s[0]));
    }
}

pub proof fn lemma_trim_end_nonempty(s: Seq<char>)
    requires
        s.len() > 0,
        !is_ws(s[0]),
    ensures
        trim_end(s).len() > 0,
    decreases s.len(),
{
    if is_ws(s.last()) {
        assert(s.len() > 1);
        lemma_trim_end_nonempty(s.drop_last());
    }
}

/// A text is blank exactly when all of its characters are whitespace.
pub proof fn lemma_blank_iff_all_ws(s: Seq<char>)
    ensures
        is_blank_text(s) <==> all_ws(s),
{
    lemma_trim_start_first(s);
    if trim_start(s).len() > 0 {
        lemma_trim_end_nonempty(trim_start(s));
    }
}

/// Whether every character of `s` is whitespace, i.e. whether `s` trims to nothing.
pub fn is_blank(s: &Vec<char>) -> (r: bool)
    ensures
        r == is_blank_text(s@),
{
    proof {
        lemma_blank_iff_all_ws(s@);
    }
    let n = s.len();
    let mut i: usize = 0;
    while i < n
        invariant
            n == s@.len(),
            0 <= i <= n,
            forall|k: int| 0 <= k < i ==> is_ws(#[trigger] s@[k]),
            is_blank_text(s@) <==> all_ws(s@),
        decreases n - i,
    {
        if !is_whitespace(s[i]) {
            assert(!is_ws(s@[i as int]));
            assert(!all_ws(s@));
            return false;
        }
        i = i + 1;
    }
    true
}

/// The characters of a string slice, in order.
pub fn chars_of(s: &str) -> (out: Vec<char>)
    ensures
        out@ == s@,
{
    let mut out: Vec<char> = Vec::new();
    for c in it: s.chars()
        invariant
            out@ == it.seq().take(it.index() as int),
            it.seq() == s@,
    {
        out.push(c);
    }
    out
}

/// The elements `from..to` of `s` as a new vector.
pub fn copy_range(s: &Vec<char>, from: usize, to: usize) -> (out: Vec<char>)
    requires
        from <= to <= s.len(),
    ensures
        out@ == s@.subrange(from as int, to as int),
{
    let mut out: Vec<char> = Vec::new();
    let mut i = from;
    while i < to
        invariant
            from <= i <= to <= s.len(),
            out@ == s@.subrange(from as int, i as int),
        decreases to - i,
    {
        out.push(s[i]);
        proof {
            assert(s@.subrange(from as int, i + 1) =~= s@.subrange(from as int, i as int).push(
                s@[i as int],
            ));
        }
        i = i + 1;
    }
    out
}

/// `s` without leading and trailing whitespace.
pub fn trim_chars(s: &Vec<char>) -> (out: Vec<char>)
    ensures
        out@ == trim(s@),
{
    let n = s.len();
    let mut i: usize = 0;
    while i < n && is_whitespace(s[i])
        invariant
            n == s@.len(),
            0 <= i <= n,
            forall|k: int| 0 <= k < i ==> is_ws(#[trigger] s@[k]),
        decreases n - i,
    {
        i = i + 1;
    }
    proof {
        lemma_trim_start_skip(s@, i as int);
    }
    let ghost t = s@.subrange(i as int, n as int);
    assert(trim_start(t) == t) by {
        if t.len() > 0 {
            assert(t[0] == s@[i as int]);
        }
    }
    let mut j: usize = n;
    while j > i && is_whitespace(s[j - 1])
        invariant
            n == s@.len(),
            i <= j <= n,
            t == s@.subrange(i as int, n as int),
            forall|k: int| j - i <= k < t.len() ==> is_ws(#[trigger] t[k]),
        decreases j,
    {
        assert(t[j - 1 - i] == s@[j - 1]);
        j = j - 1;
    }
    proof {
        lemma_trim_end_skip(t, j - i);
        let u = t.subrange(0, j - i);
        if u.len() > 0 {
            assert(u.last() == s@[j - 1]);
        }
        assert(trim_end(u) == u);
        assert(u =~= s@.subrange(i as int, j as int));
    }
    copy_range(s, i, j)
}

/// Whether `s` begins with `prefix`.
pub open spec fn starts_with(s: Seq<char>, prefix: Seq<char>) -> bool {
    prefix.len() <= s.len() && s.subrange(0, prefix.len() as int) == prefix
}

/// Whether `needle` occurs in `s` at position `i`.
pub open spec fn occurs_at(s: Seq<char>, needle: Seq<char>, i: int) -> bool {
    0 <= i && i + needle.len() <= s.len() && s.subrange(i, i + needle.len()) == needle
}

/// Whether `needle` occurs somewhere in `s`, as `str::contains` with a string pattern.
pub open spec fn contains_text(s: Seq<char>, needle: Seq<char>) -> bool {
    exists|i: int| occurs_at(s, needle, i)
}

/// Whether `needle` occurs in `s` at position `i`.
pub fn matches_at(s: &Vec<char>, needle: &Vec<char>, i: usize) -> (r: bool)
    ensures
        r == occurs_at(s@, needle@, i as int),
{
    if i > s.len() || needle.len() > s.len() - i {
        return false;
    }
    let m = needle.len();
    let mut k: usize = 0;
    while k < m
        invariant
            m == needle@.len(),
            i + m <= s.len(),
            0 <= k <= m,
            forall|q: int| 0 <= q < k ==> s@[i + q] == needle@[q],
        decreases m - k,
    {
        if s[i + k] != needle[k] {
            assert(s@.subrange(i as int, i + m)[k as int] != needle@[k as int]);
            return false;
        }
        k = k + 1;
    }
    assert(s@.subrange(i as int, i + m) =~= needle@);
    true
}

/// Whether `needle` occurs somewhere in `s`.
pub fn contains(s: &Vec<char>, needle: &Vec<char>) -> (r: bool)
    ensures
        r == contains_text(s@, needle@),
{
    if needle.len() > s.len() {
        return false;
    }
    let last = s.len() - needle.len();
    let mut i: usize = 0;
    while i <= last
        invariant
            last == s@.len() - needle@.len(),
            0 <= i <= last,
            forall|q: int| 0 <= q < i ==> !occurs_at(s@, needle@, q),
        ensures
            forall|q: int| 0 <= q <= last ==> !occurs_at(s@, needle@, q),
        decreases last - i,
    {
        if matches_at(s, needle, i) {
            return true;
        }
        if i == last {
            break;
        }
        i = i + 1;
    }
    assert forall|q: int| !occurs_at(s@, needle@, q) by {
        if 0 <= q && q + needle@.len() <= s@.len() {
            assert(q <= last);
        }
    }
    false
}

/// Whether `needle` (a literal) occurs somewhere in `s`.
pub fn contains_str(s: &Vec<char>, needle: &str) -> (r: bool)
    ensures
        r == contains_text(s@, needle@),
{
    let n = chars_of(needle);
    contains(s, &n)
}

/// Whether `s` begins with `prefix`.
pub fn has_prefix(s: &Vec<char>, prefix: &str) -> (r: bool)
    ensures
        r == starts_with(s@, prefix@),
{
    let p = chars_of(prefix);
    let r = matches_at(s, &p, 0);
    r
}

/// Whether two character sequences are equal.
pub fn chars_eq(a: &Vec<char>, b: &Vec<char>) -> (r: bool)
    ensures
        r == (a@ == b@),
{
    if a.len() != b.len() {
        return false;
    }
    let r = matches_at(a, b, 0);
    proof {
        if r {
            assert(a@.subrange(0, a@.len() as int) =~= a@);
        } else {
            assert(a@.subrange(0, a@.len() as int) =~= a@);
        }
    }
    r
}

/// Whether `s` spells the literal `lit`.
pub fn eq_str(s: &Vec<char>, lit: &str) -> (r: bool)
    ensures
        r == (s@ == lit@),
{
    let l = chars_of(lit);
    chars_eq(s, &l)
}


/// Appends one character, as `String::push` does.
#[verifier::external_body]
pub(crate) fn push_char(s: &mut String, c: char)
    ensures
        final(s)@ == old(s)@.push(c),
{
    s.push(c);
}

/// Appends a string slice.
pub fn push_str(s: &mut String, t: &str)
    ensures
        final(s)@ == old(s)@ + t@,
{
    s.append(t);
}

/// Appends a sequence of characters.
pub fn push_chars(s: &mut String, v: &Vec<char>)
    ensures
        final(s)@ == old(s)@ + v@,
{
    let ghost start = s@;
    let n = v.len();
    let mut i: usize = 0;
    while i < n
        invariant
            n == v@.len(),
            0 <= i <= n,
            s@ == start + v@.subrange(0, i as int),
        decreases n - i,
    {
        push_char(s, v[i]);
        proof {
            assert(v@.subrange(0, i + 1) =~= v@.subrange(0, i as int).push(v@[i as int]));
        }
        i = i + 1;
    }
    assert(v@.subrange(0, n as int) =~= v@);
}

/// A string holding the given characters.
pub fn string_from_chars(v: &Vec<char>) -> (r: String)
    ensures
        r@ == v@,
{
    let mut r = String::new();
    push_chars(&mut r, v);
    assert(r@ =~= v@);
    r
}

/// A new string equal to `t`.
pub fn owned(t: &str) -> (r: String)
    ensures
        r@ == t@,
{
    t.to_owned()
}

/// A copy of a string.
pub fn copy_string(t: &String) -> (r: String)
    ensures
        r@ == t@,
{
    t.as_str().to_owned()
}

/// A copy of an optional string.
pub fn copy_opt_string(t: &Option<String>) -> (r: Option<String>)
    ensures
        opt_view(r) == opt_view(*t),
{
    match t {
        Some(v) => Some(copy_string(v)),
        None => None,
    }
}

/// The view of an optional string.
pub open spec fn opt_view(o: Option<String>) -> Option<Seq<char>> {
    match o {
        Some(s) => Some(s@),
        None => None,
    }
}

/// Parts joined by a separator, as `[..].join(sep)` does.
pub open spec fn join(parts: Seq<Seq<char>>, sep: Seq<char>) -> Seq<char>
    decreases parts.len(),
{
    if parts.len() == 0 {
        Seq::empty()
    } else if parts.len() == 1 {
        parts[0]
    } else {
        join(parts.drop_last(), sep) + sep + parts.last()
    }
}

/// The views of a sequence of strings.
pub open spec fn views(v: Seq<String>) -> Seq<Seq<char>> {
    v.map_values(|p: String| p@)
}

/// What occurs in a text occurs in any text that has it as a prefix.
pub proof fn lemma_contains_extend_right(a: Seq<char>, b: Seq<char>, n: Seq<char>)
    requires
        contains_text(a, n),
    ensures
        contains_text(a + b, n),
{
    let i = choose|i: int| occurs_at(a, n, i);
    assert((a + b).subrange(i, i + n.len()) =~= a.subrange(i, i + n.len()));
    assert(occurs_at(a + b, n, i));
}

/// What occurs in a text occurs in any text that has it as a suffix.
pub proof fn lemma_contains_extend_left(a: Seq<char>, b: Seq<char>, n: Seq<char>)
    requires
        contains_text(b, n),
    ensures
        contains_text(a + b, n),
{
    let i = choose|i: int| occurs_at(b, n, i);
    assert((a + b).subrange(a.len() + i, a.len() + i + n.len()) =~= b.subrange(i, i + n.len()));
    assert(occurs_at(a + b, n, a.len() + i));
}

/// What occurs in a text occurs in any text that begins with it.
pub proof fn lemma_contains_in_prefix(s: Seq<char>, t: Seq<char>, n: Seq<char>)
    requires
        contains_text(t, n),
        starts_with(s, t),
    ensures
        contains_text(s, n),
{
    let i = choose|i: int| occurs_at(t, n, i);
    assert(s.subrange(i, i + n.len()) =~= t.subrange(i, i + n.len()));
    assert(occurs_at(s, n, i));
}

/// A text occurs in itself.
pub proof fn lemma_contains_self(s: Seq<char>)
    ensures
        contains_text(s, s),
{
    assert(s.subrange(0, s.len() as int) =~= s);
    assert(occurs_at(s, s, 0));
}

/// What occurs in an occurring text occurs in the whole.
pub proof fn lemma_contains_transitive(s: Seq<char>, m: Seq<char>, n: Seq<char>)
    requires
        contains_text(s, m),
        contains_text(m, n),
    ensures
        contains_text(s, n),
{
    let i = choose|i: int| occurs_at(s, m, i);
    let j = choose|j: int| occurs_at(m, n, j);
    assert(s.subrange(i + j, i + j + n.len()) =~= m.subrange(j, j + n.len()));
    assert(occurs_at(s, n, i + j));
}

/// A labelled value written after a line feed occurs, label first, in the
/// text that ends with it.
pub proof fn lemma_contains_labeled(before: Seq<char>, nl_label: Seq<char>, label: Seq<char>, value: Seq<char>)
    requires
        nl_label == seq!['\n'] + label,
    ensures
        contains_text(before + nl_label + value, label + value),
{
    let s = before + nl_label + value;
    let i: int = before.len() as int + 1;
    assert(s.subrange(i, i + (label + value).len()) =~= label + value);
    assert(occurs_at(s, label + value, i));
}

/// Each part of a joined text occurs in it.
pub proof fn lemma_join_contains_part(parts: Seq<Seq<char>>, sep: Seq<char>, k: int)
    requires
        0 <= k < parts.len(),
    ensures
        contains_text(join(parts, sep), parts[k]),
    decreases parts.len(),
{
    if parts.len() == 1 {
        lemma_contains_self(parts[0]);
    } else if k == parts.len() - 1 {
        lemma_contains_self(parts.last());
        lemma_contains_extend_left(join(parts.drop_last(), sep) + sep, parts.last(), parts[k]);
    } else {
        lemma_join_contains_part(parts.drop_last(), sep, k);
        lemma_contains_extend_right(join(parts.drop_last(), sep), sep, parts[k]);
        lemma_contains_extend_right(join(parts.drop_last(), sep) + sep, parts.last(), parts[k]);
    }
}

/// Pushing a string pushes its view.
pub proof fn lemma_views_push(v: Seq<String>, s: String)
    ensures
        views(v.push(s)) == views(v).push(s@),
{
    assert(views(v.push(s)) =~= views(v).push(s@));
}

/// Strings joined by a separator.
pub fn join_strings(parts: &Vec<String>, sep: &str) -> (r: String)
    ensures
        r@ == join(views(parts@), sep@),
{
    let mut r = String::new();
    let n = parts.len();
    let ghost ps = views(parts@);
    let mut i: usize = 0;
    while i < n
        invariant
            n == parts@.len(),
            ps == views(parts@),
            0 <= i <= n,
            r@ == join(ps.take(i as int), sep@),
        decreases n - i,
    {
        if i > 0 {
            push_str(&mut r, sep);
        }
        push_str(&mut r, parts[i].as_str());
        proof {
            let t = ps.take(i + 1);
            assert(t.drop_last() =~= ps.take(i as int));
            assert(t.last() == parts@[i as int]@);
            if i == 0 {
                assert(ps.take(0).len() == 0);
                assert(r@ =~= t[0]);
            }
        }
        i = i + 1;
    }
    assert(ps.take(n as int) =~= ps);
    r
}

/// The decimal digit character for `d < 10`.
pub open spec fn digit_char(d: nat) -> char {
    ((d + 48) as u8) as char
}

/// Decimal rendering of a natural number, as `Display` for unsigned integers.
pub open spec fn decimal(n: nat) -> Seq<char>
    decreases n,
{
    if n < 10 {
        seq![digit_char(n)]
    } else {
        decimal(n / 10).push(digit_char(n % 10))
    }
}

/// Appends the decimal rendering of `n`.
pub fn push_decimal(s: &mut String, n: u64)
    ensures
        final(s)@ == old(s)@ + decimal(n as nat),
    decreases n,
{
    if n >= 10 {
        push_decimal(s, n / 10);
    }
    let d: u8 = (n % 10) as u8;
    let c: char = (d + 48) as char;
    push_char(s, c);
    proof {
        if n >= 10 {
            assert(decimal(n as nat) == decimal((n / 10) as nat).push(digit_char((n % 10) as nat)));
        }
    }
    assert(s@ =~= old(s)@ + decimal(n as nat));
}

/// Appends `true` or `false`, as `Display` for `bool`.
pub fn push_bool(s: &mut String, b: bool)
    ensures
        final(s)@ == old(s)@ + bool_text(b),
{
    if b {
        push_str(s, "true");
    } else {
        push_str(s, "false");
    }
}

/// The `Display` rendering of a boolean.
pub open spec fn bool_text(b: bool) -> Seq<char> {
    if b {
        "true"@
    } else {
        "false"@
    }
}


/// Index of the first `'\n'` at or after `i`, or `-1` when there is none.
pub open spec fn newline_from(s: Seq<char>, i: int) -> int
    decreases s.len() - i,
{
    if i < 0 || i >= s.len() {
        -1
    } else if s[i] == '\n' {
        i
    } else {
        newline_from(s, i + 1)
    }
}

/// A line with one trailing carriage return removed.
pub open spec fn strip_cr(line: Seq<char>) -> Seq<char> {
    if line.len() > 0 && line.last() == '\r' {
        line.drop_last()
    } else {
        line
    }
}

/// The lines of a text, as `str::lines` yields them: split after each
/// `'\n'`, the `'\n'` and one `'\r'` before it removed; a final line without
/// `'\n'` is kept as it is, and an empty text has no lines.
pub open spec fn lines(s: Seq<char>) -> Seq<Seq<char>>
    decreases s.len(),
{
    if s.len() == 0 {
        Seq::empty()
    } else {
        let k = newline_from(s, 0);
        if k < 0 {
            seq![s]
        } else {
            proof {
                lemma_newline_from_bounds(s, 0);
            }
            seq![strip_cr(s.subrange(0, k))] + lines(s.subrange(k + 1, s.len() as int))
        }
    }
}

pub proof fn lemma_newline_from_bounds(s: Seq<char>, i: int)
    requires
        0 <= i,
    ensures
        newline_from(s, i) == -1 || (i <= newline_from(s, i) < s.len() && s[newline_from(s, i)]
            == '\n'),
        newline_from(s, i) == -1 ==> forall|k: int| i <= k < s.len() ==> s[k] != '\n',
        newline_from(s, i) >= 0 ==> forall|k: int| i <= k < newline_from(s, i) ==> s[k] != '\n',
    decreases s.len() - i,
{
    if i < s.len() && s[i] != '\n' {
        lemma_newline_from_bounds(s, i + 1);
    }
}

pub proof fn lemma_newline_from_shift(s: Seq<char>, k: int, i: int)
    requires
        0 <= k <= s.len(),
        0 <= i,
    ensures
        newline_from(s.subrange(k, s.len() as int), i) == if newline_from(s, k + i) < 0 {
            -1
        } else {
            newline_from(s, k + i) - k
        },
    decreases s.len() - (k + i),
{
    let t = s.subrange(k, s.len() as int);
    if k + i < s.len() && s[k + i] != '\n' {
        assert(t[i] == s[k + i]);
        lemma_newline_from_shift(s, k, i + 1);
    } else if k + i < s.len() {
        assert(t[i] == s[k + i]);
    }
}

/// Each line prefixed with two spaces, the lines joined by `'\n'`.
pub open spec fn indent_lines(s: Seq<char>) -> Seq<char> {
    join(lines(s).map_values(|l: Seq<char>| "  "@ + l), "\n"@)
}

/// Splits `s` at its first `'\n'` at or after `from`.
fn split_line(s: &Vec<char>, from: usize) -> (r: (usize, bool))
    requires
        from <= s.len(),
    ensures
        r.1 ==> from <= r.0 < s.len() && r.0 as int == newline_from(s@, from as int),
        !r.1 ==> r.0 == s.len() && newline_from(s@, from as int) == -1,
{
    let n = s.len();
    let mut i = from;
    while i < n
        invariant
            n == s@.len(),
            from <= i <= n,
            newline_from(s@, from as int) == newline_from(s@, i as int),
        decreases n - i,
    {
        if s[i] == '\n' {
            return (i, true);
        }
        i = i + 1;
    }
    (n, false)
}

/// `text` with every line indented by two spaces.
pub fn indent_block(text: &str) -> (r: String)
    ensures
        r@ == indent_lines(text@),
{
    let s = chars_of(text);
    let n = s.len();
    let mut r = String::new();
    let mut pos: usize = 0;
    let mut count: usize = 0;
    let ghost all = lines(s@);
    let ghost mapped = all.map_values(|l: Seq<char>| "  "@ + l);
    proof {
        assert(s@.subrange(0, n as int) =~= s@);
        assert(all.take(0) =~= Seq::<Seq<char>>::empty());
        assert(all =~= all.take(0) + all);
        assert(mapped.take(0) =~= Seq::<Seq<char>>::empty());
    }
    while pos < n
        invariant
            n == s@.len(),
            s@ == text@,
            all == lines(s@),
            mapped == all.map_values(|l: Seq<char>| "  "@ + l),
            0 <= pos <= n,
            count <= pos,
            count <= all.len(),
            all == all.take(count as int) + lines(s@.subrange(pos as int, n as int)),
            r@ == join(mapped.take(count as int), "\n"@),
        decreases n - pos,
    {
        let ghost rest = s@.subrange(pos as int, n as int);
        let (k, found) = split_line(&s, pos);
        proof {
            lemma_newline_from_shift(s@, pos as int, 0);
            lemma_newline_from_bounds(s@, pos as int);
        }
        let end = if found && k > pos && s[k - 1] == '\r' { k - 1 } else { k };
        if count > 0 {
            push_str(&mut r, "\n");
        }
        push_str(&mut r, "  ");
        let line = copy_range(&s, pos, end);
        push_chars(&mut r, &line);
        proof {
            let line_spec = if found {
                strip_cr(rest.subrange(0, k - pos))
            } else {
                rest
            };
            if found {
                assert(rest.subrange(0, k - pos) =~= s@.subrange(pos as int, k as int));
                if k > pos && s@[k - 1] == '\r' {
                    assert(strip_cr(s@.subrange(pos as int, k as int)) =~= s@.subrange(
                        pos as int,
                        end as int,
                    ));
                } else {
                    assert(strip_cr(s@.subrange(pos as int, k as int)) =~= s@.subrange(
                        pos as int,
                        end as int,
                    ));
                }
                assert(rest.subrange(k - pos + 1, rest.len() as int) =~= s@.subrange(
                    k + 1,
                    n as int,
                ));
                assert(lines(rest) == seq![line_spec] + lines(s@.subrange(k + 1, n as int)));
            } else {
                assert(rest =~= s@.subrange(pos as int, end as int));
                assert(lines(rest) == seq![line_spec]);
            }
            let tail = if found { lines(s@.subrange(k + 1, n as int)) } else { Seq::empty() };
            assert(lines(rest) =~= seq![line_spec] + tail);
            assert(all =~= all.take(count as int) + (seq![line_spec] + tail));
            assert(all[count as int] == (all.take(count as int) + (seq![line_spec] + tail))[count as int]);
            assert(all[count as int] == line_spec);
            assert(all.take(count + 1) =~= all.take(count as int).push(line_spec));
            assert(mapped[count as int] == "  "@ + line_spec);
            let mt = mapped.take(count + 1);
            assert(mt.drop_last() =~= mapped.take(count as int));
            if count == 0 {
                assert(r@ =~= mt[0]);
            } else {
                assert(r@ =~= join(mapped.take(count as int), "\n"@) + "\n"@ + mt.last());
            }
            if found {
                assert(all =~= all.take(count + 1) + lines(s@.subrange(k + 1, n as int)));
            } else {
                assert(lines(s@.subrange(n as int, n as int)) =~= Seq::<Seq<char>>::empty());
                assert(all =~= all.take(count + 1) + lines(s@.subrange(n as int, n as int)));
            }
        }
        count = count + 1;
        pos = if found { k + 1 } else { n };
    }
    proof {
        assert(lines(s@.subrange(n as int, n as int)) =~= Seq::<Seq<char>>::empty());
        assert(all.take(count as int) =~= all);
        assert(mapped.take(count as int) =~= mapped);
    }
    r
}


/// Lowercase form of a text, as `str::to_lowercase` computes it
/// (Unicode `Lowercase` mapping, which may change the length).
pub uninterp spec fn lowercase(s: Seq<char>) -> Seq<char>;

/// Whether every character is ASCII.
pub open spec fn is_ascii_text(s: Seq<char>) -> bool {
    forall|i: int| 0 <= i < s.len() ==> (#[trigger] s[i] as u32) < 128
}

/// The ASCII lowercase of one character: `A`..`Z` become `a`..`z`.
pub open spec fn ascii_lower(c: char) -> char {
    if 'A' <= c <= 'Z' {
        ((c as u32) + 32) as char
    } else {
        c
    }
}

/// Calls `str::to_lowercase`. The result is named `lowercase` of the input;
/// on ASCII text the documentation states that only `A`..`Z` change, to
/// `a`..`z`. What it does to other characters (the full Unicode mapping,
/// which depends on context for a final sigma) is left to the name.
#[verifier::external_body]
pub(crate) fn to_lowercase(s: &str) -> (r: String)
    ensures
        r@ == lowercase(s@),
        is_ascii_text(s@) ==> r@ == s@.map_values(|c: char| ascii_lower(c)),
{
    s.to_lowercase()
}

/// Lowercase hexadecimal digit for `d < 16`.
pub open spec fn hex_char(d: nat) -> char {
    if d < 10 {
        ((d + 48) as u8) as char
    } else {
        ((d + 87) as u8) as char
    }
}

/// How one character is written inside a JSON string literal.
pub open spec fn json_escape_char(c: char) -> Seq<char> {
    let u = c as u32;
    if c == '"' {
        seq!['\\', '"']
    } else if c == '\\' {
        seq!['\\', '\\']
    } else if u == 0x8 {
        seq!['\\', 'b']
    } else if u == 0x9 {
        seq!['\\', 't']
    } else if u == 0xa {
        seq!['\\', 'n']
    } else if u == 0xc {
        seq!['\\', 'f']
    } else if u == 0xd {
        seq!['\\', 'r']
    } else if u < 0x20 {
        seq!['\\', 'u', '0', '0', hex_char((u / 16) as nat), hex_char((u % 16) as nat)]
    } else {
        seq![c]
    }
}

/// The escaped body of a JSON string literal.
pub open spec fn json_escape(s: Seq<char>) -> Seq<char>
    decreases s.len(),
{
    if s.len() == 0 {
        Seq::empty()
    } else {
        json_escape_char(s[0]) + json_escape(s.drop_first())
    }
}

/// A text written as a JSON string literal.
pub open spec fn json_string_literal(s: Seq<char>) -> Seq<char> {
    seq!['"'] + json_escape(s) + seq!['"']
}

/// Calls `serde_json`'s serializer on a string value. Its source
/// (`format_escaped_str`) writes a quote, each character with `"`, `\` and
/// the control characters below U+0020 escaped (short forms for backspace,
/// tab, line feed, form feed and carriage return, `\u00xx` with lowercase hex
/// for the others), and a closing quote; the contract states exactly that.
#[verifier::external_body]
pub(crate) fn json_quote(s: &str) -> (r: String)
    ensures
        r@ == json_string_literal(s@),
{
    serde_json::Value::String(s.to_string()).to_string()
}

/// Index of the first non-whitespace character at or after `i`.
pub open spec fn skip_ws(s: Seq<char>, i: int) -> int
    decreases s.len() - i,
{
    if 0 <= i < s.len() && is_ws(s[i]) {
        skip_ws(s, i + 1)
    } else {
        i
    }
}

/// Index just past the run of non-whitespace characters starting at `i`.
pub open spec fn word_end(s: Seq<char>, i: int) -> int
    decreases s.len() - i,
{
    if 0 <= i < s.len() && !is_ws(s[i]) {
        word_end(s, i + 1)
    } else {
        i
    }
}

pub proof fn lemma_skip_ws(s: Seq<char>, i: int)
    requires
        0 <= i,
    ensures
        i <= skip_ws(s, i),
        skip_ws(s, i) <= s.len() || skip_ws(s, i) == i,
        skip_ws(s, i) < s.len() ==> !is_ws(s[skip_ws(s, i)]),
        forall|k: int| i <= k < skip_ws(s, i) ==> is_ws(s[k]),
    decreases s.len() - i,
{
    if 0 <= i < s.len() && is_ws(s[i]) {
        lemma_skip_ws(s, i + 1);
    }
}

pub proof fn lemma_word_end(s: Seq<char>, i: int)
    requires
        0 <= i,
    ensures
        i <= word_end(s, i),
        word_end(s, i) <= s.len() || word_end(s, i) == i,
        word_end(s, i) < s.len() ==> is_ws(s[word_end(s, i)]),
        forall|k: int| i <= k < word_end(s, i) ==> !is_ws(s[k]),
    decreases s.len() - i,
{
    if 0 <= i < s.len() && !is_ws(s[i]) {
        lemma_word_end(s, i + 1);
    }
}

/// The whitespace-separated words of `s` from position `i` on, as
/// `str::split_whitespace` yields them.
pub open spec fn words_from(s: Seq<char>, i: int) -> Seq<Seq<char>>
    decreases s.len() - i,
{
    if i < 0 {
        Seq::empty()
    } else {
        let a = skip_ws(s, i);
        if a >= s.len() {
            Seq::empty()
        } else {
            proof {
                lemma_skip_ws(s, i);
                lemma_word_end(s, a);
            }
            let b = word_end(s, a);
            seq![s.subrange(a, b)] + words_from(s, b)
        }
    }
}

/// The whitespace-separated words of `s`.
pub open spec fn words(s: Seq<char>) -> Seq<Seq<char>> {
    words_from(s, 0)
}

fn skip_whitespace(s: &Vec<char>, i: usize) -> (r: usize)
    requires
        i <= s.len(),
    ensures
        r as int == skip_ws(s@, i as int),
        r <= s.len(),
{
    proof {
        lemma_skip_ws(s@, i as int);
    }
    let mut j = i;
    while j < s.len() && is_whitespace(s[j])
        invariant
            i <= j <= s.len(),
            skip_ws(s@, i as int) == skip_ws(s@, j as int),
        decreases s.len() - j,
    {
        j = j + 1;
    }
    j
}

fn find_word_end(s: &Vec<char>, i: usize) -> (r: usize)
    requires
        i <= s.len(),
    ensures
        r as int == word_end(s@, i as int),
        i <= r <= s.len(),
{
    let mut j = i;
    while j < s.len() && !is_whitespace(s[j])
        invariant
            i <= j <= s.len(),
            word_end(s@, i as int) == word_end(s@, j as int),
        decreases s.len() - j,
    {
        j = j + 1;
    }
    j
}

/// Characters stripped from the end of a link found in a message.
pub open spec fn is_url_trailer(c: char) -> bool {
    c == '.' || c == ',' || c == ')' || c == ']' || c == '}' || c == '"' || c == '\''
}

/// A word with trailing link punctuation removed.
pub open spec fn trim_url_end(t: Seq<char>) -> Seq<char>
    decreases t.len(),
{
    if t.len() > 0 && is_url_trailer(t.last()) {
        trim_url_end(t.drop_last())
    } else {
        t
    }
}

/// Whether a word starts like an http or https link.
pub open spec fn url_like(t: Seq<char>) -> bool {
    starts_with(t, "http://"@) || starts_with(t, "https://"@)
}

/// The first link-like word, with trailing punctuation removed.
pub open spec fn first_url(ws: Seq<Seq<char>>) -> Option<Seq<char>>
    decreases ws.len(),
{
    if ws.len() == 0 {
        None
    } else if url_like(ws[0]) {
        Some(trim_url_end(ws[0]))
    } else {
        first_url(ws.drop_first())
    }
}

/// The first whitespace-separated word of `text` that starts with
/// `http://` or `https://`, with trailing `.`, `,`, `)`, `]`, `}`, `"` and
/// `'` characters removed.
pub fn extract_first_url(text: &str) -> (r: Option<String>)
    ensures
        match r {
            Some(u) => first_url(words(text@)) == Some(u@),
            None => first_url(words(text@)) is None,
        },
{
    let s = chars_of(text);
    let n = s.len();
    let mut pos: usize = 0;
    while pos < n
        invariant
            n == s@.len(),
            s@ == text@,
            pos <= n,
            first_url(words(text@)) == first_url(words_from(s@, pos as int)),
        decreases n - pos,
    {
        let a = skip_whitespace(&s, pos);
        if a >= n {
            assert(words_from(s@, pos as int) =~= Seq::<Seq<char>>::empty());
            return None;
        }
        let b = find_word_end(&s, a);
        let word = copy_range(&s, a, b);
        proof {
            lemma_skip_ws(s@, pos as int);
            lemma_word_end(s@, a as int);
            let ws = words_from(s@, pos as int);
            assert(ws == seq![word@] + words_from(s@, b as int));
            assert(ws[0] == word@);
            assert(ws.drop_first() =~= words_from(s@, b as int));
        }
        if has_prefix(&word, "http://") || has_prefix(&word, "https://") {
            let mut j = word.len();
            assert(word@.subrange(0, word@.len() as int) =~= word@);
            while j > 0 && is_trailer(word[j - 1])
                invariant
                    j <= word@.len(),
                    trim_url_end(word@) == trim_url_end(word@.subrange(0, j as int)),
                decreases j,
            {
                proof {
                    assert(word@.subrange(0, j as int).drop_last() =~= word@.subrange(
                        0,
                        j - 1,
                    ));
                }
                j = j - 1;
            }
            let trimmed = copy_range(&word, 0, j);
            proof {
                assert(word@.subrange(0, word@.len() as int) =~= word@);
            }
            return Some(string_from_chars(&trimmed));
        }
        pos = b;
    }
    assert(words_from(s@, pos as int) =~= Seq::<Seq<char>>::empty());
    None
}

fn is_trailer(c: char) -> (r: bool)
    ensures
        r == is_url_trailer(c),
{
    c == '.' || c == ',' || c == ')' || c == ']' || c == '}' || c == '"' || c == '\''
}


/// Whether two string slices are equal.
pub fn str_eq(a: &str, b: &str) -> (r: bool)
    ensures
        r == (a@ == b@),
{
    let x = chars_of(a);
    let y = chars_of(b);
    chars_eq(&x, &y)
}

} // verus!
