//! Character-level string operations used by the command and probe logic,
//! each with a specification over `Seq<char>`.
use vstd::prelude::*;
use vstd::string::StrSliceExecFns;
use vstd::string::StringExecFns;

verus! {

/// `char::is_whitespace`: the Unicode `White_Space` property.
pub open spec fn is_whitespace(c: char) -> bool {
    ||| ('\u{9}' <= c && c <= '\u{d}')
    ||| c == ' '
    ||| c == '\u{85}'
    ||| c == '\u{a0}'
    ||| c == '\u{1680}'
    ||| ('\u{2000}' <= c && c <= '\u{200a}')
    ||| c == '\u{2028}'
    ||| c == '\u{2029}'
    ||| c == '\u{202f}'
    ||| c == '\u{205f}'
    ||| c == '\u{3000}'
}

/// `char::is_control`: the general category `Cc`.
pub open spec fn is_control(c: char) -> bool {
    c <= '\u{1f}' || ('\u{7f}' <= c && c <= '\u{9f}')
}

/// The characters that `trim` removes (`quotes == false`) or that
/// `trim_quotes` removes (`quotes == true`).
pub open spec fn strip_pred(quotes: bool) -> spec_fn(char) -> bool {
    if quotes {
        |c: char| c == '"'
    } else {
        |c: char| is_whitespace(c)
    }
}

/// Drops the leading characters of `s` that satisfy `p`.
pub open spec fn trim_start_by(s: Seq<char>, p: spec_fn(char) -> bool) -> Seq<char>
    decreases s.len(),
{
    if s.len() > 0 && p(s[0]) {
        trim_start_by(s.drop_first(), p)
    } else {
        s
    }
}

/// Drops the trailing characters of `s` that satisfy `p`.
pub open spec fn trim_end_by(s: Seq<char>, p: spec_fn(char) -> bool) -> Seq<char>
    decreases s.len(),
{
    if s.len() > 0 && p(s.last()) {
        trim_end_by(s.drop_last(), p)
    } else {
        s
    }
}

/// `str::trim`: leading and trailing whitespace removed.
pub open spec fn spec_trim(s: Seq<char>) -> Seq<char> {
    trim_end_by(trim_start_by(s, strip_pred(false)), strip_pred(false))
}

/// `str::trim_matches('"')`: leading and trailing double quotes removed.
pub open spec fn spec_trim_quotes(s: Seq<char>) -> Seq<char> {
    trim_end_by(trim_start_by(s, strip_pred(true)), strip_pred(true))
}

/// `char::to_ascii_lowercase`.
pub open spec fn ascii_lower_char(c: char) -> char {
    if 'A' <= c && c <= 'Z' {
        ((c as u32) + 32) as char
    } else {
        c
    }
}

/// `str::to_ascii_lowercase`.
pub open spec fn ascii_lower(s: Seq<char>) -> Seq<char> {
    s.map_values(|c: char| ascii_lower_char(c))
}

/// What `sanitize` makes of one character: a control character (a line
/// break among them) becomes a space, so that the text stays on one line;
/// every other character stays as it is.
pub open spec fn sanitize_char(c: char) -> char {
    if is_control(c) {
        ' '
    } else {
        c
    }
}

pub open spec fn spec_sanitize(s: Seq<char>) -> Seq<char> {
    s.map_values(|c: char| sanitize_char(c))
}

/// `str::split(sep)`, collected: the pieces of `s` between occurrences of
/// `sep`, in order; there is always at least one piece.
pub open spec fn split_on(s: Seq<char>, sep: char) -> Seq<Seq<char>>
    decreases s.len(),
{
    if s.len() == 0 {
        seq![Seq::<char>::empty()]
    } else {
        let parts = split_on(s.drop_last(), sep);
        if s.last() == sep {
            parts.push(Seq::<char>::empty())
        } else {
            parts.update(parts.len() - 1, parts.last().push(s.last()))
        }
    }
}

pub proof fn lemma_split_on_nonempty(s: Seq<char>, sep: char)
    ensures
        split_on(s, sep).len() >= 1,
    decreases s.len(),
{
    if s.len() > 0 {
        lemma_split_on_nonempty(s.drop_last(), sep);
    }
}

/// The views of a sequence of owned strings.
pub open spec fn string_views(v: Seq<String>) -> Seq<Seq<char>> {
    v.map_values(|s: String| s@)
}

pub fn char_is_whitespace(c: char) -> (res: bool)
    ensures
        res == is_whitespace(c),
{
    ('\u{9}' <= c && c <= '\u{d}') || c == ' ' || c == '\u{85}' || c == '\u{a0}' || c == '\u{1680}'
        || ('\u{2000}' <= c && c <= '\u{200a}') || c == '\u{2028}' || c == '\u{2029}' || c
        == '\u{202f}' || c == '\u{205f}' || c == '\u{3000}'
}

fn strips(quotes: bool, c: char) -> (res: bool)
    ensures
        res == strip_pred(quotes)(c),
{
    if quotes {
        c == '"'
    } else {
        char_is_whitespace(c)
    }
}

fn trim_by(s: &str, quotes: bool) -> (res: &str)
    ensures
        res@ == trim_end_by(trim_start_by(s@, strip_pred(quotes)), strip_pred(quotes)),
{
    let ghost p = strip_pred(quotes);
    let n = s.unicode_len();
    let mut lo: usize = 0;
    assert(s@.subrange(0, n as int) =~= s@);
    while lo < n && strips(quotes, s.get_char(lo))
        invariant
            lo <= n,
            n == s@.len(),
            p == strip_pred(quotes),
            trim_start_by(s@, p) == trim_start_by(s@.subrange(lo as int, n as int), p),
        decreases n - lo,
    {
        assert(s@.subrange(lo as int, n as int).drop_first() =~= s@.subrange(
            lo + 1,
            n as int,
        ));
        lo = lo + 1;
    }
    let mut hi: usize = n;
    while hi > lo && strips(quotes, s.get_char(hi - 1))
        invariant
            lo <= hi <= n,
            n == s@.len(),
            p == strip_pred(quotes),
            trim_start_by(s@, p) == s@.subrange(lo as int, n as int),
            trim_end_by(s@.subrange(lo as int, n as int), p) == trim_end_by(
                s@.subrange(lo as int, hi as int),
                p,
            ),
        decreases hi - lo,
    {
        assert(s@.subrange(lo as int, hi as int).drop_last() =~= s@.subrange(
            lo as int,
            hi - 1,
        ));
        hi = hi - 1;
    }
    s.substring_char(lo, hi)
}

/// `str::trim`.
pub fn trim(s: &str) -> (res: &str)
    ensures
        res@ == spec_trim(s@),
{
    trim_by(s, false)
}

/// `str::trim_matches('"')`.
pub fn trim_quotes(s: &str) -> (res: &str)
    ensures
        res@ == spec_trim_quotes(s@),
{
    trim_by(s, true)
}

/// `String::push`, of which vstd gives no specification.
#[verifier::external_body]
pub fn push_char(s: &mut String, c: char)
    ensures
        final(s)@ == old(s)@.push(c),
{
    s.push(c);
}

/// An owned copy of `s`.
pub fn owned(s: &str) -> (res: String)
    ensures
        res@ == s@,
{
    String::from_str(s)
}

/// Appends `t` to `s`.
pub fn append(s: &mut String, t: &str)
    ensures
        final(s)@ == old(s)@ + t@,
{
    s.append(t);
}

/// `a` followed by `b`, as a new string.
pub fn concat(a: &str, b: &str) -> (res: String)
    ensures
        res@ == a@ + b@,
{
    String::from_str(a).concat(b)
}

/// Whether two strings hold the same characters.
pub fn str_eq(a: &str, b: &str) -> (res: bool)
    ensures
        res == (a@ == b@),
{
    let n = a.unicode_len();
    if n != b.unicode_len() {
        return false;
    }
    let mut i: usize = 0;
    while i < n
        invariant
            i <= n,
            n == a@.len(),
            n == b@.len(),
            forall|j: int| 0 <= j < i ==> a@[j] == b@[j],
        decreases n - i,
    {
        if a.get_char(i) != b.get_char(i) {
            return false;
        }
        i = i + 1;
    }
    assert(a@ =~= b@);
    true
}

/// `char::to_ascii_lowercase`.
pub fn char_to_ascii_lowercase(c: char) -> (res: char)
    ensures
        res == ascii_lower_char(c),
{
    if 'A' <= c && c <= 'Z' {
        let u: u32 = c as u32;
        ((u + 32) as u8) as char
    } else {
        c
    }
}

/// `str::to_ascii_lowercase`.
pub fn to_ascii_lowercase(s: &str) -> (res: String)
    ensures
        res@ == ascii_lower(s@),
{
    let mut res = String::new();
    let n = s.unicode_len();
    let mut i: usize = 0;
    while i < n
        invariant
            i <= n,
            n == s@.len(),
            res@ == ascii_lower(s@.subrange(0, i as int)),
        decreases n - i,
    {
        push_char(&mut res, char_to_ascii_lowercase(s.get_char(i)));
        assert(ascii_lower(s@.subrange(0, i + 1)) =~= ascii_lower(s@.subrange(0, i as int)).push(
            ascii_lower_char(s@[i as int]),
        ));
        i = i + 1;
    }
    assert(s@.subrange(0, n as int) =~= s@);
    res
}

/// Puts `s` on one line: control characters become spaces (see
/// `sanitize_char`).
pub fn sanitize(s: &str) -> (res: String)
    ensures
        res@ == spec_sanitize(s@),
{
    let mut res = String::new();
    let n = s.unicode_len();
    let mut i: usize = 0;
    while i < n
        invariant
            i <= n,
            n == s@.len(),
            res@ == spec_sanitize(s@.subrange(0, i as int)),
        decreases n - i,
    {
        let c = s.get_char(i);
        let d = if c <= '\u{1f}' || ('\u{7f}' <= c && c <= '\u{9f}') {
            ' '
        } else {
            c
        };
        push_char(&mut res, d);
        assert(spec_sanitize(s@.subrange(0, i + 1)) =~= spec_sanitize(
            s@.subrange(0, i as int),
        ).push(sanitize_char(c)));
        i = i + 1;
    }
    assert(s@.subrange(0, n as int) =~= s@);
    res
}

/// `s.split(sep).map(String::from).collect()`.
pub fn split(s: &str, sep: char) -> (res: Vec<String>)
    ensures
        string_views(res@) == split_on(s@, sep),
{
    let mut parts: Vec<String> = Vec::new();
    let mut cur = String::new();
    let n = s.unicode_len();
    let mut i: usize = 0;
    assert(s@.subrange(0, 0) =~= Seq::<char>::empty());
    while i < n
        invariant
            i <= n,
            n == s@.len(),
            string_views(parts@).push(cur@) == split_on(s@.subrange(0, i as int), sep),
        decreases n - i,
    {
        let c = s.get_char(i);
        let ghost prev = s@.subrange(0, i as int);
        assert(s@.subrange(0, i + 1).drop_last() =~= prev);
        proof {
            lemma_split_on_nonempty(prev, sep);
        }
        if c == sep {
            parts.push(cur);
            cur = String::new();
            assert(string_views(parts@) =~= split_on(prev, sep));
        } else {
            push_char(&mut cur, c);
            assert(string_views(parts@).push(cur@) =~= split_on(prev, sep).update(
                split_on(prev, sep).len() - 1,
                split_on(prev, sep).last().push(c),
            ));
        }
        i = i + 1;
    }
    parts.push(cur);
    assert(s@.subrange(0, n as int) =~= s@);
    parts
}

/// What `sanitize` gives holds no control character, has as many
/// characters as its input, and keeps every other character in place.
pub proof fn lemma_sanitize_keeps_text(s: Seq<char>)
    ensures
        spec_sanitize(s).len() == s.len(),
        forall|i: int|
            0 <= i < s.len() ==> !is_control(#[trigger] spec_sanitize(s)[i]) && (!is_control(s[i])
                ==> spec_sanitize(s)[i] == s[i]),
{
}

/// Characters that all satisfy `p` at the front do not change what
/// trimming by `p` at the start leaves.
pub proof fn lemma_trim_start_prefix(w: Seq<char>, s: Seq<char>, p: spec_fn(char) -> bool)
    requires
        forall|i: int| 0 <= i < w.len() ==> p(#[trigger] w[i]),
    ensures
        trim_start_by(w + s, p) == trim_start_by(s, p),
    decreases w.len(),
{
    if w.len() > 0 {
        assert((w + s)[0] == w[0]);
        assert((w + s).drop_first() =~= w.drop_first() + s);
        assert(forall|i: int| 0 <= i < w.drop_first().len() ==> w.drop_first()[i] == w[i + 1]);
        lemma_trim_start_prefix(w.drop_first(), s, p);
    } else {
        assert(w + s =~= s);
    }
}

/// Characters that all satisfy `p` at the back do not change what trimming
/// by `p` at the end leaves.
pub proof fn lemma_trim_end_suffix(s: Seq<char>, w: Seq<char>, p: spec_fn(char) -> bool)
    requires
        forall|i: int| 0 <= i < w.len() ==> p(#[trigger] w[i]),
    ensures
        trim_end_by(s + w, p) == trim_end_by(s, p),
    decreases w.len(),
{
    if w.len() > 0 {
        assert((s + w).last() == w.last());
        assert((s + w).drop_last() =~= s + w.drop_last());
        assert(forall|i: int| 0 <= i < w.drop_last().len() ==> w.drop_last()[i] == w[i]);
        lemma_trim_end_suffix(s, w.drop_last(), p);
    } else {
        assert(s + w =~= s);
    }
}

/// Trimming the start of `s + w`: what is left of `s` followed by `w`, or,
/// when nothing is left of `s`, what is left of `w`.
pub proof fn lemma_trim_start_append(s: Seq<char>, w: Seq<char>, p: spec_fn(char) -> bool)
    ensures
        trim_start_by(s + w, p) == if trim_start_by(s, p).len() > 0 {
            trim_start_by(s, p) + w
        } else {
            trim_start_by(w, p)
        },
    decreases s.len(),
{
    if s.len() == 0 {
        assert(s + w =~= w);
    } else {
        assert((s + w)[0] == s[0]);
        if p(s[0]) {
            assert((s + w).drop_first() =~= s.drop_first() + w);
            lemma_trim_start_append(s.drop_first(), w, p);
        }
    }
}

/// Lowercasing (ASCII) and trimming whitespace or quotes can be done in
/// either order.
pub proof fn lemma_trim_start_lower(s: Seq<char>, quotes: bool)
    ensures
        trim_start_by(ascii_lower(s), strip_pred(quotes)) == ascii_lower(
            trim_start_by(s, strip_pred(quotes)),
        ),
    decreases s.len(),
{
    if s.len() > 0 {
        assert(ascii_lower(s)[0] == ascii_lower_char(s[0]));
        assert(ascii_lower(s).drop_first() =~= ascii_lower(s.drop_first()));
        lemma_trim_start_lower(s.drop_first(), quotes);
    } else {
        assert(ascii_lower(s) =~= s);
    }
}

pub proof fn lemma_trim_end_lower(s: Seq<char>, quotes: bool)
    ensures
        trim_end_by(ascii_lower(s), strip_pred(quotes)) == ascii_lower(
            trim_end_by(s, strip_pred(quotes)),
        ),
    decreases s.len(),
{
    if s.len() > 0 {
        assert(ascii_lower(s).last() == ascii_lower_char(s.last()));
        assert(ascii_lower(s).drop_last() =~= ascii_lower(s.drop_last()));
        lemma_trim_end_lower(s.drop_last(), quotes);
    } else {
        assert(ascii_lower(s) =~= s);
    }
}

/// ASCII lowercasing twice is lowercasing once.
pub proof fn lemma_ascii_lower_idempotent(s: Seq<char>)
    ensures
        ascii_lower(ascii_lower(s)) == ascii_lower(s),
{
    assert(ascii_lower(ascii_lower(s)) =~= ascii_lower(s));
}

/// Whitespace around `s` does not change `trim`.
pub proof fn lemma_trim_outer_whitespace(w1: Seq<char>, s: Seq<char>, w2: Seq<char>)
    requires
        forall|i: int| 0 <= i < w1.len() ==> is_whitespace(#[trigger] w1[i]),
        forall|i: int| 0 <= i < w2.len() ==> is_whitespace(#[trigger] w2[i]),
    ensures
        spec_trim(w1 + s + w2) == spec_trim(s),
{
    let p = strip_pred(false);
    assert(w1 + s + w2 =~= w1 + (s + w2));
    lemma_trim_start_prefix(w1, s + w2, p);
    lemma_trim_start_append(s, w2, p);
    if trim_start_by(s, p).len() > 0 {
        lemma_trim_end_suffix(trim_start_by(s, p), w2, p);
    } else {
        lemma_trim_start_prefix(w2, Seq::<char>::empty(), p);
        assert(w2 + Seq::<char>::empty() =~= w2);
    }
}

/// Trimming the start by `p` drops exactly the longest prefix whose
/// characters satisfy `p`.
pub proof fn lemma_trim_start_by_bounds(s: Seq<char>, p: spec_fn(char) -> bool) -> (k: int)
    ensures
        0 <= k <= s.len(),
        trim_start_by(s, p) == s.subrange(k, s.len() as int),
        forall|i: int| 0 <= i < k ==> p(#[trigger] s[i]),
        k < s.len() ==> !p(s[k]),
    decreases s.len(),
{
    if s.len() > 0 && p(s[0]) {
        let k1 = lemma_trim_start_by_bounds(s.drop_first(), p);
        assert(s.drop_first().subrange(k1, s.drop_first().len() as int) =~= s.subrange(
            k1 + 1,
            s.len() as int,
        ));
        assert forall|i: int| 0 <= i < k1 + 1 implies p(#[trigger] s[i]) by {
            if i > 0 {
                assert(s[i] == s.drop_first()[i - 1]);
            }
        }
        k1 + 1
    } else {
        assert(s.subrange(0, s.len() as int) =~= s);
        0
    }
}

/// Trimming the end by `p` drops exactly the longest suffix whose
/// characters satisfy `p`.
pub proof fn lemma_trim_end_by_bounds(s: Seq<char>, p: spec_fn(char) -> bool) -> (h: int)
    ensures
        0 <= h <= s.len(),
        trim_end_by(s, p) == s.subrange(0, h),
        forall|i: int| h <= i < s.len() ==> p(#[trigger] s[i]),
        h > 0 ==> !p(s[h - 1]),
    decreases s.len(),
{
    if s.len() > 0 && p(s.last()) {
        let h1 = lemma_trim_end_by_bounds(s.drop_last(), p);
        assert(s.drop_last().subrange(0, h1) =~= s.subrange(0, h1));
        assert forall|i: int| h1 <= i < s.len() implies p(#[trigger] s[i]) by {
            if i < s.len() - 1 {
                assert(s[i] == s.drop_last()[i]);
            }
        }
        h1
    } else {
        assert(s.subrange(0, s.len() as int) =~= s);
        s.len() as int
    }
}

/// `trim` keeps a stretch of its input unchanged: everything before and
/// after it is whitespace, and the stretch, when not empty, begins and ends
/// with a character that is not whitespace.
pub proof fn lemma_trim_exact(s: Seq<char>) -> (r: (int, int))
    ensures
        0 <= r.0 <= r.1 <= s.len(),
        spec_trim(s) == s.subrange(r.0, r.1),
        forall|i: int| 0 <= i < r.0 ==> is_whitespace(#[trigger] s[i]),
        forall|i: int| r.1 <= i < s.len() ==> is_whitespace(#[trigger] s[i]),
        r.0 < r.1 ==> !is_whitespace(s[r.0]) && !is_whitespace(s[r.1 - 1]),
{
    let p = strip_pred(false);
    let k = lemma_trim_start_by_bounds(s, p);
    let t = s.subrange(k, s.len() as int);
    let h = lemma_trim_end_by_bounds(t, p);
    assert(t.subrange(0, h) =~= s.subrange(k, k + h));
    assert forall|i: int| k + h <= i < s.len() implies is_whitespace(#[trigger] s[i]) by {
        assert(s[i] == t[i - k]);
        assert(p(t[i - k]));
    }
    assert forall|i: int| 0 <= i < k implies is_whitespace(#[trigger] s[i]) by {
        assert(p(s[i]));
    }
    if h > 0 {
        assert(s[k + h - 1] == t[h - 1]);
        assert(!p(s[k]));
    }
    (k, k + h)
}

/// `fields` joined with `sep` between each two of them.
pub open spec fn join_on(fields: Seq<Seq<char>>, sep: char) -> Seq<char>
    decreases fields.len(),
{
    if fields.len() == 0 {
        Seq::empty()
    } else if fields.len() == 1 {
        fields[0]
    } else {
        join_on(fields.drop_last(), sep).push(sep) + fields.last()
    }
}

pub open spec fn lacks(s: Seq<char>, c: char) -> bool {
    forall|i: int| 0 <= i < s.len() ==> s[i] != c
}

pub proof fn lemma_split_without_sep(s: Seq<char>, sep: char)
    requires
        lacks(s, sep),
    ensures
        split_on(s, sep) == seq![s],
    decreases s.len(),
{
    if s.len() > 0 {
        assert(lacks(s.drop_last(), sep));
        lemma_split_without_sep(s.drop_last(), sep);
        assert(s.drop_last().push(s.last()) =~= s);
    } else {
        assert(s =~= Seq::<char>::empty());
    }
}

pub proof fn lemma_split_after_sep(x: Seq<char>, y: Seq<char>, sep: char)
    requires
        lacks(y, sep),
    ensures
        split_on(x.push(sep) + y, sep) == split_on(x, sep).push(y),
    decreases y.len(),
{
    let z = x.push(sep) + y;
    if y.len() == 0 {
        assert(z =~= x.push(sep));
        assert(z.drop_last() =~= x);
        assert(y =~= Seq::<char>::empty());
    } else {
        assert(z.last() == y.last());
        assert(z.drop_last() =~= x.push(sep) + y.drop_last());
        assert(lacks(y.drop_last(), sep));
        lemma_split_after_sep(x, y.drop_last(), sep);
        lemma_split_on_nonempty(x, sep);
        assert(y.drop_last().push(y.last()) =~= y);
        assert(split_on(x, sep).push(y.drop_last()).update(
            split_on(x, sep).len() as int,
            y,
        ) =~= split_on(x, sep).push(y));
    }
}

/// Splitting fields joined with a separator they do not hold gives the
/// fields back.
pub proof fn lemma_split_join(fields: Seq<Seq<char>>, sep: char)
    requires
        fields.len() >= 1,
        forall|i: int| 0 <= i < fields.len() ==> lacks(#[trigger] fields[i], sep),
    ensures
        split_on(join_on(fields, sep), sep) == fields,
    decreases fields.len(),
{
    if fields.len() == 1 {
        lemma_split_without_sep(fields[0], sep);
        assert(fields =~= seq![fields[0]]);
    } else {
        let init = fields.drop_last();
        assert(forall|i: int| 0 <= i < init.len() ==> init[i] == fields[i]);
        lemma_split_join(init, sep);
        lemma_split_after_sep(join_on(init, sep), fields.last(), sep);
        assert(init.push(fields.last()) =~= fields);
    }
}

} // verus!
