//! Character-level string helpers, each stated over the `Seq<char>` view of
//! the strings it reads and writes.

use vstd::prelude::*;

verus! {

// ---------------------------------------------------------------------------
// Mathematical model
// ---------------------------------------------------------------------------

/// Unicode `White_Space`, the set that `char::is_whitespace` documents.
pub open spec fn is_whitespace(c: char) -> bool {
    ||| ('\u{9}' <= c && c <= '\u{d}')
    ||| c == ' '
    ||| c == '\u{85}'
    ||| c == '\u{a0}'
    ||| c == '\u{1680}'
    ||| ('\u{2000}' <= c && c <= '\u{200a}')
    ||| c == '\u{2028}'
    ||| c == '\u{2029}'
    ||| c == '\u{202f}'
    ||| c == '\u{205f}'
    ||| c == '\u{3000}'
}

/// `s` without its leading whitespace.
pub open spec fn trim_start(s: Seq<char>) -> Seq<char>
    decreases s.len(),
{
    if s.len() > 0 && is_whitespace(s[0]) {
        trim_start(s.drop_first())
    } else {
        s
    }
}

/// `s` without its trailing whitespace.
pub open spec fn trim_end(s: Seq<char>) -> Seq<char>
    decreases s.len(),
{
    if s.len() > 0 && is_whitespace(s.last()) {
        trim_end(s.drop_last())
    } else {
        s
    }
}

/// `s` without leading and trailing whitespace.
pub open spec fn trim(s: Seq<char>) -> Seq<char> {
    trim_end(trim_start(s))
}

/// `s` with every backslash turned into a forward slash.
pub open spec fn backslashes_to_slashes(s: Seq<char>) -> Seq<char> {
    s.map_values(|c: char| if c == '\\' { '/' } else { c })
}

/// The part of `s` after its last `/` (all of `s` when it has none): the
/// first item that `rsplit('/')` yields.
pub open spec fn last_segment(s: Seq<char>) -> Seq<char>
    decreases s.len(),
{
    if s.len() == 0 {
        s
    } else if s.last() == '/' {
        Seq::empty()
    } else {
        last_segment(s.drop_last()).push(s.last())
    }
}

/// `p` is a prefix of `s`.
pub open spec fn has_prefix(s: Seq<char>, p: Seq<char>) -> bool {
    p.len() <= s.len() && s.take(p.len() as int) == p
}

/// `p` is a suffix of `s`.
pub open spec fn has_suffix(s: Seq<char>, p: Seq<char>) -> bool {
    p.len() <= s.len() && s.skip(s.len() - p.len()) == p
}

/// `s` without the prefix `p`, when `p` is one.
pub open spec fn strip_prefix(s: Seq<char>, p: Seq<char>) -> Option<Seq<char>> {
    if has_prefix(s, p) {
        Some(s.skip(p.len() as int))
    } else {
        None
    }
}

/// `s` without the suffix `p`, when `p` is one.
pub open spec fn strip_suffix(s: Seq<char>, p: Seq<char>) -> Option<Seq<char>> {
    if has_suffix(s, p) {
        Some(s.take(s.len() - p.len()))
    } else {
        None
    }
}

/// `c` with an ASCII upper-case letter turned into lower case.
pub open spec fn ascii_lower(c: char) -> char {
    if 'A' <= c && c <= 'Z' {
        ((c as int) + 32) as char
    } else {
        c
    }
}

/// `s` with every ASCII upper-case letter turned into lower case.
pub open spec fn ascii_lowercase(s: Seq<char>) -> Seq<char> {
    s.map_values(|c: char| ascii_lower(c))
}

/// The two strings are equal when ASCII case is ignored.
pub open spec fn eq_ignore_ascii_case(a: Seq<char>, b: Seq<char>) -> bool {
    ascii_lowercase(a) == ascii_lowercase(b)
}

/// `t` occurs in `s` as a contiguous run of characters.
pub open spec fn contains_text(s: Seq<char>, t: Seq<char>) -> bool {
    exists|i: int| 0 <= i && i + t.len() <= s.len() && #[trigger] s.subrange(i, i + t.len()) == t
}

/// The characters of an optional string.
pub open spec fn opt_view(o: Option<String>) -> Option<Seq<char>> {
    match o {
        Some(s) => Some(s@),
        None => None,
    }
}

// ---------------------------------------------------------------------------
// Lemmas
// ---------------------------------------------------------------------------

/// Leading whitespace ends at `i`.
pub proof fn lemma_trim_start_at(s: Seq<char>, i: int)
    requires
        0 <= i <= s.len(),
        forall|j: int| 0 <= j < i ==> is_whitespace(#[trigger] s[j]),
        i == s.len() || !is_whitespace(s[i]),
    ensures
        trim_start(s) == s.skip(i),
    decreases i,
{
    if i == 0 {
        assert(s.skip(0) =~= s);
    } else {
        let t = s.drop_first();
        assert forall|j: int| 0 <= j < i - 1 implies is_whitespace(#[trigger] t[j]) by {
            assert(t[j] == s[j + 1]);
        }
        lemma_trim_start_at(t, i - 1);
        assert(t.skip(i - 1) =~= s.skip(i));
    }
}

/// Trailing whitespace starts at `k`.
pub proof fn lemma_trim_end_at(s: Seq<char>, k: int)
    requires
        0 <= k <= s.len(),
        forall|j: int| k <= j < s.len() ==> is_whitespace(#[trigger] s[j]),
        k == 0 || !is_whitespace(s[k - 1]),
    ensures
        trim_end(s) == s.take(k),
    decreases s.len() - k,
{
    if k == s.len() {
        assert(s.take(k) =~= s);
    } else {
        let t = s.drop_last();
        assert forall|j: int| k <= j < t.len() implies is_whitespace(#[trigger] t[j]) by {
            assert(t[j] == s[j]);
        }
        lemma_trim_end_at(t, k);
        assert(t.take(k) =~= s.take(k));
    }
}

/// The last `/` of `s` stands just before `k` (or there is none and `k` is 0).
pub proof fn lemma_last_segment_at(s: Seq<char>, k: int)
    requires
        0 <= k <= s.len(),
        forall|j: int| k <= j < s.len() ==> #[trigger] s[j] != '/',
        k == 0 || s[k - 1] == '/',
    ensures
        last_segment(s) == s.skip(k),
    decreases s.len(),
{
    if s.len() == 0 {
        assert(s.skip(k) =~= s);
    } else if k == s.len() {
        assert(s.skip(k) =~= Seq::<char>::empty());
    } else {
        let t = s.drop_last();
        assert forall|j: int| k <= j < t.len() implies #[trigger] t[j] != '/' by {
            assert(t[j] == s[j]);
        }
        if k > 0 {
            assert(t[k - 1] == s[k - 1]);
        }
        lemma_last_segment_at(t, k);
        assert(t.skip(k).push(s.last()) =~= s.skip(k));
    }
}

/// A string with no `/` is its own last segment.
pub proof fn lemma_last_segment_no_slash(s: Seq<char>)
    requires
        forall|j: int| 0 <= j < s.len() ==> #[trigger] s[j] != '/',
    ensures
        last_segment(s) == s,
{
    lemma_last_segment_at(s, 0);
    assert(s.skip(0) =~= s);
}

/// A string that neither starts nor ends with whitespace is its own trim.
pub proof fn lemma_trim_unchanged(s: Seq<char>)
    requires
        s.len() > 0,
        !is_whitespace(s[0]),
        !is_whitespace(s.last()),
    ensures
        trim(s) == s,
{
}

/// `trim_start(s)` is what follows a run of whitespace at the start of `s`.
pub proof fn lemma_trim_start_suffix(s: Seq<char>)
    ensures
        trim_start(s).len() <= s.len(),
        trim_start(s) == s.skip(s.len() - trim_start(s).len()),
        forall|j: int| 0 <= j < s.len() - trim_start(s).len() ==> is_whitespace(#[trigger] s[j]),
        trim_start(s).len() > 0 ==> !is_whitespace(trim_start(s)[0]),
    decreases s.len(),
{
    if s.len() > 0 && is_whitespace(s[0]) {
        let t = s.drop_first();
        lemma_trim_start_suffix(t);
        assert(t.skip(t.len() - trim_start(t).len()) =~= s.skip(s.len() - trim_start(t).len()));
        assert forall|j: int| 0 <= j < s.len() - trim_start(s).len() implies is_whitespace(
            #[trigger] s[j],
        ) by {
            if j > 0 {
                assert(s[j] == t[j - 1]);
            }
        }
    } else {
        assert(s.skip(0) =~= s);
    }
}

/// `trim_end(s)` is what precedes a run of whitespace at the end of `s`.
pub proof fn lemma_trim_end_prefix(s: Seq<char>)
    ensures
        trim_end(s).len() <= s.len(),
        trim_end(s) == s.take(trim_end(s).len() as int),
        forall|j: int| trim_end(s).len() <= j < s.len() ==> is_whitespace(#[trigger] s[j]),
        trim_end(s).len() > 0 ==> !is_whitespace(trim_end(s).last()),
    decreases s.len(),
{
    if s.len() > 0 && is_whitespace(s.last()) {
        let t = s.drop_last();
        lemma_trim_end_prefix(t);
        assert(t.take(trim_end(t).len() as int) =~= s.take(trim_end(t).len() as int));
        assert forall|j: int| trim_end(s).len() <= j < s.len() implies is_whitespace(
            #[trigger] s[j],
        ) by {
            if j < s.len() - 1 {
                assert(s[j] == t[j]);
            }
        }
    } else {
        assert(s.take(s.len() as int) =~= s);
    }
}

/// Cutting leading and trailing whitespace can be done in either order.
pub proof fn lemma_trim_commutes(s: Seq<char>)
    ensures
        trim_start(trim_end(s)) == trim_end(trim_start(s)),
{
    lemma_trim_start_suffix(s);
    lemma_trim_end_prefix(s);
    let ts = trim_start(s);
    let te = trim_end(s);
    let i = s.len() - ts.len();
    let k = te.len() as int;
    if ts.len() == 0 {
        if k > 0 {
            assert(te.last() == s[k - 1]);
        }
        assert(te.len() == 0);
    } else {
        assert(ts[0] == s[i]);
        if k <= i {
            assert(is_whitespace(s[i]));
        }
        assert forall|j: int| 0 <= j < i implies is_whitespace(#[trigger] te[j]) by {
            assert(te[j] == s[j]);
        }
        assert(te[i] == s[i]);
        lemma_trim_start_at(te, i);
        assert forall|j: int| k - i <= j < ts.len() implies is_whitespace(#[trigger] ts[j]) by {
            assert(ts[j] == s[j + i]);
        }
        assert(ts[k - i - 1] == s[k - 1]);
        assert(te.last() == s[k - 1]);
        lemma_trim_end_at(ts, k - i);
        assert(te.skip(i) =~= ts.take(k - i));
    }
}

/// Cutting leading whitespace twice is cutting it once.
pub proof fn lemma_trim_start_idempotent(s: Seq<char>)
    ensures
        trim_start(trim_start(s)) == trim_start(s),
{
    lemma_trim_start_suffix(s);
}

/// Cutting trailing whitespace twice is cutting it once.
pub proof fn lemma_trim_end_idempotent(s: Seq<char>)
    ensures
        trim_end(trim_end(s)) == trim_end(s),
{
    lemma_trim_end_prefix(s);
}

/// Trimming what has its trailing whitespace cut is trimming the original.
pub proof fn lemma_trim_after_trim_end(s: Seq<char>)
    ensures
        trim(trim_end(s)) == trim(s),
        trim(trim(s)) == trim(s),
{
    lemma_trim_commutes(s);
    lemma_trim_end_idempotent(trim_start(s));
    lemma_trim_commutes(trim_start(s));
    lemma_trim_start_idempotent(s);
}

/// Trimming keeps no character that `s` lacks.
pub proof fn lemma_trim_keeps_absent(s: Seq<char>, c: char)
    requires
        !s.contains(c),
    ensures
        !trim(s).contains(c),
{
    let ts = trim_start(s);
    lemma_trim_start_suffix(s);
    lemma_trim_end_prefix(ts);
    if trim(s).contains(c) {
        let i = choose|i: int| 0 <= i < trim(s).len() && trim(s)[i] == c;
        assert(trim(s)[i] == ts[i]);
        assert(ts[i] == s[i + s.len() - ts.len()]);
    }
}

/// The last segment of `s` is a suffix of `s` without any `/`.
pub proof fn lemma_last_segment_suffix(s: Seq<char>)
    ensures
        last_segment(s).len() <= s.len(),
        last_segment(s) == s.skip(s.len() - last_segment(s).len()),
        !last_segment(s).contains('/'),
    decreases s.len(),
{
    if s.len() == 0 {
        assert(s.skip(0) =~= s);
    } else if s.last() == '/' {
        assert(s.skip(s.len() as int) =~= Seq::<char>::empty());
    } else {
        let t = s.drop_last();
        lemma_last_segment_suffix(t);
        let l = last_segment(s);
        assert(l =~= s.skip(s.len() - l.len()));
        if l.contains('/') {
            let i = choose|i: int| 0 <= i < l.len() && l[i] == '/';
            if i < l.len() - 1 {
                assert(last_segment(t)[i] == '/');
            }
        }
    }
}

/// A string that ends with `/` and has no `/` after it: the part after it.
pub proof fn lemma_last_segment_after_slash(a: Seq<char>, b: Seq<char>)
    requires
        !b.contains('/'),
    ensures
        last_segment(a + seq!['/'] + b) == b,
{
    let s = a + seq!['/'] + b;
    let k: int = a.len() as int + 1;
    assert(s[k - 1] == '/');
    assert forall|j: int| k <= j < s.len() implies #[trigger] s[j] != '/' by {
        assert(s[j] == b[j - k]);
    }
    lemma_last_segment_at(s, k);
    assert(s.skip(k) =~= b);
}

/// Leading whitespace is cut only from the front part when the back part
/// starts with a non-whitespace character.
pub proof fn lemma_trim_start_concat(a: Seq<char>, b: Seq<char>)
    requires
        b.len() > 0,
        !is_whitespace(b[0]),
    ensures
        trim_start(a + b) == trim_start(a) + b,
    decreases a.len(),
{
    if a.len() == 0 {
        assert(a + b =~= b);
        assert(trim_start(a) + b =~= b);
    } else if is_whitespace(a[0]) {
        assert((a + b).drop_first() =~= a.drop_first() + b);
        lemma_trim_start_concat(a.drop_first(), b);
    } else {
        assert((a + b)[0] == a[0]);
    }
}

/// Trailing whitespace is cut only from the back part when the front part
/// ends with a non-whitespace character.
pub proof fn lemma_trim_end_concat(a: Seq<char>, b: Seq<char>)
    requires
        a.len() > 0,
        !is_whitespace(a.last()),
    ensures
        trim_end(a + b) == a + trim_end(b),
    decreases b.len(),
{
    if b.len() == 0 {
        assert(a + b =~= a);
        assert((a + b).last() == a.last());
        assert(a + trim_end(b) =~= a);
    } else if is_whitespace(b.last()) {
        assert((a + b).drop_last() =~= a + b.drop_last());
        lemma_trim_end_concat(a, b.drop_last());
    } else {
        assert((a + b).last() == b.last());
    }
}

/// Turning backslashes into slashes commutes with trimming.
pub proof fn lemma_trim_start_backslashes(s: Seq<char>)
    ensures
        trim_start(backslashes_to_slashes(s)) == backslashes_to_slashes(trim_start(s)),
    decreases s.len(),
{
    let m = backslashes_to_slashes(s);
    if s.len() > 0 && is_whitespace(s[0]) {
        assert(m[0] == s[0]);
        assert(m.drop_first() =~= backslashes_to_slashes(s.drop_first()));
        lemma_trim_start_backslashes(s.drop_first());
    } else if s.len() > 0 {
        assert(!is_whitespace(m[0]));
    }
}

/// Turning backslashes into slashes commutes with trimming.
pub proof fn lemma_trim_end_backslashes(s: Seq<char>)
    ensures
        trim_end(backslashes_to_slashes(s)) == backslashes_to_slashes(trim_end(s)),
    decreases s.len(),
{
    let m = backslashes_to_slashes(s);
    if s.len() > 0 && is_whitespace(s.last()) {
        assert(m.last() == s.last());
        assert(m.drop_last() =~= backslashes_to_slashes(s.drop_last()));
        lemma_trim_end_backslashes(s.drop_last());
    } else if s.len() > 0 {
        assert(!is_whitespace(m.last()));
    }
}

/// Turning backslashes into slashes commutes with trimming.
pub proof fn lemma_trim_backslashes(s: Seq<char>)
    ensures
        trim(backslashes_to_slashes(s)) == backslashes_to_slashes(trim(s)),
{
    lemma_trim_start_backslashes(s);
    lemma_trim_end_backslashes(trim_start(s));
}

/// ASCII case folding turns exactly the upper-case letters `A`..`Z` into
/// the lower-case letters 32 code points above and keeps every other
/// character; folding twice is folding once.
pub proof fn lemma_ascii_lower(c: char)
    ensures
        'A' <= c && c <= 'Z' ==> ascii_lower(c) as int == c as int + 32 && 'a' <= ascii_lower(c)
            && ascii_lower(c) <= 'z',
        !('A' <= c && c <= 'Z') ==> ascii_lower(c) == c,
        !('A' <= ascii_lower(c) && ascii_lower(c) <= 'Z'),
        ascii_lower(ascii_lower(c)) == ascii_lower(c),
{
}

/// Comparing without ASCII case is an equivalence between strings of equal
/// length that differ at most in the case of letters.
pub proof fn lemma_eq_ignore_ascii_case(a: Seq<char>, b: Seq<char>, c: Seq<char>)
    ensures
        eq_ignore_ascii_case(a, a),
        eq_ignore_ascii_case(a, b) ==> eq_ignore_ascii_case(b, a),
        eq_ignore_ascii_case(a, b) && eq_ignore_ascii_case(b, c) ==> eq_ignore_ascii_case(a, c),
        eq_ignore_ascii_case(a, b) ==> a.len() == b.len(),
        eq_ignore_ascii_case(a, ascii_lowercase(a)),
{
    assert(ascii_lowercase(ascii_lowercase(a)) =~= ascii_lowercase(a)) by {
        assert forall|i: int| 0 <= i < a.len() implies #[trigger] ascii_lowercase(
            ascii_lowercase(a),
        )[i] == ascii_lowercase(a)[i] by {
            lemma_ascii_lower(a[i]);
        }
    }
    if eq_ignore_ascii_case(a, b) {
        assert(ascii_lowercase(a).len() == a.len());
    }
}

/// Every string contains itself, and anything surrounded by other text; a
/// string never contains a longer one.
pub proof fn lemma_contains_text(a: Seq<char>, t: Seq<char>, b: Seq<char>)
    ensures
        contains_text(a + t + b, t),
        contains_text(t, t),
        t.len() > a.len() ==> !contains_text(a, t),
{
    let s = a + t + b;
    assert(s.subrange(a.len() as int, (a.len() + t.len()) as int) =~= t);
    assert(t.len() > a.len() ==> !contains_text(a, t));
    assert(t.subrange(0int, 0int + t.len()) =~= t);
}

/// The Unicode `White_Space` characters include the ASCII tab, line feed,
/// vertical tab, form feed, carriage return and space, NEL, no-break space
/// and the ideographic space; letters, digits, `/`, `\\` and `.` are none.
pub proof fn lemma_whitespace(c: char)
    ensures
        c == '\t' || c == '\n' || c == '\u{b}' || c == '\u{c}' || c == '\r' || c == ' ' || c
            == '\u{85}' || c == '\u{a0}' || c == '\u{3000}' ==> is_whitespace(c),
        ('a' <= c && c <= 'z') || ('A' <= c && c <= 'Z') || ('0' <= c && c <= '9') || c == '/'
            || c == '\\' || c == '.' ==> !is_whitespace(c),
{
}

/// `trim(s)` is the part of `s` between a whitespace run at its start and a
/// whitespace run at its end, and it neither starts nor ends with
/// whitespace.
pub proof fn lemma_trim_shape(s: Seq<char>)
    ensures
        ({
            let t = trim(s);
            let i = s.len() - trim_start(s).len();
            &&& 0 <= i && i + t.len() <= s.len()
            &&& t == s.subrange(i, i + t.len())
            &&& forall|j: int| 0 <= j < i ==> is_whitespace(#[trigger] s[j])
            &&& forall|j: int| i + t.len() <= j < s.len() ==> is_whitespace(#[trigger] s[j])
            &&& t.len() > 0 ==> !is_whitespace(t[0]) && !is_whitespace(t.last())
        }),
{
    let ts = trim_start(s);
    let i = s.len() - ts.len();
    lemma_trim_start_suffix(s);
    lemma_trim_end_prefix(ts);
    let t = trim_end(ts);
    assert(t =~= s.subrange(i, i + t.len()));
    assert forall|j: int| i + t.len() <= j < s.len() implies is_whitespace(#[trigger] s[j]) by {
        assert(s[j] == ts[j - i]);
    }
    if t.len() > 0 {
        assert(t[0] == ts[0]);
    }
}

// ---------------------------------------------------------------------------
// Executable helpers
// ---------------------------------------------------------------------------

/// std's `String::push`: the string afterwards is the old one with `c`
/// added at its end.
#[verifier::external_body]
fn push_char(s: &mut String, c: char)
    ensures
        final(s)@ == old(s)@.push(c),
{
    s.push(c);
}

/// A string that holds the characters of `s`.
pub fn string_from(s: &str) -> (r: String)
    ensures
        r@ == s@,
{
    s.to_owned()
}

/// Two strings hold the same characters.
pub fn str_eq(a: &str, b: &str) -> (res: bool)
    ensures
        res == (a@ == b@),
{
    let n = a.unicode_len();
    if n != b.unicode_len() {
        return false;
    }
    let mut i: usize = 0;
    while i < n
        invariant
            n == a@.len(),
            n == b@.len(),
            i <= n,
            forall|j: int| 0 <= j < i ==> a@[j] == b@[j],
        decreases n - i,
    {
        if a.get_char(i) != b.get_char(i) {
            return false;
        }
        i = i + 1;
    }
    assert(a@ =~= b@);
    true
}

/// The characters of `s`, in order.
pub fn chars_of(s: &str) -> (v: Vec<char>)
    ensures
        v@ == s@,
{
    let n = s.unicode_len();
    let mut v: Vec<char> = Vec::new();
    let mut i: usize = 0;
    while i < n
        invariant
            n == s@.len(),
            i <= n,
            v@ == s@.take(i as int),
        decreases n - i,
    {
        v.push(s.get_char(i));
        i = i + 1;
        assert(v@ =~= s@.take(i as int));
    }
    assert(s@.take(n as int) =~= s@);
    v
}

/// A string made of `v[from..to]`.
pub fn string_of(v: &Vec<char>, from: usize, to: usize) -> (s: String)
    requires
        from <= to <= v@.len(),
    ensures
        s@ == v@.subrange(from as int, to as int),
{
    let mut s = String::new();
    let mut i: usize = from;
    while i < to
        invariant
            from <= i <= to <= v@.len(),
            s@ == v@.subrange(from as int, i as int),
        decreases to - i,
    {
        push_char(&mut s, v[i]);
        i = i + 1;
        assert(s@ =~= v@.subrange(from as int, i as int));
    }
    s
}

/// The Unicode `White_Space` test of `char::is_whitespace`.
pub fn char_is_whitespace(c: char) -> (res: bool)
    ensures
        res == is_whitespace(c),
{
    ('\u{9}' <= c && c <= '\u{d}') || c == ' ' || c == '\u{85}' || c == '\u{a0}' || c == '\u{1680}'
        || ('\u{2000}' <= c && c <= '\u{200a}') || c == '\u{2028}' || c == '\u{2029}' || c
        == '\u{202f}' || c == '\u{205f}' || c == '\u{3000}'
}

/// `c` with an ASCII upper-case letter turned into lower case.
pub fn char_to_ascii_lower(c: char) -> (res: char)
    ensures
        res == ascii_lower(c),
{
    if 'A' <= c && c <= 'Z' {
        let b: u8 = c as u8;
        assert(b == c as int);
        ((b + 32) as char)
    } else {
        c
    }
}

/// The index of the first character of `v` that is not whitespace (the
/// length of `v` when there is none).
pub fn trim_start_index(v: &Vec<char>) -> (i: usize)
    ensures
        i <= v@.len(),
        trim_start(v@) == v@.skip(i as int),
{
    let n = v.len();
    let mut i: usize = 0;
    while i < n && char_is_whitespace(v[i])
        invariant
            n == v@.len(),
            i <= n,
            forall|j: int| 0 <= j < i ==> is_whitespace(#[trigger] v@[j]),
        decreases n - i,
    {
        i = i + 1;
    }
    proof {
        lemma_trim_start_at(v@, i as int);
    }
    i
}

/// The bounds `start..end` of `v` once leading and trailing whitespace are
/// cut off.
pub fn trim_bounds(v: &Vec<char>) -> (r: (usize, usize))
    ensures
        r.0 <= r.1 <= v@.len(),
        trim(v@) == v@.subrange(r.0 as int, r.1 as int),
{
    let n = v.len();
    let i = trim_start_index(v);
    let mut k: usize = n;
    while k > i && char_is_whitespace(v[k - 1])
        invariant
            n == v@.len(),
            i <= k <= n,
            forall|j: int| k <= j < n ==> is_whitespace(#[trigger] v@[j]),
        decreases k - i,
    {
        k = k - 1;
    }
    proof {
        let t = v@.skip(i as int);
        assert forall|j: int| k - i <= j < t.len() implies is_whitespace(#[trigger] t[j]) by {
            assert(t[j] == v@[j + i]);
        }
        if k > i {
            assert(t[k - i - 1] == v@[k - 1]);
        }
        lemma_trim_end_at(t, k - i);
        assert(t.take(k - i) =~= v@.subrange(i as int, k as int));
    }
    (i, k)
}

/// A copy of `v[from..to]`.
pub fn copy_range(v: &Vec<char>, from: usize, to: usize) -> (r: Vec<char>)
    requires
        from <= to <= v@.len(),
    ensures
        r@ == v@.subrange(from as int, to as int),
{
    let mut r: Vec<char> = Vec::new();
    let mut i: usize = from;
    while i < to
        invariant
            from <= i <= to <= v@.len(),
            r@ == v@.subrange(from as int, i as int),
        decreases to - i,
    {
        r.push(v[i]);
        i = i + 1;
        assert(r@ =~= v@.subrange(from as int, i as int));
    }
    r
}

/// `v` with every backslash turned into a forward slash.
pub fn chars_backslashes_to_slashes(v: &Vec<char>) -> (r: Vec<char>)
    ensures
        r@ == backslashes_to_slashes(v@),
{
    let mut r: Vec<char> = Vec::new();
    let mut i: usize = 0;
    while i < v.len()
        invariant
            i <= v@.len(),
            r@ == backslashes_to_slashes(v@.take(i as int)),
        decreases v@.len() - i,
    {
        let c = v[i];
        r.push(if c == '\\' { '/' } else { c });
        i = i + 1;
        assert(r@ =~= backslashes_to_slashes(v@.take(i as int)));
    }
    assert(v@.take(i as int) =~= v@);
    r
}

/// The start of the last segment of `v`: one past its last `/`, or 0.
pub fn last_segment_start(v: &Vec<char>) -> (k: usize)
    ensures
        k <= v@.len(),
        last_segment(v@) == v@.skip(k as int),
{
    let mut k: usize = v.len();
    while k > 0 && v[k - 1] != '/'
        invariant
            k <= v@.len(),
            forall|j: int| k <= j < v@.len() ==> #[trigger] v@[j] != '/',
        decreases k,
    {
        k = k - 1;
    }
    proof {
        lemma_last_segment_at(v@, k as int);
    }
    k
}

/// `v[from..to]` ends with the characters of `suffix`.
pub fn range_has_suffix(v: &Vec<char>, from: usize, to: usize, suffix: &str) -> (res: bool)
    requires
        from <= to <= v@.len(),
    ensures
        res == has_suffix(v@.subrange(from as int, to as int), suffix@),
{
    let m = suffix.unicode_len();
    if m > to - from {
        return false;
    }
    let ghost s = v@.subrange(from as int, to as int);
    let base = to - m;
    let mut j: usize = 0;
    while j < m
        invariant
            m == suffix@.len(),
            m <= to - from,
            base == to - m,
            from <= to <= v@.len(),
            s == v@.subrange(from as int, to as int),
            j <= m,
            forall|t: int| 0 <= t < j ==> v@[base + t] == suffix@[t],
        decreases m - j,
    {
        if v[base + j] != suffix.get_char(j) {
            assert(s.skip(s.len() - m)[j as int] == v@[base + j]);
            return false;
        }
        j = j + 1;
    }
    assert(s.skip(s.len() - m) =~= suffix@);
    true
}

/// `s` starts with `prefix`.
pub fn str_has_prefix(s: &Vec<char>, prefix: &str) -> (res: bool)
    ensures
        res == has_prefix(s@, prefix@),
{
    let m = prefix.unicode_len();
    if m > s.len() {
        return false;
    }
    let mut j: usize = 0;
    while j < m
        invariant
            m == prefix@.len(),
            m <= s@.len(),
            j <= m,
            forall|t: int| 0 <= t < j ==> s@[t] == prefix@[t],
        decreases m - j,
    {
        if s[j] != prefix.get_char(j) {
            assert(s@.take(m as int)[j as int] == s@[j as int]);
            return false;
        }
        j = j + 1;
    }
    assert(s@.take(m as int) =~= prefix@);
    true
}

/// A lower-case copy of `v[from..to]`, ASCII letters only.
pub fn lowercase_string_of(v: &Vec<char>, from: usize, to: usize) -> (s: String)
    requires
        from <= to <= v@.len(),
    ensures
        s@ == ascii_lowercase(v@.subrange(from as int, to as int)),
{
    let mut s = String::new();
    let mut i: usize = from;
    while i < to
        invariant
            from <= i <= to <= v@.len(),
            s@ == ascii_lowercase(v@.subrange(from as int, i as int)),
        decreases to - i,
    {
        let c = char_to_ascii_lower(v[i]);
        push_char(&mut s, c);
        i = i + 1;
        assert(s@ =~= ascii_lowercase(v@.subrange(from as int, i as int)));
    }
    s
}

/// `a` and `b` are equal when ASCII case is ignored (`str::eq_ignore_ascii_case`).
pub fn str_eq_ignore_ascii_case(a: &str, b: &str) -> (res: bool)
    ensures
        res == eq_ignore_ascii_case(a@, b@),
{
    let n = a.unicode_len();
    if n != b.unicode_len() {
        assert(ascii_lowercase(a@).len() != ascii_lowercase(b@).len());
        return false;
    }
    let mut i: usize = 0;
    while i < n
        invariant
            n == a@.len(),
            n == b@.len(),
            i <= n,
            forall|j: int| 0 <= j < i ==> ascii_lower(a@[j]) == ascii_lower(b@[j]),
        decreases n - i,
    {
        if char_to_ascii_lower(a.get_char(i)) != char_to_ascii_lower(b.get_char(i)) {
            assert(ascii_lowercase(a@)[i as int] != ascii_lowercase(b@)[i as int]);
            return false;
        }
        i = i + 1;
    }
    assert(ascii_lowercase(a@) =~= ascii_lowercase(b@));
    true
}

/// `v[at..at + w.len()]` holds exactly the characters of `w`.
fn matches_at(v: &Vec<char>, w: &Vec<char>, at: usize) -> (res: bool)
    requires
        at + w@.len() <= v@.len(),
    ensures
        res == (v@.subrange(at as int, at + w@.len()) == w@),
{
    let m = w.len();
    let n = v.len();
    let mut j: usize = 0;
    while j < m
        invariant
            m == w@.len(),
            n == v@.len(),
            at + m <= n,
            j <= m,
            forall|t: int| 0 <= t < j ==> v@[at + t] == w@[t],
        decreases m - j,
    {
        if v[at + j] != w[j] {
            assert(v@.subrange(at as int, at + m)[j as int] == v@[at + j]);
            return false;
        }
        j = j + 1;
    }
    assert(v@.subrange(at as int, at + m) =~= w@);
    true
}

/// `t` occurs in `s` (`str::contains` with a string pattern).
pub fn str_contains(s: &str, t: &str) -> (res: bool)
    ensures
        res == contains_text(s@, t@),
{
    let v = chars_of(s);
    let w = chars_of(t);
    let n = v.len();
    let m = w.len();
    if m > n {
        return false;
    }
    let mut i: usize = 0;
    while i < n - m
        invariant
            n == v@.len(),
            m == w@.len(),
            m <= n,
            v@ == s@,
            w@ == t@,
            i <= n - m,
            forall|k: int| 0 <= k < i ==> #[trigger] v@.subrange(k, k + m) != w@,
        decreases n - m - i,
    {
        if matches_at(&v, &w, i) {
            return true;
        }
        i = i + 1;
    }
    matches_at(&v, &w, n - m)
}

} // verus!
