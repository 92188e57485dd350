//! Text primitives: white space, lines, words, splitting, and decimal numbers.

use vstd::prelude::*;

verus! {

/// `std::string::String::push` appends one character to the text.
pub assume_specification[ String::push ](s: &mut String, c: char)
    ensures
        final(s)@ == old(s)@.push(c),
;

/// What the `Debug` form of a text is: quoted, with its special characters
/// escaped.
pub uninterp spec fn debug_text(s: Seq<char>) -> Seq<char>;

/// `std::format!` with `{:?}` on a `str`: the result is the text's `Debug`
/// form, which depends on the text alone.
#[verifier::external_body]
pub(crate) fn debug_quoted(s: &str) -> (r: String)
    ensures
        r@ == debug_text(s@),
{
    format!("{s:?}")
}

/// The texts held by a sequence of strings.
pub open spec fn views(v: Seq<String>) -> Seq<Seq<char>> {
    v.map_values(|s: String| s@)
}

/// The reading of an optional text.
pub open spec fn optional(s: Option<&str>) -> Option<Seq<char>> {
    match s {
        Some(t) => Some(t@),
        None => None,
    }
}

/// The reading of an optional string.
pub open spec fn optional_string(s: Option<String>) -> Option<Seq<char>> {
    match s {
        Some(t) => Some(t@),
        None => None,
    }
}

/// Whether `c` has the Unicode White_Space property.
pub open spec fn is_space(c: char) -> bool {
    ||| '\u{9}' <= c <= '\u{d}'
    ||| c == ' '
    ||| c == '\u{85}'
    ||| c == '\u{a0}'
    ||| c == '\u{1680}'
    ||| '\u{2000}' <= c <= '\u{200a}'
    ||| c == '\u{2028}'
    ||| c == '\u{2029}'
    ||| c == '\u{202f}'
    ||| c == '\u{205f}'
    ||| c == '\u{3000}'
}

/// Tells whether `c` is a white space character.
pub fn space(c: char) -> (r: bool)
    ensures
        r == is_space(c),
{
    ('\u{9}' <= c && c <= '\u{d}') || c == ' ' || c == '\u{85}' || c == '\u{a0}' || c == '\u{1680}'
        || ('\u{2000}' <= c && c <= '\u{200a}') || c == '\u{2028}' || c == '\u{2029}'
        || c == '\u{202f}' || c == '\u{205f}' || c == '\u{3000}'
}

/// The characters of `s`.
pub fn chars_of(s: &str) -> (r: Vec<char>)
    ensures
        r@ == s@,
{
    let mut out: Vec<char> = Vec::new();
    for c in it: s.chars()
        invariant
            out@ == it.seq().take(it.index() as int),
    {
        out.push(c);
    }
    assert(out@ == s@);
    out
}

/// The characters `v[from..to]` as a string.
pub fn string_range(v: &Vec<char>, from: usize, to: usize) -> (r: String)
    requires
        from <= to <= v.len(),
    ensures
        r@ == v@.subrange(from as int, to as int),
{
    let mut out = String::new();
    let mut i: usize = from;
    while i < to
        invariant
            from <= i <= to <= v.len(),
            out@ == v@.subrange(from as int, i as int),
        decreases to - i,
    {
        out.push(v[i]);
        i += 1;
    }
    out
}

/// Tells whether the two texts are the same.
pub fn same(a: &str, b: &str) -> (r: bool)
    ensures
        r == (a@ == b@),
{
    let x = chars_of(a);
    let y = chars_of(b);
    if x.len() != y.len() {
        return false;
    }
    let mut i: usize = 0;
    while i < x.len()
        invariant
            x.len() == y.len(),
            i <= x.len(),
            forall|j: int| 0 <= j < i ==> x[j] == y[j],
            x@ == a@,
            y@ == b@,
        decreases x.len() - i,
    {
        if x[i] != y[i] {
            return false;
        }
        i += 1;
    }
    assert(x@ =~= y@);
    true
}

/// Two texts joined into one.
pub fn cat(a: &str, b: &str) -> (r: String)
    ensures
        r@ == a@ + b@,
{
    let mut out = String::new();
    out.append(a);
    out.append(b);
    out
}

// ---------------------------------------------------------------------------
// Splitting
// ---------------------------------------------------------------------------

/// The parts of `s` between the occurrences of `sep`; always at least one.
pub open spec fn split_on(s: Seq<char>, sep: char) -> Seq<Seq<char>>
    decreases s.len(),
{
    if s.len() == 0 {
        seq![Seq::<char>::empty()]
    } else {
        let init = split_on(s.drop_last(), sep);
        if s.last() == sep {
            init.push(Seq::<char>::empty())
        } else {
            init.drop_last().push(init.last().push(s.last()))
        }
    }
}

/// Splits `s` at every `sep`.
pub fn split(s: &str, sep: char) -> (r: Vec<String>)
    ensures
        views(r@) == split_on(s@, sep),
        r.len() > 0,
{
    let v = chars_of(s);
    let mut parts: Vec<String> = Vec::new();
    let mut cur = String::new();
    let mut i: usize = 0;
    assert(views(parts@).push(cur@) == split_on(v@.take(0), sep));
    while i < v.len()
        invariant
            i <= v.len(),
            views(parts@).push(cur@) == split_on(v@.take(i as int), sep),
        decreases v.len() - i,
    {
        let c = v[i];
        let ghost before = split_on(v@.take(i as int), sep);
        proof {
            assert(v@.take(i + 1).drop_last() =~= v@.take(i as int));
            assert(before.drop_last() =~= views(parts@));
            assert(before.last() == cur@);
        }
        if c == sep {
            let ghost old_parts = parts@;
            parts.push(cur);
            cur = String::new();
            proof {
                assert(views(parts@) =~= before);
            }
        } else {
            cur.push(c);
        }
        i += 1;
    }
    assert(v@.take(v.len() as int) =~= s@);
    let ghost full = views(parts@).push(cur@);
    parts.push(cur);
    assert(views(parts@) =~= full);
    parts
}

/// Characters other than `sep` extend the last part.
pub proof fn lemma_split_extend(s: Seq<char>, tail: Seq<char>, sep: char)
    requires
        lacks(tail, sep),
    ensures
        split_on(s, sep).len() > 0,
        split_on(s + tail, sep) == split_on(s, sep).drop_last().push(
            split_on(s, sep).last() + tail,
        ),
    decreases s.len() + tail.len(),
{
    let parts = split_on(s, sep);
    if tail.len() == 0 {
        assert(s + tail =~= s);
        if s.len() > 0 {
            lemma_split_extend(s.drop_last(), tail, sep);
        }
        assert(parts.last() + tail =~= parts.last());
        assert(parts.drop_last().push(parts.last()) =~= parts);
    } else {
        let t = tail.drop_last();
        lemma_split_extend(s, t, sep);
        assert((s + tail).drop_last() =~= s + t);
        assert((s + tail).last() == tail.last());
        assert((parts.last() + t).push(tail.last()) =~= parts.last() + tail);
        assert(parts.drop_last().push(parts.last() + t).drop_last() =~= parts.drop_last());
    }
}

/// `i` is the first position of `c` in `s`.
pub open spec fn is_first(s: Seq<char>, c: char, i: int) -> bool {
    &&& 0 <= i < s.len()
    &&& s[i] == c
    &&& forall|j: int| 0 <= j < i ==> s[j] != c
}

/// The first position of `c` in `s`.
pub open spec fn find(s: Seq<char>, c: char) -> Option<int> {
    if exists|i: int| is_first(s, c, i) {
        Some(choose|i: int| is_first(s, c, i))
    } else {
        None
    }
}

/// `find` returns the one first position.
pub proof fn lemma_find(s: Seq<char>, c: char, i: int)
    requires
        is_first(s, c, i),
    ensures
        find(s, c) == Some(i),
{
    let k = choose|k: int| is_first(s, c, k);
    assert(is_first(s, c, k));
    if k < i {
        assert(s[k] != c);
    } else if i < k {
        assert(s[i] != c);
    }
}

/// `s` cut at the first `sep`, which belongs to neither part.
pub open spec fn split_once_on(s: Seq<char>, sep: char) -> Option<(Seq<char>, Seq<char>)> {
    match find(s, sep) {
        Some(i) => Some((s.take(i), s.skip(i + 1))),
        None => None,
    }
}

/// A text is cut in two at the first `sep`, of which nothing else is lost, just where it
/// has one.
pub proof fn law_cut_at_the_first(s: Seq<char>, sep: char)
    ensures
        split_once_on(s, sep) is None <==> lacks(s, sep),
        split_once_on(s, sep) matches Some((a, b)) ==> lacks(a, sep) && s == a.push(sep) + b,
{
    match find(s, sep) {
        Some(i) => {
            assert(is_first(s, sep, i));
            assert(s =~= s.take(i).push(sep) + s.skip(i + 1));
            assert(s[i] == sep);
        },
        None => {
            if !lacks(s, sep) {
                let k = choose|k: int| 0 <= k < s.len() && s[k] == sep;
                lemma_first_of(s, sep, k);
            }
        },
    }
}

/// A character that occurs occurs for a first time.
proof fn lemma_first_of(s: Seq<char>, c: char, k: int)
    requires
        0 <= k < s.len(),
        s[k] == c,
    ensures
        exists|i: int| is_first(s, c, i),
    decreases k,
{
    if exists|j: int| 0 <= j < k && s[j] == c {
        let j = choose|j: int| 0 <= j < k && s[j] == c;
        lemma_first_of(s, c, j);
    } else {
        assert(is_first(s, c, k));
    }
}

/// Cuts `s` at the first `sep`.
pub fn split_once(s: &str, sep: char) -> (r: Option<(String, String)>)
    ensures
        match r {
            Some(p) => split_once_on(s@, sep) == Some((p.0@, p.1@)),
            None => split_once_on(s@, sep) is None,
        },
{
    let v = chars_of(s);
    let mut i: usize = 0;
    while i < v.len()
        invariant
            i <= v.len(),
            v@ == s@,
            forall|j: int| 0 <= j < i ==> v[j] != sep,
        decreases v.len() - i,
    {
        if v[i] == sep {
            proof {
                lemma_find(s@, sep, i as int);
            }
            let a = string_range(&v, 0, i);
            let b = string_range(&v, i + 1, v.len());
            assert(a@ =~= s@.take(i as int));
            assert(b@ =~= s@.skip(i + 1));
            return Some((a, b));
        }
        i += 1;
    }
    assert(forall|k: int| !is_first(s@, sep, k));
    None
}

/// A line without the carriage return in front of its line feed.
pub open spec fn strip_cr(l: Seq<char>) -> Seq<char> {
    if l.len() > 0 && l.last() == '\r' {
        l.drop_last()
    } else {
        l
    }
}

/// The lines of `s`: each ends in a line feed or in a carriage return and a
/// line feed, which are not part of it; the ending of the last is optional.
pub open spec fn lines_of(s: Seq<char>) -> Seq<Seq<char>> {
    let parts = split_on(s, '\n');
    let ended = parts.drop_last().map_values(|l: Seq<char>| strip_cr(l));
    if parts.last().len() == 0 {
        ended
    } else {
        ended.push(parts.last())
    }
}

/// Splits `s` into lines.
pub fn lines(s: &str) -> (r: Vec<String>)
    ensures
        views(r@) == lines_of(s@),
{
    let parts = split(s, '\n');
    let mut out: Vec<String> = Vec::new();
    let last: usize = parts.len() - 1;
    let mut i: usize = 0;
    while i < last
        invariant
            i <= last,
            last == parts.len() - 1,
            out.len() == i,
            forall|j: int| 0 <= j < i ==> out[j]@ == strip_cr(#[trigger] parts[j]@),
        decreases last - i,
    {
        let v = chars_of(parts[i].as_str());
        let n: usize = if v.len() > 0 && v[v.len() - 1] == '\r' {
            v.len() - 1
        } else {
            v.len()
        };
        let l = string_range(&v, 0, n);
        proof {
            assert(l@ =~= strip_cr(parts[i as int]@));
        }
        out.push(l);
        i += 1;
    }
    let ghost p = views(parts@);
    let ghost ended = p.drop_last().map_values(|l: Seq<char>| strip_cr(l));
    assert(views(out@) =~= ended);
    assert(p.last() == parts[last as int]@);
    if !parts[last].as_str().is_empty() {
        let tail = parts[last].clone();
        out.push(tail);
        assert(views(out@) =~= ended.push(p.last()));
    }
    out
}

/// `c` does not occur in `s`.
pub open spec fn lacks(s: Seq<char>, c: char) -> bool {
    forall|i: int| 0 <= i < s.len() ==> s[i] != c
}

/// `part` stands somewhere in `s`.
pub open spec fn holds(s: Seq<char>, part: Seq<char>) -> bool {
    exists|i: int|
        0 <= i <= s.len() - part.len() && #[trigger] s.subrange(i, i + part.len()) == part
}

/// A text holds what it was put together from.
pub proof fn lemma_holds(before: Seq<char>, part: Seq<char>, after: Seq<char>)
    ensures
        holds(before + part + after, part),
{
    let s = before + part + after;
    let i = before.len() as int;
    assert(s.subrange(i, i + part.len()) =~= part);
}

/// What occurs in neither of two texts does not occur in the joined text.
pub proof fn lemma_lacks(a: Seq<char>, b: Seq<char>, c: char)
    requires
        lacks(a, c),
        lacks(b, c),
    ensures
        lacks(a + b, c),
{
    assert forall|i: int| 0 <= i < (a + b).len() implies (a + b)[i] != c by {
        if i >= a.len() {
            assert((a + b)[i] == b[i - a.len()]);
        }
    }
}

/// A text without line feeds is one line.
pub proof fn lemma_one_line(s: Seq<char>)
    requires
        s.len() > 0,
        lacks(s, '\n'),
    ensures
        lines_of(s) == seq![s],
{
    let none = Seq::<char>::empty();
    assert(none + s =~= s);
    lemma_split_extend(none, s, '\n');
    assert(split_on(none, '\n') =~= seq![none]);
    assert(split_on(s, '\n') =~= seq![s]);
    assert(lines_of(s) =~= seq![s]);
}

/// The maximal runs of characters that are not white space.
pub open spec fn words_of(s: Seq<char>) -> Seq<Seq<char>>
    decreases s.len(),
{
    if s.len() == 0 {
        Seq::empty()
    } else {
        let init = words_of(s.drop_last());
        if is_space(s.last()) {
            init
        } else if s.len() > 1 && !is_space(s[s.len() - 2]) {
            init.drop_last().push(init.last().push(s.last()))
        } else {
            init.push(seq![s.last()])
        }
    }
}

/// Splits `s` at white space.
pub fn words(s: &str) -> (r: Vec<String>)
    ensures
        views(r@) == words_of(s@),
{
    let v = chars_of(s);
    let mut out: Vec<String> = Vec::new();
    let mut cur = String::new();
    let mut inside = false;
    let mut i: usize = 0;
    assert(views(out@) =~= words_of(v@.take(0)));
    while i < v.len()
        invariant
            i <= v.len(),
            inside == (i > 0 && !is_space(v[i - 1])),
            inside ==> views(out@).push(cur@) == words_of(v@.take(i as int)),
            !inside ==> views(out@) == words_of(v@.take(i as int)) && cur@.len() == 0,
        decreases v.len() - i,
    {
        let c = v[i];
        let ghost before = words_of(v@.take(i as int));
        proof {
            assert(v@.take(i + 1).drop_last() =~= v@.take(i as int));
            if inside {
                assert(before.drop_last() =~= views(out@));
                assert(before.last() == cur@);
            }
        }
        if space(c) {
            if inside {
                out.push(cur);
                cur = String::new();
                assert(views(out@) =~= before);
            }
            inside = false;
        } else {
            let ghost seen = cur@;
            cur.push(c);
            proof {
                if !inside {
                    assert(cur@ =~= seq![c]);
                }
            }
            inside = true;
        }
        i += 1;
    }
    assert(v@.take(v.len() as int) =~= s@);
    if inside {
        let ghost full = views(out@).push(cur@);
        out.push(cur);
        assert(views(out@) =~= full);
    }
    out
}

/// `w` is not empty and holds no white space.
pub open spec fn is_word(w: Seq<char>) -> bool {
    w.len() > 0 && forall|i: int| 0 <= i < w.len() ==> !is_space(#[trigger] w[i])
}

/// A run of digits is a word.
pub proof fn lemma_word_of_digits(d: Seq<char>)
    requires
        d.len() > 0,
        all_digits(d),
    ensures
        is_word(d),
{
    assert forall|i: int| 0 <= i < d.len() implies !is_space(#[trigger] d[i]) by {
        assert(is_digit(d[i]));
    }
}

/// A word behind nothing or behind white space is one more word.
pub proof fn lemma_words_push(s: Seq<char>, w: Seq<char>)
    requires
        is_word(w),
        s.len() == 0 || is_space(s.last()),
    ensures
        words_of(s + w) == words_of(s).push(w),
    decreases w.len(),
{
    let t = s + w;
    assert(t.last() == w.last());
    assert(t.drop_last() =~= s + w.drop_last());
    if w.len() == 1 {
        assert(t.drop_last() =~= s);
        assert(w =~= seq![w.last()]);
        if t.len() > 1 {
            assert(t[t.len() - 2] == s.last());
        }
    } else {
        let v = w.drop_last();
        assert forall|i: int| 0 <= i < v.len() implies !is_space(#[trigger] v[i]) by {
            assert(v[i] == w[i]);
        }
        lemma_words_push(s, v);
        assert(t[t.len() - 2] == w[w.len() - 2]);
        assert(v.push(w.last()) =~= w);
        assert(words_of(s).push(v).drop_last() =~= words_of(s));
    }
}

/// Trailing white space adds no word.
pub proof fn lemma_words_space(s: Seq<char>)
    ensures
        words_of(s.push(' ')) == words_of(s),
{
    assert(s.push(' ').drop_last() =~= s);
}

/// `s` without its leading white space.
pub open spec fn trim_start_of(s: Seq<char>) -> Seq<char>
    decreases s.len(),
{
    if s.len() > 0 && is_space(s[0]) {
        trim_start_of(s.skip(1))
    } else {
        s
    }
}

/// `s` without its trailing white space.
pub open spec fn trim_end_of(s: Seq<char>) -> Seq<char>
    decreases s.len(),
{
    if s.len() > 0 && is_space(s.last()) {
        trim_end_of(s.drop_last())
    } else {
        s
    }
}

/// `s` without white space at either end.
pub open spec fn trim_of(s: Seq<char>) -> Seq<char> {
    trim_end_of(trim_start_of(s))
}

/// Removes leading white space.
pub fn trim_start(s: &str) -> (r: String)
    ensures
        r@ == trim_start_of(s@),
{
    let v = chars_of(s);
    let mut i: usize = 0;
    assert(v@.skip(0) =~= s@);
    while i < v.len() && space(v[i])
        invariant
            i <= v.len(),
            trim_start_of(v@.skip(i as int)) == trim_start_of(s@),
        decreases v.len() - i,
    {
        assert(v@.skip(i as int).skip(1) =~= v@.skip(i + 1));
        i += 1;
    }
    let r = string_range(&v, i, v.len());
    assert(r@ =~= v@.skip(i as int));
    r
}

/// Removes trailing white space.
pub fn trim_end(s: &str) -> (r: String)
    ensures
        r@ == trim_end_of(s@),
{
    let v = chars_of(s);
    let mut n: usize = v.len();
    assert(v@.take(n as int) =~= s@);
    while n > 0 && space(v[n - 1])
        invariant
            n <= v.len(),
            trim_end_of(v@.take(n as int)) == trim_end_of(s@),
        decreases n,
    {
        assert(v@.take(n as int).drop_last() =~= v@.take(n - 1));
        n -= 1;
    }
    let r = string_range(&v, 0, n);
    assert(r@ =~= v@.take(n as int));
    r
}

/// Removes white space at both ends.
pub fn trim(s: &str) -> (r: String)
    ensures
        r@ == trim_of(s@),
{
    let t = trim_start(s);
    trim_end(t.as_str())
}

/// `s` begins with `p`.
pub open spec fn has_prefix(s: Seq<char>, p: Seq<char>) -> bool {
    p.len() <= s.len() && s.take(p.len() as int) == p
}

/// `s` ends with `p`.
pub open spec fn has_suffix(s: Seq<char>, p: Seq<char>) -> bool {
    p.len() <= s.len() && s.skip(s.len() - p.len()) == p
}

/// What follows the prefix `p` in `s`, if `s` begins with `p`.
pub open spec fn after_prefix(s: Seq<char>, p: Seq<char>) -> Option<Seq<char>> {
    if has_prefix(s, p) {
        Some(s.skip(p.len() as int))
    } else {
        None
    }
}

/// Removes the prefix `p`.
pub fn strip_prefix(s: &str, p: &str) -> (r: Option<String>)
    ensures
        match r {
            Some(t) => after_prefix(s@, p@) == Some(t@),
            None => after_prefix(s@, p@) is None,
        },
{
    let v = chars_of(s);
    let q = chars_of(p);
    if q.len() > v.len() {
        return None;
    }
    let mut i: usize = 0;
    while i < q.len()
        invariant
            i <= q.len() <= v.len(),
            v@ == s@,
            q@ == p@,
            forall|j: int| 0 <= j < i ==> v[j] == q[j],
        decreases q.len() - i,
    {
        if v[i] != q[i] {
            proof {
                assert(s@.take(q.len() as int)[i as int] != p@[i as int]);
            }
            return None;
        }
        i += 1;
    }
    assert(s@.take(q.len() as int) =~= p@);
    let t = string_range(&v, q.len(), v.len());
    assert(t@ =~= s@.skip(p@.len() as int));
    Some(t)
}

/// Tells whether `s` begins with `p`.
pub fn starts_with(s: &str, p: &str) -> (r: bool)
    ensures
        r == has_prefix(s@, p@),
{
    strip_prefix(s, p).is_some()
}

/// The ASCII lower case of a character.
pub open spec fn lower_char(c: char) -> char {
    if 'A' <= c <= 'Z' {
        (c as int + 32) as char
    } else {
        c
    }
}

/// The text in ASCII lower case.
pub open spec fn lower(s: Seq<char>) -> Seq<char> {
    s.map_values(|c: char| lower_char(c))
}

/// The ASCII lower case of `s`.
pub fn to_lower(s: &str) -> (r: String)
    ensures
        r@ == lower(s@),
{
    let v = chars_of(s);
    let mut out = String::new();
    let mut i: usize = 0;
    while i < v.len()
        invariant
            i <= v.len(),
            v@ == s@,
            out@ == lower(v@.take(i as int)),
        decreases v.len() - i,
    {
        let c = v[i];
        let l: char = if 'A' <= c && c <= 'Z' {
            (c as u8 + 32u8) as char
        } else {
            c
        };
        assert(l == lower_char(c));
        out.push(l);
        assert(v@.take(i + 1) =~= v@.take(i as int).push(c));
        assert(lower(v@.take(i + 1)) =~= lower(v@.take(i as int)).push(l));
        i += 1;
    }
    assert(v@.take(v.len() as int) =~= s@);
    out
}

/// `a` comes before `b` in the order of their characters.
pub open spec fn text_less(a: Seq<char>, b: Seq<char>) -> bool
    decreases a.len(),
{
    if b.len() == 0 {
        false
    } else if a.len() == 0 {
        true
    } else if a[0] != b[0] {
        a[0] < b[0]
    } else {
        text_less(a.skip(1), b.skip(1))
    }
}

/// Tells whether `a` comes before `b`.
pub fn comes_before(a: &str, b: &str) -> (r: bool)
    ensures
        r == text_less(a@, b@),
{
    let x = chars_of(a);
    let y = chars_of(b);
    let mut i: usize = 0;
    assert(x@.skip(0) =~= a@);
    assert(y@.skip(0) =~= b@);
    while i < x.len() && i < y.len() && x[i] == y[i]
        invariant
            i <= x.len(),
            i <= y.len(),
            text_less(x@.skip(i as int), y@.skip(i as int)) == text_less(a@, b@),
        decreases x.len() - i,
    {
        proof {
            assert(x@.skip(i as int).skip(1) =~= x@.skip(i + 1));
            assert(y@.skip(i as int).skip(1) =~= y@.skip(i + 1));
        }
        i += 1;
    }
    if i == y.len() {
        false
    } else if i == x.len() {
        true
    } else {
        x[i] < y[i]
    }
}

/// The order of texts has no ties but equality, and no cycles.
pub proof fn lemma_text_order(a: Seq<char>, b: Seq<char>, c: Seq<char>)
    ensures
        !text_less(a, a),
        text_less(a, b) ==> !text_less(b, a),
        a == b || text_less(a, b) || text_less(b, a),
        text_less(a, b) && text_less(b, c) ==> text_less(a, c),
    decreases a.len(),
{
    if a.len() > 0 {
        lemma_text_order(
            a.skip(1),
            if b.len() > 0 {
                b.skip(1)
            } else {
                b
            },
            if c.len() > 0 {
                c.skip(1)
            } else {
                c
            },
        );
        if b.len() > 0 && a[0] == b[0] && a.skip(1) == b.skip(1) {
            assert(a =~= seq![a[0]] + a.skip(1));
            assert(b =~= seq![b[0]] + b.skip(1));
        }
    } else if b.len() == 0 {
        assert(a =~= b);
    }
}

/// Each text comes before the next ones.
pub open spec fn ascending(s: Seq<Seq<char>>) -> bool {
    forall|i: int, j: int| 0 <= i < j < s.len() ==> text_less(#[trigger] s[i], #[trigger] s[j])
}

/// The texts of a set in their order.
pub open spec fn ordered(keys: Set<Seq<char>>) -> Seq<Seq<char>> {
    choose|s: Seq<Seq<char>>| ascending(s) && #[trigger] s.to_set() == keys
}

/// The order of a set that has one.
pub proof fn lemma_ordered(s: Seq<Seq<char>>)
    requires
        ascending(s),
    ensures
        ordered(s.to_set()) == s,
{
    lemma_one_order(s, ordered(s.to_set()));
}

/// A set has one order.
pub proof fn lemma_one_order(a: Seq<Seq<char>>, b: Seq<Seq<char>>)
    requires
        ascending(a),
        ascending(b),
        a.to_set() == b.to_set(),
    ensures
        a == b,
    decreases a.len(),
{
    if a.len() == 0 {
        if b.len() > 0 {
            assert(b.to_set().contains(b[0]));
            assert(a.to_set().contains(b[0]));
        }
        assert(a =~= b);
    } else {
        assert(a.to_set().contains(a.last()));
        assert(b.to_set().contains(a.last()));
        let n = a.len() - 1;
        let k = choose|k: int| 0 <= k < b.len() && b[k] == a.last();
        assert(b.to_set().contains(b.last()));
        assert(a.to_set().contains(b.last()));
        let l = choose|l: int| 0 <= l < a.len() && a[l] == b.last();
        lemma_text_order(a.last(), b.last(), a.last());
        if k < b.len() - 1 {
            assert(text_less(b[k], b[b.len() - 1]));
            if l < n {
                assert(text_less(a[l], a[n]));
            }
        }
        assert(a.last() == b.last());
        let x = a.drop_last();
        let y = b.drop_last();
        assert forall|t: Seq<char>| x.to_set().contains(t) == y.to_set().contains(t) by {
            lemma_order_step(a, t);
            lemma_order_step(b, t);
        }
        assert(x.to_set() =~= y.to_set());
        assert(ascending(x));
        assert(ascending(y));
        lemma_one_order(x, y);
        assert(a =~= x.push(a.last()));
        assert(b =~= y.push(b.last()));
    }
}

/// All but the last text of an order are all others.
proof fn lemma_order_step(a: Seq<Seq<char>>, t: Seq<char>)
    requires
        ascending(a),
        a.len() > 0,
    ensures
        a.drop_last().to_set().contains(t) == (a.to_set().contains(t) && t != a.last()),
{
    let x = a.drop_last();
    let n = a.len() - 1;
    if x.to_set().contains(t) {
        let i = choose|i: int| 0 <= i < x.len() && x[i] == t;
        assert(a[i] == t);
        assert(text_less(a[i], a[n]));
        lemma_text_order(t, t, t);
    }
    if a.to_set().contains(t) && t != a.last() {
        let i = choose|i: int| 0 <= i < a.len() && a[i] == t;
        assert(x[i] == t);
    }
}

/// Puts keys in their order, each one once.
pub fn sort_keys(keys: &Vec<String>) -> (r: Vec<String>)
    ensures
        views(r@) == ordered(views(keys@).to_set()),
        ascending(views(r@)),
        views(r@).to_set() == views(keys@).to_set(),
{
    let mut out: Vec<String> = Vec::new();
    let mut i: usize = 0;
    assert(views(out@).to_set() =~= views(keys@.take(0)).to_set());
    while i < keys.len()
        invariant
            i <= keys.len(),
            ascending(views(out@)),
            views(out@).to_set() == views(keys@.take(i as int)).to_set(),
        decreases keys.len() - i,
    {
        let key = keys[i].as_str();
        let mut p: usize = 0;
        while p < out.len() && comes_before(out[p].as_str(), key)
            invariant
                p <= out.len(),
                forall|k: int| 0 <= k < p ==> text_less((#[trigger] out@[k])@, key@),
            decreases out.len() - p,
        {
            p += 1;
        }
        let ghost before = views(out@);
        let present = p < out.len() && same(out[p].as_str(), key);
        if !present {
            out.insert(p, key.to_owned());
            assert(views(out@) =~= before.insert(p as int, key@));
        }
        proof {
            lemma_inserted(before, views(out@), key@, p as int, present);
            let a = views(keys@.take(i as int));
            let b = views(keys@.take(i + 1));
            assert(b =~= a.push(key@));
            assert forall|t: Seq<char>| b.to_set().contains(t) == (a.to_set().contains(t) || t
                == key@) by {
                lemma_push_set(a, key@, t);
            }
            assert(views(out@).to_set() =~= b.to_set());
        }
        i += 1;
    }
    proof {
        assert(keys@.take(keys.len() as int) =~= keys@);
        let s = views(out@);
        assert(s.to_set() == views(keys@).to_set());
        lemma_ordered(s);
    }
    out
}

/// One more item is one more member.
pub proof fn lemma_push_set(a: Seq<Seq<char>>, x: Seq<char>, t: Seq<char>)
    ensures
        a.push(x).to_set().contains(t) == (a.to_set().contains(t) || t == x),
{
    let b = a.push(x);
    if a.to_set().contains(t) {
        let i = choose|i: int| 0 <= i < a.len() && a[i] == t;
        assert(b[i] == t);
    }
    assert(b[a.len() as int] == x);
    if b.to_set().contains(t) && t != x {
        let i = choose|i: int| 0 <= i < b.len() && b[i] == t;
        assert(a[i] == t);
    }
}

/// A key that is put behind those that come before it keeps the order.
proof fn lemma_inserted(
    before: Seq<Seq<char>>,
    after: Seq<Seq<char>>,
    key: Seq<char>,
    p: int,
    present: bool,
)
    requires
        ascending(before),
        0 <= p <= before.len(),
        forall|k: int| 0 <= k < p ==> text_less(#[trigger] before[k], key),
        p < before.len() ==> !text_less(before[p], key),
        present == (p < before.len() && before[p] == key),
        after == if present {
            before
        } else {
            before.insert(p, key)
        },
    ensures
        ascending(after),
        forall|t: Seq<char>| #[trigger]
            after.to_set().contains(t) == (before.to_set().contains(t) || t == key),
{
    if present {
        assert(before.to_set().contains(key));
    } else {
        assert forall|i: int, j: int| 0 <= i < j < after.len() implies text_less(
            #[trigger] after[i],
            #[trigger] after[j],
        ) by {
            if i == p {
                assert(after[j] == before[j - 1]);
                lemma_text_order(key, before[p], before[j - 1]);
                if p < j - 1 {
                    assert(text_less(before[p], before[j - 1]));
                }
            } else if j == p {
                assert(after[i] == before[i]);
            } else {
                let x = if i < p {
                    i
                } else {
                    i - 1
                };
                let y = if j < p {
                    j
                } else {
                    j - 1
                };
                assert(after[i] == before[x]);
                assert(after[j] == before[y]);
                assert(text_less(before[x], before[y]));
            }
        }
        assert forall|t: Seq<char>| #[trigger]
            after.to_set().contains(t) == (before.to_set().contains(t) || t == key) by {
            assert(after[p] == key);
            if before.to_set().contains(t) {
                let i = choose|i: int| 0 <= i < before.len() && before[i] == t;
                assert(after[if i < p {
                    i
                } else {
                    i + 1
                }] == t);
            }
            if after.to_set().contains(t) && t != key {
                let i = choose|i: int| 0 <= i < after.len() && after[i] == t;
                assert(before[if i < p {
                    i
                } else {
                    i - 1
                }] == t);
            }
        }
    }
}

/// The place of a key among texts in their order.
proof fn lemma_spot(s: Seq<Seq<char>>, key: Seq<char>, from: int) -> (p: int)
    requires
        0 <= from <= s.len(),
        forall|k: int| 0 <= k < from ==> text_less(#[trigger] s[k], key),
    ensures
        0 <= p <= s.len(),
        forall|k: int| 0 <= k < p ==> text_less(#[trigger] s[k], key),
        p < s.len() ==> !text_less(s[p], key),
    decreases s.len() - from,
{
    if from < s.len() && text_less(s[from], key) {
        lemma_spot(s, key, from + 1)
    } else {
        from
    }
}

/// Texts can be put in order: the same ones, each once, and each before the next ones.
pub proof fn law_texts_have_an_order(keys: Seq<Seq<char>>)
    ensures
        ascending(ordered(keys.to_set())),
        ordered(keys.to_set()).to_set() == keys.to_set(),
        ordered(keys.to_set()).no_duplicates(),
    decreases keys.len(),
{
    let r = ordered(keys.to_set());
    if keys.len() == 0 {
        lemma_ordered(keys);
    } else {
        let rest = keys.drop_last();
        let key = keys.last();
        law_texts_have_an_order(rest);
        let before = ordered(rest.to_set());
        let p = lemma_spot(before, key, 0);
        let present = p < before.len() && before[p] == key;
        let after = if present {
            before
        } else {
            before.insert(p, key)
        };
        lemma_inserted(before, after, key, p, present);
        assert(keys =~= rest.push(key));
        assert forall|t: Seq<char>| keys.to_set().contains(t) == after.to_set().contains(t) by {
            lemma_push_set(rest, key, t);
        }
        assert(keys.to_set() =~= after.to_set());
        lemma_ordered(after);
    }
    assert forall|i: int, j: int| 0 <= i < r.len() && 0 <= j < r.len() && i != j implies r[i]
        != r[j] by {
        lemma_text_order(r[i], r[i], r[i]);
        if i < j {
            assert(text_less(r[i], r[j]));
        } else {
            assert(text_less(r[j], r[i]));
        }
    }
}

/// The ASCII upper case of a character.
pub open spec fn upper_char(c: char) -> char {
    if 'a' <= c <= 'z' {
        (c as int - 32) as char
    } else {
        c
    }
}

/// The text in ASCII upper case.
pub open spec fn upper(s: Seq<char>) -> Seq<char> {
    s.map_values(|c: char| upper_char(c))
}

/// The ASCII upper case of `s`.
pub fn to_upper(s: &str) -> (r: String)
    ensures
        r@ == upper(s@),
{
    let v = chars_of(s);
    let mut out = String::new();
    let mut i: usize = 0;
    while i < v.len()
        invariant
            i <= v.len(),
            v@ == s@,
            out@ == upper(v@.take(i as int)),
        decreases v.len() - i,
    {
        let c = v[i];
        let u: char = if 'a' <= c && c <= 'z' {
            (c as u8 - 32u8) as char
        } else {
            c
        };
        assert(u == upper_char(c));
        out.push(u);
        assert(v@.take(i + 1) =~= v@.take(i as int).push(c));
        assert(upper(v@.take(i + 1)) =~= upper(v@.take(i as int)).push(u));
        i += 1;
    }
    assert(v@.take(v.len() as int) =~= s@);
    out
}

/// The text with every `from` replaced by `to`.
pub open spec fn replaced(s: Seq<char>, from: char, to: char) -> Seq<char> {
    s.map_values(|c: char| if c == from { to } else { c })
}

/// Replaces every `from` by `to`.
pub fn replace_char(s: &str, from: char, to: char) -> (r: String)
    ensures
        r@ == replaced(s@, from, to),
{
    let v = chars_of(s);
    let mut out = String::new();
    let mut i: usize = 0;
    while i < v.len()
        invariant
            i <= v.len(),
            v@ == s@,
            out@ == replaced(v@.take(i as int), from, to),
        decreases v.len() - i,
    {
        let c = v[i];
        let n: char = if c == from {
            to
        } else {
            c
        };
        out.push(n);
        assert(v@.take(i + 1) =~= v@.take(i as int).push(c));
        assert(replaced(v@.take(i + 1), from, to) =~= replaced(v@.take(i as int), from, to).push(
            n,
        ));
        i += 1;
    }
    assert(v@.take(v.len() as int) =~= s@);
    out
}

/// Tells whether `c` occurs in `s`.
pub fn has_char(s: &str, c: char) -> (r: bool)
    ensures
        r == s@.contains(c),
{
    let v = chars_of(s);
    let mut i: usize = 0;
    while i < v.len()
        invariant
            i <= v.len(),
            v@ == s@,
            forall|j: int| 0 <= j < i ==> v@[j] != c,
        decreases v.len() - i,
    {
        if v[i] == c {
            assert(s@[i as int] == c);
            return true;
        }
        i += 1;
    }
    false
}

/// `s` without the characters `c` at its start.
pub open spec fn trim_start_char_of(s: Seq<char>, c: char) -> Seq<char>
    decreases s.len(),
{
    if s.len() > 0 && s[0] == c {
        trim_start_char_of(s.skip(1), c)
    } else {
        s
    }
}

/// Removes the characters `c` at the start.
pub fn trim_start_char(s: &str, c: char) -> (r: String)
    ensures
        r@ == trim_start_char_of(s@, c),
{
    let v = chars_of(s);
    let mut i: usize = 0;
    assert(v@.skip(0) =~= s@);
    while i < v.len() && v[i] == c
        invariant
            i <= v.len(),
            trim_start_char_of(v@.skip(i as int), c) == trim_start_char_of(s@, c),
        decreases v.len() - i,
    {
        assert(v@.skip(i as int).skip(1) =~= v@.skip(i + 1));
        i += 1;
    }
    let r = string_range(&v, i, v.len());
    assert(r@ =~= v@.skip(i as int));
    r
}

/// `s` without the characters `c` at its end.
pub open spec fn trim_end_char_of(s: Seq<char>, c: char) -> Seq<char>
    decreases s.len(),
{
    if s.len() > 0 && s.last() == c {
        trim_end_char_of(s.drop_last(), c)
    } else {
        s
    }
}

/// Removes the characters `c` at the end.
pub fn trim_end_char(s: &str, c: char) -> (r: String)
    ensures
        r@ == trim_end_char_of(s@, c),
{
    let v = chars_of(s);
    let mut n: usize = v.len();
    assert(v@.take(n as int) =~= s@);
    while n > 0 && v[n - 1] == c
        invariant
            n <= v.len(),
            trim_end_char_of(v@.take(n as int), c) == trim_end_char_of(s@, c),
        decreases n,
    {
        assert(v@.take(n as int).drop_last() =~= v@.take(n - 1));
        n -= 1;
    }
    let r = string_range(&v, 0, n);
    assert(r@ =~= v@.take(n as int));
    r
}

/// The parts with `sep` between them.
pub open spec fn joined(parts: Seq<Seq<char>>, sep: Seq<char>) -> Seq<char>
    decreases parts.len(),
{
    if parts.len() == 0 {
        Seq::empty()
    } else if parts.len() == 1 {
        parts[0]
    } else {
        joined(parts.drop_last(), sep) + sep + parts.last()
    }
}

/// Parts that are joined are what the joined text splits into.
pub proof fn lemma_split_joined(parts: Seq<Seq<char>>, sep: char)
    requires
        parts.len() > 0,
        forall|i: int| 0 <= i < parts.len() ==> lacks(#[trigger] parts[i], sep),
    ensures
        split_on(joined(parts, seq![sep]), sep) == parts,
    decreases parts.len(),
{
    let last = parts.last();
    assert(lacks(last, sep));
    if parts.len() == 1 {
        let none = Seq::<char>::empty();
        lemma_split_extend(none, last, sep);
        assert(none + last =~= last);
        assert(split_on(last, sep) =~= parts);
    } else {
        let before = parts.drop_last();
        assert forall|i: int| 0 <= i < before.len() implies lacks(#[trigger] before[i], sep) by {
            assert(before[i] == parts[i]);
        }
        lemma_split_joined(before, sep);
        let a = joined(before, seq![sep]);
        let b = a + seq![sep];
        assert(b.drop_last() =~= a);
        assert(split_on(b, sep) =~= before.push(Seq::<char>::empty()));
        lemma_split_extend(b, last, sep);
        assert(Seq::<char>::empty() + last =~= last);
        assert(split_on(b + last, sep) =~= parts);
    }
}

/// What occurs in none of the parts, nor between them, does not occur in the joined text.
pub proof fn lemma_joined_lacks(parts: Seq<Seq<char>>, sep: char, c: char)
    requires
        c != sep,
        forall|i: int| 0 <= i < parts.len() ==> lacks(#[trigger] parts[i], c),
    ensures
        lacks(joined(parts, seq![sep]), c),
    decreases parts.len(),
{
    if parts.len() > 1 {
        let before = parts.drop_last();
        assert forall|i: int| 0 <= i < before.len() implies lacks(#[trigger] before[i], c) by {
            assert(before[i] == parts[i]);
        }
        lemma_joined_lacks(before, sep, c);
        lemma_lacks(joined(before, seq![sep]), seq![sep], c);
        assert(lacks(parts.last(), c));
        lemma_lacks(joined(before, seq![sep]) + seq![sep], parts.last(), c);
    } else if parts.len() == 1 {
        assert(lacks(parts[0], c));
    }
}

/// Joins the parts with `sep` between them.
pub fn join_with(parts: &Vec<String>, sep: &str) -> (r: String)
    ensures
        r@ == joined(views(parts@), sep@),
{
    let mut out = String::new();
    let mut i: usize = 0;
    while i < parts.len()
        invariant
            i <= parts.len(),
            out@ == joined(views(parts@.take(i as int)), sep@),
        decreases parts.len() - i,
    {
        if i > 0 {
            out.append(sep);
        }
        out.append(parts[i].as_str());
        proof {
            let next = views(parts@.take(i + 1));
            assert(next.drop_last() =~= views(parts@.take(i as int)));
            assert(next.last() == parts@[i as int]@);
            if i == 0 {
                assert(out@ =~= next[0]);
            }
        }
        i += 1;
    }
    assert(parts@.take(parts.len() as int) =~= parts@);
    out
}

/// The length of a text in bytes.
pub open spec fn byte_len(s: Seq<char>) -> nat {
    vstd::utf8::encode_utf8(s).len()
}

/// The length of a text in bytes.
pub fn byte_count(s: &str) -> (r: usize)
    ensures
        r == byte_len(s@),
{
    s.as_bytes().len()
}

/// Copies texts.
pub fn copy_texts(v: &Vec<String>) -> (r: Vec<String>)
    ensures
        views(r@) == views(v@),
{
    let mut out: Vec<String> = Vec::new();
    let mut i: usize = 0;
    while i < v.len()
        invariant
            i <= v.len(),
            out.len() == i,
            forall|k: int| 0 <= k < i ==> (#[trigger] out@[k])@ == v@[k]@,
        decreases v.len() - i,
    {
        out.push(v[i].clone());
        i += 1;
    }
    assert(views(out@) =~= views(v@));
    out
}

/// The place of `name` among `names`, the first one where there are several.
pub open spec fn place_of(names: Seq<Seq<char>>, name: Seq<char>) -> Option<int>
    decreases names.len(),
{
    if names.len() == 0 {
        None
    } else {
        match place_of(names.drop_last(), name) {
            Some(i) => Some(i),
            None => if names.last() == name {
                Some(names.len() - 1)
            } else {
                None
            },
        }
    }
}

/// The reading of a table of names.
pub open spec fn names_of(table: Seq<&'static str>) -> Seq<Seq<char>> {
    table.map_values(|s: &'static str| s@)
}

/// Looks for `name` among `names`.
pub fn place(names: &[&'static str], name: &str) -> (r: Option<usize>)
    ensures
        match r {
            Some(i) => place_of(names_of(names@), name@) == Some(i as int) && i < names.len(),
            None => place_of(names_of(names@), name@) is None,
        },
{
    let mut i: usize = 0;
    let mut found: Option<usize> = None;
    while i < names.len()
        invariant
            i <= names.len(),
            match found {
                Some(k) => place_of(names_of(names@.take(i as int)), name@) == Some(k as int) && k
                    < i,
                None => place_of(names_of(names@.take(i as int)), name@) is None,
            },
        decreases names.len() - i,
    {
        proof {
            let next = names_of(names@.take(i + 1));
            assert(next.drop_last() =~= names_of(names@.take(i as int)));
        }
        if found.is_none() && same(names[i], name) {
            found = Some(i);
        }
        i += 1;
    }
    assert(names@.take(names.len() as int) =~= names@);
    found
}

/// A name that has a place among `names` is one of them, and the converse.
pub proof fn lemma_place(names: Seq<Seq<char>>, name: Seq<char>)
    ensures
        match place_of(names, name) {
            Some(i) => 0 <= i < names.len() && names[i] == name,
            None => !names.contains(name),
        },
    decreases names.len(),
{
    if names.len() > 0 {
        lemma_place(names.drop_last(), name);
        if place_of(names, name) is None {
            assert forall|j: int| 0 <= j < names.len() implies names[j] != name by {
                if j < names.len() - 1 {
                    assert(names.drop_last()[j] == names[j]);
                }
            }
        }
    }
}

// ---------------------------------------------------------------------------
// Decimal numbers
// ---------------------------------------------------------------------------

/// `c` is one of `0` to `9`.
pub open spec fn is_digit(c: char) -> bool {
    '0' <= c <= '9'
}

/// Every character is a digit.
pub open spec fn all_digits(s: Seq<char>) -> bool {
    forall|i: int| 0 <= i < s.len() ==> is_digit(#[trigger] s[i])
}

/// The number that a run of digits denotes.
pub open spec fn decimal_value(s: Seq<char>) -> nat
    decreases s.len(),
{
    if s.len() == 0 {
        0
    } else {
        decimal_value(s.drop_last()) * 10 + ((s.last() as int - '0' as int) as nat)
    }
}

/// The digits behind an optional plus sign.
pub open spec fn unsigned_digits(s: Seq<char>) -> Seq<char> {
    if s.len() > 0 && s[0] == '+' {
        s.skip(1)
    } else {
        s
    }
}

/// The unsigned number that `s` denotes, if it denotes one of at most `max`.
pub open spec fn unsigned_value(s: Seq<char>, max: nat) -> Option<nat> {
    let d = unsigned_digits(s);
    if d.len() > 0 && all_digits(d) && decimal_value(d) <= max {
        Some(decimal_value(d))
    } else {
        None
    }
}

/// Reads an unsigned decimal number of at most `max`.
pub fn parse_unsigned(s: &str, max: u64) -> (r: Option<u64>)
    ensures
        match r {
            Some(n) => unsigned_value(s@, max as nat) == Some(n as nat),
            None => unsigned_value(s@, max as nat) is None,
        },
{
    let v = chars_of(s);
    let start: usize = if v.len() > 0 && v[0] == '+' {
        1
    } else {
        0
    };
    let ghost d = unsigned_digits(s@);
    assert(d =~= v@.skip(start as int));
    if start == v.len() {
        return None;
    }
    let mut n: u64 = 0;
    let mut i: usize = start;
    let mut over = false;
    assert(d.take(0) =~= Seq::<char>::empty());
    while i < v.len()
        invariant
            start <= i <= v.len(),
            v@ == s@,
            d == v@.skip(start as int),
            d == unsigned_digits(s@),
            forall|j: int| 0 <= j < i - start ==> is_digit(#[trigger] d[j]),
            !over ==> n == decimal_value(d.take(i - start)) && n <= max,
            over ==> decimal_value(d.take(i - start)) > max,
        decreases v.len() - i,
    {
        let c = v[i];
        proof {
            assert(d[i - start] == c);
            assert(d.take(i - start + 1).drop_last() =~= d.take(i - start));
        }
        if !('0' <= c && c <= '9') {
            return None;
        }
        if !over {
            let digit: u64 = (c as u32 - '0' as u32) as u64;
            let wide: u128 = n as u128 * 10 + digit as u128;
            if wide > max as u128 {
                over = true;
            } else {
                n = wide as u64;
            }
        }
        i += 1;
    }
    assert(d.take(d.len() as int) =~= d);
    if over {
        None
    } else {
        Some(n)
    }
}

/// Reads an unsigned 64-bit decimal number.
pub fn parse_u64(s: &str) -> (r: Option<u64>)
    ensures
        match r {
            Some(n) => unsigned_value(s@, u64::MAX as nat) == Some(n as nat),
            None => unsigned_value(s@, u64::MAX as nat) is None,
        },
{
    parse_unsigned(s, u64::MAX)
}

/// Reads an unsigned 32-bit decimal number.
pub fn parse_u32(s: &str) -> (r: Option<u32>)
    ensures
        match r {
            Some(n) => unsigned_value(s@, u32::MAX as nat) == Some(n as nat),
            None => unsigned_value(s@, u32::MAX as nat) is None,
        },
{
    match parse_unsigned(s, u32::MAX as u64) {
        Some(n) => Some(n as u32),
        None => None,
    }
}

/// The digit for `d`.
pub open spec fn digit_char(d: nat) -> char {
    ('0' as int + d) as char
}

/// `n` in decimal, without leading zeros.
pub open spec fn decimal_text(n: nat) -> Seq<char>
    decreases n,
{
    if n < 10 {
        seq![digit_char(n)]
    } else {
        decimal_text(n / 10).push(digit_char(n % 10))
    }
}

/// `i` in decimal, with a minus sign in front of a negative number.
pub open spec fn signed_text(i: int) -> Seq<char> {
    if i < 0 {
        seq!['-'] + decimal_text((-i) as nat)
    } else {
        decimal_text(i as nat)
    }
}

/// Appends `n` in decimal.
pub fn push_decimal(out: &mut String, n: u64)
    ensures
        final(out)@ == old(out)@ + decimal_text(n as nat),
    decreases n,
{
    if n >= 10 {
        push_decimal(out, n / 10);
    }
    let d: u8 = (n % 10) as u8;
    let c: char = (48u8 + d) as char;
    assert(c == digit_char((n % 10) as nat));
    out.push(c);
    proof {
        if n < 10 {
            assert(old(out)@.push(c) =~= old(out)@ + seq![c]);
        } else {
            assert((old(out)@ + decimal_text((n / 10) as nat)).push(c) =~= old(out)@
                + decimal_text((n / 10) as nat).push(c));
        }
    }
}

/// `n` in decimal.
pub fn u64_text(n: u64) -> (r: String)
    ensures
        r@ == decimal_text(n as nat),
{
    let mut out = String::new();
    push_decimal(&mut out, n);
    assert(out@ =~= decimal_text(n as nat));
    out
}

/// `i` in decimal.
pub fn i64_text(i: i64) -> (r: String)
    ensures
        r@ == signed_text(i as int),
{
    let mut out = String::new();
    if i < 0 {
        let m: u64 = (-(i + 1)) as u64 + 1;
        out.push('-');
        assert(out@ =~= seq!['-']);
        push_decimal(&mut out, m);
    } else {
        push_decimal(&mut out, i as u64);
        assert(out@ =~= decimal_text(i as nat));
    }
    out
}

/// The signed 64-bit number that `s` stands for.
pub open spec fn signed_value(s: Seq<char>) -> Option<int> {
    if s.len() > 0 && s[0] == '-' {
        let d = s.skip(1);
        if d.len() > 0 && all_digits(d) && decimal_value(d) <= 0x8000_0000_0000_0000 {
            Some(-(decimal_value(d) as int))
        } else {
            None
        }
    } else {
        match unsigned_value(s, i64::MAX as nat) {
            Some(n) => Some(n as int),
            None => None,
        }
    }
}

/// Reads a signed 64-bit decimal number.
pub fn parse_i64(s: &str) -> (r: Option<i64>)
    ensures
        match r {
            Some(i) => signed_value(s@) == Some(i as int),
            None => signed_value(s@) is None,
        },
{
    let v = chars_of(s);
    if v.len() > 0 && v[0] == '-' {
        let rest = string_range(&v, 1, v.len());
        assert(rest@ =~= s@.skip(1));
        if v.len() > 1 && v[1] == '+' {
            assert(!is_digit(s@.skip(1)[0]));
            return None;
        }
        proof {
            if v.len() > 1 {
                assert(rest@[0] == v@[1]);
            }
            assert(unsigned_digits(rest@) == rest@);
        }
        match parse_unsigned(rest.as_str(), 0x8000_0000_0000_0000) {
            None => None,
            Some(n) => if n == 0x8000_0000_0000_0000 {
                Some(i64::MIN)
            } else {
                Some(-(n as i64))
            },
        }
    } else {
        match parse_unsigned(s, i64::MAX as u64) {
            None => None,
            Some(n) => Some(n as i64),
        }
    }
}

/// Writing a number in decimal and reading it back gives the number.
pub proof fn law_decimal_round_trip(n: nat)
    ensures
        decimal_text(n).len() > 0,
        all_digits(decimal_text(n)),
        decimal_value(decimal_text(n)) == n,
        forall|max: nat| n <= max ==> #[trigger] unsigned_value(decimal_text(n), max) == Some(n),
    decreases n,
{
    let t = decimal_text(n);
    if n < 10 {
        assert(t.drop_last() =~= Seq::<char>::empty());
        assert(decimal_value(t.drop_last()) == 0);
    } else {
        law_decimal_round_trip(n / 10);
        assert(t.drop_last() =~= decimal_text(n / 10));
    }
    assert(is_digit(t[0]));
    assert(unsigned_digits(t) == t);
}

/// A number has no white space around it.
pub proof fn lemma_trimmed_number(n: nat)
    ensures
        trim_of(decimal_text(n)) == decimal_text(n),
        trim_of(decimal_text(n).push('\n')) == decimal_text(n),
{
    law_decimal_round_trip(n);
    let t = decimal_text(n);
    assert(is_digit(t[0]) && is_digit(t.last()));
    assert(t.push('\n').drop_last() =~= t);
    reveal_with_fuel(trim_end_of, 2);
    reveal_with_fuel(trim_start_of, 2);
    assert(t.push('\n')[0] == t[0]);
}

} // verus!
