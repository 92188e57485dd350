//! What cutting, trimming, reading and writing texts comes to.

use vstd::prelude::*;

use crate::text;

verus! {

/// All characters are white space.
pub open spec fn is_blank(s: Seq<char>) -> bool {
    forall|i: int| 0 <= i < s.len() ==> text::is_space(#[trigger] s[i])
}

/// White space are the blank, the characters that end lines, and their like; letters, digits
/// and marks are not. There are just the characters with that property in Unicode.
pub proof fn law_white_space(c: char)
    ensures
        text::is_space(' ') && text::is_space('\n') && text::is_space('\r') && text::is_space('\t'),
        '!' <= c <= '~' ==> !text::is_space(c),
        '\u{4e00}' <= c ==> !text::is_space(c),
        text::is_space(c) <==> {
            let n = c as int;
            n == 32 || 9 <= n < 14 || n == 133 || n == 160 || n == 5760 || 8192 <= n < 8203 || n
                == 8232 || n == 8233 || n == 8239 || n == 8287 || n == 12288
        },
{
}

/// Trimming takes away all white space at both ends, and nothing else.
pub proof fn law_trimming(before: Seq<char>, core: Seq<char>, after: Seq<char>)
    requires
        is_blank(before),
        is_blank(after),
        core.len() > 0,
        !text::is_space(core[0]),
        !text::is_space(core.last()),
    ensures
        text::trim_of(before + core + after) == core,
        text::trim_start_of(before + core + after) == core + after,
        text::trim_end_of(before + core + after) == before + core,
        text::trim_of(before).len() == 0,
{
    lemma_trim_start(before, core + after);
    assert(before + core + after =~= before + (core + after));
    lemma_trim_end(core, after);
    lemma_trim_end(before + core, after);
    let none = Seq::<char>::empty();
    lemma_trim_start(before, none);
    assert(before + none =~= before);
}

/// White space in front goes.
proof fn lemma_trim_start(before: Seq<char>, rest: Seq<char>)
    requires
        is_blank(before),
        rest.len() > 0 ==> !text::is_space(rest[0]),
    ensures
        text::trim_start_of(before + rest) == rest,
    decreases before.len(),
{
    let s = before + rest;
    if before.len() == 0 {
        assert(s =~= rest);
    } else {
        assert(s[0] == before[0]);
        assert(s.skip(1) =~= before.skip(1) + rest);
        assert forall|i: int| 0 <= i < before.skip(1).len() implies text::is_space(
            #[trigger] before.skip(1)[i],
        ) by {
            assert(before.skip(1)[i] == before[i + 1]);
        }
        lemma_trim_start(before.skip(1), rest);
    }
}

/// White space at the end goes.
proof fn lemma_trim_end(rest: Seq<char>, after: Seq<char>)
    requires
        is_blank(after),
        rest.len() > 0 ==> !text::is_space(rest.last()),
    ensures
        text::trim_end_of(rest + after) == rest,
    decreases after.len(),
{
    let s = rest + after;
    if after.len() == 0 {
        assert(s =~= rest);
    } else {
        assert(s.last() == after[after.len() - 1]);
        assert(s.drop_last() =~= rest + after.drop_last());
        assert forall|i: int| 0 <= i < after.drop_last().len() implies text::is_space(
            #[trigger] after.drop_last()[i],
        ) by {
            assert(after.drop_last()[i] == after[i]);
        }
        lemma_trim_end(rest, after.drop_last());
    }
}

/// Words with blanks between them are read as those words, all of them and in their order.
pub proof fn law_words_are_all_read(words: Seq<Seq<char>>)
    requires
        forall|i: int| 0 <= i < words.len() ==> text::is_word(#[trigger] words[i]),
    ensures
        text::words_of(text::joined(words, seq![' '])) == words,
    decreases words.len(),
{
    if words.len() == 0 {
        assert(words =~= Seq::<Seq<char>>::empty());
    } else if words.len() == 1 {
        let none = Seq::<char>::empty();
        assert(text::is_word(words[0]));
        text::lemma_words_push(none, words[0]);
        assert(none + words[0] =~= words[0]);
        assert(words =~= Seq::<Seq<char>>::empty().push(words[0]));
        reveal_with_fuel(text::joined, 2);
    } else {
        let before = words.drop_last();
        assert forall|i: int| 0 <= i < before.len() implies text::is_word(#[trigger] before[i]) by {
            assert(before[i] == words[i]);
        }
        law_words_are_all_read(before);
        let head = text::joined(before, seq![' ']);
        let last = words[words.len() - 1];
        assert(text::is_word(last));
        text::lemma_words_space(head);
        assert(head + seq![' '] =~= head.push(' '));
        text::lemma_words_push(head.push(' '), last);
        assert(words =~= before.push(last));
    }
}

/// A list of texts is split at the separators between them.
pub proof fn law_lists_are_split(parts: Seq<Seq<char>>, sep: char)
    requires
        parts.len() > 0,
        forall|i: int| 0 <= i < parts.len() ==> text::lacks(#[trigger] parts[i], sep),
    ensures
        text::split_on(text::joined(parts, seq![sep]), sep) == parts,
{
    text::lemma_split_joined(parts, sep);
}

/// Lines are read as they are, whether or not the last one is ended.
pub proof fn law_lines_are_all_read(lines: Seq<Seq<char>>)
    requires
        lines.len() > 0,
        lines.last().len() > 0,
        forall|i: int|
            0 <= i < lines.len() ==> text::lacks(#[trigger] lines[i], '\n') && (lines[i].len() > 0
                ==> lines[i].last() != '\r'),
    ensures
        text::lines_of(text::joined(lines, seq!['\n'])) == lines,
        text::lines_of(text::joined(lines, seq!['\n']).push('\n')) == lines,
{
    text::lemma_split_joined(lines, '\n');
    let whole = text::joined(lines, seq!['\n']);
    let f = |l: Seq<char>| text::strip_cr(l);
    assert forall|i: int| 0 <= i < lines.len() implies text::strip_cr(lines[i]) == #[trigger] lines[i] by {
        assert(text::lacks(lines[i], '\n'));
    }
    assert(lines.drop_last().map_values(f) =~= lines.drop_last());
    assert(lines =~= lines.drop_last().push(lines.last()));
    let parts = text::split_on(whole.push('\n'), '\n');
    assert(whole.push('\n').drop_last() =~= whole);
    assert(parts =~= lines.push(Seq::<char>::empty()));
    assert(parts.drop_last() =~= lines);
    assert(parts.drop_last().map_values(f) =~= lines);
}

/// A line that ends in a carriage return and a line feed is read without both.
pub proof fn law_carriage_returns_end_lines(line: Seq<char>)
    requires
        text::lacks(line, '\n'),
        line.len() > 0 ==> line.last() != '\r',
    ensures
        text::lines_of(line.push('\r').push('\n')) == seq![line],
        text::lines_of(line.push('\n')) == seq![line],
        text::lines_of(Seq::empty()).len() == 0,
{
    let f = |l: Seq<char>| text::strip_cr(l);
    let none = Seq::<char>::empty();
    lemma_one_part(line);
    lemma_one_part(line.push('\r'));
    let a = line.push('\n');
    assert(a.drop_last() =~= line);
    assert(text::split_on(a, '\n') =~= seq![line, none]);
    assert(text::split_on(a, '\n').drop_last() =~= seq![line]);
    assert(seq![line].map_values(f) =~= seq![line]);
    let b = line.push('\r').push('\n');
    assert(b.drop_last() =~= line.push('\r'));
    assert(text::split_on(b, '\n') =~= seq![line.push('\r'), none]);
    assert(text::split_on(b, '\n').drop_last() =~= seq![line.push('\r')]);
    assert(line.push('\r').drop_last() =~= line);
    assert(seq![line.push('\r')].map_values(f) =~= seq![line]);
    lemma_one_part(none);
    assert(seq![none].drop_last().map_values(f) =~= Seq::<Seq<char>>::empty());
}

/// A text without line feeds is one part.
proof fn lemma_one_part(s: Seq<char>)
    requires
        text::lacks(s, '\n'),
    ensures
        text::split_on(s, '\n') == seq![s],
    decreases s.len(),
{
    if s.len() > 0 {
        assert(s.last() == s[s.len() - 1]);
        lemma_one_part(s.drop_last());
        assert(s =~= s.drop_last().push(s.last()));
        assert(text::split_on(s, '\n') =~= seq![s]);
    } else {
        assert(s =~= Seq::<char>::empty());
    }
}

/// Numbers are written in decimal, their first digit first and without zeros in front.
pub proof fn law_decimal_digits(n: nat, d: nat)
    requires
        d < 10,
    ensures
        text::decimal_text(d) == seq![('0' as int + d) as char],
        n > 0 ==> text::decimal_text(n * 10 + d) == text::decimal_text(n).push(
            ('0' as int + d) as char,
        ),
        n > 0 ==> text::decimal_text(n)[0] != '0',
    decreases n,
{
    if n > 0 {
        assert((n * 10 + d) / 10 == n);
        assert((n * 10 + d) % 10 == d);
        if n >= 10 {
            law_decimal_digits(n / 10, n % 10);
            text::law_decimal_round_trip(n / 10);
        }
    }
}

/// A text is read as a number just where it is one of at most the limit: digits, behind a
/// plus sign or not.
pub proof fn law_numbers_in_texts(t: Seq<char>, n: nat, max: nat)
    ensures
        n <= max ==> text::unsigned_value(text::decimal_text(n), max) == Some(n),
        n <= max ==> text::unsigned_value(seq!['+'] + text::decimal_text(n), max) == Some(n),
        n > max ==> text::unsigned_value(text::decimal_text(n), max) is None,
        t.len() == 0 ==> text::unsigned_value(t, max) is None,
        t.len() > 0 && !text::is_digit(t.last()) ==> text::unsigned_value(t, max) is None,
        text::unsigned_value(t, max) matches Some(v) ==> v <= max,
{
    text::law_decimal_round_trip(n);
    let v = text::decimal_text(n);
    assert((seq!['+'] + v).skip(1) =~= v);
    assert(text::is_digit(v[0]));
    if t.len() > 0 && !text::is_digit(t.last()) {
        let d = text::unsigned_digits(t);
        if d.len() > 0 {
            assert(d[d.len() - 1] == t.last());
        }
    }
}

/// Numbers with a sign are read as they are written.
pub proof fn law_signed_numbers(i: int)
    requires
        i64::MIN <= i <= i64::MAX,
    ensures
        text::signed_value(text::signed_text(i)) == Some(i),
        i < 0 ==> text::signed_text(i) == seq!['-'] + text::decimal_text((-i) as nat),
        i >= 0 ==> text::signed_text(i) == text::decimal_text(i as nat),
{
    if i < 0 {
        text::law_decimal_round_trip((-i) as nat);
        let v = text::decimal_text((-i) as nat);
        assert((seq!['-'] + v).skip(1) =~= v);
    } else {
        text::law_decimal_round_trip(i as nat);
        assert(text::is_digit(text::decimal_text(i as nat)[0]));
    }
}

/// Letters change their case, and nothing else does.
pub proof fn law_cases(s: Seq<char>, i: int)
    requires
        0 <= i < s.len(),
    ensures
        text::lower(s).len() == s.len(),
        text::upper(s).len() == s.len(),
        'A' <= s[i] <= 'Z' ==> text::lower(s)[i] as int == s[i] as int - 'A' as int + 'a' as int,
        'a' <= s[i] <= 'z' ==> text::upper(s)[i] as int == s[i] as int - 'a' as int + 'A' as int,
        !('A' <= s[i] <= 'Z') ==> text::lower(s)[i] == s[i],
        !('a' <= s[i] <= 'z') ==> text::upper(s)[i] == s[i],
        text::lower(text::lower(s)) == text::lower(s),
{
    assert(text::lower(text::lower(s)) =~= text::lower(s));
}

/// Texts are in the order of their characters; a text comes before the longer ones that begin
/// with it.
pub proof fn law_order_of_texts(a: Seq<char>, c: char, d: char, x: Seq<char>, y: Seq<char>)
    requires
        c < d,
    ensures
        text::text_less(a + seq![c] + x, a + seq![d] + y),
        text::text_less(a, a + seq![c]),
        !text::text_less(a, a),
    decreases a.len(),
{
    text::lemma_text_order(a, a, a);
    let s = a + seq![c] + x;
    let t = a + seq![d] + y;
    let u = a + seq![c];
    if a.len() == 0 {
        assert(s[0] == c && t[0] == d);
    } else {
        law_order_of_texts(a.skip(1), c, d, x, y);
        assert(s[0] == a[0] && t[0] == a[0] && u[0] == a[0]);
        assert(s.skip(1) =~= a.skip(1) + seq![c] + x);
        assert(t.skip(1) =~= a.skip(1) + seq![d] + y);
        assert(u.skip(1) =~= a.skip(1) + seq![c]);
    }
}

/// What stands behind a prefix is what follows it.
pub proof fn law_prefixes(p: Seq<char>, s: Seq<char>)
    ensures
        text::after_prefix(p + s, p) == Some(s),
        text::after_prefix(s, p) matches Some(rest) ==> s == p + rest,
{
    assert((p + s).take(p.len() as int) =~= p);
    assert((p + s).skip(p.len() as int) =~= s);
    if text::has_prefix(s, p) {
        assert(s =~= s.take(p.len() as int) + s.skip(p.len() as int));
    }
}

/// Replacing a character replaces it everywhere, and nothing else.
pub proof fn law_replacing(s: Seq<char>, from: char, to: char, i: int)
    requires
        0 <= i < s.len(),
    ensures
        text::replaced(s, from, to).len() == s.len(),
        s[i] == from ==> text::replaced(s, from, to)[i] == to,
        s[i] != from ==> text::replaced(s, from, to)[i] == s[i],
{
}

/// All of one character at an end goes.
pub proof fn law_trimming_a_character(s: Seq<char>, c: char)
    requires
        s.len() > 0,
        s[0] != c,
        s.last() != c,
    ensures
        text::trim_end_char_of(s.push(c), c) == s,
        text::trim_end_char_of(s, c) == s,
        text::trim_start_char_of(seq![c] + s, c) == s,
        text::trim_start_char_of(s, c) == s,
{
    assert(s.push(c).drop_last() =~= s);
    assert((seq![c] + s).skip(1) =~= s);
    reveal_with_fuel(text::trim_end_char_of, 3);
    reveal_with_fuel(text::trim_start_char_of, 3);
    assert((seq![c] + s)[0] == c);
}

/// Texts in a list are read one by one.
pub proof fn law_lists_of_texts(v: Seq<String>, n: Seq<&'static str>, i: int)
    ensures
        text::views(v).len() == v.len(),
        0 <= i < v.len() ==> text::views(v)[i] == v[i]@,
        text::names_of(n).len() == n.len(),
        0 <= i < n.len() ==> text::names_of(n)[i] == n[i]@,
{
}

/// An optional text is there just where it is, and is that text.
pub proof fn law_optional_texts(s: Option<String>, t: Option<&str>)
    ensures
        text::optional_string(s) is Some <==> s is Some,
        s matches Some(x) ==> text::optional_string(s) == Some(x@),
        text::optional(t) is Some <==> t is Some,
        t matches Some(x) ==> text::optional(t) == Some(x@),
{
}

} // verus!
