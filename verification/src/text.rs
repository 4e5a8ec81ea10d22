//! Lines and their words as sequences of characters.

use vstd::prelude::*;

verus! {

/// `String::push` appends one character to the end of the string.
pub assume_specification[ String::push ](s: &mut String, c: char)
    ensures
        final(s)@ == old(s)@.push(c),
;

/// The characters of `s`, in order.
pub fn chars_of(s: &str) -> (v: Vec<char>)
    ensures
        v@ == s@,
{
    let mut v: Vec<char> = Vec::new();
    for c in it: s.chars()
        invariant
            v@ == it.seq().take(it.index() as int),
            it.seq() == s@,
    {
        v.push(c);
    }
    v
}

/// The string made of the characters `v`, in order.
pub fn string_of(v: &Vec<char>) -> (s: String)
    ensures
        s@ == v@,
{
    let mut s = String::new();
    let mut i: usize = 0;
    while i < v.len()
        invariant
            i <= v.len(),
            s@ == v@.take(i as int),
        decreases v.len() - i,
    {
        s.push(v[i]);
        i += 1;
    }
    s
}

/// The characters of a string that may be absent.
pub open spec fn text_view(o: Option<String>) -> Option<Seq<char>> {
    match o {
        Some(s) => Some(s@),
        None => None,
    }
}

/// Whether `c` is ASCII whitespace: space, tab, line feed, form feed or
/// carriage return.
pub open spec fn is_space(c: char) -> bool {
    c == ' ' || c == '\t' || c == '\n' || c == '\x0C' || c == '\r'
}

/// Whether `c` is ASCII whitespace.
pub fn is_space_char(c: char) -> (b: bool)
    ensures
        b == is_space(c),
{
    c == ' ' || c == '\t' || c == '\n' || c == '\x0C' || c == '\r'
}

/// A word that is being read, as a list of finished words: none while the
/// word is still empty.
pub open spec fn finished(cur: Seq<char>) -> Seq<Seq<char>> {
    if cur.len() == 0 {
        Seq::empty()
    } else {
        seq![cur]
    }
}

/// The words of `s` when the characters `cur` of a word have already been
/// read in front of it.
pub open spec fn words_from(s: Seq<char>, cur: Seq<char>) -> Seq<Seq<char>>
    decreases s.len(),
{
    if s.len() == 0 {
        finished(cur)
    } else if is_space(s[0]) {
        finished(cur) + words_from(s.drop_first(), Seq::empty())
    } else {
        words_from(s.drop_first(), cur.push(s[0]))
    }
}

/// The maximal runs of characters of `s` that hold no ASCII whitespace, in
/// order. No word is empty.
pub open spec fn words(s: Seq<char>) -> Seq<Seq<char>> {
    words_from(s, Seq::empty())
}

/// The views of a list of words.
pub open spec fn word_views(v: Seq<Vec<char>>) -> Seq<Seq<char>> {
    v.map_values(|w: Vec<char>| w@)
}

/// Splits a line at ASCII whitespace.
pub fn split_words(line: &Vec<char>) -> (out: Vec<Vec<char>>)
    ensures
        word_views(out@) == words(line@),
{
    let mut out: Vec<Vec<char>> = Vec::new();
    let mut cur: Vec<char> = Vec::new();
    let mut i: usize = 0;
    proof {
        assert(line@.skip(0) =~= line@);
    }
    while i < line.len()
        invariant
            i <= line.len(),
            words(line@) == word_views(out@) + words_from(line@.skip(i as int), cur@),
        decreases line.len() - i,
    {
        let c = line[i];
        let ghost rest = line@.skip(i as int);
        proof {
            assert(rest.drop_first() =~= line@.skip(i as int + 1));
        }
        if is_space_char(c) {
            if cur.len() > 0 {
                out.push(cur);
                cur = Vec::new();
            } else {
                proof {
                    assert(cur@ =~= Seq::<char>::empty());
                }
            }
        } else {
            cur.push(c);
        }
        i += 1;
    }
    if cur.len() > 0 {
        out.push(cur);
    }
    out
}

/// The words `ws` with one space between each two neighbours.
pub open spec fn join(ws: Seq<Seq<char>>) -> Seq<char>
    decreases ws.len(),
{
    if ws.len() == 0 {
        Seq::empty()
    } else if ws.len() == 1 {
        ws[0]
    } else {
        ws[0] + seq![' '] + join(ws.drop_first())
    }
}

/// The words `ws` as one line: separated by single spaces and ended by a
/// line feed.
pub open spec fn line_of(ws: Seq<Seq<char>>) -> Seq<char> {
    join(ws) + seq!['\n']
}

/// Whether `w` can stand as a word of a line: it is not empty and holds no
/// whitespace.
pub open spec fn is_word(w: Seq<char>) -> bool {
    w.len() > 0 && forall|i: int| 0 <= i < w.len() ==> !is_space(#[trigger] w[i])
}

/// Whether each of `ws` can stand as a word of a line.
pub open spec fn all_words(ws: Seq<Seq<char>>) -> bool {
    forall|i: int| 0 <= i < ws.len() ==> is_word(#[trigger] ws[i])
}

/// Joining one more word to a list puts a space and the word behind the
/// joined list.
pub proof fn lemma_join_push(ws: Seq<Seq<char>>, w: Seq<char>)
    ensures
        join(ws.push(w)) == (if ws.len() == 0 {
            w
        } else {
            join(ws) + seq![' '] + w
        }),
    decreases ws.len(),
{
    if ws.len() == 1 {
        assert(ws.push(w).drop_first() =~= seq![w]);
        assert(join(seq![w]) == w);
    } else if ws.len() > 1 {
        lemma_join_push(ws.drop_first(), w);
        assert(ws.push(w).drop_first() =~= ws.drop_first().push(w));
    }
}

/// Reading on through characters that are no whitespace only lengthens the
/// word that is being read.
pub proof fn lemma_words_from_word(a: Seq<char>, rest: Seq<char>, cur: Seq<char>)
    requires
        forall|i: int| 0 <= i < a.len() ==> !is_space(#[trigger] a[i]),
    ensures
        words_from(a + rest, cur) == words_from(rest, cur + a),
    decreases a.len(),
{
    if a.len() > 0 {
        let s = a + rest;
        assert(s.drop_first() =~= a.drop_first() + rest);
        lemma_words_from_word(a.drop_first(), rest, cur.push(a[0]));
        assert(cur.push(a[0]) + a.drop_first() =~= cur + a);
    }
}

/// Splitting a line that was joined from words gives those words back.
pub proof fn lemma_words_of_line(ws: Seq<Seq<char>>)
    requires
        all_words(ws),
    ensures
        words(line_of(ws)) == ws,
    decreases ws.len(),
{
    let nl = seq!['\n'];
    if ws.len() == 0 {
        assert(words_from(nl.drop_first(), Seq::empty()) =~= Seq::<Seq<char>>::empty());
    } else if ws.len() == 1 {
        let w = ws[0];
        lemma_words_from_word(w, nl, Seq::empty());
        assert(words_from(nl.drop_first(), Seq::empty()) =~= Seq::<Seq<char>>::empty());
    } else {
        let w = ws[0];
        let rest = ws.drop_first();
        let tail = seq![' '] + line_of(rest);
        assert(line_of(ws) =~= w + tail);
        lemma_words_from_word(w, tail, Seq::empty());
        assert(tail.drop_first() =~= line_of(rest));
        assert(all_words(rest));
        lemma_words_of_line(rest);
    }
}

/// Appends the characters of `text` to `out`.
pub fn push_str(out: &mut Vec<char>, text: &str)
    ensures
        final(out)@ == old(out)@ + text@,
{
    let chars = chars_of(text);
    push_chars(out, &chars);
}

/// Appends the characters `chars` to `out`.
pub fn push_chars(out: &mut Vec<char>, chars: &Vec<char>)
    ensures
        final(out)@ == old(out)@ + chars@,
{
    let mut i: usize = 0;
    while i < chars.len()
        invariant
            i <= chars.len(),
            out@ == old(out)@ + chars@.take(i as int),
        decreases chars.len() - i,
    {
        out.push(chars[i]);
        i += 1;
    }
}

/// Whether the characters `w` spell `text`.
pub fn is_text(w: &Vec<char>, text: &str) -> (b: bool)
    ensures
        b == (w@ == text@),
{
    let chars = chars_of(text);
    same_chars(w, &chars)
}

/// Whether two character lists are equal.
pub fn same_chars(a: &Vec<char>, b: &Vec<char>) -> (eq: bool)
    ensures
        eq == (a@ == b@),
{
    if a.len() != b.len() {
        return false;
    }
    let mut i: usize = 0;
    while i < a.len()
        invariant
            i <= a.len(),
            a.len() == b.len(),
            a@.take(i as int) == b@.take(i as int),
        decreases a.len() - i,
    {
        if a[i] != b[i] {
            return false;
        }
        i += 1;
    }
    proof {
        assert(a@.take(i as int) =~= a@);
        assert(b@.take(i as int) =~= b@);
    }
    true
}

/// Joins words into one line: single spaces between them, a line feed at
/// the end.
pub fn join_line(ws: &Vec<Vec<char>>) -> (out: Vec<char>)
    ensures
        out@ == line_of(word_views(ws@)),
{
    let mut out: Vec<char> = Vec::new();
    let mut i: usize = 0;
    let ghost views = word_views(ws@);
    while i < ws.len()
        invariant
            i <= ws.len(),
            views == word_views(ws@),
            out@ == join(views.take(i as int)),
        decreases ws.len() - i,
    {
        proof {
            lemma_join_push(views.take(i as int), views[i as int]);
            assert(views.take(i as int).push(views[i as int]) =~= views.take(i + 1));
        }
        if i > 0 {
            out.push(' ');
        }
        push_chars(&mut out, &ws[i]);
        i += 1;
    }
    proof {
        assert(views.take(i as int) =~= views);
    }
    out.push('\n');
    out
}

/// Appends one word to a list of words.
pub fn push_word(ws: &mut Vec<Vec<char>>, w: Vec<char>)
    ensures
        word_views(final(ws)@) == word_views(old(ws)@).push(w@),
{
    ws.push(w);
}

/// Whether `pattern` stands in `s` at position `at`.
pub open spec fn found_at(s: Seq<char>, pattern: Seq<char>, at: int) -> bool {
    0 <= at && at + pattern.len() <= s.len() && s.subrange(at, at + pattern.len()) == pattern
}

/// Whether `pattern` stands somewhere in `s`.
pub open spec fn contains_text(s: Seq<char>, pattern: Seq<char>) -> bool {
    exists|at: int| found_at(s, pattern, at)
}

/// Whether `pattern` stands in `s` at position `at`.
pub fn is_found_at(s: &Vec<char>, pattern: &Vec<char>, at: usize) -> (b: bool)
    ensures
        b == found_at(s@, pattern@, at as int),
{
    if at > s.len() || pattern.len() > s.len() - at {
        return false;
    }
    let ghost part = s@.subrange(at as int, at + pattern.len());
    let mut i: usize = 0;
    while i < pattern.len()
        invariant
            i <= pattern.len(),
            at + pattern.len() <= s.len(),
            part == s@.subrange(at as int, at + pattern.len()),
            part.take(i as int) == pattern@.take(i as int),
        decreases pattern.len() - i,
    {
        if s[at + i] != pattern[i] {
            return false;
        }
        i += 1;
    }
    proof {
        assert(part.take(i as int) =~= part);
        assert(pattern@.take(i as int) =~= pattern@);
    }
    true
}

/// Whether `s` starts with `prefix`.
pub fn starts_with(s: &Vec<char>, prefix: &str) -> (b: bool)
    ensures
        b == found_at(s@, prefix@, 0),
{
    let pattern = chars_of(prefix);
    is_found_at(s, &pattern, 0)
}

/// Whether `pattern` stands somewhere in `s`.
pub fn contains(s: &Vec<char>, pattern: &str) -> (b: bool)
    ensures
        b == contains_text(s@, pattern@),
{
    let wanted = chars_of(pattern);
    let mut at: usize = 0;
    while at < s.len()
        invariant
            at <= s.len(),
            wanted@ == pattern@,
            forall|k: int| 0 <= k < at ==> !found_at(s@, pattern@, k),
        decreases s.len() - at,
    {
        if is_found_at(s, &wanted, at) {
            return true;
        }
        at += 1;
    }
    is_found_at(s, &wanted, at)
}

/// The part of `s` from position `from` on.
pub fn tail_of(s: &Vec<char>, from: usize) -> (t: Vec<char>)
    requires
        from <= s.len(),
    ensures
        t@ == s@.skip(from as int),
{
    let mut t: Vec<char> = Vec::new();
    let mut i: usize = from;
    while i < s.len()
        invariant
            from <= i <= s.len(),
            t@ == s@.subrange(from as int, i as int),
        decreases s.len() - i,
    {
        t.push(s[i]);
        i += 1;
    }
    t
}

/// Joins words into one line and gives it as a string.
pub fn line_string(ws: &Vec<Vec<char>>) -> (s: String)
    ensures
        s@ == line_of(word_views(ws@)),
{
    string_of(&join_line(ws))
}

} // verus!
