//! Operations on text, stated over sequences of characters.

use vstd::prelude::*;
use vstd::string::*;

verus! {

/// The characters that separate words: space, tab, line feed, form feed and
/// carriage return.
pub open spec fn is_separator(c: char) -> bool {
    c == ' ' || c == '\t' || c == '\n' || c == '\x0C' || c == '\r'
}

/// The number of characters before the first separator.
pub open spec fn word_len(s: Seq<char>) -> nat
    decreases s.len(),
{
    if s.len() == 0 || is_separator(s[0]) {
        0
    } else {
        1 + word_len(s.skip(1))
    }
}

/// The maximal runs of non-separators, in order.
pub open spec fn words(s: Seq<char>) -> Seq<Seq<char>>
    decreases s.len(),
{
    if s.len() == 0 {
        Seq::empty()
    } else if is_separator(s[0]) {
        words(s.skip(1))
    } else {
        let n = word_len(s) as int;
        if 0 < n <= s.len() {
            seq![s.take(n)] + words(s.skip(n))
        } else {
            Seq::empty()
        }
    }
}

/// The text of each string of a list.
pub open spec fn texts(list: Seq<String>) -> Seq<Seq<char>> {
    list.map_values(|s: String| s@)
}

proof fn lemma_word_len_of_run(run: Seq<char>, rest: Seq<char>)
    requires
        forall|i: int| 0 <= i < run.len() ==> !is_separator(run[i]),
        rest.len() == 0 || is_separator(rest[0]),
    ensures
        word_len(run + rest) == run.len(),
    decreases run.len(),
{
    if run.len() == 0 {
        assert(run + rest =~= rest);
    } else {
        assert((run + rest).skip(1) =~= run.skip(1) + rest);
        lemma_word_len_of_run(run.skip(1), rest);
    }
}

/// A run of non-separators that ends the text or stands before a separator is
/// the first word.
proof fn lemma_first_word(run: Seq<char>, rest: Seq<char>)
    requires
        run.len() > 0,
        forall|i: int| 0 <= i < run.len() ==> !is_separator(run[i]),
        rest.len() == 0 || is_separator(rest[0]),
    ensures
        words(run + rest) == seq![run] + words(rest),
{
    lemma_word_len_of_run(run, rest);
    assert((run + rest).take(run.len() as int) =~= run);
    assert((run + rest).skip(run.len() as int) =~= rest);
    assert(!is_separator((run + rest)[0]));
}

proof fn lemma_word_len(s: Seq<char>)
    ensures
        word_len(s) <= s.len(),
        forall|i: int| 0 <= i < word_len(s) ==> !is_separator(s[i]),
        word_len(s) < s.len() ==> is_separator(s[word_len(s) as int]),
    decreases s.len(),
{
    if s.len() > 0 && !is_separator(s[0]) {
        let t = s.skip(1);
        lemma_word_len(t);
        assert forall|i: int| 0 <= i < word_len(s) implies !is_separator(s[i]) by {
            if i > 0 {
                assert(t[i - 1] == s[i]);
            }
        }
        if word_len(s) < s.len() {
            assert(t[word_len(t) as int] == s[word_len(s) as int]);
        }
    }
}

/// A separator between two texts keeps their words apart.
pub proof fn lemma_words_of_two_texts(a: Seq<char>, sep: char, b: Seq<char>)
    requires
        is_separator(sep),
    ensures
        words(a.push(sep) + b) == words(a) + words(b),
    decreases a.len(),
{
    let s = a.push(sep) + b;
    if a.len() == 0 {
        assert(s.skip(1) =~= b);
        assert(words(a) + words(b) =~= words(b));
    } else if is_separator(a[0]) {
        assert(s.skip(1) =~= a.skip(1).push(sep) + b);
        lemma_words_of_two_texts(a.skip(1), sep, b);
    } else {
        lemma_word_len(a);
        let n = word_len(a) as int;
        let run = a.take(n);
        let rest = a.skip(n);
        assert(a =~= run + rest);
        assert(s =~= run + (rest.push(sep) + b));
        lemma_first_word(run, rest);
        lemma_first_word(run, rest.push(sep) + b);
        lemma_words_of_two_texts(rest, sep, b);
        assert(seq![run] + (words(rest) + words(b)) =~= (seq![run] + words(rest)) + words(b));
    }
}

/// Whether `before` ends where a word can start: it is empty or ends in a separator.
pub open spec fn ends_apart(before: Seq<char>) -> bool {
    before.len() == 0 || is_separator(before.last())
}

/// Whether `after` starts where a word can end: it is empty or starts with a
/// separator.
pub open spec fn starts_apart(after: Seq<char>) -> bool {
    after.len() == 0 || is_separator(after[0])
}

/// A run of non-separators that nothing touches is a word of its own, between the
/// words before it and those after it.
pub proof fn lemma_word_in_between(before: Seq<char>, word: Seq<char>, after: Seq<char>)
    requires
        word.len() > 0,
        forall|i: int| 0 <= i < word.len() ==> !is_separator(word[i]),
        ends_apart(before),
        starts_apart(after),
    ensures
        words(before + word + after) == words(before).push(word) + words(after),
{
    let rest = word + after;
    lemma_first_word(word, after);
    assert(before + word + after =~= before + rest);
    if before.len() == 0 {
        assert(before + rest =~= rest);
        assert(words(before).push(word) + words(after) =~= seq![word] + words(after));
    } else {
        let a = before.drop_last();
        assert(before =~= a.push(before.last()));
        lemma_words_of_two_texts(a, before.last(), rest);
        lemma_words_of_two_texts(a, before.last(), Seq::empty());
        assert(a.push(before.last()) + Seq::<char>::empty() =~= before);
        assert(words(a) + words(Seq::<char>::empty()) =~= words(a));
        assert(words(before) + (seq![word] + words(after)) =~= words(before).push(word) + words(
            after,
        ));
    }
}

/// Words that a text can be made of: none is empty, and none holds a separator.
pub open spec fn are_words(list: Seq<Seq<char>>) -> bool {
    forall|i: int|
        0 <= i < list.len() ==> (#[trigger] list[i]).len() > 0 && forall|j: int|
            0 <= j < list[i].len() ==> !is_separator(#[trigger] list[i][j])
}

/// The words of a list with one space between each two.
pub open spec fn spaced(list: Seq<Seq<char>>) -> Seq<char>
    decreases list.len(),
{
    if list.len() == 0 {
        Seq::empty()
    } else if list.len() == 1 {
        list[0]
    } else {
        spaced(list.drop_last()).push(' ') + list.last()
    }
}

/// A text is split into the words that it was made of, whichever they are and however
/// many.
pub proof fn law_words_of_a_spaced_list(list: Seq<Seq<char>>)
    requires
        are_words(list),
    ensures
        words(spaced(list)) == list,
    decreases list.len(),
{
    if list.len() == 0 {
        assert(list =~= Seq::empty());
    } else {
        let front = list.drop_last();
        let last = list.last();
        assert(list[list.len() - 1] == last);
        assert(are_words(front)) by {
            assert forall|i: int| 0 <= i < front.len() implies (#[trigger] front[i]).len() > 0
                && forall|j: int| 0 <= j < front[i].len() ==> !is_separator(
                #[trigger] front[i][j],
            ) by {
                assert(front[i] == list[i]);
            }
        }
        assert(list =~= front.push(last));
        let none = Seq::<char>::empty();
        if list.len() == 1 {
            lemma_word_in_between(none, last, none);
            assert(none + last + none =~= last);
            assert(words(none).push(last) + words(none) =~= list);
        } else {
            law_words_of_a_spaced_list(front);
            let before = spaced(front).push(' ');
            lemma_words_of_two_texts(spaced(front), ' ', none);
            assert(before + none =~= before);
            assert(words(spaced(front)) + words(none) =~= front);
            lemma_word_in_between(before, last, none);
            assert(before + last + none =~= before + last);
            assert(front.push(last) + words(none) =~= list);
        }
    }
}

/// Words are kept apart by the white space of ASCII and by nothing else: space, tab,
/// line feed, form feed and carriage return.
pub proof fn law_separators(c: char)
    ensures
        is_separator(c) <==> c as u32 == 32 || c as u32 == 9 || c as u32 == 10 || c as u32 == 12
            || c as u32 == 13,
{
}

/// Whether `c` separates words.
fn separates(c: char) -> (r: bool)
    ensures
        r == is_separator(c),
{
    c == ' ' || c == '\t' || c == '\n' || c == '\x0C' || c == '\r'
}

/// The characters of `s`.
fn characters(s: &str) -> (r: Vec<char>)
    ensures
        r@ == s@,
{
    let mut r: Vec<char> = Vec::new();
    for c in it: s.chars()
        invariant
            it.seq() == s@,
            r@ == s@.take(it.index() as int),
    {
        r.push(c);
    }
    r
}

/// `String::push` appends one character.
pub assume_specification[ String::push ](s: &mut String, c: char)
    ensures
        final(s)@ == old(s)@.push(c),
;

/// The words of `s`.
pub(crate) fn split_words(s: &str) -> (r: Vec<String>)
    ensures
        texts(r@) == words(s@),
{
    let chars = characters(s);
    let mut r: Vec<String> = Vec::new();
    let mut word = String::new();
    let mut i: usize = 0;
    assert(word@ + s@.skip(0) =~= s@);
    assert(texts(r@) + words(s@) =~= words(s@));
    while i < chars.len()
        invariant
            i <= chars.len(),
            chars@ == s@,
            forall|j: int| 0 <= j < word@.len() ==> !is_separator(word@[j]),
            words(s@) == texts(r@) + words(word@ + s@.skip(i as int)),
        decreases chars.len() - i,
    {
        let c = chars[i];
        let ghost rest = s@.skip(i as int);
        assert(rest.skip(1) =~= s@.skip(i + 1));
        if separates(c) {
            if word.as_str().is_empty() {
                assert(word@ + rest =~= rest);
                assert(word@ + rest.skip(1) =~= rest.skip(1));
            } else {
                proof {
                    lemma_first_word(word@, rest);
                }
                let ghost before = texts(r@);
                let ghost found = word@;
                r.push(word);
                word = String::new();
                assert(texts(r@) =~= before.push(found));
                assert(word@ + rest.skip(1) =~= rest.skip(1));
                assert(before + (seq![found] + words(rest)) =~= before.push(found) + words(rest));
            }
        } else {
            assert(word@.push(c) + rest.skip(1) =~= word@ + rest);
            word.push(c);
        }
        i = i + 1;
    }
    assert(s@.skip(i as int) =~= Seq::<char>::empty());
    if !word.as_str().is_empty() {
        proof {
            lemma_first_word(word@, Seq::empty());
        }
        let ghost before = texts(r@);
        let ghost found = word@;
        r.push(word);
        assert(texts(r@) =~= before.push(found));
        assert(before.push(found) =~= before + (seq![found] + Seq::<Seq<char>>::empty()));
    } else {
        assert(word@ + s@.skip(i as int) =~= Seq::<char>::empty());
        assert(texts(r@) + Seq::<Seq<char>>::empty() =~= texts(r@));
    }
    r
}

/// Whether two texts are the same.
pub(crate) fn same_text(a: &str, b: &str) -> (r: bool)
    ensures
        r == (a@ == b@),
{
    a.to_owned() == b.to_owned()
}

/// `prefix` followed by `rest`.
pub(crate) fn joined(prefix: &str, rest: &str) -> (r: String)
    ensures
        r@ == prefix@ + rest@,
{
    let mut r = prefix.to_owned();
    r.append(rest);
    r
}

/// A text has a prefix exactly where it is made of it, and what follows is the rest.
pub proof fn law_prefix_comes_off(prefix: Seq<char>, rest: Seq<char>, s: Seq<char>)
    ensures
        after_prefix(prefix + rest, prefix) == Some(rest),
        after_prefix(s, prefix) is None <==> !exists|r: Seq<char>| s == #[trigger] (prefix + r),
{
    assert((prefix + rest).take(prefix.len() as int) =~= prefix);
    assert((prefix + rest).skip(prefix.len() as int) =~= rest);
    if prefix.is_prefix_of(s) {
        assert(s =~= prefix + s.skip(prefix.len() as int));
    }
    if exists|r: Seq<char>| s == #[trigger] (prefix + r) {
        let r = choose|r: Seq<char>| s == #[trigger] (prefix + r);
        assert((prefix + r).take(prefix.len() as int) =~= prefix);
    }
}

/// Adds one text to a list.
pub(crate) fn add_text(list: &mut Vec<String>, s: &str)
    ensures
        texts(final(list)@) == texts(old(list)@).push(s@),
{
    list.push(s.to_owned());
    assert(texts(list@) =~= texts(old(list)@).push(s@));
}

/// A list of one text.
pub(crate) fn one_text(s: &str) -> (r: Vec<String>)
    ensures
        texts(r@) == seq![s@],
{
    let mut r: Vec<String> = Vec::new();
    add_text(&mut r, s);
    assert(texts(r@) =~= seq![s@]);
    r
}

/// Adds the texts of another list from its place `from` on.
pub(crate) fn add_texts(list: &mut Vec<String>, more: &Vec<String>, from: usize)
    requires
        from <= more@.len(),
    ensures
        texts(final(list)@) == texts(old(list)@) + texts(more@).skip(from as int),
{
    let ghost all = texts(more@);
    assert(texts(list@) =~= texts(old(list)@) + all.subrange(from as int, from as int));
    for i in from..more.len()
        invariant
            from <= more@.len(),
            all == texts(more@),
            texts(list@) == texts(old(list)@) + all.subrange(from as int, i as int),
    {
        let ghost before = texts(list@);
        add_text(list, more[i].as_str());
        assert(texts(list@) =~= before.push(all[i as int]));
        assert(all.subrange(from as int, i + 1) =~= all.subrange(from as int, i as int).push(
            all[i as int],
        ));
    }
    assert(all.subrange(from as int, all.len() as int) =~= all.skip(from as int));
}

/// What follows `prefix` in `s`, where `s` starts with `prefix`.
pub open spec fn after_prefix(s: Seq<char>, prefix: Seq<char>) -> Option<Seq<char>> {
    if prefix.is_prefix_of(s) {
        Some(s.skip(prefix.len() as int))
    } else {
        None
    }
}

/// What follows `prefix` in `s`, where `s` starts with `prefix`.
pub(crate) fn strip<'a>(s: &'a str, prefix: &str) -> (r: Option<&'a str>)
    ensures
        match r {
            Some(rest) => after_prefix(s@, prefix@) == Some(rest@),
            None => after_prefix(s@, prefix@) is None,
        },
{
    let n = prefix.unicode_len();
    let len = s.unicode_len();
    if n > len {
        return None;
    }
    let head = s.substring_char(0, n);
    if same_text(head, prefix) {
        assert(prefix@.is_prefix_of(s@)) by {
            assert(s@.subrange(0, n as int) =~= s@.take(n as int));
        }
        let rest = s.substring_char(n, len);
        assert(rest@ =~= s@.skip(n as int));
        Some(rest)
    } else {
        assert(!prefix@.is_prefix_of(s@)) by {
            if prefix@.is_prefix_of(s@) {
                assert(s@.subrange(0, n as int) =~= prefix@);
            }
        }
        None
    }
}

/// Text in which a tab follows every line feed.
pub open spec fn indented(s: Seq<char>) -> Seq<char>
    decreases s.len(),
{
    if s.len() == 0 {
        Seq::empty()
    } else if s.last() == '\n' {
        indented(s.drop_last()) + seq!['\n', '\t']
    } else {
        indented(s.drop_last()).push(s.last())
    }
}

/// `s` with a tab after every line feed.
pub(crate) fn indent_lines(s: &str) -> (r: String)
    ensures
        r@ == indented(s@),
{
    let mut r = String::new();
    for c in it: s.chars()
        invariant
            it.seq() == s@,
            r@ == indented(s@.take(it.index() as int)),
    {
        proof {
            let n = it.index() as int;
            assert(s@.take(n + 1).drop_last() =~= s@.take(n));
            assert(s@.take(n + 1).last() == c);
        }
        let ghost before = r@;
        r.push(c);
        if c == '\n' {
            r.push('\t');
            assert(r@ =~= before + seq!['\n', '\t']);
        }
    }
    assert(s@.take(s@.len() as int) =~= s@);
    r
}

/// Text without a line feed stands as it is.
pub proof fn law_indent_without_line_feed(s: Seq<char>)
    requires
        forall|i: int| 0 <= i < s.len() ==> s[i] != '\n',
    ensures
        indented(s) == s,
    decreases s.len(),
{
    if s.len() > 0 {
        law_indent_without_line_feed(s.drop_last());
        assert(s.drop_last().push(s.last()) =~= s);
    }
}

/// Indenting works line by line: of two texts each is indented by itself, a line feed
/// gets a tab behind it, and no other character gets or loses anything.
pub proof fn law_indent_is_local(a: Seq<char>, b: Seq<char>)
    ensures
        indented(a + b) == indented(a) + indented(b),
        indented(seq!['\n']) == seq!['\n', '\t'],
        forall|c: char| c != '\n' ==> #[trigger] indented(seq![c]) == seq![c],
    decreases b.len(),
{
    reveal_with_fuel(indented, 2);
    assert(seq!['\n'].drop_last() =~= Seq::<char>::empty());
    assert(Seq::<char>::empty() + seq!['\n', '\t'] =~= seq!['\n', '\t']);
    assert forall|c: char| c != '\n' implies #[trigger] indented(seq![c]) == seq![c] by {
        law_indent_without_line_feed(seq![c]);
    }
    if b.len() == 0 {
        assert(a + b =~= a);
        assert(indented(a) + indented(b) =~= indented(a));
    } else {
        law_indent_is_local(a, b.drop_last());
        assert((a + b).drop_last() =~= a + b.drop_last());
        assert((a + b).last() == b.last());
        assert(indented(a + b) =~= indented(a) + indented(b));
    }
}

/// The characters that Unicode calls white space.
pub open spec fn is_white_space(c: char) -> bool {
    let u = c as u32;
    ||| 0x09 <= u <= 0x0D
    ||| u == 0x20
    ||| u == 0x85
    ||| u == 0xA0
    ||| u == 0x1680
    ||| 0x2000 <= u <= 0x200A
    ||| u == 0x2028
    ||| u == 0x2029
    ||| u == 0x202F
    ||| u == 0x205F
    ||| u == 0x3000
}

fn white_space(c: char) -> (r: bool)
    ensures
        r == is_white_space(c),
{
    let u = c as u32;
    (0x09 <= u && u <= 0x0D) || u == 0x20 || u == 0x85 || u == 0xA0 || u == 0x1680 || (0x2000 <= u
        && u <= 0x200A) || u == 0x2028 || u == 0x2029 || u == 0x202F || u == 0x205F || u == 0x3000
}

/// `t` is `s` without the white space at its ends.
pub open spec fn is_trimmed(s: Seq<char>, t: Seq<char>) -> bool {
    exists|from: int, to: int| #[trigger]
        is_trim_range(s, from, to) && t == s.subrange(from, to)
}

/// The range `from..to` of `s` leaves out white space only, at both ends, and
/// neither starts nor ends with white space.
pub open spec fn is_trim_range(s: Seq<char>, from: int, to: int) -> bool {
    &&& 0 <= from <= to <= s.len()
    &&& forall|i: int| 0 <= i < from ==> is_white_space(s[i])
    &&& forall|i: int| to <= i < s.len() ==> is_white_space(s[i])
    &&& from < to ==> !is_white_space(s[from]) && !is_white_space(s[to - 1])
}

/// `s` without the white space at its ends.
pub(crate) fn trim(s: &str) -> (r: String)
    ensures
        is_trimmed(s@, r@),
{
    let chars = characters(s);
    let n = chars.len();
    let mut from: usize = 0;
    while from < n && white_space(chars[from])
        invariant
            from <= n,
            n == chars.len(),
            chars@ == s@,
            forall|i: int| 0 <= i < from ==> is_white_space(s@[i]),
        decreases n - from,
    {
        from = from + 1;
    }
    let mut to: usize = n;
    while to > from && white_space(chars[to - 1])
        invariant
            from <= to <= n,
            n == chars.len(),
            chars@ == s@,
            forall|i: int| to <= i < n ==> is_white_space(s@[i]),
        decreases to,
    {
        to = to - 1;
    }
    assert(is_trim_range(s@, from as int, to as int));
    s.substring_char(from, to).to_owned()
}

/// White space at both ends is taken off, and nothing else.
pub proof fn law_trim_takes_the_ends_off(
    front: Seq<char>,
    core: Seq<char>,
    back: Seq<char>,
    found: Seq<char>,
)
    requires
        forall|i: int| 0 <= i < front.len() ==> is_white_space(front[i]),
        forall|i: int| 0 <= i < back.len() ==> is_white_space(back[i]),
        core.len() > 0,
        !is_white_space(core[0]),
        !is_white_space(core.last()),
        is_trimmed(front + core + back, found),
    ensures
        found == core,
        is_white_space(' ') && is_white_space('\t') && is_white_space('\n'),
        forall|c: char| 33 <= c as u32 <= 126 ==> !is_white_space(c),
{
    let s = front + core + back;
    let from = front.len() as int;
    let to = from + core.len();
    assert forall|i: int| to <= i < s.len() implies is_white_space(s[i]) by {
        assert(s[i] == back[i - to]);
    }
    assert(s[to - 1] == core.last());
    assert(is_trim_range(s, from, to));
    assert(s.subrange(from, to) =~= core);
    lemma_trimmed_unique(s, found, core);
}

/// There is only one way to trim a text.
pub proof fn lemma_trimmed_unique(s: Seq<char>, t: Seq<char>, u: Seq<char>)
    requires
        is_trimmed(s, t),
        is_trimmed(s, u),
    ensures
        t == u,
{
    let (a, b): (int, int) = choose|from: int, to: int| #[trigger]
        is_trim_range(s, from, to) && t == s.subrange(from, to);
    let (c, d): (int, int) = choose|from: int, to: int| #[trigger]
        is_trim_range(s, from, to) && u == s.subrange(from, to);
    if a < b {
        assert(c <= a);
        assert(b <= d);
        assert(c == a && d == b);
    } else if c < d {
        assert(!is_white_space(s[c]));
    } else {
        assert(t =~= u);
    }
}

/// The text that bytes stand for as UTF-8, with a mark in place of each malformed
/// part.
pub uninterp spec fn utf8_lossy(bytes: Seq<u8>) -> Seq<char>;

/// `String::from_utf8_lossy`: the text of `bytes`, exactly where they are well
/// formed. How malformed bytes are replaced is not stated, only that it depends
/// on nothing but the bytes.
#[verifier::external_body]
pub(crate) fn text_of_bytes(bytes: &[u8]) -> (r: String)
    ensures
        r@ == utf8_lossy(bytes@),
        vstd::utf8::valid_utf8(bytes@) ==> r@ == vstd::utf8::decode_utf8(bytes@),
{
    String::from_utf8_lossy(bytes).into_owned()
}

/// White space is what Unicode calls so: the controls from tab to carriage return, the
/// space, the next line, and the spaces and separators of no ink beyond them.
pub proof fn law_white_space(c: char, u: u32)
    requires
        u == c as u32,
    ensures
        u <= 32 ==> (is_white_space(c) <==> u == 32 || 9 <= u <= 13),
        33 <= u < 5760 ==> (is_white_space(c) <==> u == 133 || u == 160),
        5760 <= u < 8192 ==> (is_white_space(c) <==> u == 5760),
        8192 <= u < 12288 ==> (is_white_space(c) <==> u <= 8202 || u == 8232 || u == 8233 || u
            == 8239 || u == 8287),
        12288 <= u ==> (is_white_space(c) <==> u == 12288),
{
}

} // verus!
