//! Text as a sequence of characters: the searches and cuts that the rest of the
//! library is written with.
//!
//! The specification functions speak of `Seq<char>`, the view of both `str` and
//! `String`. The executable ones work on `Vec<char>`, one element per character.

use vstd::prelude::*;

verus! {

/// `String::push` appends one character to the end of the string.
pub assume_specification[ String::push ](s: &mut String, c: char)
    ensures
        final(s)@ == old(s)@.push(c),
;

/// The characters with the Unicode property `White_Space`.
pub open spec fn white_space(c: char) -> bool {
    ||| '\u{9}' <= c <= '\u{D}'
    ||| c == '\u{20}'
    ||| c == '\u{85}'
    ||| c == '\u{A0}'
    ||| c == '\u{1680}'
    ||| '\u{2000}' <= c <= '\u{200A}'
    ||| c == '\u{2028}'
    ||| c == '\u{2029}'
    ||| c == '\u{202F}'
    ||| c == '\u{205F}'
    ||| c == '\u{3000}'
}

/// Whether `c` has the Unicode property `White_Space`.
pub fn is_white_space(c: char) -> (r: bool)
    ensures
        r == white_space(c),
{
    ('\u{9}' <= c && c <= '\u{D}') || c == '\u{20}' || c == '\u{85}' || c == '\u{A0}' || c
        == '\u{1680}' || ('\u{2000}' <= c && c <= '\u{200A}') || c == '\u{2028}' || c == '\u{2029}'
        || c == '\u{202F}' || c == '\u{205F}' || c == '\u{3000}'
}

/// A class of characters to trim from the ends of a text.
#[derive(Clone, Copy)]
pub enum Class {
    /// Every white space character.
    WhiteSpace,
    /// This one character.
    Only(char),
}

impl Class {
    /// Whether `c` belongs to the class.
    pub open spec fn has(self, c: char) -> bool {
        match self {
            Class::WhiteSpace => white_space(c),
            Class::Only(d) => c == d,
        }
    }

    /// Whether `c` belongs to the class.
    pub fn contains(&self, c: char) -> (r: bool)
        ensures
            r == self.has(c),
    {
        match self {
            Class::WhiteSpace => is_white_space(c),
            Class::Only(d) => c == *d,
        }
    }
}

/// The characters of each string of a list.
pub open spec fn texts(list: Seq<String>) -> Seq<Seq<char>> {
    list.map_values(|s: String| s@)
}

/// The characters of a string that may be absent.
pub open spec fn opt_text(s: Option<String>) -> Option<Seq<char>> {
    match s {
        Some(t) => Some(t@),
        None => None,
    }
}

/// The characters of a string, or of the text of an error.
pub open spec fn result_text(r: Result<String, String>) -> Result<Seq<char>, Seq<char>> {
    match r {
        Ok(t) => Ok(t@),
        Err(message) => Err(message@),
    }
}

/// `p` stands in `s` at position `i`.
pub open spec fn occurs_at(s: Seq<char>, p: Seq<char>, i: int) -> bool {
    0 <= i && i + p.len() <= s.len() && s.subrange(i, i + p.len()) == p
}

/// `p` stands somewhere in `s`.
pub open spec fn has_substring(s: Seq<char>, p: Seq<char>) -> bool {
    exists|i: int| occurs_at(s, p, i)
}

/// The pieces of `s` between the occurrences of `sep`; one more than there are
/// occurrences, each possibly empty.
pub open spec fn pieces(s: Seq<char>, sep: char) -> Seq<Seq<char>>
    decreases s.len(),
{
    if s.len() == 0 {
        seq![Seq::empty()]
    } else {
        let before = pieces(s.drop_last(), sep);
        if s.last() == sep {
            before.push(Seq::empty())
        } else {
            before.drop_last().push(before.last().push(s.last()))
        }
    }
}

/// `s` without its longest prefix made of characters of the class.
pub open spec fn trimmed_start(s: Seq<char>, class: Class) -> Seq<char>
    decreases s.len(),
{
    if s.len() > 0 && class.has(s.first()) {
        trimmed_start(s.drop_first(), class)
    } else {
        s
    }
}

/// `s` without its longest suffix made of characters of the class.
pub open spec fn trimmed_end(s: Seq<char>, class: Class) -> Seq<char>
    decreases s.len(),
{
    if s.len() > 0 && class.has(s.last()) {
        trimmed_end(s.drop_last(), class)
    } else {
        s
    }
}

/// `s` without the characters of the class at both its ends.
pub open spec fn trimmed(s: Seq<char>, class: Class) -> Seq<char> {
    trimmed_end(trimmed_start(s, class), class)
}

/// `s` without `p` at its start, as often as it stands there.
pub open spec fn without_prefixes(s: Seq<char>, p: Seq<char>) -> Seq<char>
    decreases s.len(),
{
    if p.len() > 0 && p.is_prefix_of(s) {
        without_prefixes(s.skip(p.len() as int), p)
    } else {
        s
    }
}

/// The parts one after the other, with `sep` between each two.
pub open spec fn joined(parts: Seq<Seq<char>>, sep: char) -> Seq<char>
    decreases parts.len(),
{
    if parts.len() == 0 {
        Seq::empty()
    } else if parts.len() == 1 {
        parts[0]
    } else {
        joined(parts.drop_last(), sep).push(sep) + parts.last()
    }
}

/// Cutting a text to which a run without the separator was appended: the run goes to
/// the last piece.
pub proof fn lemma_pieces_of_run(s: Seq<char>, run: Seq<char>, sep: char)
    requires
        !run.contains(sep),
    ensures
        pieces(s, sep).len() > 0,
        pieces(s + run, sep) == pieces(s, sep).drop_last().push(pieces(s, sep).last() + run),
    decreases s.len() + run.len(),
{
    if run.len() == 0 {
        assert(s + run == s);
        assert(pieces(s, sep).len() > 0) by {
            if s.len() > 0 {
                assert(s.drop_last() + run == s.drop_last());
                lemma_pieces_of_run(s.drop_last(), run, sep);
            }
        }
        assert(pieces(s, sep).last() + run == pieces(s, sep).last());
        assert(pieces(s, sep).drop_last().push(pieces(s, sep).last()) == pieces(s, sep));
    } else {
        let shorter = run.drop_last();
        assert(!shorter.contains(sep)) by {
            if shorter.contains(sep) {
                let i = choose|i: int| 0 <= i < shorter.len() && shorter[i] == sep;
                assert(run[i] == sep);
            }
        }
        lemma_pieces_of_run(s, shorter, sep);
        assert((s + run).drop_last() == s + shorter);
        assert((s + run).last() == run.last());
        assert(run[run.len() - 1] == run.last());
        assert((pieces(s, sep).last() + shorter).push(run.last()) == pieces(s, sep).last() + run);
        assert(pieces(s + run, sep) == pieces(s, sep).drop_last().push(pieces(s, sep).last() + run));
    }
}

/// Cutting what was joined gives the parts back, where none of them has the
/// separator.
pub proof fn lemma_pieces_of_joined(parts: Seq<Seq<char>>, sep: char)
    requires
        parts.len() > 0,
        forall|i: int| 0 <= i < parts.len() ==> !(#[trigger] parts[i]).contains(sep),
    ensures
        pieces(joined(parts, sep), sep) == parts,
    decreases parts.len(),
{
    let empty: Seq<char> = Seq::empty();
    if parts.len() == 1 {
        lemma_pieces_of_run(empty, parts[0], sep);
        assert(empty + parts[0] == parts[0]);
        assert(pieces(empty, sep).drop_last().push(parts[0]) == parts);
    } else {
        let before = joined(parts.drop_last(), sep);
        assert forall|i: int| 0 <= i < parts.drop_last().len() implies !(
        #[trigger] parts.drop_last()[i]).contains(sep) by {
            assert(parts.drop_last()[i] == parts[i]);
        }
        lemma_pieces_of_joined(parts.drop_last(), sep);
        assert(before.push(sep).drop_last() == before);
        assert(pieces(before.push(sep), sep) == parts.drop_last().push(empty));
        assert(!parts[parts.len() - 1].contains(sep));
        lemma_pieces_of_run(before.push(sep), parts.last(), sep);
        assert(parts.drop_last().push(empty).drop_last() == parts.drop_last());
        assert(empty + parts.last() == parts.last());
        assert(parts.drop_last().push(parts.last()) == parts);
    }
}

/// The decimal digit of value `d`.
pub open spec fn digit(d: int) -> char {
    seq!['0', '1', '2', '3', '4', '5', '6', '7', '8', '9'][d]
}

/// `n` in decimal, without leading zeros.
pub open spec fn digits(n: nat) -> Seq<char>
    decreases n,
{
    if n < 10 {
        seq![digit(n as int)]
    } else {
        digits(n / 10).push(digit((n % 10) as int))
    }
}

/// `n` in decimal, with a minus sign where it is negative.
pub open spec fn decimal(n: int) -> Seq<char> {
    if n < 0 {
        seq!['-'] + digits((-n) as nat)
    } else {
        digits(n as nat)
    }
}

/// The characters of `s`.
pub fn chars_of(s: &str) -> (r: Vec<char>)
    ensures
        r@ == s@,
{
    let mut r: Vec<char> = Vec::new();
    for c in it: s.chars()
        invariant
            r@ == it.seq().take(it.index()),
            it.seq() == s@,
    {
        r.push(c);
    }
    r
}

/// The string made of `chars`.
pub fn string_of(chars: &Vec<char>) -> (r: String)
    ensures
        r@ == chars@,
{
    let mut r: String = String::new();
    for i in 0..chars.len()
        invariant
            r@ == chars@.take(i as int),
    {
        r.push(chars[i]);
        assert(chars@.take(i + 1) == chars@.take(i as int).push(chars@[i as int]));
    }
    assert(chars@.take(chars@.len() as int) == chars@);
    r
}

/// Whether the two texts are the same.
pub fn same_text(a: &str, b: &str) -> (r: bool)
    ensures
        r == (a@ == b@),
{
    a.to_owned() == b.to_owned()
}

/// The characters of `s` from position `from` up to, not including, `to`.
pub fn cut(s: &Vec<char>, from: usize, to: usize) -> (r: Vec<char>)
    requires
        from <= to <= s@.len(),
    ensures
        r@ == s@.subrange(from as int, to as int),
{
    let mut r: Vec<char> = Vec::new();
    for i in from..to
        invariant
            from <= i <= to <= s@.len(),
            r@ == s@.subrange(from as int, i as int),
    {
        r.push(s[i]);
        assert(s@.subrange(from as int, i + 1) == s@.subrange(from as int, i as int).push(s@[i as int]));
    }
    r
}

/// Whether `p` stands in `s` at position `at`.
fn matches_at(s: &Vec<char>, p: &Vec<char>, at: usize) -> (r: bool)
    requires
        at <= s@.len(),
    ensures
        r == occurs_at(s@, p@, at as int),
{
    if p.len() > s.len() - at {
        return false;
    }
    for i in 0..p.len()
        invariant
            at + p@.len() <= s.len(),
            forall|j: int| 0 <= j < i ==> s@[at + j] == p@[j],
    {
        if s[at + i] != p[i] {
            assert(s@.subrange(at as int, at + p@.len())[i as int] == s@[at + i]);
            return false;
        }
    }
    assert(s@.subrange(at as int, at + p@.len()) == p@);
    true
}

/// Whether `p` stands somewhere in `s`.
pub fn contains(s: &Vec<char>, p: &Vec<char>) -> (r: bool)
    ensures
        r == has_substring(s@, p@),
{
    let mut at: usize = 0;
    while at < s.len()
        invariant
            at <= s@.len(),
            forall|i: int| 0 <= i < at ==> !occurs_at(s@, p@, i),
        decreases s@.len() - at,
    {
        if matches_at(s, p, at) {
            return true;
        }
        at = at + 1;
    }
    matches_at(s, p, at)
}

/// Whether `s` starts with `p`.
pub fn starts_with(s: &Vec<char>, p: &Vec<char>) -> (r: bool)
    ensures
        r == p@.is_prefix_of(s@),
{
    let r: bool = matches_at(s, p, 0);
    assert(p@.len() <= s@.len() ==> s@.subrange(0, p@.len() as int) == s@.take(p@.len() as int));
    r
}

/// Whether `s` ends with `p`.
pub fn ends_with(s: &Vec<char>, p: &Vec<char>) -> (r: bool)
    ensures
        r == p@.is_suffix_of(s@),
{
    if p.len() > s.len() {
        return false;
    }
    matches_at(s, p, s.len() - p.len())
}

/// The pieces of `s` between the occurrences of `sep`.
pub fn split(s: &Vec<char>, sep: char) -> (r: Vec<Vec<char>>)
    ensures
        r@.len() == pieces(s@, sep).len(),
        r@.len() > 0,
        forall|i: int| 0 <= i < r@.len() ==> (#[trigger] r@[i])@ == pieces(s@, sep)[i],
{
    let mut done: Vec<Vec<char>> = Vec::new();
    let mut last: Vec<char> = Vec::new();
    for i in 0..s.len()
        invariant
            done@.len() + 1 == pieces(s@.take(i as int), sep).len(),
            forall|j: int|
                0 <= j < done@.len() ==> (#[trigger] done@[j])@ == pieces(s@.take(i as int), sep)[j],
            last@ == pieces(s@.take(i as int), sep).last(),
    {
        proof {
            assert(s@.take(i + 1).drop_last() == s@.take(i as int));
            assert(s@.take(i + 1).last() == s@[i as int]);
        }
        if s[i] == sep {
            done.push(last);
            last = Vec::new();
        } else {
            last.push(s[i]);
        }
    }
    assert(s@.take(s@.len() as int) == s@);
    done.push(last);
    done
}

proof fn lemma_trimmed_start(s: Seq<char>, class: Class, n: int)
    requires
        0 <= n <= s.len(),
        forall|i: int| 0 <= i < n ==> class.has(s[i]),
        n < s.len() ==> !class.has(s[n]),
    ensures
        trimmed_start(s, class) == s.skip(n),
    decreases n,
{
    if n > 0 {
        assert(class.has(s[0]));
        lemma_trimmed_start(s.drop_first(), class, n - 1);
        assert(s.drop_first().skip(n - 1) == s.skip(n));
    } else {
        assert(s.skip(0) == s);
    }
}

proof fn lemma_trimmed_end(s: Seq<char>, class: Class, n: int)
    requires
        0 <= n <= s.len(),
        forall|i: int| n <= i < s.len() ==> class.has(s[i]),
        n > 0 ==> !class.has(s[n - 1]),
    ensures
        trimmed_end(s, class) == s.take(n),
    decreases s.len() - n,
{
    if n < s.len() {
        assert(class.has(s[s.len() - 1]));
        lemma_trimmed_end(s.drop_last(), class, n);
        assert(s.drop_last().take(n) == s.take(n));
    } else {
        assert(s.take(n) == s);
    }
}

/// `s` without the characters of `class` at both its ends.
pub fn trim(s: &Vec<char>, class: Class) -> (r: Vec<char>)
    ensures
        r@ == trimmed(s@, class),
{
    let mut from: usize = 0;
    while from < s.len() && class.contains(s[from])
        invariant
            from <= s@.len(),
            forall|i: int| 0 <= i < from ==> class.has(s@[i]),
        decreases s@.len() - from,
    {
        from = from + 1;
    }
    let ghost rest = s@.skip(from as int);
    proof {
        lemma_trimmed_start(s@, class, from as int);
    }
    let mut to: usize = s.len();
    while to > from && class.contains(s[to - 1])
        invariant
            from <= to <= s@.len(),
            forall|i: int| to <= i < s@.len() ==> class.has(s@[i]),
        decreases to,
    {
        to = to - 1;
    }
    proof {
        assert forall|i: int| to - from <= i < rest.len() implies class.has(rest[i]) by {
            assert(rest[i] == s@[from + i]);
        }
        lemma_trimmed_end(rest, class, to - from);
        assert(rest.take(to - from) == s@.subrange(from as int, to as int));
    }
    cut(s, from, to)
}

/// `s` without `p` at its start, as often as it stands there.
pub fn strip_prefixes(s: &Vec<char>, p: &Vec<char>) -> (r: Vec<char>)
    ensures
        r@ == without_prefixes(s@, p@),
{
    let mut from: usize = 0;
    proof {
        assert(s@.skip(0) == s@);
    }
    while p.len() > 0 && matches_at(s, p, from)
        invariant
            from <= s.len(),
            without_prefixes(s@.skip(from as int), p@) == without_prefixes(s@, p@),
        decreases s@.len() - from,
    {
        proof {
            let rest = s@.skip(from as int);
            assert(rest.subrange(0, p@.len() as int) == s@.subrange(from as int, from + p@.len()));
            assert(p@.is_prefix_of(rest));
            assert(rest.skip(p@.len() as int) == s@.skip(from + p@.len()));
        }
        from = from + p.len();
    }
    proof {
        let rest = s@.skip(from as int);
        if p@.len() > 0 && p@.is_prefix_of(rest) {
            assert(rest.subrange(0, p@.len() as int) == s@.subrange(from as int, from + p@.len()));
            assert(occurs_at(s@, p@, from as int));
        }
        assert(rest == s@.subrange(from as int, s@.len() as int));
    }
    cut(s, from, s.len())
}

/// The lines of `parts` one after the other, with `sep` between each two.
pub fn join(parts: &Vec<String>, sep: char) -> (r: String)
    ensures
        r@ == joined(texts(parts@), sep),
{
    let mut r: String = String::new();
    let ghost all = texts(parts@);
    for i in 0..parts.len()
        invariant
            all == texts(parts@),
            r@ == joined(all.take(i as int), sep),
    {
        proof {
            assert(all.take(i + 1).drop_last() == all.take(i as int));
            assert(all.take(i + 1).last() == parts@[i as int]@);
        }
        if i > 0 {
            r.push(sep);
        }
        r.append(parts[i].as_str());
    }
    assert(all.take(all.len() as int) == all);
    r
}

fn digit_char(d: u64) -> (r: char)
    requires
        d < 10,
    ensures
        r == digit(d as int),
{
    match d {
        0 => '0',
        1 => '1',
        2 => '2',
        3 => '3',
        4 => '4',
        5 => '5',
        6 => '6',
        7 => '7',
        8 => '8',
        _ => '9',
    }
}

/// `n` in decimal.
pub fn unsigned_decimal(n: u64) -> (r: String)
    ensures
        r@ == decimal(n as int),
    decreases n,
{
    if n < 10 {
        let mut r: String = String::new();
        r.push(digit_char(n));
        r
    } else {
        let mut r: String = unsigned_decimal(n / 10);
        r.push(digit_char(n % 10));
        r
    }
}

/// `n` in decimal, with a minus sign where it is negative.
pub fn signed_decimal(n: i64) -> (r: String)
    ensures
        r@ == decimal(n as int),
{
    if n >= 0 {
        unsigned_decimal(n as u64)
    } else {
        let magnitude: u64 = if n == i64::MIN {
            0x8000_0000_0000_0000
        } else {
            (-n) as u64
        };
        let mut r: String = String::new();
        r.push('-');
        let rest: String = unsigned_decimal(magnitude);
        r.append(rest.as_str());
        r
    }
}

} // verus!
