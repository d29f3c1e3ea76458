//! Laws of the searches and cuts of texts: what each of them does to a text that is put
//! together from parts.

use vstd::prelude::*;
use vstd::utf8::is_ascii_chars;

use crate::external::{lower, lowercase};
use crate::text::{
    decimal, digits, joined, pieces, trimmed, trimmed_end, trimmed_start, white_space,
    without_prefixes, Class,
};

verus! {

/// White space is what Unicode gives the property `White_Space`, by code points.
pub proof fn law_white_space(c: char)
    ensures
        white_space(c) <==> {
            let u = c as int;
            9 <= u <= 13 || u == 32 || u == 133 || u == 160 || u == 5760 || 8192 <= u <= 8202 || u
                == 8232 || u == 8233 || u == 8239 || u == 8287 || u == 12288
        },
{
}

/// The two are the same letter, in the same case or not, or the same character.
pub open spec fn same_letter(a: char, b: char) -> bool {
    ||| a == b
    ||| 'A' <= a <= 'Z' && b as int == a as int + 32
    ||| 'A' <= b <= 'Z' && a as int == b as int + 32
}

/// The two texts are the same but for the case of their letters from A to Z.
pub open spec fn same_but_case(a: Seq<char>, b: Seq<char>) -> bool {
    a.len() == b.len() && forall|i: int| 0 <= i < a.len() ==> same_letter(#[trigger] a[i], b[i])
}

/// Two ASCII texts have one lower case exactly if they are the same but for the case of
/// their letters.
pub proof fn law_lower_case(a: Seq<char>, b: Seq<char>)
    requires
        is_ascii_chars(a),
        is_ascii_chars(b),
    ensures
        lower(a) == lower(b) <==> same_but_case(a, b),
{
    if lower(a) == lower(b) {
        assert(lower(a).len() == a.len());
        assert(lower(b).len() == b.len());
        assert forall|i: int| 0 <= i < a.len() implies same_letter(#[trigger] a[i], b[i]) by {
            assert(lower(a)[i] == lower(b)[i]);
        }
    }
    if same_but_case(a, b) {
        assert forall|i: int| 0 <= i < a.len() implies lower(a)[i] == lower(b)[i] by {
            assert(same_letter(a[i], b[i]));
        }
        assert(lower(a) =~= lower(b));
    }
}

/// The lower case of every other text is the one that Unicode gives it.
pub proof fn law_lower_case_of_other_texts(text: Seq<char>)
    requires
        !is_ascii_chars(text),
    ensures
        lower(text) == lowercase(text),
{
}

/// In the lower case of an ASCII text no letter from A to Z is left, and all else is
/// kept.
pub proof fn law_lower_case_chars(a: Seq<char>, i: int)
    requires
        is_ascii_chars(a),
        0 <= i < a.len(),
    ensures
        lower(a).len() == a.len(),
        !('A' <= lower(a)[i] <= 'Z'),
        same_letter(a[i], lower(a)[i]),
{
}

// ---------------------------------------------------------------------------
// Joining and cutting

/// Joining puts the separator between two parts, and nowhere else.
pub proof fn law_joined(a: Seq<Seq<char>>, b: Seq<Seq<char>>, part: Seq<char>, sep: char)
    requires
        a.len() > 0,
        b.len() > 0,
    ensures
        joined(Seq::empty(), sep) == Seq::<char>::empty(),
        joined(seq![part], sep) == part,
        joined(a + b, sep) == joined(a, sep) + seq![sep] + joined(b, sep),
    decreases b.len(),
{
    if b.len() == 1 {
        assert((a + b).drop_last() == a);
        assert((a + b).last() == b[0]);
        assert(joined(a, sep).push(sep) + b[0] == joined(a, sep) + seq![sep] + b[0]);
    } else {
        law_joined(a, b.drop_last(), part, sep);
        assert((a + b).drop_last() == a + b.drop_last());
        assert((a + b).last() == b.last());
        assert((joined(a, sep) + seq![sep] + joined(b.drop_last(), sep)).push(sep) + b.last() == joined(
            a,
            sep,
        ) + seq![sep] + (joined(b.drop_last(), sep).push(sep) + b.last()));
    }
}

/// The pieces of a text have no separator in them, and joined they give the text back.
pub proof fn law_pieces(s: Seq<char>, sep: char)
    ensures
        pieces(s, sep).len() > 0,
        forall|i: int| 0 <= i < pieces(s, sep).len() ==> !(#[trigger] pieces(s, sep)[i]).contains(sep),
        joined(pieces(s, sep), sep) == s,
    decreases s.len(),
{
    let all = pieces(s, sep);
    let none: Seq<char> = Seq::empty();
    if s.len() == 0 {
        assert(joined(all, sep) == none);
    } else {
        let before = pieces(s.drop_last(), sep);
        law_pieces(s.drop_last(), sep);
        assert(s == s.drop_last().push(s.last()));
        if s.last() == sep {
            law_joined(before, seq![none], none, sep);
            assert(all == before + seq![none]);
            assert(joined(all, sep) == s);
            assert forall|i: int| 0 <= i < all.len() implies !(#[trigger] all[i]).contains(sep) by {
                if i < before.len() {
                    assert(all[i] == before[i]);
                }
            }
        } else {
            let longer = before.last().push(s.last());
            assert(before[before.len() - 1] == before.last());
            assert(!longer.contains(sep)) by {
                if longer.contains(sep) {
                    let i = choose|i: int| 0 <= i < longer.len() && longer[i] == sep;
                    assert(before.last()[i] == sep);
                }
            }
            if before.len() > 1 {
                let front = before.drop_last();
                assert(before == front + seq![before.last()]);
                assert(all == front + seq![longer]);
                law_joined(front, seq![before.last()], before.last(), sep);
                law_joined(front, seq![longer], longer, sep);
                assert(joined(all, sep) == s);
            } else {
                assert(all == seq![longer]);
                assert(joined(all, sep) == s);
            }
            assert forall|i: int| 0 <= i < all.len() implies !(#[trigger] all[i]).contains(sep) by {
                if i < before.len() - 1 {
                    assert(all[i] == before[i]);
                }
            }
        }
    }
}

// ---------------------------------------------------------------------------
// Trimming

proof fn lemma_trimmed_start_push(s: Seq<char>, c: char, class: Class)
    ensures
        trimmed_start(s.push(c), class) == (if trimmed_start(s, class).len() > 0 || !class.has(c) {
            trimmed_start(s, class).push(c)
        } else {
            Seq::empty()
        }),
    decreases s.len(),
{
    let none: Seq<char> = Seq::empty();
    if s.len() == 0 {
        assert(s.push(c).first() == c);
        assert(s.push(c).drop_first() == none);
        assert(s == none);
    } else {
        assert(s.push(c).first() == s.first());
        assert(s.push(c).drop_first() == s.drop_first().push(c));
        if class.has(s.first()) {
            lemma_trimmed_start_push(s.drop_first(), c, class);
        }
    }
}

/// Trimming takes away what belongs to the class at either end, and nothing else: a
/// text that has nothing of it at its ends is kept.
pub proof fn law_trimmed(s: Seq<char>, c: char, class: Class)
    ensures
        class.has(c) ==> trimmed(seq![c] + s, class) == trimmed(s, class),
        class.has(c) ==> trimmed(s.push(c), class) == trimmed(s, class),
        s.len() == 0 || (!class.has(s.first()) && !class.has(s.last())) ==> trimmed(s, class) == s,
{
    if class.has(c) {
        assert((seq![c] + s).first() == c);
        assert((seq![c] + s).drop_first() == s);
        lemma_trimmed_start_push(s, c, class);
        let start = trimmed_start(s, class);
        if start.len() > 0 {
            assert(start.push(c).last() == c);
            assert(start.push(c).drop_last() == start);
        }
    }
}

/// The two classes that are trimmed: white space, and one character.
pub proof fn law_classes(c: char, d: char)
    ensures
        Class::WhiteSpace.has(c) <==> white_space(c),
        Class::Only(d).has(c) <==> c == d,
{
}

/// A prefix is taken away as often as it stands at the start, and nothing else.
pub proof fn law_without_prefixes(s: Seq<char>, p: Seq<char>)
    requires
        p.len() > 0,
    ensures
        without_prefixes(p + s, p) == without_prefixes(s, p),
        !p.is_prefix_of(s) ==> without_prefixes(s, p) == s,
{
    assert((p + s).subrange(0, p.len() as int) == p);
    assert((p + s).skip(p.len() as int) == s);
}

// ---------------------------------------------------------------------------
// Numbers

/// Numbers are written in base ten, the most significant digit first, with no zero at
/// the front, and negative ones with a minus sign.
pub proof fn law_decimal(n: nat, d: nat)
    requires
        d < 10,
    ensures
        decimal(d as int) == seq![(48 + d) as char],
        n > 0 ==> decimal((10 * n + d) as int) == decimal(n as int).push((48 + d) as char),
        n > 0 ==> decimal(-(n as int)) == seq!['-'] + decimal(n as int),
{
    assert(digits(d) == seq![(48 + d) as char]);
    if n > 0 {
        assert((10 * n + d) / 10 == n);
        assert((10 * n + d) % 10 == d);
        assert(digits(10 * n + d) == digits(n).push((48 + d) as char));
    }
}

} // verus!
