//! Laws of the Terabox links in a text: what is found is a link, and what is a link
//! is found.

use vstd::prelude::*;
use vstd::utf8::is_ascii_chars;

use crate::external::{
    json_members, lemma_run_end, link_end, link_matches, lower, run_end, scheme_length, url_parse,
};
use crate::laws::texts::{law_lower_case, same_but_case};
use crate::links::{
    proxy_link, reply_link, stream_link_request_for, terabox_domain, terabox_link, terabox_links,
    terabox_text, JsonView, LinkView,
};
use crate::text::{has_substring, joined, occurs_at, white_space};

verus! {

/// `m` is the match of the pattern that starts at position `at` of `s`.
spec fn match_at(s: Seq<char>, m: Seq<char>, at: int) -> bool {
    0 <= at < s.len() && link_end(s, at) > at && m == s.subrange(at, link_end(s, at))
}

proof fn lemma_scheme_chars()
    ensures
        "https://"@ == seq!['h', 't', 't', 'p', 's', ':', '/', '/'],
        "http://"@ == seq!['h', 't', 't', 'p', ':', '/', '/'],
{
    reveal_strlit("https://");
    reveal_strlit("http://");
}

proof fn lemma_link_end(s: Seq<char>, i: int)
    requires
        0 <= i <= s.len(),
    ensures
        i <= link_end(s, i) <= s.len(),
{
    lemma_scheme_chars();
    lemma_run_end(s, i + scheme_length(s, i));
}

proof fn lemma_matches(s: Seq<char>, from: int, k: int)
    requires
        0 <= from,
        0 <= k < link_matches(s, from).len(),
    ensures
        exists|at: int| match_at(s, link_matches(s, from)[k], at),
    decreases s.len() - from,
{
    lemma_link_end(s, from);
    if link_end(s, from) > from {
        if k == 0 {
            assert(match_at(s, link_matches(s, from)[k], from));
        } else {
            lemma_matches(s, link_end(s, from), k - 1);
            assert(link_matches(s, from)[k] == link_matches(s, link_end(s, from))[k - 1]);
        }
    } else {
        lemma_matches(s, from + 1, k);
    }
}

/// The text starts with a scheme, and something stands behind it.
pub open spec fn has_scheme(text: Seq<char>) -> bool {
    ||| "http://"@.is_prefix_of(text) && text.len() > "http://"@.len()
    ||| "https://"@.is_prefix_of(text) && text.len() > "https://"@.len()
}

/// Every link that is found stands in the text, is one of Terabox, starts with a
/// scheme behind which something stands, and has no white space in it.
pub proof fn law_found_links(text: Seq<char>, k: int)
    requires
        0 <= k < terabox_links(text).len(),
    ensures
        ({
            let link = terabox_links(text)[k];
            &&& terabox_text(link)
            &&& has_substring(text, link)
            &&& has_scheme(link)
            &&& forall|i: int| 0 <= i < link.len() ==> !white_space(#[trigger] link[i])
        }),
{
    let p = |t: Seq<char>| terabox_text(t);
    let all = link_matches(text, 0);
    let link = terabox_links(text)[k];
    all.lemma_filter_pred(p, k);
    assert(all.filter(p).contains(link));
    all.lemma_filter_contains_rev(p, link);
    let j = choose|j: int| 0 <= j < all.len() && all[j] == link;
    lemma_matches(text, 0, j);
    let at = choose|at: int| match_at(text, link, at);
    let n = scheme_length(text, at);
    let end = link_end(text, at);
    lemma_link_end(text, at);
    lemma_run_end(text, at + n);
    lemma_scheme_chars();
    assert(occurs_at(text, link, at));
    if occurs_at(text, "https://"@, at) {
        assert(link.subrange(0, 8) == text.subrange(at, at + 8));
        assert("https://"@.is_prefix_of(link));
    } else {
        assert(link.subrange(0, 7) == text.subrange(at, at + 7));
        assert("http://"@.is_prefix_of(link));
    }
    assert forall|i: int| 0 <= i < link.len() implies !white_space(#[trigger] link[i]) by {
        if i < n {
            if occurs_at(text, "https://"@, at) {
                assert(link[i] == link.subrange(0, 8)[i]);
                assert(link[i] == "https://"@[i]);
            } else {
                assert(link[i] == link.subrange(0, 7)[i]);
                assert(link[i] == "http://"@[i]);
            }
        } else {
            assert(link[i] == text[at + i]);
        }
    }
}

proof fn lemma_no_matches(s: Seq<char>, from: int)
    requires
        0 <= from,
        !has_substring(s, "http://"@),
        !has_substring(s, "https://"@),
    ensures
        link_matches(s, from).len() == 0,
    decreases s.len() - from,
{
    if from < s.len() {
        assert(!occurs_at(s, "http://"@, from));
        assert(!occurs_at(s, "https://"@, from));
        lemma_no_matches(s, from + 1);
    }
}

/// Where no scheme stands in a text, no link is found.
pub proof fn law_no_scheme_no_links(text: Seq<char>)
    requires
        !has_substring(text, "http://"@),
        !has_substring(text, "https://"@),
    ensures
        terabox_links(text).len() == 0,
{
    lemma_no_matches(text, 0);
    link_matches(text, 0).lemma_filter_len(|t: Seq<char>| terabox_text(t));
}

proof fn lemma_whole_run(s: Seq<char>, i: int)
    requires
        0 <= i <= s.len(),
        forall|j: int| 0 <= j < s.len() ==> !white_space(#[trigger] s[j]),
    ensures
        run_end(s, i) == s.len(),
    decreases s.len() - i,
{
    if i < s.len() {
        lemma_whole_run(s, i + 1);
    }
}

proof fn lemma_filter_one(t: Seq<char>, p: spec_fn(Seq<char>) -> bool)
    ensures
        seq![t].filter(p) == (if p(t) {
            seq![t]
        } else {
            Seq::empty()
        }),
{
    reveal(Seq::filter);
    let none: Seq<Seq<char>> = Seq::empty();
    assert(seq![t].drop_last() == none);
    assert(none.filter(p) == none);
    assert(none.push(t) == seq![t]);
}

/// A text that is nothing but a link is found as it stands exactly if it is the URL of
/// a Terabox file.
pub proof fn law_a_link_alone_is_found(text: Seq<char>)
    requires
        has_scheme(text),
        forall|i: int| 0 <= i < text.len() ==> !white_space(#[trigger] text[i]),
    ensures
        terabox_text(text) ==> terabox_links(text) == seq![text],
        !terabox_text(text) ==> terabox_links(text).len() == 0,
{
    lemma_scheme_chars();
    if "https://"@.is_prefix_of(text) {
        assert(text.subrange(0, 8) == "https://"@);
        assert(occurs_at(text, "https://"@, 0));
    } else {
        assert(text.subrange(0, 7) == "http://"@);
        assert(occurs_at(text, "http://"@, 0));
        assert(!occurs_at(text, "https://"@, 0)) by {
            if occurs_at(text, "https://"@, 0) {
                assert(text.subrange(0, 8)[4] == text.subrange(0, 7)[4]);
            }
        }
    }
    let n = scheme_length(text, 0);
    lemma_whole_run(text, n);
    assert(link_end(text, 0) == text.len());
    assert(text.subrange(0, text.len() as int) == text);
    assert(link_matches(text, text.len() as int) == Seq::<Seq<char>>::empty());
    assert(link_matches(text, 0) == seq![text]);
    lemma_filter_one(text, |t: Seq<char>| terabox_text(t));
}

proof fn lemma_matches_behind(s: Seq<char>, from: int, to: int)
    requires
        0 <= from <= to <= s.len(),
        forall|i: int| from <= i < to ==> !occurs_at(s, "http://"@, i) && !occurs_at(s, "https://"@, i),
    ensures
        link_matches(s, from) == link_matches(s, to),
    decreases to - from,
{
    if from < to {
        assert(!occurs_at(s, "http://"@, from) && !occurs_at(s, "https://"@, from));
        lemma_matches_behind(s, from + 1, to);
    }
}

/// A link is found wherever it stands: what comes before it, even without white space
/// between them, is passed over as long as no scheme starts in it.
pub proof fn law_links_behind_other_text(front: Seq<char>, text: Seq<char>)
    requires
        forall|i: int|
            0 <= i < front.len() ==> !occurs_at(front + text, "http://"@, i) && !occurs_at(
                front + text,
                "https://"@,
                i,
            ),
    ensures
        terabox_links(front + text) == terabox_links(text),
{
    lemma_matches_behind(front + text, 0, front.len() as int);
    lemma_matches_right(front, text, 0);
}

/// The names that make a host one of Terabox.
pub open spec fn terabox_names() -> Seq<Seq<char>> {
    seq![
        "terabox"@,
        "1024tera"@,
        "4funbox"@,
        "mirrobox"@,
        "nephobox"@,
        "terasharelink"@,
        "terafileshare"@,
    ]
}

/// A host is one of Terabox exactly if one of the names stands in it, whatever stands
/// before and behind the name.
pub proof fn law_terabox_hosts(domain: Seq<char>)
    ensures
        terabox_domain(domain) <==> exists|k: int, a: Seq<char>, b: Seq<char>|
            0 <= k < 7 && domain == #[trigger] (a + terabox_names()[k] + b),
{
    let names = terabox_names();
    if terabox_domain(domain) {
        let k = choose|k: int| 0 <= k < 7 && has_substring(domain, #[trigger] names[k]);
        assert(has_substring(domain, names[0]) || has_substring(domain, names[1]) || has_substring(
            domain,
            names[2],
        ) || has_substring(domain, names[3]) || has_substring(domain, names[4]) || has_substring(
            domain,
            names[5],
        ) || has_substring(domain, names[6]));
        let i = choose|i: int| occurs_at(domain, names[k], i);
        let a = domain.take(i);
        let b = domain.skip(i + names[k].len());
        assert(domain == a + terabox_names()[k] + b);
    }
    if exists|k: int, a: Seq<char>, b: Seq<char>|
        0 <= k < 7 && domain == #[trigger] (a + names[k] + b) {
        let (k, a, b) = choose|k: int, a: Seq<char>, b: Seq<char>|
            0 <= k < 7 && domain == #[trigger] (a + names[k] + b);
        assert(domain.subrange(a.len() as int, (a.len() + names[k].len()) as int) == names[k]);
        assert(occurs_at(domain, names[k], a.len() as int));
        assert(has_substring(domain, names[k]));
    }
}

proof fn lemma_names_are_lower(k: int)
    requires
        0 <= k < 7,
    ensures
        is_ascii_chars(terabox_names()[k]),
        lower(terabox_names()[k]) == terabox_names()[k],
{
    reveal_strlit("terabox");
    reveal_strlit("1024tera");
    reveal_strlit("4funbox");
    reveal_strlit("mirrobox");
    reveal_strlit("nephobox");
    reveal_strlit("terasharelink");
    reveal_strlit("terafileshare");
    let name = terabox_names()[k];
    assert(k == 0 || k == 1 || k == 2 || k == 3 || k == 4 || k == 5 || k == 6);
    assert(forall|i: int| 0 <= i < name.len() ==> ('0' <= #[trigger] name[i] <= '9' || 'a' <= name[i]
        <= 'z'));
    assert(lower(name) =~= name);
}

/// The name stands in the domain, in any case.
pub open spec fn name_in(domain: Seq<char>, name: Seq<char>) -> bool {
    exists|a: Seq<char>, found: Seq<char>, b: Seq<char>|
        same_but_case(found, name) && domain == #[trigger] (a + found + b)
}

/// A link is one of Terabox exactly if its host is a domain in which one of the names
/// stands, in any case. A link whose host is no domain is none.
pub proof fn law_terabox_links_by_host(link: LinkView)
    requires
        link.domain matches Some(domain) ==> is_ascii_chars(domain),
    ensures
        terabox_link(link) <==> (link.domain matches Some(domain) && exists|k: int|
            0 <= k < 7 && name_in(domain, #[trigger] terabox_names()[k])),
{
    if let Some(domain) = link.domain {
        let names = terabox_names();
        let low = lower(domain);
        law_terabox_hosts(low);
        if terabox_link(link) {
            let (k, a, b) = choose|k: int, a: Seq<char>, b: Seq<char>|
                0 <= k < 7 && low == #[trigger] (a + names[k] + b);
            let i = a.len() as int;
            let j = i + names[k].len();
            let name = domain.subrange(i, j);
            lemma_names_are_lower(k);
            assert(lower(name) =~= names[k]) by {
                assert forall|n: int| 0 <= n < name.len() implies lower(name)[n] == names[k][n] by {
                    assert(low[i + n] == names[k][n]);
                    assert(name[n] == domain[i + n]);
                }
            }
            law_lower_case(name, names[k]);
            assert(domain =~= domain.take(i) + name + domain.skip(j));
        }
        if exists|k: int| 0 <= k < 7 && name_in(domain, #[trigger] names[k]) {
            let k = choose|k: int| 0 <= k < 7 && name_in(domain, #[trigger] names[k]);
            let (a, name, b) = choose|a: Seq<char>, name: Seq<char>, b: Seq<char>|
                same_but_case(name, names[k]) && domain == #[trigger] (a + name + b);
            lemma_names_are_lower(k);
            assert(is_ascii_chars(name)) by {
                assert forall|n: int| 0 <= n < name.len() implies '\0' <= #[trigger] name[n]
                    <= '\u{7f}' by {
                    assert(name[n] == domain[a.len() + n]);
                }
            }
            assert(is_ascii_chars(a)) by {
                assert forall|n: int| 0 <= n < a.len() implies '\0' <= #[trigger] a[n] <= '\u{7f}' by {
                    assert(a[n] == domain[n]);
                }
            }
            assert(is_ascii_chars(b)) by {
                assert forall|n: int| 0 <= n < b.len() implies '\0' <= #[trigger] b[n] <= '\u{7f}' by {
                    assert(b[n] == domain[a.len() + name.len() + n]);
                }
            }
            law_lower_case(name, names[k]);
            assert(low =~= lower(a) + names[k] + lower(b));
        }
    }
}

/// The lower case of a link's domain alone decides whether it is one of Terabox: not
/// the rest of the URL, and not the case of the domain.
pub proof fn law_only_the_domain_counts(link: LinkView, other: LinkView)
    ensures
        link.domain is None ==> !terabox_link(link),
        link.domain matches Some(domain) ==> (terabox_link(link) <==> terabox_domain(lower(domain))),
        link.domain == other.domain ==> terabox_link(link) == terabox_link(other),
{
}

/// What makes a text the URL of a Terabox file: it is a URL, and a Terabox link.
pub proof fn law_terabox_texts(text: Seq<char>)
    ensures
        terabox_text(text) <==> (url_parse(text) matches Ok(link) && terabox_link(link)),
{
}

// ---------------------------------------------------------------------------
// Texts side by side

proof fn lemma_run_end_left(a: Seq<char>, w: char, b: Seq<char>, i: int)
    requires
        white_space(w),
        0 <= i <= a.len(),
    ensures
        run_end(a.push(w) + b, i) == run_end(a, i),
    decreases a.len() - i,
{
    let s = a.push(w) + b;
    if i < a.len() {
        assert(s[i] == a[i]);
        lemma_run_end_left(a, w, b, i + 1);
    } else {
        assert(s[i] == w);
    }
}

proof fn lemma_run_end_right(front: Seq<char>, b: Seq<char>, i: int)
    requires
        0 <= i <= b.len(),
    ensures
        run_end(front + b, front.len() + i) == front.len() + run_end(b, i),
    decreases b.len() - i,
{
    let s = front + b;
    if i < b.len() {
        assert(s[front.len() + i] == b[i]);
        lemma_run_end_right(front, b, i + 1);
        assert(front.len() + (i + 1) == front.len() + i + 1);
    }
}

proof fn lemma_occurs_left(a: Seq<char>, w: char, b: Seq<char>, p: Seq<char>, i: int)
    requires
        white_space(w),
        0 <= i <= a.len(),
        p.len() > 0,
        forall|j: int| 0 <= j < p.len() ==> !white_space(#[trigger] p[j]),
    ensures
        occurs_at(a.push(w) + b, p, i) == occurs_at(a, p, i),
{
    let s = a.push(w) + b;
    if i + p.len() <= a.len() {
        assert(s.subrange(i, i + p.len()) == a.subrange(i, i + p.len()));
    } else if occurs_at(s, p, i) {
        assert(s.subrange(i, i + p.len())[a.len() - i] == w);
        assert(white_space(p[a.len() - i]));
    }
}

proof fn lemma_occurs_right(front: Seq<char>, b: Seq<char>, p: Seq<char>, i: int)
    requires
        0 <= i,
    ensures
        occurs_at(front + b, p, front.len() + i) == occurs_at(b, p, i),
{
    let s = front + b;
    if i + p.len() <= b.len() {
        assert(s.subrange(front.len() + i, front.len() + i + p.len()) == b.subrange(i, i + p.len()));
    }
}

proof fn lemma_link_end_left(a: Seq<char>, w: char, b: Seq<char>, i: int)
    requires
        white_space(w),
        0 <= i <= a.len(),
    ensures
        link_end(a.push(w) + b, i) == link_end(a, i),
{
    lemma_scheme_chars();
    lemma_occurs_left(a, w, b, "https://"@, i);
    lemma_occurs_left(a, w, b, "http://"@, i);
    lemma_run_end_left(a, w, b, i + scheme_length(a, i));
}

proof fn lemma_link_end_right(front: Seq<char>, b: Seq<char>, i: int)
    requires
        0 <= i <= b.len(),
    ensures
        link_end(front + b, front.len() + i) == front.len() + link_end(b, i),
{
    lemma_scheme_chars();
    lemma_occurs_right(front, b, "https://"@, i);
    lemma_occurs_right(front, b, "http://"@, i);
    let n = scheme_length(b, i);
    assert(front.len() + i + n == front.len() + (i + n));
    lemma_run_end_right(front, b, i + n);
}

proof fn lemma_matches_right(front: Seq<char>, b: Seq<char>, i: int)
    requires
        0 <= i <= b.len(),
    ensures
        link_matches(front + b, front.len() + i) == link_matches(b, i),
    decreases b.len() - i,
{
    let s = front + b;
    let at = front.len() + i;
    if i < b.len() {
        lemma_link_end_right(front, b, i);
        lemma_link_end(b, i);
        let end = link_end(b, i);
        if end > i {
            lemma_matches_right(front, b, end);
            assert(s.subrange(at, front.len() + end) == b.subrange(i, end));
        } else {
            lemma_matches_right(front, b, i + 1);
            assert(front.len() + (i + 1) == at + 1);
        }
    }
}

proof fn lemma_matches_left(a: Seq<char>, w: char, b: Seq<char>, i: int)
    requires
        white_space(w),
        0 <= i <= a.len(),
    ensures
        link_matches(a.push(w) + b, i) == link_matches(a, i) + link_matches(b, 0),
    decreases a.len() - i,
{
    let s = a.push(w) + b;
    lemma_link_end_left(a, w, b, i);
    lemma_link_end(a, i);
    let end = link_end(a, i);
    let rest = link_matches(b, 0);
    if i == a.len() {
        lemma_matches_right(a.push(w), b, 0);
        assert(link_matches(s, i) == link_matches(s, i + 1));
        assert(link_matches(a, i) + rest == rest);
    } else if end > i {
        lemma_matches_left(a, w, b, end);
        assert(s.subrange(i, end) == a.subrange(i, end));
        assert(seq![a.subrange(i, end)] + (link_matches(a, end) + rest) == (seq![a.subrange(i, end)]
            + link_matches(a, end)) + rest);
    } else {
        lemma_matches_left(a, w, b, i + 1);
    }
}

/// The links of two texts with white space between them are the links of the one and
/// then those of the other: no link hides another.
pub proof fn law_links_of_texts_side_by_side(a: Seq<char>, w: char, b: Seq<char>)
    requires
        white_space(w),
    ensures
        terabox_links(a.push(w) + b) == terabox_links(a) + terabox_links(b),
{
    lemma_matches_left(a, w, b, 0);
    Seq::filter_distributes_over_add(
        link_matches(a, 0),
        link_matches(b, 0),
        |t: Seq<char>| terabox_text(t),
    );
}

proof fn lemma_links_of_joined(links: Seq<Seq<char>>, w: char)
    requires
        white_space(w),
        forall|i: int|
            0 <= i < links.len() ==> has_scheme(#[trigger] links[i]) && terabox_text(links[i]),
        forall|i: int, j: int|
            0 <= i < links.len() && 0 <= j < links[i].len() ==> !white_space(#[trigger] links[i][j]),
    ensures
        terabox_links(joined(links, w)) == links,
    decreases links.len(),
{
    if links.len() == 0 {
        link_matches(joined(links, w), 0).lemma_filter_len(|t: Seq<char>| terabox_text(t));
    } else {
        let last = links.last();
        assert(last == links[links.len() - 1]);
        assert forall|j: int| 0 <= j < last.len() implies !white_space(#[trigger] last[j]) by {
            assert(!white_space(links[links.len() - 1][j]));
        }
        law_a_link_alone_is_found(last);
        if links.len() == 1 {
            assert(seq![last] == links);
        } else {
            let front = links.drop_last();
            assert forall|i: int| 0 <= i < front.len() implies has_scheme(#[trigger] front[i])
                && terabox_text(front[i]) by {
                assert(front[i] == links[i]);
            }
            assert forall|i: int, j: int|
                0 <= i < front.len() && 0 <= j < front[i].len() implies !white_space(
                #[trigger] front[i][j],
            ) by {
                assert(!white_space(links[i][j]));
            }
            lemma_links_of_joined(front, w);
            law_links_of_texts_side_by_side(joined(front, w), w, last);
            assert(front + seq![last] == links);
        }
    }
}

/// The links that are found in a text, written one after the other with white space
/// between them, are found again: the same ones in the same order.
pub proof fn law_found_links_are_found_again(text: Seq<char>, w: char)
    requires
        white_space(w),
    ensures
        terabox_links(joined(terabox_links(text), w)) == terabox_links(text),
{
    let links = terabox_links(text);
    assert forall|i: int| 0 <= i < links.len() implies has_scheme(#[trigger] links[i]) && terabox_text(
        links[i],
    ) by {
        law_found_links(text, i);
    }
    assert forall|i: int, j: int|
        0 <= i < links.len() && 0 <= j < links[i].len() implies !white_space(
        #[trigger] links[i][j],
    ) by {
        law_found_links(text, i);
    }
    lemma_links_of_joined(links, w);
}

// ---------------------------------------------------------------------------
// The service's reply

/// The service is asked at its address about exactly the link that is looked up: the
/// query has one parameter, and that is the link, whole and unchanged. So two links are
/// never asked about with one request. The headers are the same for every link.
pub proof fn law_requests_carry_the_link(link: Seq<char>, other: Seq<char>)
    ensures
        stream_link_request_for(link).url == "https://teradl.in/api/teradl.php"@,
        stream_link_request_for(link).query.len() == 1,
        stream_link_request_for(link).query[0].0 == "url"@,
        stream_link_request_for(link).query[0].1 == link,
        stream_link_request_for(link).headers == stream_link_request_for(other).headers,
        stream_link_request_for(link) == stream_link_request_for(other) ==> link == other,
{
    assert(stream_link_request_for(link).query[0].1 == link);
    assert(stream_link_request_for(other).query[0].1 == other);
}

/// The headers of a request are nine, each of them once.
pub proof fn law_request_headers(link: Seq<char>)
    ensures
        ({
            let headers = stream_link_request_for(link).headers;
            &&& headers.len() == 9
            &&& headers.contains(
                (
                    "User-Agent"@,
                    "Mozilla/5.0 (Windows NT 10.0; Win64; x64) AppleWebKit/537.36 (KHTML, like Gecko) Chrome/138.0.0.0 Safari/537.36"@,
                ),
            )
            &&& headers.contains(("Accept"@, "*/*"@))
            &&& headers.contains(("Referer"@, "https://teradl.in/"@))
            &&& headers.contains(("Accept-Encoding"@, "gzip, deflate, br, zstd"@))
            &&& headers.contains(("Accept-Language"@, "en-US,en;q=0.5"@))
            &&& headers.contains(("Sec-Fetch-Site"@, "same-origin"@))
            &&& headers.contains(("Sec-Fetch-Mode"@, "cors"@))
            &&& headers.contains(("Sec-Fetch-Dest"@, "empty"@))
            &&& headers.contains(("Sec-GPC"@, "1"@))
        }),
{
    let headers = stream_link_request_for(link).headers;
    assert(headers[0].0 == "User-Agent"@ && headers[1].0 == "Accept"@ && headers[2].0 == "Referer"@);
    assert(headers[3].0 == "Accept-Encoding"@ && headers[4].0 == "Accept-Language"@);
    assert(headers[5].0 == "Sec-Fetch-Site"@ && headers[6].0 == "Sec-Fetch-Mode"@);
    assert(headers[7].0 == "Sec-Fetch-Dest"@ && headers[8].0 == "Sec-GPC"@);
}

/// A reply whose status reports success says what its body says, whichever status of
/// success it is: an error where the body is no JSON, word for word; else the address
/// that the member `proxy_url` holds, whole and unchanged, where `success` is `true`.
pub proof fn law_successful_replies(status: u16, body: Seq<u8>)
    requires
        200 <= status < 300,
    ensures
        match json_members(body, "success"@, "proxy_url"@) {
            Err(message) => reply_link(status, body) == Err::<Option<Seq<char>>, Seq<char>>(message),
            Ok((Some(JsonView::Bool(true)), Some(JsonView::Text(address)))) => reply_link(status, body)
                == Ok::<Option<Seq<char>>, Seq<char>>(Some(address)),
            Ok(_) => reply_link(status, body) == Ok::<Option<Seq<char>>, Seq<char>>(None),
        },
{
}

/// A reply whose status reports no success gives no address, whatever its body says.
pub proof fn law_unsuccessful_replies_give_nothing(status: u16, body: Seq<u8>)
    requires
        !(200 <= status < 300),
    ensures
        reply_link(status, body) == Ok::<Option<Seq<char>>, Seq<char>>(None),
{
}

/// The address of a reply is taken only where the reply reports success with the JSON
/// value `true`, and only from a string.
pub proof fn law_address_needs_success(success: Option<JsonView>, proxy_url: Option<JsonView>)
    ensures
        proxy_link(success, proxy_url) is Some <==> success == Some(JsonView::Bool(true))
            && proxy_url is Some && proxy_url->0 is Text,
        proxy_link(success, proxy_url) matches Some(address) ==> proxy_url == Some(
            JsonView::Text(address),
        ),
{
}

} // verus!
