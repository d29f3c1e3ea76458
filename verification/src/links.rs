//! Links: what a URL holds, which ones point to Terabox, and how the address of a
//! Terabox file is asked for.

use vstd::prelude::*;
use vstd::utf8::is_ascii_chars;

use crate::external::{
    ascii_lowercase, find_all, json_members, json_view, link_matches, lower, members_of,
    parse_url, url_parse, LINK_PATTERN,
};
use crate::text::{chars_of, contains, has_substring, opt_text, texts};

verus! {

/// The parts of a parsed URL that the bot reads.
#[derive(Debug)]
pub struct Link {
    /// The whole URL.
    pub text: String,
    /// The host, where it is a domain name.
    pub domain: Option<String>,
}

/// The value of a [`Link`].
pub ghost struct LinkView {
    pub text: Seq<char>,
    pub domain: Option<Seq<char>>,
}

impl View for Link {
    type V = LinkView;

    open spec fn view(&self) -> LinkView {
        LinkView { text: self.text@, domain: opt_text(self.domain) }
    }
}

/// A JSON value, as far as the bot reads it.
#[derive(Debug)]
pub enum Json {
    Bool(bool),
    Text(String),
    /// A value of any other kind.
    Other,
}

/// The value of a [`Json`].
pub ghost enum JsonView {
    Bool(bool),
    Text(Seq<char>),
    Other,
}

impl View for Json {
    type V = JsonView;

    open spec fn view(&self) -> JsonView {
        match self {
            Json::Bool(b) => JsonView::Bool(*b),
            Json::Text(s) => JsonView::Text(s@),
            Json::Other => JsonView::Other,
        }
    }
}

// ---------------------------------------------------------------------------
// Terabox links

/// A domain, in lower case, that belongs to Terabox: it holds one of the service's
/// names anywhere.
pub open spec fn terabox_domain(domain: Seq<char>) -> bool {
    ||| has_substring(domain, "terabox"@)
    ||| has_substring(domain, "1024tera"@)
    ||| has_substring(domain, "4funbox"@)
    ||| has_substring(domain, "mirrobox"@)
    ||| has_substring(domain, "nephobox"@)
    ||| has_substring(domain, "terasharelink"@)
    ||| has_substring(domain, "terafileshare"@)
}

/// A link whose host is a domain of Terabox, in any case.
pub open spec fn terabox_link(link: LinkView) -> bool {
    match link.domain {
        Some(domain) => terabox_domain(lower(domain)),
        None => false,
    }
}

/// A text that is the URL of a Terabox file.
pub open spec fn terabox_text(text: Seq<char>) -> bool {
    match url_parse(text) {
        Ok(link) => terabox_link(link),
        Err(_) => false,
    }
}

/// The Terabox links of a text, in their order.
pub open spec fn terabox_links(text: Seq<char>) -> Seq<Seq<char>> {
    link_matches(text, 0).filter(|t: Seq<char>| terabox_text(t))
}

/// Whether a domain in lower case belongs to Terabox.
pub fn is_terabox_domain(domain: &str) -> (r: bool)
    ensures
        r == terabox_domain(domain@),
{
    let domain: Vec<char> = chars_of(domain);
    contains(&domain, &chars_of("terabox")) || contains(&domain, &chars_of("1024tera"))
        || contains(&domain, &chars_of("4funbox")) || contains(&domain, &chars_of("mirrobox"))
        || contains(&domain, &chars_of("nephobox")) || contains(
        &domain,
        &chars_of("terasharelink"),
    ) || contains(&domain, &chars_of("terafileshare"))
}

/// Whether a link is one of Terabox. The case of the domain does not matter.
pub fn is_terabox_url(link: &Link) -> (r: bool)
    ensures
        r == terabox_link(link@),
        link@.domain matches Some(domain) ==> is_ascii_chars(domain) ==> r == terabox_domain(
            domain.map_values(|c: char| ascii_lowercase(c)),
        ),
{
    match &link.domain {
        Some(domain) => {
            let domain: String = domain.to_lowercase();
            is_terabox_domain(domain.as_str())
        },
        None => false,
    }
}

/// The candidates that are wanted, in their order.
pub fn select_links(candidates: Vec<String>, wanted: &Vec<bool>) -> (r: Vec<String>)
    requires
        candidates@.len() == wanted@.len(),
    ensures
        texts(r@) == selected(texts(candidates@), wanted@),
{
    let mut r: Vec<String> = Vec::new();
    let ghost all = texts(candidates@);
    for i in 0..candidates.len()
        invariant
            all == texts(candidates@),
            candidates@.len() == wanted@.len(),
            texts(r@) == selected(all.take(i as int), wanted@.take(i as int)),
    {
        proof {
            assert(all.take(i + 1).drop_last() == all.take(i as int));
            assert(wanted@.take(i + 1).drop_last() == wanted@.take(i as int));
            assert(all.take(i + 1).last() == candidates@[i as int]@);
        }
        let ghost before = r@;
        if wanted[i] {
            r.push(candidates[i].clone());
            assert(texts(r@) == texts(before).push(candidates@[i as int]@));
        }
    }
    proof {
        assert(all.take(all.len() as int) == all);
        assert(wanted@.take(all.len() as int) == wanted@);
    }
    r
}

/// The elements of `list` whose flag is set, in their order.
pub open spec fn selected(list: Seq<Seq<char>>, wanted: Seq<bool>) -> Seq<Seq<char>>
    decreases list.len(),
{
    if list.len() == 0 {
        Seq::empty()
    } else {
        let before = selected(list.drop_last(), wanted.drop_last());
        if wanted.last() {
            before.push(list.last())
        } else {
            before
        }
    }
}

proof fn lemma_selected_is_filter(
    list: Seq<Seq<char>>,
    wanted: Seq<bool>,
    p: spec_fn(Seq<char>) -> bool,
)
    requires
        list.len() == wanted.len(),
        forall|i: int| 0 <= i < list.len() ==> #[trigger] wanted[i] == p(list[i]),
    ensures
        selected(list, wanted) == list.filter(p),
    decreases list.len(),
{
    reveal(Seq::filter);
    if list.len() > 0 {
        lemma_selected_is_filter(list.drop_last(), wanted.drop_last(), p);
        assert(wanted[list.len() - 1] == p(list[list.len() - 1]));
    }
}

/// The Terabox links of a text, in their order.
pub fn extract_terabox_links(text: &str) -> (r: Vec<String>)
    ensures
        texts(r@) == terabox_links(text@),
{
    let candidates: Vec<String> = find_all(LINK_PATTERN, text);
    let ghost all = link_matches(text@, 0);
    let mut wanted: Vec<bool> = Vec::new();
    for i in 0..candidates.len()
        invariant
            texts(candidates@) == all,
            wanted@.len() == i,
            forall|j: int| 0 <= j < i ==> #[trigger] wanted@[j] == terabox_text(all[j]),
    {
        assert(all[i as int] == candidates@[i as int]@);
        let is_wanted: bool = match parse_url(candidates[i].as_str()) {
            Ok(link) => is_terabox_url(&link),
            Err(_) => false,
        };
        wanted.push(is_wanted);
    }
    proof {
        lemma_selected_is_filter(all, wanted@, |t: Seq<char>| terabox_text(t));
    }
    select_links(candidates, &wanted)
}

// ---------------------------------------------------------------------------
// The service that resolves Terabox links

/// What the bot calls itself when it speaks HTTP.
pub const USER_AGENT: &'static str = "Mozilla/5.0 (Windows NT 10.0; Win64; x64) AppleWebKit/537.36 (KHTML, like Gecko) Chrome/138.0.0.0 Safari/537.36";

/// The address of the service.
pub const API_URL: &'static str = "https://teradl.in/api/teradl.php";

/// A GET request.
#[derive(Debug)]
pub struct ApiRequest {
    pub url: String,
    /// The parameters of the query, not yet encoded.
    pub query: Vec<(String, String)>,
    pub headers: Vec<(String, String)>,
}

/// The value of an [`ApiRequest`].
pub ghost struct ApiRequestView {
    pub url: Seq<char>,
    pub query: Seq<(Seq<char>, Seq<char>)>,
    pub headers: Seq<(Seq<char>, Seq<char>)>,
}

/// The texts of a list of pairs.
pub open spec fn pairs(list: Seq<(String, String)>) -> Seq<(Seq<char>, Seq<char>)> {
    list.map_values(|p: (String, String)| (p.0@, p.1@))
}

impl View for ApiRequest {
    type V = ApiRequestView;

    open spec fn view(&self) -> ApiRequestView {
        ApiRequestView { url: self.url@, query: pairs(self.query@), headers: pairs(self.headers@) }
    }
}

/// The request that asks the service for the file behind a Terabox link.
pub open spec fn stream_link_request_for(link: Seq<char>) -> ApiRequestView {
    ApiRequestView {
        url: API_URL@,
        query: seq![("url"@, link)],
        headers: seq![
            ("User-Agent"@, USER_AGENT@),
            ("Accept"@, "*/*"@),
            ("Referer"@, "https://teradl.in/"@),
            ("Accept-Encoding"@, "gzip, deflate, br, zstd"@),
            ("Accept-Language"@, "en-US,en;q=0.5"@),
            ("Sec-Fetch-Site"@, "same-origin"@),
            ("Sec-Fetch-Mode"@, "cors"@),
            ("Sec-Fetch-Dest"@, "empty"@),
            ("Sec-GPC"@, "1"@),
        ],
    }
}

fn add_pair(list: &mut Vec<(String, String)>, name: &str, value: &str)
    ensures
        pairs(final(list)@) == pairs(old(list)@).push((name@, value@)),
{
    list.push((name.to_owned(), value.to_owned()));
    assert(pairs(list@) == pairs(old(list)@).push((name@, value@)));
}

/// The request that asks the service for the file behind a Terabox link.
pub fn stream_link_request(link: &str) -> (r: ApiRequest)
    ensures
        r@ == stream_link_request_for(link@),
{
    let mut query: Vec<(String, String)> = Vec::new();
    add_pair(&mut query, "url", link);
    let mut headers: Vec<(String, String)> = Vec::new();
    add_pair(&mut headers, "User-Agent", USER_AGENT);
    add_pair(&mut headers, "Accept", "*/*");
    add_pair(&mut headers, "Referer", "https://teradl.in/");
    add_pair(&mut headers, "Accept-Encoding", "gzip, deflate, br, zstd");
    add_pair(&mut headers, "Accept-Language", "en-US,en;q=0.5");
    add_pair(&mut headers, "Sec-Fetch-Site", "same-origin");
    add_pair(&mut headers, "Sec-Fetch-Mode", "cors");
    add_pair(&mut headers, "Sec-Fetch-Dest", "empty");
    add_pair(&mut headers, "Sec-GPC", "1");
    proof {
        assert(pairs(query@) == stream_link_request_for(link@).query);
        assert(pairs(headers@) == stream_link_request_for(link@).headers);
    }
    ApiRequest { url: API_URL.to_owned(), query, headers }
}

/// A status code that reports success.
pub open spec fn success_status(status: u16) -> bool {
    200 <= status < 300
}

/// Whether a status code reports success.
pub fn is_success(status: u16) -> (r: bool)
    ensures
        r == success_status(status),
{
    200 <= status && status < 300
}

/// The file's address in a reply with these members `success` and `proxy_url`: only
/// where the first is `true` and the second a string.
pub open spec fn proxy_link(success: Option<JsonView>, proxy_url: Option<JsonView>) -> Option<Seq<char>> {
    match (success, proxy_url) {
        (Some(JsonView::Bool(true)), Some(JsonView::Text(url))) => Some(url),
        _ => None,
    }
}

/// The file's address in a reply with these members `success` and `proxy_url`.
pub fn proxy_link_of(success: Option<Json>, proxy_url: Option<Json>) -> (r: Option<String>)
    ensures
        opt_text(r) == proxy_link(json_view(success), json_view(proxy_url)),
{
    match success {
        Some(Json::Bool(true)) => match proxy_url {
            Some(Json::Text(url)) => Some(url),
            _ => None,
        },
        _ => None,
    }
}

/// What the service's reply says of the file's address: nothing where the status
/// reports no success, an error where the body is no JSON.
pub open spec fn reply_link(status: u16, body: Seq<u8>) -> Result<Option<Seq<char>>, Seq<char>> {
    if !success_status(status) {
        Ok(None)
    } else {
        match json_members(body, "success"@, "proxy_url"@) {
            Ok((success, proxy_url)) => Ok(proxy_link(success, proxy_url)),
            Err(message) => Err(message),
        }
    }
}

/// The view of the outcome of resolving a link.
pub open spec fn resolution_view(r: Result<Option<String>, String>) -> Result<Option<Seq<char>>, Seq<char>> {
    match r {
        Ok(link) => Ok(opt_text(link)),
        Err(message) => Err(message@),
    }
}

/// What the service's reply says of the file's address.
pub fn final_stream_link(status: u16, body: &[u8]) -> (r: Result<Option<String>, String>)
    ensures
        resolution_view(r) == reply_link(status, body@),
{
    if !is_success(status) {
        return Ok(None);
    }
    match members_of(body, "success", "proxy_url") {
        Ok((success, proxy_url)) => Ok(proxy_link_of(success, proxy_url)),
        Err(message) => Err(message),
    }
}

} // verus!
