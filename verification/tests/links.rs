use url_uploader::bot::{request_text, request_upload, MessageAction};
use url_uploader::links::{
    extract_terabox_links, final_stream_link, is_success, is_terabox_domain, is_terabox_url, proxy_link_of,
    select_links, stream_link_request, Json, Link, API_URL, USER_AGENT,
};
use url_uploader::upload::{resolve, Resolution};

fn link(domain: Option<&str>) -> Link {
    Link { text: "https://x/".to_string(), domain: domain.map(|d| d.to_string()) }
}

#[test]
fn domains_of_terabox() {
    let domains = [
        "terabox.com",
        "www.1024tera.com",
        "4funbox.co",
        "mirrobox.com",
        "nephobox.com",
        "terasharelink.com",
        "terafileshare.com",
        "not-terabox-at-all.org",
    ];
    for domain in domains {
        assert!(is_terabox_domain(domain));
        assert!(is_terabox_url(&link(Some(domain))));
    }
    assert!(!is_terabox_domain("tera-box.com"));
    assert!(!is_terabox_domain(""));
}

#[test]
fn case_of_a_domain_does_not_matter() {
    assert!(!is_terabox_domain("TeraBox.com"));
    assert!(is_terabox_url(&link(Some("TeraBox.com"))));
    assert!(!is_terabox_url(&link(Some("Example.com"))));
}

#[test]
fn addresses_without_a_domain_are_not_terabox() {
    assert!(!is_terabox_url(&link(None)));
    assert_eq!(extract_terabox_links("http://127.0.0.1/terabox"), Vec::<String>::new());
}

#[test]
fn links_are_found_in_order() {
    let text = "one https://terabox.com/s/1abc, two\nhttp://example.com/terabox three\u{3000}https://www.1024tera.com/x?y=1";
    assert_eq!(
        extract_terabox_links(text),
        vec!["https://terabox.com/s/1abc,".to_string(), "https://www.1024tera.com/x?y=1".to_string()]
    );
}

#[test]
fn a_link_alone_is_found() {
    let text = "https://TERABOX.com/s/1";
    assert_eq!(extract_terabox_links(text), vec![text.to_string()]);
}

#[test]
fn texts_side_by_side() {
    let a = "see xhttps://terabox.com/1";
    let b = "and http://nephobox.com/2 https://";
    let both = format!("{} {}", a, b);
    let mut parts = extract_terabox_links(a);
    parts.extend(extract_terabox_links(b));
    assert_eq!(extract_terabox_links(&both), parts);
    assert_eq!(parts, vec!["https://terabox.com/1".to_string(), "http://nephobox.com/2".to_string()]);
}

#[test]
fn found_links_are_found_again() {
    let found = extract_terabox_links("a https://terabox.com/1, xhttp://nephobox.com/2 https://example.com/3");
    assert_eq!(found, vec!["https://terabox.com/1,".to_string(), "http://nephobox.com/2".to_string()]);
    for space in [" ", "\n", "\u{3000}"] {
        assert_eq!(extract_terabox_links(&found.join(space)), found);
    }
}

#[test]
fn texts_without_a_link() {
    assert_eq!(extract_terabox_links(""), Vec::<String>::new());
    assert_eq!(extract_terabox_links("terabox.com/s/1 ftp://terabox.com https:// http://"), Vec::<String>::new());
    assert_eq!(extract_terabox_links("HTTPS://terabox.com/1"), Vec::<String>::new());
}

#[test]
fn a_scheme_inside_a_link_starts_no_other() {
    assert_eq!(
        extract_terabox_links("https://terabox.com/?u=http://terabox.com"),
        vec!["https://terabox.com/?u=http://terabox.com".to_string()]
    );
    assert_eq!(extract_terabox_links("https://example.com/?u=http://terabox.com"), Vec::<String>::new());
}

#[test]
fn candidates_are_selected() {
    let candidates = vec!["a".to_string(), "b".to_string(), "c".to_string()];
    assert_eq!(select_links(candidates, &vec![true, false, true]), vec!["a".to_string(), "c".to_string()]);
}

#[test]
fn request_to_the_service() {
    let request = stream_link_request("https://terabox.com/s/1");
    assert_eq!(request.url, API_URL);
    assert_eq!(request.url, "https://teradl.in/api/teradl.php");
    assert_eq!(request.query, vec![("url".to_string(), "https://terabox.com/s/1".to_string())]);
    assert_eq!(request.headers.len(), 9);
    assert_eq!(request.headers[0], ("User-Agent".to_string(), USER_AGENT.to_string()));
    assert_eq!(request.headers[2], ("Referer".to_string(), "https://teradl.in/".to_string()));
    assert_eq!(request.headers[8], ("Sec-GPC".to_string(), "1".to_string()));
}

#[test]
fn statuses_of_success() {
    assert!(is_success(200));
    assert!(is_success(299));
    assert!(!is_success(199));
    assert!(!is_success(300));
}

#[test]
fn members_of_a_reply() {
    let text = || Some(Json::Text("https://p/".to_string()));
    assert_eq!(proxy_link_of(Some(Json::Bool(true)), text()), Some("https://p/".to_string()));
    assert_eq!(proxy_link_of(Some(Json::Bool(false)), text()), None);
    assert_eq!(proxy_link_of(Some(Json::Text("true".to_string())), text()), None);
    assert_eq!(proxy_link_of(None, text()), None);
    assert_eq!(proxy_link_of(Some(Json::Bool(true)), None), None);
    assert_eq!(proxy_link_of(Some(Json::Bool(true)), Some(Json::Other)), None);
}

#[test]
fn replies_of_the_service() {
    let good = b"{\"success\": true, \"proxy_url\": \"https://p/f.mp4\"}";
    assert_eq!(final_stream_link(200, good), Ok(Some("https://p/f.mp4".to_string())));
    assert_eq!(final_stream_link(404, good), Ok(None));
    assert_eq!(final_stream_link(200, b"{\"success\": false, \"proxy_url\": \"https://p/\"}"), Ok(None));
    assert_eq!(final_stream_link(200, b"{\"success\": 1, \"proxy_url\": \"https://p/\"}"), Ok(None));
    assert_eq!(final_stream_link(200, b"{\"success\": true, \"proxy_url\": null}"), Ok(None));
    assert_eq!(final_stream_link(200, b"[true]"), Ok(None));
    assert!(final_stream_link(200, b"<html>").is_err());
    assert_eq!(final_stream_link(500, b"<html>"), Ok(None));
}

#[test]
fn resolutions() {
    let reply = |url: &str| format!("{{\"success\": true, \"proxy_url\": \"{}\"}}", url).into_bytes();
    match resolve(200, &reply("https://p.example/a b")) {
        Resolution::Found(link) => {
            assert_eq!(link.text, "https://p.example/a%20b");
            assert_eq!(link.domain, Some("p.example".to_string()));
        }
        other => panic!("{:?}", other),
    }
    match resolve(200, &reply("p.mp4")) {
        Resolution::BadUrl(reason) => assert_eq!(reason, "relative URL without a base"),
        other => panic!("{:?}", other),
    }
    assert!(matches!(resolve(200, &b"{}".to_vec()), Resolution::NotFound));
    assert!(matches!(resolve(200, &b"{".to_vec()), Resolution::Failed));
}

#[test]
fn parsed_addresses() {
    match request_upload(Err("empty host".to_string())) {
        MessageAction::Reply { text, html } => {
            assert_eq!(text, "Invalid URL: empty host");
            assert!(!html);
        }
        other => panic!("{:?}", other),
    }
    assert!(matches!(request_upload(Ok(link(None))), MessageAction::Upload(_)));
    assert!(matches!(request_text(Err("empty host".to_string())), MessageAction::Ignore));
    assert!(matches!(request_text(Ok(link(None))), MessageAction::Upload(_)));
}
