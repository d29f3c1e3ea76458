use url_uploader::messages::{
    bad_proxy, caption, invalid_url, progress, progress_of, starting, uploaded, BUSY, CANCEL_DATA, WELCOME,
};
use url_uploader::text::{
    chars_of, contains, cut, ends_with, is_white_space, join, same_text, signed_decimal, split, starts_with, string_of,
    strip_prefixes, trim, unsigned_decimal, Class,
};

fn c(s: &str) -> Vec<char> {
    chars_of(s)
}

#[test]
fn characters() {
    assert_eq!(c("a\u{20AC}"), vec!['a', '\u{20AC}']);
    assert_eq!(string_of(&c("a\u{20AC}")), "a\u{20AC}");
    assert_eq!(string_of(&cut(&c("abcd"), 1, 3)), "bc");
    assert!(same_text("ab", "ab"));
    assert!(!same_text("ab", "aB"));
}

#[test]
fn white_space_is_that_of_unicode() {
    for u in 0u32..0x11_0000 {
        if let Some(ch) = char::from_u32(u) {
            assert_eq!(is_white_space(ch), ch.is_whitespace());
        }
    }
}

#[test]
fn searches() {
    for (s, p) in [("abcabc", "bca"), ("", ""), ("abc", ""), ("abc", "abcd"), ("aab", "ab"), ("ab", "x"), ("abab", "ab")] {
        assert_eq!(contains(&c(s), &c(p)), s.contains(p));
        assert_eq!(starts_with(&c(s), &c(p)), s.starts_with(p));
        assert_eq!(ends_with(&c(s), &c(p)), s.ends_with(p));
        if !p.is_empty() {
            assert_eq!(string_of(&strip_prefixes(&c(s), &c(p))), s.trim_start_matches(p));
        }
    }
}

#[test]
fn cuts() {
    for s in ["", ";", "a", "a;b", ";a;;b;", "a;b;c"] {
        let parts: Vec<String> = split(&c(s), ';').iter().map(string_of).collect();
        let expected: Vec<String> = s.split(';').map(|p| p.to_string()).collect();
        assert_eq!(parts, expected);
    }
    for s in ["", " ", " a ", "a b", "\u{3000}x\t\n", "\"\"a\"b\""] {
        assert_eq!(string_of(&trim(&c(s), Class::WhiteSpace)), s.trim());
        assert_eq!(string_of(&trim(&c(s), Class::Only('"'))), s.trim_matches('"'));
    }
}

#[test]
fn joined_parts() {
    let parts = vec!["a".to_string(), String::new(), "b".to_string()];
    assert_eq!(join(&parts, '\n'), "a\n\nb");
    assert_eq!(join(&Vec::new(), '\n'), "");
    let back: Vec<String> = split(&c(&join(&parts, '\n')), '\n').iter().map(string_of).collect();
    assert_eq!(back, parts);
}

#[test]
fn numbers() {
    for n in [0i64, 7, 10, 1234567890, -1, -10, i64::MAX, i64::MIN] {
        assert_eq!(signed_decimal(n), n.to_string());
    }
    assert_eq!(unsigned_decimal(u64::MAX), u64::MAX.to_string());
}

#[test]
fn progress_messages() {
    assert_eq!(
        progress_of("f", "12.50", "1 B", "2 B"),
        "⏳ Uploading <code>f</code> <b>(12.50%)</b>\n<i>1 B / 2 B</i>"
    );
    assert_eq!(
        progress("a.bin", "50.00", 512, 1023),
        "⏳ Uploading <code>a.bin</code> <b>(50.00%)</b>\n<i>512 B / 1023 B</i>"
    );
    assert_eq!(
        progress("a.bin", "50.00", 1024, 3 * 1024 * 1024),
        "⏳ Uploading <code>a.bin</code> <b>(50.00%)</b>\n<i>1.0 kiB / 3.0 MiB</i>"
    );
    assert_eq!(
        progress("a.bin", "0.00", 1587, 2_147_483_648),
        "⏳ Uploading <code>a.bin</code> <b>(0.00%)</b>\n<i>1.5 kiB / 2.0 GiB</i>"
    );
}

#[test]
fn other_messages() {
    assert_eq!(starting("f"), "🚀 Starting upload of <code>f</code>...");
    assert_eq!(uploaded("1.25"), "Uploaded in <b>1.25 secs</b>");
    assert_eq!(caption("f"), "File: f");
    assert_eq!(invalid_url("r"), "Invalid URL: r");
    assert_eq!(bad_proxy("r"), "❌ Failed to parse proxy URL: r");
    assert_eq!(CANCEL_DATA, "cancel");
    assert_eq!(BUSY, "✋ Whoa, slow down! There's already an active upload in this chat.");
    assert!(WELCOME.starts_with("📁 <b>Hi! Need a file uploaded? Just send the link!</b>\nIn groups, use <code>/upload &lt;url&gt;</code>\n\n🌟"));
    assert!(WELCOME.ends_with("\n\u{2022} Redirect-friendly\n\u{2022} <b>Terabox support</b>"));
}
