//! The name, the size and the kind of a downloaded file, read from the head of the
//! HTTP response that brings it.

use vstd::prelude::*;
use vstd::utf8::{decode_utf8, encode_utf8, is_ascii_chars, valid_utf8};

use crate::external::{
    ascii_lowercase, decoding_error, extensions_of, header_text, lower, lowercase, media_extensions,
    percent_decode, percent_decoded, visible_ascii,
};
use crate::text::{
    chars_of, cut, ends_with, opt_text, pieces, result_text, split, starts_with, string_of,
    strip_prefixes, texts, trim, trimmed, without_prefixes, Class,
};

verus! {

/// What the bot reads of the head of a response.
#[derive(Debug)]
pub struct ResponseHead {
    /// The length of the body, where the server announced it.
    pub content_length: Option<u64>,
    /// The bytes of the header `content-disposition`.
    pub content_disposition: Option<Vec<u8>>,
    /// The bytes of the header `content-type`.
    pub content_type: Option<Vec<u8>>,
    /// The path of the URL that the response came from, still percent-encoded.
    pub path: String,
}

/// The value of a [`ResponseHead`].
pub ghost struct ResponseHeadView {
    pub content_length: Option<u64>,
    pub content_disposition: Option<Seq<u8>>,
    pub content_type: Option<Seq<u8>>,
    pub path: Seq<char>,
}

/// The bytes of a header that may be absent.
pub open spec fn opt_bytes(value: Option<Vec<u8>>) -> Option<Seq<u8>> {
    match value {
        Some(bytes) => Some(bytes@),
        None => None,
    }
}

impl View for ResponseHead {
    type V = ResponseHeadView;

    open spec fn view(&self) -> ResponseHeadView {
        ResponseHeadView {
            content_length: self.content_length,
            content_disposition: opt_bytes(self.content_disposition),
            content_type: opt_bytes(self.content_type),
            path: self.path@,
        }
    }
}

// ---------------------------------------------------------------------------
// Headers

/// The text of a header, where it is there and all its bytes are visible ASCII.
pub open spec fn header_value(value: Option<Seq<u8>>) -> Option<Seq<char>> {
    match value {
        Some(bytes) => if forall|i: int|
            0 <= i < bytes.len() ==> visible_ascii(#[trigger] bytes[i]) {
            Some(Seq::new(bytes.len(), |i: int| bytes[i] as char))
        } else {
            None
        },
        None => None,
    }
}

/// The text of a header, where it is there and all its bytes are visible ASCII.
pub fn header_value_of(value: &Option<Vec<u8>>) -> (r: Option<String>)
    ensures
        opt_text(r) == header_value(opt_bytes(*value)),
{
    match value {
        Some(bytes) => header_text(bytes.as_slice()),
        None => None,
    }
}

/// The first of the parts that, trimmed, starts with `filename=`.
pub open spec fn filename_part(parts: Seq<Seq<char>>) -> Option<Seq<char>>
    decreases parts.len(),
{
    if parts.len() == 0 {
        None
    } else {
        let part = trimmed(parts.first(), Class::WhiteSpace);
        if "filename="@.is_prefix_of(part) {
            Some(part)
        } else {
            filename_part(parts.drop_first())
        }
    }
}

/// The file name in the text of a `content-disposition` header: the value of its
/// first `filename=` part, without the quotes around it.
pub open spec fn disposition_name(header: Seq<char>) -> Option<Seq<char>> {
    match filename_part(pieces(header, ';')) {
        Some(part) => Some(trimmed(without_prefixes(part, "filename="@), Class::Only('"'))),
        None => None,
    }
}

/// The file name in the text of a `content-disposition` header.
pub fn disposition_name_of(header: &str) -> (r: Option<String>)
    ensures
        opt_text(r) == disposition_name(header@),
{
    let parts: Vec<Vec<char>> = split(&chars_of(header), ';');
    let prefix: Vec<char> = chars_of("filename=");
    let ghost all = pieces(header@, ';');
    let mut i: usize = 0;
    proof {
        assert(all.skip(0) == all);
    }
    while i < parts.len()
        invariant
            i <= parts@.len(),
            parts@.len() == all.len(),
            all == pieces(header@, ';'),
            prefix@ == "filename="@,
            forall|j: int| 0 <= j < parts@.len() ==> (#[trigger] parts@[j])@ == all[j],
            filename_part(all.skip(i as int)) == filename_part(all),
        decreases parts@.len() - i,
    {
        let part: Vec<char> = trim(&parts[i], Class::WhiteSpace);
        proof {
            assert(all.skip(i as int).first() == parts@[i as int]@);
            assert(all.skip(i as int).drop_first() == all.skip(i + 1));
        }
        if starts_with(&part, &prefix) {
            let value: Vec<char> = strip_prefixes(&part, &prefix);
            return Some(string_of(&trim(&value, Class::Only('"'))));
        }
        i = i + 1;
    }
    None
}

/// The file name that the header `content-disposition` gives.
pub open spec fn announced_name(head: ResponseHeadView) -> Option<Seq<char>> {
    match header_value(head.content_disposition) {
        Some(header) => disposition_name(header),
        None => None,
    }
}

/// The file name that the header `content-disposition` gives.
pub fn announced_name_of(head: &ResponseHead) -> (r: Option<String>)
    ensures
        opt_text(r) == announced_name(head@),
{
    match header_value_of(&head.content_disposition) {
        Some(header) => disposition_name_of(header.as_str()),
        None => None,
    }
}

// ---------------------------------------------------------------------------
// The URL's last segment

/// The last segment of a path that starts with a slash: what stands behind its last
/// slash.
pub open spec fn last_segment(path: Seq<char>) -> Option<Seq<char>> {
    if path.len() > 0 && path[0] == '/' {
        Some(pieces(path.skip(1), '/').last())
    } else {
        None
    }
}

/// The last segment of a path that starts with a slash.
pub fn last_segment_of(path: &str) -> (r: Option<String>)
    ensures
        opt_text(r) == last_segment(path@),
{
    let chars: Vec<char> = chars_of(path);
    if chars.len() > 0 && chars[0] == '/' {
        let rest: Vec<char> = cut(&chars, 1, chars.len());
        proof {
            assert(rest@ == path@.skip(1));
        }
        let segments: Vec<Vec<char>> = split(&rest, '/');
        Some(string_of(&segments[segments.len() - 1]))
    } else {
        None
    }
}

/// The segment as a file name: itself where it has a dot, else with the first of the
/// extensions of its media type.
pub open spec fn segment_name(segment: Seq<char>, extensions: Option<Seq<Seq<char>>>) -> Option<Seq<char>> {
    if segment.contains('.') {
        Some(segment)
    } else {
        match extensions {
            Some(list) => if list.len() > 0 {
                Some(segment + "."@ + list[0])
            } else {
                None
            },
            None => None,
        }
    }
}

/// The texts of a list that may be absent.
pub open spec fn opt_texts(list: Option<Vec<String>>) -> Option<Seq<Seq<char>>> {
    match list {
        Some(list) => Some(texts(list@)),
        None => None,
    }
}

/// Whether the text has the character.
fn has_char(s: &Vec<char>, c: char) -> (r: bool)
    ensures
        r == s@.contains(c),
{
    for i in 0..s.len()
        invariant
            forall|j: int| 0 <= j < i ==> s@[j] != c,
    {
        if s[i] == c {
            return true;
        }
    }
    false
}

/// The segment as a file name, with the extensions known for its media type.
pub fn segment_name_of(segment: &str, extensions: &Option<Vec<String>>) -> (r: Option<String>)
    ensures
        opt_text(r) == segment_name(segment@, opt_texts(*extensions)),
{
    if has_char(&chars_of(segment), '.') {
        return Some(segment.to_owned());
    }
    match extensions {
        Some(list) => {
            if list.len() > 0 {
                let first: &String = &list[0];
                Some(segment.to_owned().concat(".").concat(first.as_str()))
            } else {
                None
            }
        },
        None => None,
    }
}

/// The extensions of the media type that the header `content-type` names.
pub open spec fn announced_extensions(head: ResponseHeadView) -> Option<Seq<Seq<char>>> {
    match header_value(head.content_type) {
        Some(media_type) => media_extensions(media_type),
        None => None,
    }
}

/// The extensions of the media type that the header `content-type` names.
pub fn announced_extensions_of(head: &ResponseHead) -> (r: Option<Vec<String>>)
    ensures
        opt_texts(r) == announced_extensions(head@),
{
    match header_value_of(&head.content_type) {
        Some(media_type) => extensions_of(media_type.as_str()),
        None => None,
    }
}

// ---------------------------------------------------------------------------
// The name of an upload

/// The file name as the response gives it: announced, else taken from the URL, else
/// `file.bin`.
pub open spec fn raw_name(head: ResponseHeadView) -> Seq<char> {
    match announced_name(head) {
        Some(name) => name,
        None => match last_segment(head.path) {
            Some(segment) => match segment_name(segment, announced_extensions(head)) {
                Some(name) => name,
                None => "file.bin"@,
            },
            None => "file.bin"@,
        },
    }
}

/// The file name as the response gives it.
pub fn raw_name_of(head: &ResponseHead) -> (r: String)
    ensures
        r@ == raw_name(head@),
{
    match announced_name_of(head) {
        Some(name) => name,
        None => match last_segment_of(head.path.as_str()) {
            Some(segment) => {
                let extensions: Option<Vec<String>> = announced_extensions_of(head);
                match segment_name_of(segment.as_str(), &extensions) {
                    Some(name) => name,
                    None => "file.bin".to_owned(),
                }
            },
            None => "file.bin".to_owned(),
        },
    }
}

/// A name with its percent-encoding undone, or the error that this gives no UTF-8.
pub open spec fn decoded_name(name: Seq<char>) -> Result<Seq<char>, Seq<char>> {
    let bytes = percent_decoded(encode_utf8(name));
    if valid_utf8(bytes) {
        Ok(decode_utf8(bytes))
    } else {
        Err(decoding_error(name))
    }
}

/// The name under which the file of a response is uploaded, or the error that its
/// percent-encoding is not that of a text.
pub open spec fn upload_name(head: ResponseHeadView) -> Result<Seq<char>, Seq<char>> {
    decoded_name(raw_name(head))
}

/// The name under which the file of a response is uploaded.
pub fn upload_name_of(head: &ResponseHead) -> (r: Result<String, String>)
    ensures
        result_text(r) == upload_name(head@),
{
    percent_decode(raw_name_of(head).as_str())
}

/// The name under which the file of a response is put into the store channel:
/// announced, else the last segment of the URL, as it stands there.
pub open spec fn stored_name(head: ResponseHeadView) -> Option<Seq<char>> {
    match announced_name(head) {
        Some(name) => Some(name),
        None => last_segment(head.path),
    }
}

/// The name under which the file of a response is put into the store channel.
pub fn extract_filename_from_response(head: &ResponseHead) -> (r: Option<String>)
    ensures
        opt_text(r) == stored_name(head@),
{
    match announced_name_of(head) {
        Some(name) => Some(name),
        None => last_segment_of(head.path.as_str()),
    }
}

// ---------------------------------------------------------------------------
// Kind and size

/// A file name, in lower case, of an MP4 video.
pub open spec fn video_name(name: Seq<char>) -> bool {
    ".mp4"@.is_suffix_of(name)
}

/// Whether a file name in lower case is that of an MP4 video.
pub fn is_video_name(name: &str) -> (r: bool)
    ensures
        r == video_name(name@),
{
    ends_with(&chars_of(name), &chars_of(".mp4"))
}

/// The header `content-type` names an MP4 video.
pub open spec fn video_type(head: ResponseHeadView) -> bool {
    match header_value(head.content_type) {
        Some(media_type) => "video/mp4"@.is_prefix_of(media_type),
        None => false,
    }
}

/// Whether the header `content-type` names an MP4 video.
pub fn is_video_type(head: &ResponseHead) -> (r: bool)
    ensures
        r == video_type(head@),
{
    match header_value_of(&head.content_type) {
        Some(media_type) => starts_with(&chars_of(media_type.as_str()), &chars_of("video/mp4")),
        None => false,
    }
}

/// Whether a file of this name, in any case, is an MP4 video.
pub fn is_video_file(name: &str) -> (r: bool)
    ensures
        r == video_name(lower(name@)),
        r == video_name(lowercase(name@)),
        is_ascii_chars(name@) ==> r == video_name(name@.map_values(|c: char| ascii_lowercase(c))),
{
    let name: String = name.to_lowercase();
    is_video_name(name.as_str())
}

/// The length of the body; 0 where the server did not announce it, and the largest
/// `usize` where it is even larger.
pub open spec fn body_length(head: ResponseHeadView) -> usize {
    match head.content_length {
        Some(length) => if length <= usize::MAX {
            length as usize
        } else {
            usize::MAX
        },
        None => 0,
    }
}

/// The length of the body; 0 where the server did not announce it, and the largest
/// `usize` where it is even larger.
pub fn body_length_of(head: &ResponseHead) -> (r: usize)
    ensures
        r == body_length(head@),
{
    match head.content_length {
        Some(length) => if length <= usize::MAX as u64 {
            length as usize
        } else {
            usize::MAX
        },
        None => 0,
    }
}

/// The largest file that can be uploaded: 2 GiB.
pub const MAX_UPLOAD: usize = 2147483648;

/// Why a file of some length is not uploaded.
#[derive(Clone, Copy, Debug, PartialEq, Eq, Structural)]
pub enum SizeError {
    Empty,
    TooLarge,
}

/// Why a file of this length is not uploaded, if it is not.
pub open spec fn size_error(length: usize) -> Option<SizeError> {
    if length == 0 {
        Some(SizeError::Empty)
    } else if length > MAX_UPLOAD {
        Some(SizeError::TooLarge)
    } else {
        None
    }
}

/// Why a file of this length is not uploaded, if it is not.
pub fn size_error_of(length: usize) -> (r: Option<SizeError>)
    ensures
        r == size_error(length),
{
    if length == 0 {
        Some(SizeError::Empty)
    } else if length > MAX_UPLOAD {
        Some(SizeError::TooLarge)
    } else {
        None
    }
}

} // verus!
