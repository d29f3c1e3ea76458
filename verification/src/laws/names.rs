//! Laws of file names: which of the names that a response offers is taken, and what
//! is left of it.

use vstd::prelude::*;
use vstd::utf8::{
    char_is_scalar, decode_utf8_encode_utf8, encode_scalar, encode_utf8, encode_utf8_decode_utf8,
    encode_utf8_valid_utf8, has_width_1_encoding, is_ascii_chars, is_ascii_chars_encode_utf8,
    last_continuation_byte, leading_byte_width_1, leading_byte_width_2, leading_byte_width_3,
    leading_byte_width_4, second_last_continuation_byte, third_last_continuation_byte, valid_utf8,
};

use crate::external::{
    decoding_error, hex_value, lower, media_extensions, percent_decoded, visible_ascii,
};
use crate::filename::{
    announced_name, body_length, decoded_name, disposition_name, filename_part, header_value,
    last_segment, raw_name, size_error, stored_name, upload_name, video_name, video_type,
    ResponseHeadView, SizeError,
};
use crate::laws::texts::{law_lower_case, same_but_case};
use crate::text::{
    joined, lemma_pieces_of_joined, lemma_pieces_of_run, pieces, trimmed, trimmed_end,
    trimmed_start, white_space, without_prefixes, Class,
};

verus! {

/// A name in the header `content-disposition` is taken before any other, for uploads
/// and for batches.
pub proof fn law_announced_names_come_first(head: ResponseHeadView)
    requires
        announced_name(head) is Some,
    ensures
        raw_name(head) == announced_name(head)->0,
        stored_name(head) == announced_name(head),
{
}

/// Without such a header the last segment of the URL is taken, for uploads where it
/// has a dot, for batches always.
pub proof fn law_segments_come_second(head: ResponseHeadView)
    requires
        announced_name(head) is None,
        last_segment(head.path) is Some,
    ensures
        last_segment(head.path)->0.contains('.') ==> raw_name(head) == last_segment(head.path)->0,
        stored_name(head) == last_segment(head.path),
{
}

/// Where the last segment of the URL has no dot, it gets the first extension of the
/// media type that the response names, behind a dot; where none is known, and where the
/// URL has no segment, the file of an upload is called `file.bin`. For a batch there is
/// no name where the URL has no segment.
pub proof fn law_names_made_up(head: ResponseHeadView)
    requires
        announced_name(head) is None,
    ensures
        last_segment(head.path) matches Some(segment) ==> !segment.contains('.') ==> {
            let extensions = match header_value(head.content_type) {
                Some(media_type) => media_extensions(media_type),
                None => None,
            };
            if extensions matches Some(list) && list.len() > 0 {
                raw_name(head) == segment + seq!['.'] + extensions->0[0]
            } else {
                raw_name(head) == "file.bin"@
            }
        },
        last_segment(head.path) is None ==> raw_name(head) == "file.bin"@ && stored_name(head) is None,
{
    reveal_strlit(".");
    assert("."@ == seq!['.']);
}

/// The name of a response comes from nowhere but its header `content-disposition`, its
/// media type and its path.
pub proof fn law_what_names_come_from(head: ResponseHeadView, other: ResponseHeadView)
    requires
        head.content_disposition == other.content_disposition,
        head.content_type == other.content_type,
        head.path == other.path,
    ensures
        upload_name(head) == upload_name(other),
        stored_name(head) == stored_name(other),
{
}

// ---------------------------------------------------------------------------
// Segments

/// The last segment of a path is what stands behind its last slash, up to the end of
/// the path. A path that does not start with a slash has none.
pub proof fn law_last_segments(front: Seq<char>, name: Seq<char>)
    requires
        !name.contains('/'),
    ensures
        last_segment(seq!['/'] + name) == Some(name),
        front.len() > 0 && front[0] == '/' ==> last_segment(front + seq!['/'] + name) == Some(name),
        front.len() > 0 && front[0] != '/' ==> last_segment(front) is None,
        last_segment(Seq::empty()) is None,
{
    let none: Seq<char> = Seq::empty();
    assert((seq!['/'] + name).skip(1) == none + name);
    lemma_pieces_of_run(none, name, '/');
    assert(none + name == name);
    if front.len() > 0 && front[0] == '/' {
        let inner = front.skip(1).push('/');
        assert((front + seq!['/'] + name).skip(1) == inner + name);
        lemma_pieces_of_run(inner, name, '/');
        assert(inner.drop_last() == front.skip(1));
        assert(pieces(inner, '/').last() == none);
    }
}

/// Every path that starts with a slash has a last segment; it has no slash in it, and
/// the path ends with it, behind a slash.
pub proof fn law_segments_end_the_path(path: Seq<char>)
    requires
        path.len() > 0,
        path[0] == '/',
    ensures
        last_segment(path) matches Some(name) && !name.contains('/') && (seq!['/'] + name).is_suffix_of(
            path,
        ),
{
    let i = lemma_last_slash(path);
    let name = path.skip(i + 1);
    assert(!name.contains('/')) by {
        if name.contains('/') {
            let j = choose|j: int| 0 <= j < name.len() && name[j] == '/';
            assert(path[i + 1 + j] == '/');
        }
    }
    let front = path.take(i);
    law_last_segments(front, name);
    assert(path == front + seq!['/'] + name);
    if i == 0 {
        assert(path == seq!['/'] + name);
    } else {
        assert(front[0] == '/');
    }
    assert(seq!['/'] + name == path.subrange(i, path.len() as int));
}

proof fn lemma_last_slash(path: Seq<char>) -> (i: int)
    requires
        path.len() > 0,
        path[0] == '/',
    ensures
        0 <= i < path.len(),
        path[i] == '/',
        forall|j: int| i < j < path.len() ==> path[j] != '/',
    decreases path.len(),
{
    if path.last() == '/' {
        path.len() - 1
    } else {
        let i = lemma_last_slash(path.drop_last());
        assert forall|j: int| i < j < path.len() implies path[j] != '/' by {
            if j < path.len() - 1 {
                assert(path.drop_last()[j] != '/');
            }
        }
        i
    }
}

// ---------------------------------------------------------------------------
// Headers

/// A character that can stand in the text of a header.
pub open spec fn header_char(c: char) -> bool {
    ' ' <= c <= '~' || c == '\t'
}

/// A header that holds a text of visible ASCII characters is read as that text, whole
/// and unchanged. A header with any other byte is not read at all, as if it were not
/// there.
pub proof fn law_header_values(text: Seq<char>, bytes: Seq<u8>, i: int)
    ensures
        (forall|j: int| 0 <= j < text.len() ==> header_char(#[trigger] text[j])) ==> header_value(
            Some(encode_utf8(text)),
        ) == Some(text),
        0 <= i < bytes.len() && (bytes[i] >= 127 || bytes[i] < 32 && bytes[i] != 9) ==> header_value(
            Some(bytes),
        ) is None,
        header_value(None) is None,
{
    if forall|j: int| 0 <= j < text.len() ==> header_char(#[trigger] text[j]) {
        assert(is_ascii_chars(text));
        is_ascii_chars_encode_utf8(text);
        let encoded = encode_utf8(text);
        assert forall|j: int| 0 <= j < encoded.len() implies visible_ascii(#[trigger] encoded[j])
            && encoded[j] as char == text[j] by {
            assert(header_char(text[j]));
            assert(text[j] as u8 == encoded[j]);
        }
        assert(Seq::new(encoded.len(), |j: int| encoded[j] as char) =~= text);
    }
    if 0 <= i < bytes.len() && (bytes[i] >= 127 || bytes[i] < 32 && bytes[i] != 9) {
        assert(!visible_ascii(bytes[i]));
    }
}

/// The name that a response announces is the one in its header `content-disposition`.
pub proof fn law_announced_names(head: ResponseHeadView)
    ensures
        announced_name(head) == (match header_value(head.content_disposition) {
            Some(header) => disposition_name(header),
            None => None,
        }),
{
}

/// In a header that is made of parts with semicolons between them, the first part that
/// starts with `filename=` behind its white space is the one that counts: what stands
/// behind that word, as often as it is said, without the quotes around it. Where there
/// is no such part, there is no name.
pub proof fn law_disposition_parts(parts: Seq<Seq<char>>, k: int)
    requires
        parts.len() > 0,
        forall|i: int| 0 <= i < parts.len() ==> !(#[trigger] parts[i]).contains(';'),
        0 <= k <= parts.len(),
        forall|i: int|
            0 <= i < k ==> !"filename="@.is_prefix_of(
                trimmed(#[trigger] parts[i], Class::WhiteSpace),
            ),
        k < parts.len() ==> "filename="@.is_prefix_of(trimmed(parts[k], Class::WhiteSpace)),
    ensures
        k == parts.len() ==> disposition_name(joined(parts, ';')) is None,
        k < parts.len() ==> disposition_name(joined(parts, ';')) == Some(
            trimmed(
                without_prefixes(trimmed(parts[k], Class::WhiteSpace), "filename="@),
                Class::Only('"'),
            ),
        ),
{
    lemma_pieces_of_joined(parts, ';');
    lemma_first_part(parts, k);
}

proof fn lemma_first_part(parts: Seq<Seq<char>>, k: int)
    requires
        0 <= k <= parts.len(),
        forall|i: int|
            0 <= i < k ==> !"filename="@.is_prefix_of(
                trimmed(#[trigger] parts[i], Class::WhiteSpace),
            ),
        k < parts.len() ==> "filename="@.is_prefix_of(trimmed(parts[k], Class::WhiteSpace)),
    ensures
        filename_part(parts) == (if k < parts.len() {
            Some(trimmed(parts[k], Class::WhiteSpace))
        } else {
            None
        }),
    decreases parts.len(),
{
    if parts.len() > 0 && k > 0 {
        assert(!"filename="@.is_prefix_of(trimmed(parts[0], Class::WhiteSpace)));
        let rest = parts.drop_first();
        assert forall|i: int| 0 <= i < k - 1 implies !"filename="@.is_prefix_of(
            trimmed(#[trigger] rest[i], Class::WhiteSpace),
        ) by {
            assert(rest[i] == parts[i + 1]);
        }
        lemma_first_part(rest, k - 1);
    }
}

/// A value of the header `content-disposition` that is nothing but `filename=` and a
/// name is that name, as it stands: where the name has no semicolon, no white space and
/// no quote at its ends, and does not start with `filename=` itself.
pub proof fn law_plain_names(name: Seq<char>)
    requires
        name.len() > 0,
        !name.contains(';'),
        name.first() != '"' && name.last() != '"',
        !white_space(name.last()),
        !"filename="@.is_prefix_of(name),
    ensures
        disposition_name("filename="@ + name) == Some(name),
{
    reveal_strlit("filename=");
    let word = "filename="@;
    let part = word + name;
    let parts = seq![part];
    assert(!part.contains(';')) by {
        if part.contains(';') {
            let i = choose|i: int| 0 <= i < part.len() && part[i] == ';';
            assert(i >= 9);
            assert(name[i - 9] == ';');
        }
    }
    assert(part.first() == 'f');
    assert(part.last() == name.last());
    assert(trimmed(part, Class::WhiteSpace) == part);
    assert(part.subrange(0, 9) == word);
    assert(parts[0] == part);
    law_disposition_parts(parts, 0);
    assert(part.skip(9) == name);
    assert(without_prefixes(part, word) == without_prefixes(name, word));
}

// ---------------------------------------------------------------------------
// Percent-encoding

proof fn lemma_no_percent_byte(c: char)
    requires
        c != '%',
    ensures
        forall|i: int|
            0 <= i < encode_scalar(c as u32).len() ==> #[trigger] encode_scalar(c as u32)[i] != 37,
{
    char_is_scalar(c);
    let u = c as u32;
    assert(u != 37);
    if has_width_1_encoding(u) {
        assert(leading_byte_width_1(u) != 37) by (bit_vector)
            requires
                u != 37,
                has_width_1_encoding(u),
        ;
    } else {
        assert(leading_byte_width_2(u) >= 128) by (bit_vector);
        assert(leading_byte_width_3(u) >= 128) by (bit_vector);
        assert(leading_byte_width_4(u) >= 128) by (bit_vector);
        assert(last_continuation_byte(u) >= 128) by (bit_vector);
        assert(second_last_continuation_byte(u) >= 128) by (bit_vector);
        assert(third_last_continuation_byte(u) >= 128) by (bit_vector);
    }
}

proof fn lemma_no_percent_bytes(name: Seq<char>)
    requires
        !name.contains('%'),
    ensures
        forall|i: int| 0 <= i < encode_utf8(name).len() ==> #[trigger] encode_utf8(name)[i] != 37,
    decreases name.len(),
{
    if name.len() > 0 {
        let rest = name.drop_first();
        assert(name.contains(name[0]));
        lemma_no_percent_byte(name[0]);
        assert(!rest.contains('%')) by {
            if rest.contains('%') {
                let i = choose|i: int| 0 <= i < rest.len() && rest[i] == '%';
                assert(name[i + 1] == '%');
            }
        }
        lemma_no_percent_bytes(rest);
        let first = encode_scalar(name[0] as u32);
        assert forall|i: int| 0 <= i < encode_utf8(name).len() implies #[trigger] encode_utf8(name)[i]
            != 37 by {
            if i < first.len() {
                assert(encode_utf8(name)[i] == first[i]);
            } else {
                assert(encode_utf8(name)[i] == encode_utf8(rest)[i - first.len()]);
            }
        }
    }
}

proof fn lemma_nothing_to_decode(bytes: Seq<u8>)
    requires
        forall|i: int| 0 <= i < bytes.len() ==> #[trigger] bytes[i] != 37,
    ensures
        percent_decoded(bytes) == bytes,
    decreases bytes.len(),
{
    if bytes.len() > 0 {
        lemma_nothing_to_decode(bytes.skip(1));
        assert(seq![bytes[0]] + bytes.skip(1) == bytes);
    }
}

/// A name without a percent sign is kept as it is.
pub proof fn law_names_without_percent_are_kept(name: Seq<char>)
    requires
        !name.contains('%'),
    ensures
        decoded_name(name) == Ok::<Seq<char>, Seq<char>>(name),
{
    lemma_no_percent_bytes(name);
    lemma_nothing_to_decode(encode_utf8(name));
    encode_utf8_valid_utf8(name);
    encode_utf8_decode_utf8(name);
}

/// The digit of a value from 0 to 15, in base sixteen.
pub open spec fn hex_digit(n: int) -> char {
    if n < 10 {
        (48 + n) as char
    } else {
        (55 + n) as char
    }
}

/// Each byte as a percent sign and two digits.
pub open spec fn bytes_encoded(bytes: Seq<u8>) -> Seq<char>
    decreases bytes.len(),
{
    if bytes.len() == 0 {
        Seq::empty()
    } else {
        seq!['%', hex_digit(bytes[0] as int / 16), hex_digit(bytes[0] as int % 16)] + bytes_encoded(
            bytes.drop_first(),
        )
    }
}

/// A text in percent-encoding. `keep` says which characters are left as they are; a
/// percent sign never is.
pub open spec fn percent_encoded(text: Seq<char>, keep: Seq<bool>) -> Seq<char>
    decreases text.len(),
{
    if text.len() == 0 {
        Seq::empty()
    } else {
        (if keep[0] && text[0] != '%' {
            seq![text[0]]
        } else {
            bytes_encoded(encode_scalar(text[0] as u32))
        }) + percent_encoded(text.drop_first(), keep.drop_first())
    }
}

proof fn lemma_encode_concat(a: Seq<char>, b: Seq<char>)
    ensures
        encode_utf8(a + b) == encode_utf8(a) + encode_utf8(b),
    decreases a.len(),
{
    if a.len() == 0 {
        assert(a + b == b);
    } else {
        assert((a + b).drop_first() == a.drop_first() + b);
        lemma_encode_concat(a.drop_first(), b);
    }
}

proof fn lemma_decode_kept(bytes: Seq<u8>, rest: Seq<u8>)
    requires
        forall|i: int| 0 <= i < bytes.len() ==> #[trigger] bytes[i] != 37,
    ensures
        percent_decoded(bytes + rest) == bytes + percent_decoded(rest),
    decreases bytes.len(),
{
    if bytes.len() == 0 {
        assert(bytes + rest == rest);
    } else {
        assert((bytes + rest)[0] == bytes[0]);
        assert((bytes + rest).skip(1) == bytes.skip(1) + rest);
        lemma_decode_kept(bytes.skip(1), rest);
        assert(seq![bytes[0]] + (bytes.skip(1) + percent_decoded(rest)) == bytes + percent_decoded(
            rest,
        ));
    }
}

proof fn lemma_decode_encoded(bytes: Seq<u8>, rest: Seq<u8>)
    ensures
        percent_decoded(encode_utf8(bytes_encoded(bytes)) + rest) == bytes + percent_decoded(rest),
    decreases bytes.len(),
{
    if bytes.len() == 0 {
        assert(encode_utf8(bytes_encoded(bytes)) + rest == rest);
        assert(bytes + percent_decoded(rest) == percent_decoded(rest));
    } else {
        let b = bytes[0] as int;
        let high = b / 16;
        let low = b % 16;
        let head = seq!['%', hex_digit(high), hex_digit(low)];
        let tail = bytes_encoded(bytes.drop_first());
        assert(is_ascii_chars(head));
        is_ascii_chars_encode_utf8(head);
        lemma_encode_concat(head, tail);
        let coded = encode_utf8(head);
        assert(coded.len() == 3);
        assert(head[0] as u8 == coded[0] && head[1] as u8 == coded[1] && head[2] as u8 == coded[2]);
        assert(coded[0] == 37);
        assert(hex_value(coded[1]) == Some(high));
        assert(hex_value(coded[2]) == Some(low));
        let all = encode_utf8(bytes_encoded(bytes)) + rest;
        assert(all == coded + (encode_utf8(tail) + rest));
        assert(all[0] == coded[0] && all[1] == coded[1] && all[2] == coded[2]);
        assert(all.skip(3) == encode_utf8(tail) + rest);
        lemma_decode_encoded(bytes.drop_first(), rest);
        assert((high * 16 + low) as u8 == bytes[0]);
        assert(seq![bytes[0]] + (bytes.drop_first() + percent_decoded(rest)) == bytes + percent_decoded(
            rest,
        ));
    }
}

proof fn lemma_decode_text(text: Seq<char>, keep: Seq<bool>)
    ensures
        percent_decoded(encode_utf8(percent_encoded(text, keep))) == encode_utf8(text),
    decreases text.len(),
{
    if text.len() > 0 {
        let rest = text.drop_first();
        let first = encode_scalar(text[0] as u32);
        let tail = percent_encoded(rest, keep.drop_first());
        lemma_decode_text(rest, keep.drop_first());
        if keep[0] && text[0] != '%' {
            let kept = seq![text[0]];
            lemma_encode_concat(kept, tail);
            assert(encode_utf8(kept.drop_first()) == Seq::<u8>::empty());
            assert(encode_utf8(kept) == first);
            lemma_no_percent_byte(text[0]);
            lemma_decode_kept(first, encode_utf8(tail));
        } else {
            lemma_encode_concat(bytes_encoded(first), tail);
            lemma_decode_encoded(first, encode_utf8(tail));
        }
    }
}

/// Decoding a name undoes its percent-encoding, once, whichever characters were
/// encoded.
pub proof fn law_encoded_names(name: Seq<char>, keep: Seq<bool>, head: ResponseHeadView)
    ensures
        decoded_name(percent_encoded(name, keep)) == Ok::<Seq<char>, Seq<char>>(name),
        raw_name(head) == percent_encoded(name, keep) ==> upload_name(head) == Ok::<
            Seq<char>,
            Seq<char>,
        >(name),
{
    lemma_decode_text(name, keep);
    encode_utf8_valid_utf8(name);
    encode_utf8_decode_utf8(name);
}

/// A name is decoded to a text exactly if its decoded bytes are that text's; where they
/// are no text's, the error of the decoding is handed on.
pub proof fn law_decoded_names(name: Seq<char>, text: Seq<char>)
    ensures
        decoded_name(name) == Ok::<Seq<char>, Seq<char>>(text) <==> percent_decoded(encode_utf8(name))
            == encode_utf8(text),
        decoded_name(name) matches Err(reason) ==> reason == decoding_error(name),
{
    encode_utf8_valid_utf8(text);
    encode_utf8_decode_utf8(text);
    let bytes = percent_decoded(encode_utf8(name));
    if valid_utf8(bytes) {
        decode_utf8_encode_utf8(bytes);
    }
}

// ---------------------------------------------------------------------------
// Kinds

/// A file of an ASCII name is a video exactly if the name ends with `.mp4`, in any
/// case.
pub proof fn law_video_names(name: Seq<char>)
    requires
        is_ascii_chars(name),
    ensures
        video_name(lower(name)) <==> name.len() >= 4 && same_but_case(
            name.subrange(name.len() - 4, name.len() as int),
            ".mp4"@,
        ),
{
    reveal_strlit(".mp4");
    let end = ".mp4"@;
    assert(end.len() == 4);
    assert(lower(end) =~= end);
    assert(lower(name).len() == name.len());
    if name.len() >= 4 {
        let last = name.subrange(name.len() - 4, name.len() as int);
        assert(is_ascii_chars(last)) by {
            assert forall|i: int| 0 <= i < last.len() implies '\0' <= #[trigger] last[i] <= '\u{7f}' by {
                assert(last[i] == name[name.len() - 4 + i]);
            }
        }
        law_lower_case(last, end);
        assert(lower(last) =~= lower(name).subrange(name.len() - 4, name.len() as int));
    }
}

/// A response names a video exactly if its media type starts with `video/mp4`.
pub proof fn law_video_types(head: ResponseHeadView, rest: Seq<char>)
    ensures
        header_value(head.content_type) == Some("video/mp4"@ + rest) ==> video_type(head),
        video_type(head) ==> (header_value(head.content_type) matches Some(media_type) && media_type
            == "video/mp4"@ + media_type.skip(9)),
{
    reveal_strlit("video/mp4");
    assert(("video/mp4"@ + rest).subrange(0, 9) == "video/mp4"@);
    if let Some(media_type) = header_value(head.content_type) {
        if video_type(head) {
            assert(media_type.subrange(0, 9) == "video/mp4"@);
            assert(media_type == media_type.subrange(0, 9) + media_type.skip(9));
        }
    }
}

/// The header `attachment; filename="name"` announces the name, unless that itself
/// has a semicolon or a quote at one of its ends.
pub proof fn law_quoted_names(name: Seq<char>)
    requires
        !name.contains(';'),
        name.len() > 0 ==> name.first() != '"' && name.last() != '"',
    ensures
        disposition_name("attachment; filename=\""@ + name + "\""@) == Some(name),
{
    let quote = Class::Only('"');
    let front = "attachment"@;
    let value = seq!['"'] + name.push('"');
    let part = "filename="@ + value;
    let padded = seq![' '] + part;
    let header = "attachment; filename=\""@ + name + "\""@;
    reveal_strlit("attachment; filename=\"");
    reveal_strlit("attachment");
    reveal_strlit("filename=");
    reveal_strlit("\"");
    let parts = seq![front, padded];
    assert(parts.drop_last() == seq![front]);
    assert(header == joined(parts, ';')) by {
        assert(joined(parts.drop_last(), ';') == front);
        assert(front.push(';') + padded == header);
    }
    assert(!padded.contains(';')) by {
        if padded.contains(';') {
            let i = choose|i: int| 0 <= i < padded.len() && padded[i] == ';';
            assert(11 <= i < 11 + name.len());
            assert(name[i - 11] == ';');
        }
    }
    assert(!front.contains(';'));
    lemma_pieces_of_joined(parts, ';');

    let ws = Class::WhiteSpace;
    assert(trimmed(front, ws) == front) by {
        assert(front.first() == 'a');
        assert(front.last() == 't');
    }
    assert(!"filename="@.is_prefix_of(front)) by {
        assert(front[0] != "filename="@[0]);
    }
    assert(trimmed(padded, ws) == part) by {
        assert(padded.first() == ' ');
        assert(padded.drop_first() == part);
        assert(part.first() == 'f');
        assert(part.last() == '"');
        assert(trimmed_start(part, ws) == part);
        assert(trimmed_start(padded, ws) == part);
        assert(trimmed_end(part, ws) == part);
    }
    assert("filename="@.is_prefix_of(part));
    assert(parts.drop_first() == seq![padded]);
    assert(filename_part(parts) == Some(part)) by {
        assert(parts.first() == front);
        assert(seq![padded].first() == padded);
        assert(filename_part(seq![padded]) == Some(part));
    }
    assert(without_prefixes(part, "filename="@) == value) by {
        assert(part.skip(9) == value);
        assert(!"filename="@.is_prefix_of(value)) by {
            assert("filename="@[0] == 'f');
            if "filename="@.is_prefix_of(value) {
                assert(value.subrange(0, 9)[0] == value[0]);
            }
        }
        assert(without_prefixes(value, "filename="@) == value);
    }
    assert(trimmed(value, quote) == name) by {
        assert(value.first() == '"');
        let inner = name.push('"');
        assert(value.drop_first() == inner);
        if name.len() > 0 {
            assert(inner.first() == name.first());
            assert(trimmed_start(inner, quote) == inner);
            assert(inner.last() == '"');
            assert(inner.drop_last() == name);
            assert(trimmed_end(name, quote) == name);
        } else {
            let none: Seq<char> = Seq::empty();
            assert(inner.first() == '"');
            assert(inner.drop_first() == none);
            assert(trimmed_start(none, quote) == none);
            assert(trimmed_start(inner, quote) == none);
            assert(name == none);
        }
    }
}

/// A file is accepted exactly if its response announces a length from 1 byte up to
/// 2 GiB, on every machine: a length that no `usize` holds is too large.
pub proof fn law_announced_length_decides(head: ResponseHeadView)
    ensures
        size_error(body_length(head)) is None <==> (head.content_length matches Some(length) && 0 < length
            <= 2147483648),
        head.content_length matches Some(length) ==> {
            &&& length > 2147483648 <==> size_error(body_length(head)) == Some(SizeError::TooLarge)
            &&& length <= 2147483648 ==> body_length(head) == length
        },
        head.content_length is None ==> body_length(head) == 0,
{
}

/// A response that does not announce its length is refused as empty.
pub proof fn law_unknown_lengths_are_empty(head: ResponseHeadView)
    requires
        head.content_length is None,
    ensures
        size_error(body_length(head)) is Some,
{
}

} // verus!
