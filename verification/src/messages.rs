//! What the bot says.

use vstd::prelude::*;

use crate::external::{byte_size, size_text};

verus! {

/// The welcome that answers `/start`, in HTML.
pub const WELCOME: &'static str = "📁 <b>Hi! Need a file uploaded? Just send the link!</b>\n\
    In groups, use <code>/upload &lt;url&gt;</code>\n\
    \n\
    🌟 <b>Features:</b>\n\
    \u{2022} Free & fast\n\
    \u{2022} <a href=\"https://github.com/HerMan-Official/URL_Uploader_Bot_Telegram\">Open source</a>\n\
    \u{2022} Uploads files up to 2GB\n\
    \u{2022} Redirect-friendly\n\
    \u{2022} <b>Terabox support</b>";

/// Answers `/upload` without a URL.
pub const NO_URL: &'static str = "Please specify a URL";

/// Answers a second upload in a chat.
pub const BUSY: &'static str = "✋ Whoa, slow down! There's already an active upload in this chat.";

/// Says that a Terabox link is looked up.
pub const PROCESSING: &'static str = "🔄 Processing Terabox link...";

/// Says that a Terabox link has no file.
pub const NO_DOWNLOAD_LINK: &'static str = "❌ Failed to get download link from Terabox. The file might be private or the link is invalid.";

/// Says that a Terabox link could not be looked up.
pub const PROCESS_FAILED: &'static str = "❌ Failed to process Terabox link. Please try again.";

/// Refuses a file of length 0.
pub const FILE_EMPTY: &'static str = "⚠️ File is empty";

/// Refuses a file that is too large.
pub const FILE_TOO_LARGE: &'static str = "⚠️ File is too large";

/// The label of the button that cancels an upload.
pub const CANCEL_LABEL: &'static str = "⛔ Cancel";

/// The data that the button sends.
pub const CANCEL_DATA: &'static str = "cancel";

/// Refuses to cancel somebody else's upload.
pub const NOT_YOURS: &'static str = "⚠️ You can't cancel another user's upload";

/// Replaces the status message of a cancelled upload.
pub const CANCELLED: &'static str = "⛔ Upload cancelled";

/// The first line of the message that ends a batch.
pub const STORE_COMMAND: &'static str = "/store_file_id";

/// Answers `/upload` with something that is no URL.
pub open spec fn invalid_url_text(reason: Seq<char>) -> Seq<char> {
    "Invalid URL: "@ + reason
}

/// Answers `/upload` with something that is no URL.
pub fn invalid_url(reason: &str) -> (r: String)
    ensures
        r@ == invalid_url_text(reason@),
{
    "Invalid URL: ".to_owned().concat(reason)
}

/// Says that the address found for a Terabox link is no URL.
pub open spec fn bad_proxy_text(reason: Seq<char>) -> Seq<char> {
    "❌ Failed to parse proxy URL: "@ + reason
}

/// Says that the address found for a Terabox link is no URL.
pub fn bad_proxy(reason: &str) -> (r: String)
    ensures
        r@ == bad_proxy_text(reason@),
{
    "❌ Failed to parse proxy URL: ".to_owned().concat(reason)
}

/// The first status message of an upload, in HTML.
pub open spec fn starting_text(name: Seq<char>) -> Seq<char> {
    "🚀 Starting upload of <code>"@ + name + "</code>..."@
}

/// The first status message of an upload, in HTML.
pub fn starting(name: &str) -> (r: String)
    ensures
        r@ == starting_text(name@),
{
    "🚀 Starting upload of <code>".to_owned().concat(name).concat("</code>...")
}

/// The status message of an upload under way, in HTML: its name, the percentage and
/// the two sizes.
pub open spec fn progress_text(
    name: Seq<char>,
    percent: Seq<char>,
    done: Seq<char>,
    total: Seq<char>,
) -> Seq<char> {
    "⏳ Uploading <code>"@ + name + "</code> <b>("@ + percent + "%)</b>\n<i>"@ + done + " / "@ + total
        + "</i>"@
}

/// The status message of an upload under way, in HTML, from the texts of its parts.
pub fn progress_of(name: &str, percent: &str, done: &str, total: &str) -> (r: String)
    ensures
        r@ == progress_text(name@, percent@, done@, total@),
{
    "⏳ Uploading <code>".to_owned().concat(name).concat("</code> <b>(").concat(percent).concat(
        "%)</b>\n<i>",
    ).concat(done).concat(" / ").concat(total).concat("</i>")
}

/// The status message of an upload under way, in HTML: `done` of `total` bytes, with
/// the percentage already written out.
pub fn progress(name: &str, percent: &str, done: usize, total: usize) -> (r: String)
    ensures
        exists|done_text: Seq<char>, total_text: Seq<char>|
            r@ == #[trigger] progress_text(name@, percent@, done_text, total_text) && size_text(
                done as int,
                done_text,
            ) && size_text(total as int, total_text),
{
    let done_text: String = byte_size(done as u64, true);
    let total_text: String = byte_size(total as u64, true);
    progress_of(name, percent, done_text.as_str(), total_text.as_str())
}

/// The message that brings an uploaded file, in HTML.
pub open spec fn uploaded_text(seconds: Seq<char>) -> Seq<char> {
    "Uploaded in <b>"@ + seconds + " secs</b>"@
}

/// The message that brings an uploaded file, in HTML, with the seconds already
/// written out.
pub fn uploaded(seconds: &str) -> (r: String)
    ensures
        r@ == uploaded_text(seconds@),
{
    "Uploaded in <b>".to_owned().concat(seconds).concat(" secs</b>")
}

/// The message that brings a file into the store channel.
pub open spec fn caption_text(name: Seq<char>) -> Seq<char> {
    "File: "@ + name
}

/// The message that brings a file into the store channel.
pub fn caption(name: &str) -> (r: String)
    ensures
        r@ == caption_text(name@),
{
    "File: ".to_owned().concat(name)
}

} // verus!
