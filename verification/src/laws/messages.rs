//! Laws of what the bot says: each text word for word, with the parts that are put into
//! it whole and unchanged.

use vstd::prelude::*;

use crate::batch::LinkErrorView;
use crate::messages::{
    bad_proxy_text, caption_text, invalid_url_text, progress_text, starting_text, uploaded_text,
    WELCOME,
};
use crate::upload::UploadErrorView;

verus! {

/// The welcome says what the bot does: how to use it, and that files of up to 2 GB can
/// be uploaded.
pub proof fn law_welcome()
    ensures
        WELCOME@ == "📁 <b>Hi! Need a file uploaded? Just send the link!</b>\n\
    In groups, use <code>/upload &lt;url&gt;</code>\n\
    \n\
    🌟 <b>Features:</b>\n\
    \u{2022} Free & fast\n\
    \u{2022} <a href=\"https://github.com/HerMan-Official/URL_Uploader_Bot_Telegram\">Open source</a>\n\
    \u{2022} Uploads files up to 2GB\n\
    \u{2022} Redirect-friendly\n\
    \u{2022} <b>Terabox support</b>"@,
{
}

/// Every message that holds something from outside holds all of it, as it came.
pub proof fn law_messages_with_parts(
    reason: Seq<char>,
    name: Seq<char>,
    percent: Seq<char>,
    done: Seq<char>,
    total: Seq<char>,
    seconds: Seq<char>,
)
    ensures
        invalid_url_text(reason) == "Invalid URL: "@ + reason,
        bad_proxy_text(reason) == "❌ Failed to parse proxy URL: "@ + reason,
        starting_text(name) == "🚀 Starting upload of <code>"@ + name + "</code>..."@,
        progress_text(name, percent, done, total) == "⏳ Uploading <code>"@ + name + "</code> <b>("@
            + percent + "%)</b>\n<i>"@ + done + " / "@ + total + "</i>"@,
        uploaded_text(seconds) == "Uploaded in <b>"@ + seconds + " secs</b>"@,
        caption_text(name) == "File: "@ + name,
{
}

/// Two files never get one caption, nor two reasons one message.
pub proof fn law_messages_tell_apart(a: Seq<char>, b: Seq<char>)
    requires
        a != b,
    ensures
        caption_text(a) != caption_text(b),
        invalid_url_text(a) != invalid_url_text(b),
        bad_proxy_text(a) != bad_proxy_text(b),
{
    let cases = seq!["File: "@, "Invalid URL: "@, "❌ Failed to parse proxy URL: "@];
    assert forall|i: int| 0 <= i < 3 implies #[trigger] cases[i] + a != cases[i] + b by {
        let front = cases[i];
        assert((front + a).skip(front.len() as int) == a);
        assert((front + b).skip(front.len() as int) == b);
    }
    assert(cases[0] + a != cases[0] + b);
    assert(cases[1] + a != cases[1] + b);
    assert(cases[2] + a != cases[2] + b);
}

/// An error in words: the reason itself where there is one, else a text of its own.
pub proof fn law_errors_in_words(reason: Seq<char>)
    ensures
        UploadErrorView::NameNotText(reason).text() == reason,
        LinkErrorView::BadReply(reason).text() == reason,
        LinkErrorView::NoDownloadLink.text() == "Failed to get download link from Terabox"@,
        LinkErrorView::FileEmpty.text() == "File is empty"@,
        LinkErrorView::FileTooLarge.text() == "File is too large"@,
        LinkErrorView::UnsupportedMedia.text() == "Unsupported media type"@,
        LinkErrorView::NoMedia.text() == "No media found in message"@,
        LinkErrorView::PostNotFound.text() == "Batch post not found"@,
{
}

} // verus!
