use vstd::prelude::*;

verus! {

/// Links to a video: `youtube.com/watch?v=<id>` or `youtu.be/<id>`, over
/// http or https, with an optional `www.` and an optional trailing query.
pub const YOUTUBE_LINK: &'static str =
    r"http(?:s?)://(?:www\.)?youtu(?:be\.com/watch\?v=|\.be/)([\w\-_]*)(&(amp;)?[\w\?=]*)?";

/// Whether `YOUTUBE_LINK` matches somewhere in `s`, as the regex crate decides.
pub uninterp spec fn youtube_link_match(s: Seq<char>) -> bool;

/// Relies on regex::Regex::new to compile the fixed pattern `YOUTUBE_LINK`
/// and on regex::Regex::is_match to search `s` for it; the answer depends on
/// the text alone.
#[verifier::external_body]
pub(crate) fn is_youtube_link(s: &str) -> (r: bool)
    ensures
        r == youtube_link_match(s@),
{
    match regex::Regex::new(YOUTUBE_LINK) {
        Ok(re) => re.is_match(s),
        Err(_) => false,
    }
}

} // verus!
