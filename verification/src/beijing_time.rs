//! Rendering of Unix timestamps as China Standard Time (UTC+8) text.
use vstd::prelude::*;

verus! {

/// The text that `chrono` prints, with the strftime pattern `pattern`,
/// for the instant `seconds` after the Unix epoch seen at UTC+8; nothing
/// where `chrono` has no such instant.
pub uninterp spec fn utc8_formatted(seconds: i64, pattern: Seq<char>) -> Option<Seq<char>>;

/// `DateTime::from_timestamp(seconds, 0)` shown at UTC+8 with
/// `format(pattern)`. The contract says only that the result is the
/// named `utc8_formatted` of the arguments: calendar arithmetic and
/// strftime rendering are `chrono`'s and are not restated here. Only
/// the two patterns the tools use are admitted (an invalid pattern makes
/// `to_string` panic).
#[verifier::external_body]
pub(crate) fn utc8_format(seconds: i64, pattern: &str) -> (r: Option<String>)
    requires
        pattern@ == "%Y-%m-%d %H:%M"@ || pattern@ == "%Y-%m-%d %H:%M:%S"@,
    ensures
        match r {
            Some(t) => utc8_formatted(seconds, pattern@) == Some(t@),
            None => utc8_formatted(seconds, pattern@) is None,
        },
{
    let utc = chrono::DateTime::from_timestamp(seconds, 0)?;
    let offset = chrono::FixedOffset::east_opt(8 * 3600)?;
    Some(utc.with_timezone(&offset).format(pattern).to_string())
}

} // verus!
