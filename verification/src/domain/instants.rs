//! Instants as text.

use vstd::prelude::*;
use super::events::Timestamp;

verus! {

/// The seconds and nanoseconds of the instant that a text stands for, as
/// `chrono::DateTime::parse_from_rfc3339` reads it.
pub uninterp spec fn instant_of_text(text: Seq<char>) -> Option<(i64, u32)>;

/// Reads an instant with `chrono::DateTime::parse_from_rfc3339`, moves it to UTC with
/// `with_timezone`, and hands back the seconds and nanoseconds that `timestamp` and
/// `timestamp_subsec_nanos` give, or, where the parser refuses the text, what its
/// error says. Which texts the parser accepts, and as which instants, is taken on
/// trust and named `instant_of_text`; nothing is claimed of the wording of the error.
#[verifier::external_body]
pub(crate) fn parse_instant(text: &str) -> (r: Result<Timestamp, String>)
    ensures
        match instant_of_text(text@) {
            Some(t) => r == Ok::<Timestamp, String>(Timestamp { secs: t.0, nanos: t.1 }),
            None => r is Err,
        },
{
    match chrono::DateTime::parse_from_rfc3339(text) {
        Ok(parsed) => {
            let utc = parsed.with_timezone(&chrono::Utc);
            Ok(Timestamp { secs: utc.timestamp(), nanos: utc.timestamp_subsec_nanos() })
        },
        Err(e) => Err(e.to_string()),
    }
}

} // verus!
