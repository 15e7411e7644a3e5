//! The calendar date of the machine.

use vstd::prelude::*;

verus! {

/// The local calendar date at the moment of the call, as a text.
///
/// This calls `chrono::Local::now` and writes its date with chrono's format
/// `%Y-%m-%d`: the year, the month and the day of the month, with hyphens
/// between them. Nothing is claimed of the text: it depends on the clock and
/// on the time zone of the machine, and two calls may differ. chrono does not
/// return where the clock of the machine stands before the year 1970.
#[verifier::external_body]
pub(crate) fn local_date() -> String {
    chrono::Local::now().format("%Y-%m-%d").to_string()
}

} // verus!
