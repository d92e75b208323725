//! The free space of the root filesystem, from the report of `df`.

use crate::text::{chars_of, find_char, first_index_of, skip_spaces, trim_start};
use vstd::prelude::*;
use vstd::string::*;

verus! {

/// Whether a report has a second line: whether it holds a line break.
pub open spec fn has_second_line(output: Seq<char>) -> bool {
    first_index_of(output, '\n') < output.len()
}

/// The second line of a report, without the white space in front of it.
pub open spec fn second_line(output: Seq<char>) -> Seq<char> {
    let rest = output.skip(first_index_of(output, '\n') + 1);
    trim_start(rest.take(first_index_of(rest, '\n')))
}

/// Return free disk space in *human readable format*, from what
/// `df -h --output=avail /` printed: its second line, left-trimmed.
///
/// Returns `None` where the report has no second line.
pub fn disk_free(output: &str) -> (free: Option<String>)
    ensures
        free is Some == has_second_line(output@),
        free matches Some(text) ==> text@ == second_line(output@),
{
    let cs = chars_of(output);
    let n = cs.len();
    assert(cs@.subrange(0, n as int) =~= output@);
    let first = find_char(&cs, 0, n, '\n');
    if first >= n {
        return None;
    }
    let ghost rest = output@.skip(first + 1);
    assert(rest =~= cs@.subrange(first + 1, n as int));
    let end = find_char(&cs, first + 1, n, '\n');
    assert(rest.take(end - first - 1) =~= cs@.subrange(first + 1, end as int));
    let start = skip_spaces(&cs, first + 1, end);
    Some(output.substring_char(start, end).to_owned())
}

} // verus!
