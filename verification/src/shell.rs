//! Splitting a typed command line into words the way a POSIX shell does,
//! through `shlex`.

use vstd::prelude::*;

verus! {

/// The words `shlex::split` finds in `line`, or `None` where it reports
/// the line as erroneous (such as an unclosed quote).
pub uninterp spec fn shell_words(line: Seq<char>) -> Option<Seq<Seq<char>>>;

/// `shlex::split`: the words of `line`, or `None` where the line is
/// erroneous.
#[verifier::external_body]
pub(crate) fn shlex_split(line: &str) -> (r: Option<Vec<String>>)
    ensures
        (r is Some) == (shell_words(line@) is Some),
        r matches Some(v) ==> v@.map_values(|s: String| s@) == shell_words(line@)->0,
{
    shlex::split(line)
}

} // verus!
