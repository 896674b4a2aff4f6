//! The command listener: free-text remote commands that set the run flag.

use vstd::prelude::*;
use vstd::string::*;

verus! {

/// The lowercase form of `text`, as `str::to_lowercase` gives it.
pub uninterp spec fn lowercase_of(text: Seq<char>) -> Seq<char>;

/// Calls `str::to_lowercase`, which maps a text to its lowercase form by
/// the Unicode case tables. The contract only gives that form its name.
#[verifier::external_body]
fn to_lowercase(text: &str) -> (lowered: String)
    ensures
        lowered@ == lowercase_of(text@),
{
    text.to_lowercase()
}

/// A text whose last two characters are `o` and `n`.
pub open spec fn ends_with_on(lowered: Seq<char>) -> bool {
    &&& lowered.len() >= 2
    &&& lowered[lowered.len() - 2] == 'o'
    &&& lowered[lowered.len() - 1] == 'n'
}

/// Whether a lowercased command asks for the sensor to run: it does when it
/// ends in "on", and whatever else it says means stop.
pub fn lowered_is_on(lowered: &str) -> (on: bool)
    ensures
        on == ends_with_on(lowered@),
{
    let len: usize = lowered.unicode_len();
    if len < 2 {
        false
    } else {
        lowered.get_char(len - 2) == 'o' && lowered.get_char(len - 1) == 'n'
    }
}

/// Whether a command asks for the sensor to run: its lowercase form ends
/// in "on". Case does not matter, and any other text means stop.
pub fn command_is_on(text: &str) -> (on: bool)
    ensures
        on == ends_with_on(lowercase_of(text@)),
{
    let lowered = to_lowercase(text);
    lowered_is_on(lowered.as_str())
}

/// What a control message means for the run flag.
///
/// `message` is the payload as text, or `None` where the payload could not
/// be decoded as text. A message that could not be decoded is ignored and
/// leaves the flag as it is; any other message sets it.
pub fn interpret(message: Option<&str>) -> (run: Option<bool>)
    ensures
        run == match message {
            Some(text) => Some(ends_with_on(lowercase_of(text@))),
            None => None,
        },
{
    match message {
        Some(text) => Some(command_is_on(text)),
        None => None,
    }
}

/// The run flag after a control message: unchanged by a message that could
/// not be decoded, and otherwise what the message asks for.
pub fn run_state_after(current: bool, message: Option<&str>) -> (run: bool)
    ensures
        run == match message {
            Some(text) => ends_with_on(lowercase_of(text@)),
            None => current,
        },
{
    match interpret(message) {
        Some(run) => run,
        None => current,
    }
}

} // verus!
