//! Stream configuration choices made before the audio stack is opened.

use vstd::prelude::*;
use vstd::string::StringExecFns;

verus! {

/// The output device the stream should be opened on: the name given
/// on the command line, or the literal name `default` when none was.
pub fn chosen_device(arg: Option<String>) -> (name: String)
    ensures
        match arg {
            Option::Some(given) => name@ == given@,
            Option::None => name@ == "default"@,
        },
{
    match arg {
        Option::Some(given) => given,
        Option::None => String::from_str("default"),
    }
}

} // verus!
