//! The input path.

use vstd::prelude::*;
use vstd::string::StrSliceExecFns;
use crate::error::PlaybackError;

verus! {

/// Whether `path` ends in `.mp3`, in exactly this spelling.
pub open spec fn names_mp3(path: Seq<char>) -> bool {
    &&& path.len() >= 4
    &&& path[path.len() - 4] == '.'
    &&& path[path.len() - 3] == 'm'
    &&& path[path.len() - 2] == 'p'
    &&& path[path.len() - 1] == '3'
}

/// Accepts a path that names an MP3 file by its extension; any other path
/// is `InvalidInput`.
pub fn check_input_path(path: &str) -> (checked: Result<(), PlaybackError>)
    ensures
        checked is Ok <==> names_mp3(path@),
        checked matches Err(error) ==> error == PlaybackError::InvalidInput,
{
    let length = path.unicode_len();
    if length >= 4 && path.get_char(length - 4) == '.' && path.get_char(length - 3) == 'm'
        && path.get_char(length - 2) == 'p' && path.get_char(length - 1) == '3' {
        Ok(())
    } else {
        Err(PlaybackError::InvalidInput)
    }
}

} // verus!
