//! Local paths as the user writes them.

use vstd::prelude::*;
use vstd::string::*;
use crate::text::{
    piece, same_text, spec_starts_with, spec_trim_start, starts_with, trim_start,
};

verus! {

/// The path that the user means by `input`, the home directory being `home`
/// where it is known. `~` is the home directory, `~/` at the beginning
/// stands for the home directory and a slash, and `$HOME` at the beginning,
/// however often it is repeated there, stands for the home directory. Any
/// other path, and every path where the home directory is not known, is
/// meant as it is written.
pub open spec fn spec_expand_local_path(input: Seq<char>, home: Option<Seq<char>>) -> Seq<char> {
    match home {
        None => input,
        Some(h) => if input.len() == 0 {
            input
        } else if input == "~"@ {
            h
        } else if spec_starts_with(input, "~/"@) {
            h + "/"@ + input.skip(2)
        } else if spec_starts_with(input, "$HOME"@) {
            h + spec_trim_start(input, "$HOME"@)
        } else {
            input
        },
    }
}

/// The path that the user means by `input`.
pub fn expand_local_path(input: &str, home: Option<&str>) -> (path: String)
    ensures
        path@ == spec_expand_local_path(
            input@,
            match home {
                Some(h) => Some(h@),
                None => None,
            },
        ),
{
    match home {
        None => input.to_owned(),
        Some(h) => {
            if input.is_empty() {
                input.to_owned()
            } else if same_text(input, "~") {
                h.to_owned()
            } else if starts_with(input, "~/") {
                proof {
                    reveal_strlit("~/");
                }
                let len = input.unicode_len();
                let mut path = h.to_owned();
                path.append("/");
                path.append(piece(input, 2, len).as_str());
                proof {
                    assert(input@.subrange(2, len as int) =~= input@.skip(2));
                }
                path
            } else if starts_with(input, "$HOME") {
                let mut path = h.to_owned();
                path.append(trim_start(input, "$HOME").as_str());
                path
            } else {
                input.to_owned()
            }
        },
    }
}

} // verus!
