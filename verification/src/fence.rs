//! Extraction of the code block that a generated text carries.

use crate::text::{chars_of, find, first_occurrence, trim, trim_bounds};
use vstd::prelude::*;
use vstd::string::StrSliceExecFns;

verus! {

/// Marker that opens a code block in the recognised language.
pub open spec fn fence_open() -> Seq<char> {
    "```luau"@
}

/// Marker that closes a code block.
pub open spec fn fence_close() -> Seq<char> {
    "```"@
}

/// Contents of the first fenced block of `text`: what stands between the
/// leftmost opening marker and the first closing marker after it, without
/// the whitespace at its ends. `None` where either marker is missing.
pub open spec fn fenced_block(text: Seq<char>) -> Option<Seq<char>> {
    match first_occurrence(text, fence_open()) {
        None => None,
        Some(start) => {
            let rest = text.skip(start + fence_open().len());
            match first_occurrence(rest, fence_close()) {
                None => None,
                Some(end) => Some(trim(rest.take(end))),
            }
        },
    }
}

/// Extracts the trimmed contents of the first fenced code block of `text`.
pub fn extract_code(text: &str) -> (code: Option<String>)
    ensures
        match code {
            Some(c) => fenced_block(text@) == Some(c@),
            None => fenced_block(text@) is None,
        },
{
    let chars = chars_of(text);
    let open = chars_of("```luau");
    let close = chars_of("```");
    match find(&chars, 0, &open) {
        None => {
            assert(chars@.skip(0) =~= chars@);
            None
        },
        Some(start) => {
            assert(chars@.skip(0) =~= chars@);
            let body: usize = start + open.len();
            match find(&chars, body, &close) {
                None => None,
                Some(end) => {
                    let (a, b) = trim_bounds(&chars, body, end);
                    assert(a <= b <= text@.len());
                    assert(chars@.skip(body as int).take(end - body) =~= chars@.subrange(
                        body as int,
                        end as int,
                    ));
                    Some(text.substring_char(a, b).to_owned())
                },
            }
        },
    }
}

} // verus!
