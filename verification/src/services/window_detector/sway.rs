//! What the Sway message tool prints for the layout tree, read.

use crate::error::AhkError;
use crate::error::AhkErrorView;
use crate::events::WindowInfo;
use crate::text::find_first;
use crate::text::find_last;
use crate::text::first_occurrence;
use crate::text::last_occurrence;
use crate::text::substring;
use crate::text::to_chars;
use vstd::prelude::*;
use vstd::string::StringExecFns;

verus! {

/// The mark of the focused node in the tree.
pub open spec fn focus_mark() -> Seq<char> {
    "\"focused\":true"@
}

/// What stands before the name of a node in the tree.
pub open spec fn name_mark() -> Seq<char> {
    "\"name\":\""@
}

/// The title of the focused window in a layout tree: what follows the last
/// name mark before the first focus mark, up to the next double quote.
pub open spec fn focused_title(tree: Seq<char>) -> Option<Seq<char>> {
    match first_occurrence(focus_mark(), tree) {
        Some(focus) => match last_occurrence(name_mark(), tree.take(focus)) {
            Some(name) => {
                let rest = tree.subrange(name + name_mark().len(), focus);
                match first_occurrence("\""@, rest) {
                    Some(end) => Some(rest.take(end)),
                    None => None,
                }
            },
            None => None,
        },
        None => None,
    }
}

pub struct SwayDetector;

impl SwayDetector {
    pub fn new() -> Self {
        Self
    }

    /// The focused window from the layout tree that the tool printed.
    pub fn get_active_window(&self, tree: &str) -> (r: Result<WindowInfo, AhkError>)
        ensures
            match r {
                Ok(w) => {
                    &&& focused_title(tree@) == Some(w.title@)
                    &&& w.class@.len() == 0
                    &&& w.pid is None
                    &&& w.geometry is None
                },
                Err(e) => {
                    &&& focused_title(tree@) is None
                    &&& e@ == AhkErrorView::Internal("Активное окно в Sway не найдено"@)
                },
            },
    {
        let chars = to_chars(tree);
        let text = chars.as_slice();
        let focus_chars = to_chars("\"focused\":true");
        let name_chars = to_chars("\"name\":\"");
        let quote_chars = to_chars("\"");
        assert(text@.subrange(0, text@.len() as int) =~= text@);
        match find_first(text, focus_chars.as_slice(), 0, text.len()) {
            Some(focus) => {
                match find_last(text, name_chars.as_slice(), focus) {
                    Some(name) => {
                        let start = name + name_chars.len();
                        match find_first(text, quote_chars.as_slice(), start, focus) {
                            Some(end) => {
                                assert(text@.subrange(start as int, focus as int).take(end as int)
                                    =~= tree@.subrange(start as int, start + end));
                                return Ok(WindowInfo::new(substring(tree, start, start + end)));
                            },
                            None => {},
                        }
                    },
                    None => {},
                }
            },
            None => {},
        }
        Err(AhkError::Internal(String::from_str("Активное окно в Sway не найдено")))
    }
}

} // verus!
