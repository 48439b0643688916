//! What the window manager control tool prints for the window list, read.

use crate::error::AhkError;
use crate::error::AhkErrorView;
use crate::events::WindowInfo;
use crate::text::contains_chars;
use crate::text::is_substring;
use crate::text::joined;
use crate::text::to_chars;
use crate::words::join_spans;
use crate::words::lines;
use crate::words::span_texts;
use crate::words::spans_within;
use crate::words::split_lines;
use crate::words::split_words;
use crate::words::words;
use vstd::prelude::*;
use vstd::string::StringExecFns;

verus! {

/// The title that a line of the list gives, if it is the line of the active
/// window: the line holds a star and more than three words, and the title is
/// what follows the third word, with one space between its words.
pub open spec fn listed_title(line: Seq<char>) -> Option<Seq<char>> {
    if is_substring("*"@, line) && words(line).len() > 3 {
        Some(joined(words(line).skip(3), " "@))
    } else {
        None
    }
}

/// The title that the first of the lines gives that gives one.
pub open spec fn active_title(lines: Seq<Seq<char>>) -> Option<Seq<char>>
    decreases lines.len(),
{
    if lines.len() == 0 {
        None
    } else {
        match listed_title(lines.first()) {
            Some(title) => Some(title),
            None => active_title(lines.drop_first()),
        }
    }
}

pub struct WmctrlDetector;

impl WmctrlDetector {
    pub fn new() -> Self {
        Self
    }

    /// The active window from the window list that the tool printed.
    pub fn get_active_window(&self, list: &str) -> (r: Result<WindowInfo, AhkError>)
        ensures
            match r {
                Ok(w) => {
                    &&& active_title(lines(list@)) == Some(w.title@)
                    &&& w.class@.len() == 0
                    &&& w.pid is None
                    &&& w.geometry is None
                },
                Err(e) => {
                    &&& active_title(lines(list@)) is None
                    &&& e@ == AhkErrorView::Internal("Активное окно не найдено"@)
                },
            },
    {
        let chars = to_chars(list);
        let text = chars.as_slice();
        let star = to_chars("*");
        let line_spans = split_lines(text);
        let ghost all = lines(list@);
        let mut i: usize = 0;
        assert(all.skip(0) =~= all);
        while i < line_spans.len()
            invariant
                i <= line_spans.len(),
                text@ == list@,
                star@ == "*"@,
                all == lines(list@),
                spans_within(line_spans@, text@.len()),
                span_texts(text@, line_spans@) == all,
                active_title(all) == active_title(all.skip(i as int)),
            decreases line_spans.len() - i,
        {
            let (from, to) = line_spans[i];
            let ghost line = text@.subrange(from as int, to as int);
            assert(all.skip(i as int).first() == line);
            assert(all.skip(i as int).drop_first() =~= all.skip(i + 1));
            let word_spans = split_words(text, from, to);
            let starred = contains_chars(vstd::slice::slice_subrange(text, from, to), star.as_slice());
            if starred && word_spans.len() > 3 {
                let title = join_spans(list, &word_spans, 3, " ");
                return Ok(WindowInfo::new(title));
            }
            i += 1;
        }
        Err(AhkError::Internal(String::from_str("Активное окно не найдено")))
    }
}

} // verus!
