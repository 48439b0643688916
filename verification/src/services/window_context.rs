//! The window state that the repeat decision reads: the title of the active
//! window in lower case, a hash of the title as it was reported, and a hash of
//! the configured title patterns. It makes no decision itself.

use crate::hashing::hash_str;
use crate::hashing::hash_str_list;
use crate::hashing::str_hash;
use crate::hashing::str_list_hash;
use crate::text::lowercase;
use crate::text::to_lowercase;
use vstd::prelude::*;

verus! {

/// Read access to the window state, and the two updates that keep it current.
pub trait WindowContext {
    /// The cached lower-case title.
    spec fn title_lower(&self) -> Seq<char>;

    /// The hash of the title that was reported last.
    spec fn title_hash(&self) -> u64;

    /// The hash of the pattern list that was reported last.
    spec fn patterns_hash(&self) -> u64;

    fn get_title_lower(&self) -> (r: String)
        ensures
            r@ == self.title_lower(),
    ;

    fn get_title_hash(&self) -> (r: u64)
        ensures
            r == self.title_hash(),
    ;

    fn get_patterns_hash(&self) -> (r: u64)
        ensures
            r == self.patterns_hash(),
    ;

    /// Takes a new title: its hash replaces the old one, and where the hash
    /// has changed the cached lower-case title is replaced too.
    fn update_title(&mut self, title: &str)
        ensures
            final(self).title_hash() == str_hash(title@),
            final(self).title_lower() == if old(self).title_hash() != str_hash(title@) {
                lowercase(title@)
            } else {
                old(self).title_lower()
            },
            final(self).patterns_hash() == old(self).patterns_hash(),
    ;

    /// Takes a new pattern list: its hash replaces the old one.
    fn update_patterns_hash(&mut self, patterns: &[String])
        ensures
            final(self).patterns_hash() == str_list_hash(patterns.deep_view()),
            final(self).title_hash() == old(self).title_hash(),
            final(self).title_lower() == old(self).title_lower(),
    ;
}

/// The window state kept in plain fields.
pub struct DefaultWindowContext {
    title_hash: u64,
    title_lower: String,
    patterns_hash: u64,
}

impl DefaultWindowContext {
    /// The state before any window was seen: an empty title, both hashes
    /// zero.
    pub fn new() -> (r: Self)
        ensures
            r.title_lower().len() == 0,
            r.title_hash() == 0,
            r.patterns_hash() == 0,
    {
        Self { title_hash: 0, title_lower: String::new(), patterns_hash: 0 }
    }
}

impl Default for DefaultWindowContext {
    fn default() -> (r: Self)
        ensures
            r.title_lower().len() == 0,
            r.title_hash() == 0,
            r.patterns_hash() == 0,
    {
        Self::new()
    }
}

impl WindowContext for DefaultWindowContext {
    closed spec fn title_lower(&self) -> Seq<char> {
        self.title_lower@
    }

    closed spec fn title_hash(&self) -> u64 {
        self.title_hash
    }

    closed spec fn patterns_hash(&self) -> u64 {
        self.patterns_hash
    }

    fn get_title_lower(&self) -> (r: String) {
        self.title_lower.clone()
    }

    fn get_title_hash(&self) -> (r: u64) {
        self.title_hash
    }

    fn get_patterns_hash(&self) -> (r: u64) {
        self.patterns_hash
    }

    fn update_title(&mut self, title: &str) {
        let new_hash = hash_str(title);
        let old_hash = self.title_hash;
        self.title_hash = new_hash;
        if old_hash != new_hash {
            self.title_lower = to_lowercase(title);
        }
    }

    fn update_patterns_hash(&mut self, patterns: &[String]) {
        self.patterns_hash = hash_str_list(patterns);
    }
}

} // verus!
