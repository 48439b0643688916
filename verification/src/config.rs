//! The configuration of the daemon and the rule that decides, from it, whether
//! a key is repeated.

use crate::error::ConfigError;
use crate::error::ConfigErrorView;
use crate::mappings::key_name_to_evdev_code::is_modifier_name;
use crate::text::contains_str;
use crate::text::is_substring;
use crate::text::lowercase;
use crate::text::contains_chars;
use crate::text::to_chars;
use crate::text::str_eq;
use crate::text::to_lowercase;
use vstd::prelude::*;
use vstd::string::StringExecFns;

verus! {

#[derive(Debug, Clone)]
pub struct LoggingConfig {
    pub level: String,
    pub format: String,
    pub filter: String,
}

#[derive(Debug, Clone)]
pub struct InputConfig {
    pub device_path: String,
}

#[derive(Debug, Clone)]
pub struct RepeatConfig {
    pub repeat_delay_ms: u64,
    pub repeat_toggle_key: Option<String>,
}

#[derive(Debug, Clone)]
pub struct WindowConfig {
    pub detection_mode: String,
    pub polling_interval_ms: u64,
    pub window_title_patterns: Vec<String>,
}

/// A key that is repeated, with the modifiers that may be held with it.
#[derive(Debug, Clone)]
pub struct KeyMapping {
    pub key: String,
    pub modifiers: Vec<String>,
}

/// A mapping with its strings as sequences of characters.
pub struct MappingView {
    pub key: Seq<char>,
    pub modifiers: Seq<Seq<char>>,
}

impl View for KeyMapping {
    type V = MappingView;

    open spec fn view(&self) -> MappingView {
        MappingView { key: self.key@, modifiers: self.modifiers.deep_view() }
    }
}

/// Indexes over the mappings and the patterns of a configuration: the keys
/// that have a mapping, and the patterns in lower case.
#[derive(Debug, Clone)]
pub struct ConfigIndexes {
    key_set: Vec<String>,
    pattern_set_lower: Vec<String>,
}

impl ConfigIndexes {
    /// The keys that the key index holds.
    pub closed spec fn keys(&self) -> Seq<Seq<char>> {
        self.key_set.deep_view()
    }

    /// The strings that the pattern index holds.
    pub closed spec fn lowered_patterns(&self) -> Seq<Seq<char>> {
        self.pattern_set_lower.deep_view()
    }
}

/// The whole configuration. `build_optimization_indexes` brings the indexes
/// up to date after a change of the mappings or of the patterns.
#[derive(Debug, Clone)]
pub struct Config {
    pub logging: LoggingConfig,
    pub input: InputConfig,
    pub repeat: RepeatConfig,
    pub window: WindowConfig,
    pub mappings: Vec<KeyMapping>,
    pub indexes: ConfigIndexes,
}

/// Every pressed modifier is among the allowed ones. With nothing pressed this
/// holds of every mapping; with an empty allowed list it holds of nothing else.
pub open spec fn modifiers_allowed(pressed: Seq<Seq<char>>, allowed: Seq<Seq<char>>) -> bool {
    forall|i: int| 0 <= i < pressed.len() ==> allowed.contains(#[trigger] pressed[i])
}

/// A window title matches the patterns: there are none, or the lower-case
/// title contains the lower-case form of one of them.
pub open spec fn title_matches(title: Seq<char>, patterns: Seq<Seq<char>>) -> bool {
    patterns.len() == 0 || exists|i: int|
        0 <= i < patterns.len() && is_substring(lowercase(#[trigger] patterns[i]), lowercase(title))
}

/// The mapping is for `key` and allows the pressed modifiers.
pub open spec fn mapping_matches(m: MappingView, key: Seq<char>, pressed: Seq<Seq<char>>) -> bool {
    m.key == key && modifiers_allowed(pressed, m.modifiers)
}

/// Some mapping is for `key`.
pub open spec fn has_key(mappings: Seq<MappingView>, key: Seq<char>) -> bool {
    exists|i: int| 0 <= i < mappings.len() && (#[trigger] mappings[i]).key == key
}

/// The repeat decision: some mapping is for the key and allows the pressed
/// modifiers, and the window title matches the patterns.
pub open spec fn should_repeat(
    mappings: Seq<MappingView>,
    patterns: Seq<Seq<char>>,
    key: Seq<char>,
    pressed: Seq<Seq<char>>,
    title: Seq<char>,
) -> bool {
    &&& exists|i: int|
        0 <= i < mappings.len() && mapping_matches(#[trigger] mappings[i], key, pressed)
    &&& title_matches(title, patterns)
}

pub open spec fn is_log_level(s: Seq<char>) -> bool {
    s == "trace"@ || s == "debug"@ || s == "info"@ || s == "warn"@ || s == "error"@
}

pub open spec fn is_log_format(s: Seq<char>) -> bool {
    s == "pretty"@ || s == "json"@
}

pub open spec fn is_detection_mode(s: Seq<char>) -> bool {
    s == "dbus"@ || s == "polling"@
}

/// The first string of `modifiers`, from index `from` on, that is no modifier
/// name.
pub open spec fn first_unknown_modifier(modifiers: Seq<Seq<char>>, from: int) -> Option<Seq<char>>
    decreases modifiers.len() - from,
{
    if from < 0 || from >= modifiers.len() {
        None
    } else if !is_modifier_name(modifiers[from]) {
        Some(modifiers[from])
    } else {
        first_unknown_modifier(modifiers, from + 1)
    }
}

/// What is wrong with one mapping, which is the `number`-th: its key is empty,
/// or else one of its modifiers is unknown.
pub open spec fn mapping_error(m: MappingView, number: nat) -> Option<ConfigErrorView> {
    if m.key.len() == 0 {
        Some(ConfigErrorView::EmptyMappingKey { mapping: number })
    } else {
        match first_unknown_modifier(m.modifiers, 0) {
            Some(modifier) => Some(ConfigErrorView::InvalidModifier { modifier, mapping: number }),
            None => None,
        }
    }
}

/// What is wrong with the first faulty mapping from index `from` on.
pub open spec fn mappings_error(mappings: Seq<MappingView>, from: int) -> Option<ConfigErrorView>
    decreases mappings.len() - from,
{
    if from < 0 || from >= mappings.len() {
        None
    } else {
        match mapping_error(mappings[from], (from + 1) as nat) {
            Some(e) => Some(e),
            None => mappings_error(mappings, from + 1),
        }
    }
}

/// The strings of `list` have no duplicates and are exactly those that
/// `member` holds of.
pub open spec fn lists_exactly(list: Seq<Seq<char>>, member: spec_fn(Seq<char>) -> bool) -> bool {
    &&& list.no_duplicates()
    &&& forall|s: Seq<char>| #[trigger] list.contains(s) <==> member(s)
}

/// `s` is the lower-case form of one of the patterns.
pub open spec fn is_lowered_pattern(patterns: Seq<Seq<char>>, s: Seq<char>) -> bool {
    exists|i: int| 0 <= i < patterns.len() && lowercase(#[trigger] patterns[i]) == s
}

/// `s` is the key or one of the modifiers of a mapping.
pub open spec fn is_mapping_word(mappings: Seq<MappingView>, s: Seq<char>) -> bool {
    exists|i: int|
        0 <= i < mappings.len() && ((#[trigger] mappings[i]).key == s
            || mappings[i].modifiers.contains(s))
}

/// Adds `s` to a list without duplicates unless it is there already.
fn push_unique(list: &mut Vec<String>, s: String)
    requires
        old(list).deep_view().no_duplicates(),
    ensures
        final(list).deep_view().no_duplicates(),
        forall|x: Seq<char>| #[trigger]
            final(list).deep_view().contains(x) <==> (old(list).deep_view().contains(x) || x
                == s@),
{
    let ghost before = list.deep_view();
    let items = list.as_slice();
    assert(items.deep_view() =~= before);
    if !contains_str(items, s.as_str()) {
        list.push(s);
        let ghost after = list.deep_view();
        assert(after =~= before.push(s@));
        assert forall|x: Seq<char>| #[trigger] after.contains(x) <==> (before.contains(x) || x
            == s@) by {
            if before.contains(x) {
                let i = choose|i: int| 0 <= i < before.len() && before[i] == x;
                assert(after[i] == x);
            }
            if x == s@ {
                assert(after[before.len() as int] == x);
            }
        }
    }
}

/// Whether every pressed modifier is among the allowed ones.
fn all_allowed(pressed: &[String], allowed: &Vec<String>) -> (r: bool)
    ensures
        r == modifiers_allowed(pressed.deep_view(), allowed.deep_view()),
{
    let ghost names = pressed.deep_view();
    let allowed_names = allowed.as_slice();
    assert(allowed_names.deep_view() =~= allowed.deep_view());
    let mut i: usize = 0;
    while i < pressed.len()
        invariant
            i <= pressed.len(),
            names == pressed.deep_view(),
            allowed_names.deep_view() == allowed.deep_view(),
            forall|j: int| 0 <= j < i ==> allowed.deep_view().contains(#[trigger] names[j]),
        decreases pressed.len() - i,
    {
        assert(names[i as int] == pressed@[i as int]@);
        if !contains_str(allowed_names, pressed[i].as_str()) {
            return false;
        }
        i += 1;
    }
    true
}

/// Whether a string is one of the four modifier names.
fn is_modifier_str(s: &str) -> (r: bool)
    ensures
        r == is_modifier_name(s@),
{
    str_eq(s, "ctrl") || str_eq(s, "alt") || str_eq(s, "shift") || str_eq(s, "super")
}

impl Config {
    /// The mappings as sequences of characters.
    pub open spec fn mapping_views(&self) -> Seq<MappingView> {
        Seq::new(self.mappings@.len(), |i: int| self.mappings@[i]@)
    }

    /// The window title patterns as sequences of characters.
    pub open spec fn patterns(&self) -> Seq<Seq<char>> {
        self.window.window_title_patterns.deep_view()
    }

    /// The indexes are up to date: the key index lists exactly the keys of the
    /// mappings, the pattern index exactly the lower-case patterns, each once.
    pub open spec fn indexed(&self) -> bool {
        &&& lists_exactly(self.indexes.keys(), |k: Seq<char>| has_key(self.mapping_views(), k))
        &&& lists_exactly(
            self.indexes.lowered_patterns(),
            |p: Seq<char>| is_lowered_pattern(self.patterns(), p),
        )
    }

    /// The first thing that makes the configuration invalid, in the order log
    /// level, log format, repeat delay, detection mode, polling interval,
    /// mappings.
    pub open spec fn validation_error(&self) -> Option<ConfigErrorView> {
        if !is_log_level(self.logging.level@) {
            Some(ConfigErrorView::InvalidLogLevel(self.logging.level@))
        } else if !is_log_format(self.logging.format@) {
            Some(ConfigErrorView::InvalidLogFormat(self.logging.format@))
        } else if self.repeat.repeat_delay_ms == 0 {
            Some(ConfigErrorView::ZeroRepeatDelay)
        } else if !is_detection_mode(self.window.detection_mode@) {
            Some(ConfigErrorView::InvalidDetectionMode(self.window.detection_mode@))
        } else if self.window.polling_interval_ms < 100 {
            Some(ConfigErrorView::PollingIntervalTooShort)
        } else {
            mappings_error(self.mapping_views(), 0)
        }
    }

    /// The decision for a key, a list of pressed modifiers and a window title.
    pub open spec fn decides(
        &self,
        key: Seq<char>,
        pressed: Seq<Seq<char>>,
        title: Seq<char>,
    ) -> bool {
        should_repeat(self.mapping_views(), self.patterns(), key, pressed, title)
    }

    pub fn mappings(&self) -> (r: &Vec<KeyMapping>)
        ensures
            *r == self.mappings,
    {
        &self.mappings
    }

    /// Rebuilds the key index and the pattern index from the mappings and the
    /// window title patterns.
    pub fn build_optimization_indexes(&mut self)
        ensures
            final(self).indexed(),
            final(self).logging == old(self).logging,
            final(self).input == old(self).input,
            final(self).repeat == old(self).repeat,
            final(self).window == old(self).window,
            final(self).mappings == old(self).mappings,
    {
        let ghost views = self.mapping_views();
        let mut keys: Vec<String> = Vec::new();
        let mut i: usize = 0;
        while i < self.mappings.len()
            invariant
                i <= self.mappings.len(),
                views == self.mapping_views(),
                lists_exactly(keys.deep_view(), |k: Seq<char>| has_key(views.take(i as int), k)),
            decreases self.mappings.len() - i,
        {
            let ghost before = keys.deep_view();
            push_unique(&mut keys, self.mappings[i].key.clone());
            proof {
                let key = views[i as int].key;
                assert(self.mappings[i as int].key@ == key);
                assert forall|k: Seq<char>| #[trigger]
                    keys.deep_view().contains(k) <==> has_key(views.take(i + 1), k) by {
                    if has_key(views.take(i + 1), k) {
                        let j = choose|j: int|
                            0 <= j < i + 1 && (#[trigger] views.take(i + 1)[j]).key == k;
                        if j < i {
                            assert(views.take(i as int)[j].key == k);
                        }
                    }
                    if before.contains(k) {
                        let j = choose|j: int|
                            0 <= j < i && (#[trigger] views.take(i as int)[j]).key == k;
                        assert(views.take(i + 1)[j].key == k);
                    }
                    if k == key {
                        assert(views.take(i + 1)[i as int].key == k);
                    }
                }
            }
            i += 1;
        }
        assert(views.take(i as int) =~= views);

        let ghost patterns = self.patterns();
        let mut lowered: Vec<String> = Vec::new();
        let mut j: usize = 0;
        while j < self.window.window_title_patterns.len()
            invariant
                j <= self.window.window_title_patterns.len(),
                patterns == self.patterns(),
                lists_exactly(
                    lowered.deep_view(),
                    |p: Seq<char>| is_lowered_pattern(patterns.take(j as int), p),
                ),
            decreases self.window.window_title_patterns.len() - j,
        {
            let ghost before = lowered.deep_view();
            let low = to_lowercase(self.window.window_title_patterns[j].as_str());
            push_unique(&mut lowered, low);
            proof {
                let pattern = patterns[j as int];
                assert(self.window.window_title_patterns[j as int]@ == pattern);
                assert forall|p: Seq<char>| #[trigger]
                    lowered.deep_view().contains(p) <==> is_lowered_pattern(
                        patterns.take(j + 1),
                        p,
                    ) by {
                    if is_lowered_pattern(patterns.take(j + 1), p) {
                        let n = choose|n: int|
                            0 <= n < j + 1 && lowercase(#[trigger] patterns.take(j + 1)[n]) == p;
                        if n < j {
                            assert(lowercase(patterns.take(j as int)[n]) == p);
                        }
                    }
                    if before.contains(p) {
                        let n = choose|n: int|
                            0 <= n < j && lowercase(#[trigger] patterns.take(j as int)[n]) == p;
                        assert(lowercase(patterns.take(j + 1)[n]) == p);
                    }
                    if p == lowercase(pattern) {
                        assert(lowercase(patterns.take(j + 1)[j as int]) == p);
                    }
                }
            }
            j += 1;
        }
        assert(patterns.take(j as int) =~= patterns);

        self.indexes = ConfigIndexes { key_set: keys, pattern_set_lower: lowered };
    }

    /// Accepts the configuration or names the first thing wrong with it.
    pub fn validate(&self) -> (r: Result<(), ConfigError>)
        ensures
            match r {
                Ok(_) => self.validation_error() is None,
                Err(e) => self.validation_error() == Some(e@),
            },
    {
        let level = self.logging.level.as_str();
        if !(str_eq(level, "trace") || str_eq(level, "debug") || str_eq(level, "info") || str_eq(
            level,
            "warn",
        ) || str_eq(level, "error")) {
            return Err(ConfigError::InvalidLogLevel(self.logging.level.clone()));
        }
        let format = self.logging.format.as_str();
        if !(str_eq(format, "pretty") || str_eq(format, "json")) {
            return Err(ConfigError::InvalidLogFormat(self.logging.format.clone()));
        }
        if self.repeat.repeat_delay_ms == 0 {
            return Err(ConfigError::ZeroRepeatDelay);
        }
        let mode = self.window.detection_mode.as_str();
        if !(str_eq(mode, "dbus") || str_eq(mode, "polling")) {
            return Err(ConfigError::InvalidDetectionMode(self.window.detection_mode.clone()));
        }
        if self.window.polling_interval_ms < 100 {
            return Err(ConfigError::PollingIntervalTooShort);
        }
        let ghost views = self.mapping_views();
        let mut i: usize = 0;
        while i < self.mappings.len()
            invariant
                i <= self.mappings.len(),
                views == self.mapping_views(),
                self.validation_error() == mappings_error(views, 0),
                mappings_error(views, 0) == mappings_error(views, i as int),
            decreases self.mappings.len() - i,
        {
            let mapping = &self.mappings[i];
            assert(views[i as int] == mapping@);
            if mapping.key.as_str().is_empty() {
                return Err(ConfigError::EmptyMappingKey { mapping: i + 1 });
            }
            let ghost names = mapping.modifiers.deep_view();
            let mut j: usize = 0;
            while j < mapping.modifiers.len()
                invariant
                    j <= mapping.modifiers.len(),
                    i < self.mappings.len(),
                    views == self.mapping_views(),
                    names == mapping.modifiers.deep_view(),
                    views[i as int] == mapping@,
                    mapping.key@.len() != 0,
                    self.validation_error() == mappings_error(views, i as int),
                    first_unknown_modifier(names, 0) == first_unknown_modifier(names, j as int),
                decreases mapping.modifiers.len() - j,
            {
                assert(names[j as int] == mapping.modifiers@[j as int]@);
                if !is_modifier_str(mapping.modifiers[j].as_str()) {
                    return Err(
                        ConfigError::InvalidModifier {
                            modifier: mapping.modifiers[j].clone(),
                            mapping: i + 1,
                        },
                    );
                }
                j += 1;
            }
            i += 1;
        }
        Ok(())
    }

    /// Whether the lower-case form of the title contains one of the patterns
    /// of the pattern index.
    fn title_matches_patterns(&self, window_title: &str) -> (r: bool)
        requires
            self.indexed(),
        ensures
            r == title_matches(window_title@, self.patterns()),
    {
        let ghost patterns = self.patterns();
        let ghost index = self.indexes.pattern_set_lower.deep_view();
        if self.indexes.pattern_set_lower.len() == 0 {
            assert(patterns.len() == 0) by {
                if patterns.len() > 0 {
                    assert(is_lowered_pattern(patterns, lowercase(patterns[0])));
                    assert(index.contains(lowercase(patterns[0])));
                }
            }
            return true;
        }
        assert(patterns.len() > 0) by {
            assert(index.contains(index[0]));
            assert(is_lowered_pattern(patterns, index[0]));
        }
        let title_lower = to_lowercase(window_title);
        let title_chars = to_chars(title_lower.as_str());
        let mut i: usize = 0;
        while i < self.indexes.pattern_set_lower.len()
            invariant
                i <= self.indexes.pattern_set_lower.len(),
                index == self.indexes.pattern_set_lower.deep_view(),
                patterns == self.patterns(),
                patterns.len() > 0,
                self.indexed(),
                title_chars@ == lowercase(window_title@),
                forall|j: int| 0 <= j < i ==> !is_substring(#[trigger] index[j], title_chars@),
            decreases self.indexes.pattern_set_lower.len() - i,
        {
            assert(index[i as int] == self.indexes.pattern_set_lower@[i as int]@);
            let pattern_chars = to_chars(self.indexes.pattern_set_lower[i].as_str());
            if contains_chars(title_chars.as_slice(), pattern_chars.as_slice()) {
                proof {
                    assert(index.contains(index[i as int]));
                    assert(is_lowered_pattern(patterns, index[i as int]));
                }
                return true;
            }
            i += 1;
        }
        proof {
            if title_matches(window_title@, patterns) {
                let n = choose|n: int|
                    0 <= n < patterns.len() && is_substring(
                        lowercase(#[trigger] patterns[n]),
                        lowercase(window_title@),
                    );
                assert(is_lowered_pattern(patterns, lowercase(patterns[n])));
                assert(index.contains(lowercase(patterns[n])));
            }
        }
        false
    }

    /// Decides whether a key is repeated while it is held with the given
    /// modifiers in a window with the given title.
    pub fn should_repeat_key(&self, key: &str, modifiers: &[String], window_title: &str) -> (r:
        bool)
        requires
            self.indexed(),
        ensures
            r == self.decides(key@, modifiers.deep_view(), window_title@),
    {
        let ghost views = self.mapping_views();
        let ghost pressed = modifiers.deep_view();
        let key_index = self.indexes.key_set.as_slice();
        assert(key_index.deep_view() =~= self.indexes.keys());
        if !contains_str(key_index, key) {
            assert(!has_key(views, key@));
            return false;
        }
        assert(has_key(views, key@));
        if modifiers.len() == 0 {
            proof {
                let i = choose|i: int| 0 <= i < views.len() && (#[trigger] views[i]).key == key@;
                assert(mapping_matches(views[i], key@, pressed));
            }
            return self.title_matches_patterns(window_title);
        }
        let mut i: usize = 0;
        while i < self.mappings.len()
            invariant
                i <= self.mappings.len(),
                views == self.mapping_views(),
                pressed == modifiers.deep_view(),
                self.indexed(),
                forall|j: int| 0 <= j < i ==> !mapping_matches(#[trigger] views[j], key@, pressed),
            decreases self.mappings.len() - i,
        {
            let mapping = &self.mappings[i];
            assert(views[i as int] == mapping@);
            if str_eq(mapping.key.as_str(), key) && all_allowed(modifiers, &mapping.modifiers) {
                assert(mapping_matches(views[i as int], key@, pressed));
                return self.title_matches_patterns(window_title);
            }
            i += 1;
        }
        false
    }

    /// Every key and every modifier that the mappings name, each once.
    pub fn get_all_keys(&self) -> (r: Vec<String>)
        ensures
            lists_exactly(r.deep_view(), |s: Seq<char>| is_mapping_word(self.mapping_views(), s)),
    {
        let ghost views = self.mapping_views();
        let mut keys: Vec<String> = Vec::new();
        let mut i: usize = 0;
        while i < self.mappings.len()
            invariant
                i <= self.mappings.len(),
                views == self.mapping_views(),
                lists_exactly(
                    keys.deep_view(),
                    |s: Seq<char>| is_mapping_word(views.take(i as int), s),
                ),
            decreases self.mappings.len() - i,
        {
            let mapping = &self.mappings[i];
            let ghost m = views[i as int];
            assert(m == mapping@);
            let ghost start = keys.deep_view();
            push_unique(&mut keys, mapping.key.clone());
            let ghost names = mapping.modifiers.deep_view();
            let mut j: usize = 0;
            while j < mapping.modifiers.len()
                invariant
                    j <= mapping.modifiers.len(),
                    names == mapping.modifiers.deep_view(),
                    keys.deep_view().no_duplicates(),
                    forall|s: Seq<char>| #[trigger]
                        keys.deep_view().contains(s) <==> (start.contains(s) || s == m.key
                            || names.take(j as int).contains(s)),
                decreases mapping.modifiers.len() - j,
            {
                assert(names[j as int] == mapping.modifiers@[j as int]@);
                let ghost before = keys.deep_view();
                push_unique(&mut keys, mapping.modifiers[j].clone());
                proof {
                    assert forall|s: Seq<char>| #[trigger]
                        keys.deep_view().contains(s) <==> (start.contains(s) || s == m.key
                            || names.take(j + 1).contains(s)) by {
                        let shorter = names.take(j as int);
                        let longer = names.take(j + 1);
                        if longer.contains(s) {
                            let n = choose|n: int| 0 <= n < longer.len() && longer[n] == s;
                            if n < j {
                                assert(shorter[n] == s);
                            }
                        }
                        if shorter.contains(s) {
                            let n = choose|n: int| 0 <= n < shorter.len() && shorter[n] == s;
                            assert(longer[n] == s);
                        }
                        if s == names[j as int] {
                            assert(names.take(j + 1)[j as int] == s);
                        }
                    }
                }
                j += 1;
            }
            proof {
                assert(names.take(j as int) =~= names);
                assert forall|s: Seq<char>| #[trigger]
                    keys.deep_view().contains(s) <==> is_mapping_word(views.take(i + 1), s) by {
                    let next = views.take(i + 1);
                    if is_mapping_word(next, s) {
                        let n = choose|n: int|
                            0 <= n < next.len() && ((#[trigger] next[n]).key == s
                                || next[n].modifiers.contains(s));
                        if n < i {
                            assert(views.take(i as int)[n] == next[n]);
                            assert(is_mapping_word(views.take(i as int), s));
                        }
                    }
                    if start.contains(s) {
                        assert(is_mapping_word(views.take(i as int), s));
                        let n = choose|n: int|
                            0 <= n < i && ((#[trigger] views.take(i as int)[n]).key == s
                                || views.take(i as int)[n].modifiers.contains(s));
                        assert(next[n] == views.take(i as int)[n]);
                    }
                    if s == m.key || names.contains(s) {
                        assert(next[i as int] == m);
                    }
                }
            }
            i += 1;
        }
        assert(views.take(i as int) =~= views);
        keys
    }
}

impl Default for Config {
    /// The configuration that is used where none is given; it is valid and its
    /// indexes are built.
    fn default() -> (r: Self)
        ensures
            r.logging.level@ == "info"@,
            r.logging.format@ == "pretty"@,
            r.logging.filter@ == "ahk_rust=info"@,
            r.input.device_path@ == "auto"@,
            r.repeat.repeat_delay_ms == 50,
            r.repeat.repeat_toggle_key is None,
            r.window.detection_mode@ == "dbus"@,
            r.window.polling_interval_ms == 1000,
            r.window.window_title_patterns@.len() == 0,
            r.mappings@.len() == 0,
            r.indexed(),
    {
        let mut config = Self {
            logging: LoggingConfig {
                level: String::from_str("info"),
                format: String::from_str("pretty"),
                filter: String::from_str("ahk_rust=info"),
            },
            input: InputConfig { device_path: String::from_str("auto") },
            repeat: RepeatConfig { repeat_delay_ms: 50, repeat_toggle_key: None },
            window: WindowConfig {
                detection_mode: String::from_str("dbus"),
                polling_interval_ms: 1000,
                window_title_patterns: Vec::new(),
            },
            mappings: Vec::new(),
            indexes: ConfigIndexes { key_set: Vec::new(), pattern_set_lower: Vec::new() },
        };
        config.build_optimization_indexes();
        config
    }
}

/// A key whose mappings allow no modifier: pressed bare, the window title
/// alone decides; pressed with any modifier, it is never repeated.
pub proof fn lemma_key_without_modifiers(
    mappings: Seq<MappingView>,
    patterns: Seq<Seq<char>>,
    key: Seq<char>,
    pressed: Seq<Seq<char>>,
    title: Seq<char>,
)
    requires
        has_key(mappings, key),
        forall|i: int|
            0 <= i < mappings.len() && (#[trigger] mappings[i]).key == key
                ==> mappings[i].modifiers.len() == 0,
    ensures
        should_repeat(mappings, patterns, key, Seq::empty(), title) == title_matches(
            title,
            patterns,
        ),
        pressed.len() > 0 ==> !should_repeat(mappings, patterns, key, pressed, title),
{
    let i = choose|i: int| 0 <= i < mappings.len() && (#[trigger] mappings[i]).key == key;
    assert(mapping_matches(mappings[i], key, Seq::empty()));
    if pressed.len() > 0 {
        assert forall|j: int| 0 <= j < mappings.len() implies !mapping_matches(
            #[trigger] mappings[j],
            key,
            pressed,
        ) by {
            if mappings[j].key == key {
                assert(!mappings[j].modifiers.contains(pressed[0]));
            }
        }
    }
}

/// A press whose modifiers one mapping of the key allows, the bare press among
/// them, is decided by the window title alone.
pub proof fn lemma_allowed_modifiers_match(
    mappings: Seq<MappingView>,
    patterns: Seq<Seq<char>>,
    key: Seq<char>,
    pressed: Seq<Seq<char>>,
    title: Seq<char>,
    i: int,
)
    requires
        0 <= i < mappings.len(),
        mappings[i].key == key,
        forall|j: int| 0 <= j < pressed.len() ==> mappings[i].modifiers.contains(#[trigger] pressed[j]),
    ensures
        should_repeat(mappings, patterns, key, pressed, title) == title_matches(title, patterns),
{
    assert(mapping_matches(mappings[i], key, pressed));
}

/// A pressed modifier that no mapping of the key allows blocks the repeat,
/// whatever else is pressed with it.
pub proof fn lemma_foreign_modifier_blocks(
    mappings: Seq<MappingView>,
    patterns: Seq<Seq<char>>,
    key: Seq<char>,
    pressed: Seq<Seq<char>>,
    title: Seq<char>,
    j: int,
)
    requires
        0 <= j < pressed.len(),
        forall|i: int|
            0 <= i < mappings.len() && (#[trigger] mappings[i]).key == key
                ==> !mappings[i].modifiers.contains(pressed[j]),
    ensures
        !should_repeat(mappings, patterns, key, pressed, title),
{
    assert forall|i: int| 0 <= i < mappings.len() implies !mapping_matches(
        #[trigger] mappings[i],
        key,
        pressed,
    ) by {
        if mappings[i].key == key {
            assert(!mappings[i].modifiers.contains(pressed[j]));
        }
    }
}

/// A key without a mapping is never repeated.
pub proof fn lemma_unmapped_key(
    mappings: Seq<MappingView>,
    patterns: Seq<Seq<char>>,
    key: Seq<char>,
    pressed: Seq<Seq<char>>,
    title: Seq<char>,
)
    requires
        !has_key(mappings, key),
    ensures
        !should_repeat(mappings, patterns, key, pressed, title),
{
}

} // verus!
