//! The repeat scheduler. It takes every keyboard event and every change of
//! the active window, keeps the registry of keys that are being repeated, and
//! answers with the commands that its caller carries out: events for the
//! virtual keyboard, and timers to start and to cancel.
//!
//! A repeat task is kept under the hash of its key alone. The modifiers held
//! when the key goes up may differ from those held when it went down; the
//! release still finds the task.

use crate::config::Config;
use crate::events::keyboard::modifier_names;
use crate::events::keyboard::names_bits;
use crate::events::keyboard::names_to_bits;
use crate::events::KeyCode;
use crate::events::KeyEvent;
use crate::events::KeyState;
use crate::events::Modifiers;
use crate::events::VirtualKeyEvent;
use crate::events::VirtualKeyView;
use crate::events::WindowEvent;
use crate::hashing::hash_str;
use crate::hashing::key_code_hash;
use crate::hashing::str_hash;
use crate::hashing::str_list_hash;
use crate::mappings::key_name_to_evdev_code::key_name_of;
use crate::mappings::key_name_to_evdev_code::KeyNameToEvdevCode;
use crate::services::registry::active_tasks;
use crate::services::registry::cache_get;
use crate::services::registry::cache_insert;
use crate::services::registry::cache_new;
use crate::services::registry::cached_decisions;
use crate::services::registry::entry_keys;
use crate::services::registry::tasks_clear;
use crate::services::registry::tasks_contains;
use crate::services::registry::tasks_entries;
use crate::services::registry::tasks_insert;
use crate::services::registry::tasks_len;
use crate::services::registry::tasks_new;
use crate::services::registry::tasks_remove;
use crate::services::window_context::DefaultWindowContext;
use crate::services::window_context::WindowContext;
use crate::text::lowercase;
use crate::text::str_eq;
use dashmap::DashMap;
use vstd::prelude::*;

verus! {

/// What the scheduler asks its caller to do.
#[derive(Debug, Clone)]
pub enum RepeaterCommand {
    /// Write the event to the virtual keyboard.
    Emit(VirtualKeyEvent),
    /// Start the repeat timer of a key; it is known by the hash of the key.
    StartRepeat { key_hash: u64, key_code: KeyCode, modifiers: Modifiers },
    /// Cancel the repeat timer that is known by this hash.
    StopRepeat { key_hash: u64 },
}

/// A command in plain values.
pub enum CommandView {
    Emit(VirtualKeyView),
    StartRepeat { key_hash: u64, code: u16, modifier_bits: u8 },
    StopRepeat { key_hash: u64 },
}

impl View for RepeaterCommand {
    type V = CommandView;

    open spec fn view(&self) -> CommandView {
        match *self {
            RepeaterCommand::Emit(event) => CommandView::Emit(event@),
            RepeaterCommand::StartRepeat { key_hash, key_code, modifiers } => {
                CommandView::StartRepeat { key_hash, code: key_code.0, modifier_bits: modifiers@ }
            },
            RepeaterCommand::StopRepeat { key_hash } => CommandView::StopRepeat { key_hash },
        }
    }
}

/// The views of a list of commands, in order.
pub open spec fn command_views(commands: Seq<RepeaterCommand>) -> Seq<CommandView> {
    Seq::new(commands.len(), |i: int| commands[i]@)
}

/// A key event in plain values, without the time and the device.
pub struct KeyEventView {
    pub code: u16,
    pub state: KeyState,
    pub modifier_bits: u8,
}

/// The plain values of a key event.
pub open spec fn key_event_view(event: KeyEvent) -> KeyEventView {
    KeyEventView {
        code: event.key_code.0,
        state: event.state,
        modifier_bits: event.modifiers@,
    }
}

/// The state of the scheduler.
pub struct RepeaterState {
    /// Whether repetition is switched on.
    pub enabled: bool,
    /// The active repeat tasks: under the hash of a key, its code and the
    /// modifier bits it went down with.
    pub active: Map<u64, (u16, u8)>,
    /// The cached decisions, under key hash, modifier bits, title hash and
    /// patterns hash.
    pub cache: Map<(u64, u8, u64, u64), bool>,
    /// The title of the active window in lower case.
    pub title_lower: Seq<char>,
    /// The hash of the title of the active window.
    pub title_hash: u64,
    /// The hash of the configured title patterns.
    pub patterns_hash: u64,
}

/// The structural key of a cached decision.
#[derive(Debug, Clone, Copy, PartialEq, Eq, Hash, Structural)]
pub struct CacheKey {
    pub key_name_hash: u64,
    pub modifiers_bits: u8,
    pub title_hash: u64,
    pub patterns_hash: u64,
}

impl CacheKey {
    /// The four parts in their order.
    pub open spec fn parts(self) -> (u64, u8, u64, u64) {
        (self.key_name_hash, self.modifiers_bits, self.title_hash, self.patterns_hash)
    }

    pub fn to_parts(&self) -> (r: (u64, u8, u64, u64))
        ensures
            r == self.parts(),
    {
        (self.key_name_hash, self.modifiers_bits, self.title_hash, self.patterns_hash)
    }
}

/// The cache key of a decision in a state.
pub open spec fn cache_key(s: RepeaterState, name: Seq<char>, pressed: Seq<Seq<char>>) -> CacheKey {
    CacheKey {
        key_name_hash: str_hash(name),
        modifiers_bits: names_to_bits(pressed),
        title_hash: s.title_hash,
        patterns_hash: s.patterns_hash,
    }
}

/// The decision that the cache gives: the cached one where the cache has an
/// entry under the key, else the one that the configuration makes for the
/// cached window title.
pub open spec fn cached_decision(
    config: Config,
    s: RepeaterState,
    name: Seq<char>,
    pressed: Seq<Seq<char>>,
) -> bool {
    let key = cache_key(s, name, pressed).parts();
    if s.cache.contains_key(key) {
        s.cache[key]
    } else {
        config.decides(name, pressed, s.title_lower)
    }
}

/// The state after a decision was asked for: the cache holds it.
pub open spec fn after_decision(
    config: Config,
    s: RepeaterState,
    name: Seq<char>,
    pressed: Seq<Seq<char>>,
) -> RepeaterState {
    RepeaterState {
        cache: s.cache.insert(
            cache_key(s, name, pressed).parts(),
            cached_decision(config, s, name, pressed),
        ),
        ..s
    }
}

/// The state after the active window has taken a new title.
pub open spec fn after_title(s: RepeaterState, title: Seq<char>) -> RepeaterState {
    RepeaterState {
        title_hash: str_hash(title),
        title_lower: if s.title_hash != str_hash(title) {
            lowercase(title)
        } else {
            s.title_lower
        },
        ..s
    }
}

/// The event is a press of the configured toggle key.
pub open spec fn is_toggle_press(config: Config, e: KeyEventView) -> bool {
    &&& config.repeat.repeat_toggle_key matches Some(toggle)
    &&& key_name_of(e.code) == Some(toggle@)
    &&& e.state == KeyState::Pressed
}

/// The repeat decision for an event: the key has a name, repetition is on,
/// and the cache decides for the key with the modifiers held.
pub open spec fn event_decision(config: Config, s: RepeaterState, e: KeyEventView) -> bool {
    match key_name_of(e.code) {
        Some(name) => s.enabled && cached_decision(config, s, name, modifier_names(e.modifier_bits)),
        None => false,
    }
}

/// The state after the decision for an event: the cache was asked only for a
/// key with a name while repetition is on.
pub open spec fn after_event_decision(
    config: Config,
    s: RepeaterState,
    e: KeyEventView,
) -> RepeaterState {
    match key_name_of(e.code) {
        Some(name) => if s.enabled {
            after_decision(config, s, name, modifier_names(e.modifier_bits))
        } else {
            s
        },
        None => s,
    }
}

/// The event for the virtual keyboard that passes a key event on.
pub open spec fn passthrough_of(e: KeyEventView) -> VirtualKeyView {
    VirtualKeyView { code: e.code, state: e.state, modifier_bits: e.modifier_bits }
}

/// The release of a registered task.
pub open spec fn release_of(task: (u16, u8)) -> VirtualKeyView {
    VirtualKeyView { code: task.0, state: KeyState::Released, modifier_bits: task.1 }
}

/// A press of a repeatable key: the press is passed on, and a task is started
/// unless the key has one.
pub open spec fn press_step(s: RepeaterState, e: KeyEventView) -> (RepeaterState, Seq<CommandView>) {
    let hash = key_code_hash(e.code);
    let press = CommandView::Emit(
        VirtualKeyView { code: e.code, state: KeyState::Pressed, modifier_bits: e.modifier_bits },
    );
    if s.active.contains_key(hash) {
        (s, seq![press])
    } else {
        (
            RepeaterState { active: s.active.insert(hash, (e.code, e.modifier_bits)), ..s },
            seq![
                press,
                CommandView::StartRepeat {
                    key_hash: hash,
                    code: e.code,
                    modifier_bits: e.modifier_bits,
                },
            ],
        )
    }
}

/// A release of a repeatable key: the task of the key, if it has one, is
/// stopped and taken off the registry, and then the release is passed on.
pub open spec fn release_step(s: RepeaterState, e: KeyEventView) -> (
    RepeaterState,
    Seq<CommandView>,
) {
    let hash = key_code_hash(e.code);
    let release = CommandView::Emit(
        VirtualKeyView { code: e.code, state: KeyState::Released, modifier_bits: e.modifier_bits },
    );
    if s.active.contains_key(hash) {
        (
            RepeaterState { active: s.active.remove(hash), ..s },
            seq![CommandView::StopRepeat { key_hash: hash }, release],
        )
    } else {
        (s, seq![release])
    }
}

/// `order` lists the keys of the registry, each once.
pub open spec fn is_task_order(active: Map<u64, (u16, u8)>, order: Seq<u64>) -> bool {
    order.no_duplicates() && order.to_set() == active.dom()
}

/// The commands of a graceful stop that takes the tasks in the given order:
/// a release for each task, then the stop of each timer.
pub open spec fn stop_commands(active: Map<u64, (u16, u8)>, order: Seq<u64>) -> Seq<CommandView> {
    Seq::new(order.len(), |i: int| CommandView::Emit(release_of(active[order[i]]))) + Seq::new(
        order.len(),
        |i: int| CommandView::StopRepeat { key_hash: order[i] },
    )
}

/// A graceful stop: every task is released and stopped, and the registry is
/// empty afterwards.
pub open spec fn stop_all_step(s: RepeaterState, order: Seq<u64>) -> (
    RepeaterState,
    Seq<CommandView>,
) {
    (RepeaterState { active: Map::empty(), ..s }, stop_commands(s.active, order))
}

/// What a key event does.
///
/// A press of the toggle key flips the switch, stops everything where that
/// switches repetition off, and is passed on. Any other event is decided
/// with the modifiers it carries:
///
/// - a press that is to be repeated is passed on and starts a task, unless
///   the key has one; any other press is passed on;
/// - a release ends the task of its key, if it has one, however the event
///   is decided, and is passed on;
/// - a hardware repeat is dropped where the key is to be repeated or has a
///   task, and is passed on otherwise.
pub open spec fn key_event_step(
    config: Config,
    s: RepeaterState,
    e: KeyEventView,
    order: Seq<u64>,
) -> (RepeaterState, Seq<CommandView>) {
    if is_toggle_press(config, e) {
        let flipped = RepeaterState { enabled: !s.enabled, ..s };
        let press = CommandView::Emit(
            VirtualKeyView {
                code: e.code,
                state: KeyState::Pressed,
                modifier_bits: e.modifier_bits,
            },
        );
        if s.enabled {
            let (stopped, commands) = stop_all_step(flipped, order);
            (stopped, commands.push(press))
        } else {
            (flipped, seq![press])
        }
    } else {
        let decided = after_event_decision(config, s, e);
        let repeated = event_decision(config, s, e);
        match e.state {
            KeyState::Pressed => if repeated {
                press_step(decided, e)
            } else {
                (decided, seq![CommandView::Emit(passthrough_of(e))])
            },
            KeyState::Released => release_step(decided, e),
            KeyState::Repeat => if repeated || decided.active.contains_key(key_code_hash(e.code)) {
                (decided, Seq::empty())
            } else {
                (decided, seq![CommandView::Emit(passthrough_of(e))])
            },
        }
    }
}

/// What a change of the active window does: the title is taken over, then
/// everything is stopped.
pub open spec fn window_event_step(s: RepeaterState, title: Seq<char>, order: Seq<u64>) -> (
    RepeaterState,
    Seq<CommandView>,
) {
    stop_all_step(after_title(s, title), order)
}

/// Every task of the registry stands under the hash of its own key.
pub open spec fn tasks_keyed_by_code(active: Map<u64, (u16, u8)>) -> bool {
    forall|hash: u64| #[trigger] active.contains_key(hash) ==> hash == key_code_hash(active[hash].0)
}

/// The repeat scheduler.
pub struct KeyRepeater {
    config: Config,
    dry_run: bool,
    active_repeaters: DashMap<u64, (u16, u8)>,
    decision_cache: DashMap<(u64, u8, u64, u64), bool>,
    window_ctx: DefaultWindowContext,
    repetition_enabled: bool,
}

impl View for KeyRepeater {
    type V = RepeaterState;

    closed spec fn view(&self) -> RepeaterState {
        RepeaterState {
            enabled: self.repetition_enabled,
            active: active_tasks(self.active_repeaters),
            cache: cached_decisions(self.decision_cache),
            title_lower: self.window_ctx.title_lower(),
            title_hash: self.window_ctx.title_hash(),
            patterns_hash: self.window_ctx.patterns_hash(),
        }
    }
}

impl KeyRepeater {
    /// The configuration that the scheduler decides by.
    pub closed spec fn config_of(&self) -> Config {
        self.config
    }

    /// Whether taps are only logged.
    pub closed spec fn dry(&self) -> bool {
        self.dry_run
    }

    /// The invariant of the scheduler: the indexes of its configuration are
    /// built, the registry is finite, and every task stands under the hash of
    /// its own key.
    pub closed spec fn wf(&self) -> bool {
        &&& self.config.indexed()
        &&& self@.active.dom().finite()
        &&& tasks_keyed_by_code(self@.active)
    }

    /// A scheduler for a configuration: repetition is on, nothing is active,
    /// nothing is cached, no window has been seen, and the hash of the
    /// configured patterns is taken. The indexes of the configuration are
    /// built on the way.
    pub fn new(config: Config, dry_run: bool) -> (r: Self)
        ensures
            r.wf(),
            r.config_of().indexed(),
            r.dry() == dry_run,
            r.config_of().logging == config.logging,
            r.config_of().input == config.input,
            r.config_of().repeat == config.repeat,
            r.config_of().window == config.window,
            r.config_of().mappings == config.mappings,
            r@.enabled,
            r@.active == Map::<u64, (u16, u8)>::empty(),
            r@.cache == Map::<(u64, u8, u64, u64), bool>::empty(),
            r@.title_lower.len() == 0,
            r@.title_hash == 0,
            r@.patterns_hash == str_list_hash(config.patterns()),
    {
        let mut config = config;
        config.build_optimization_indexes();
        let mut ctx = DefaultWindowContext::new();
        let patterns = config.window.window_title_patterns.as_slice();
        assert(patterns.deep_view() =~= config.patterns());
        ctx.update_patterns_hash(patterns);
        Self {
            config,
            dry_run,
            active_repeaters: tasks_new(),
            decision_cache: cache_new(),
            window_ctx: ctx,
            repetition_enabled: true,
        }
    }

    /// The configuration; its indexes are built.
    pub fn config(&self) -> (r: &Config)
        ensures
            *r == self.config_of(),
            self.wf() ==> r.indexed(),
    {
        &self.config
    }

    pub fn dry_run(&self) -> (r: bool)
        ensures
            r == self.dry(),
    {
        self.dry_run
    }

    /// Whether repetition is switched on.
    pub fn is_enabled(&self) -> (r: bool)
        ensures
            r == self@.enabled,
    {
        self.repetition_enabled
    }

    /// The number of active repeat tasks.
    pub fn active_count(&self) -> (r: usize)
        ensures
            r == self@.active.len(),
    {
        tasks_len(&self.active_repeaters)
    }

    /// Whether the key with this code has an active repeat task.
    pub fn is_repeating(&self, key_code: KeyCode) -> (r: bool)
        ensures
            r == self@.active.contains_key(key_code_hash(key_code.0)),
    {
        tasks_contains(&self.active_repeaters, crate::hashing::hash_key_code(key_code.value()))
    }

    /// The flags that a list of modifier names stands for.
    pub fn modifiers_to_bits(modifiers: &[String]) -> (bits: u8)
        ensures
            bits == names_to_bits(modifiers.deep_view()),
    {
        names_bits(modifiers)
    }

    /// The decision for a key name and a list of pressed modifiers in the
    /// current window, through the cache: a cached decision is returned as it
    /// is; otherwise the configuration decides and the decision is cached.
    pub fn should_repeat_cached(&mut self, key_name: &str, modifiers: &[String]) -> (r: bool)
        requires
            old(self).wf(),
        ensures
            final(self).wf(),
            final(self).config_of() == old(self).config_of(),
            final(self).dry() == old(self).dry(),
            r == cached_decision(old(self).config_of(), old(self)@, key_name@, modifiers.deep_view()),
            final(self)@ == after_decision(
                old(self).config_of(),
                old(self)@,
                key_name@,
                modifiers.deep_view(),
            ),
    {
        let cache_key = CacheKey {
            key_name_hash: hash_str(key_name),
            modifiers_bits: Self::modifiers_to_bits(modifiers),
            title_hash: self.window_ctx.get_title_hash(),
            patterns_hash: self.window_ctx.get_patterns_hash(),
        };
        let ghost before = self@;
        match cache_get(&self.decision_cache, cache_key.to_parts()) {
            Some(result) => {
                assert(before.cache.insert(cache_key.parts(), result) =~= before.cache);
                result
            },
            None => {
                let title = self.window_ctx.get_title_lower();
                let result = self.config.should_repeat_key(key_name, modifiers, title.as_str());
                let _ = cache_insert(&mut self.decision_cache, cache_key.to_parts(), result);
                result
            },
        }
    }

    /// Takes the title of the active window into the window context.
    pub fn update_title(&mut self, title: &str)
        requires
            old(self).wf(),
        ensures
            final(self).wf(),
            final(self).config_of() == old(self).config_of(),
            final(self).dry() == old(self).dry(),
            final(self)@ == after_title(old(self)@, title@),
    {
        self.window_ctx.update_title(title);
    }

    /// Registers the repeat task of the key of an event, under the hash of the
    /// key, and asks for its timer.
    pub fn start_repeater(&mut self, event: &KeyEvent) -> (r: RepeaterCommand)
        requires
            old(self).wf(),
        ensures
            final(self).wf(),
            final(self).config_of() == old(self).config_of(),
            final(self).dry() == old(self).dry(),
            final(self)@ == (RepeaterState {
                active: old(self)@.active.insert(
                    key_code_hash(event.key_code.0),
                    (event.key_code.0, event.modifiers@),
                ),
                ..old(self)@
            }),
            r@ == (CommandView::StartRepeat {
                key_hash: key_code_hash(event.key_code.0),
                code: event.key_code.0,
                modifier_bits: event.modifiers@,
            }),
    {
        let key_hash = event.key_only_hash();
        let _ = tasks_insert(
            &mut self.active_repeaters,
            key_hash,
            (event.key_code.value(), event.modifiers.bits()),
        );
        RepeaterCommand::StartRepeat {
            key_hash,
            key_code: event.key_code,
            modifiers: event.modifiers,
        }
    }

    /// Takes the task under a hash off the registry and asks for its timer to
    /// be cancelled; nothing happens where the registry has no such task.
    pub fn stop_repeater(&mut self, key_hash: u64) -> (r: Option<RepeaterCommand>)
        requires
            old(self).wf(),
        ensures
            final(self).wf(),
            final(self).config_of() == old(self).config_of(),
            final(self).dry() == old(self).dry(),
            final(self)@ == (RepeaterState {
                active: old(self)@.active.remove(key_hash),
                ..old(self)@
            }),
            match r {
                Some(command) => old(self)@.active.contains_key(key_hash) && command@ == (
                CommandView::StopRepeat { key_hash }),
                None => !old(self)@.active.contains_key(key_hash),
            },
    {
        match tasks_remove(&mut self.active_repeaters, key_hash) {
            Some(_) => Some(RepeaterCommand::StopRepeat { key_hash }),
            None => None,
        }
    }

    /// Handles the press of a key that is to be repeated.
    pub fn handle_key_press(&mut self, event: &KeyEvent) -> (commands: Vec<RepeaterCommand>)
        requires
            old(self).wf(),
        ensures
            final(self).wf(),
            final(self).config_of() == old(self).config_of(),
            final(self).dry() == old(self).dry(),
            (final(self)@, command_views(commands@)) == press_step(
                old(self)@,
                key_event_view(*event),
            ),
    {
        let mut commands: Vec<RepeaterCommand> = Vec::new();
        commands.push(RepeaterCommand::Emit(VirtualKeyEvent::press(event.key_code, event.modifiers)));
        let key_hash = event.key_only_hash();
        if tasks_contains(&self.active_repeaters, key_hash) {
            assert(command_views(commands@) =~= press_step(old(self)@, key_event_view(*event)).1);
            return commands;
        }
        let start = self.start_repeater(event);
        commands.push(start);
        assert(command_views(commands@) =~= press_step(old(self)@, key_event_view(*event)).1);
        commands
    }

    /// Handles the release of a key that is to be repeated.
    pub fn handle_key_release(&mut self, event: &KeyEvent) -> (commands: Vec<RepeaterCommand>)
        requires
            old(self).wf(),
        ensures
            final(self).wf(),
            final(self).config_of() == old(self).config_of(),
            final(self).dry() == old(self).dry(),
            (final(self)@, command_views(commands@)) == release_step(
                old(self)@,
                key_event_view(*event),
            ),
    {
        let mut commands: Vec<RepeaterCommand> = Vec::new();
        let key_hash = event.key_only_hash();
        if tasks_contains(&self.active_repeaters, key_hash) {
            match self.stop_repeater(key_hash) {
                Some(stop) => {
                    commands.push(stop);
                },
                None => {},
            }
        } else {
            assert(old(self)@.active.remove(key_hash) =~= old(self)@.active);
        }
        commands.push(
            RepeaterCommand::Emit(VirtualKeyEvent::release(event.key_code, event.modifiers)),
        );
        assert(command_views(commands@) =~= release_step(old(self)@, key_event_view(*event)).1);
        commands
    }

    /// Stops every active repeat task: a release for each, the stop of each
    /// timer, and an empty registry. In which order the tasks are taken is
    /// not fixed. With nothing active, nothing is done.
    pub fn stop_all_repeaters_gracefully(&mut self) -> (commands: Vec<RepeaterCommand>)
        requires
            old(self).wf(),
        ensures
            final(self).wf(),
            final(self).config_of() == old(self).config_of(),
            final(self).dry() == old(self).dry(),
            exists|order: Seq<u64>|
                is_task_order(old(self)@.active, order) && (final(self)@, command_views(commands@))
                    == stop_all_step(old(self)@, order),
            commands@.len() == 2 * old(self)@.active.len(),
    {
        let mut commands: Vec<RepeaterCommand> = Vec::new();
        let ghost active = self@.active;
        let count = tasks_len(&self.active_repeaters);
        if count == 0 {
            proof {
                let order = Seq::<u64>::empty();
                vstd::set_lib::lemma_set_empty_equivalency_len(active.dom());
                assert(active =~= Map::empty());
                assert(order.to_set() =~= active.dom());
                assert(command_views(commands@) =~= stop_commands(active, order));
                assert(is_task_order(active, order));
                assert((self@, command_views(commands@)) == stop_all_step(old(self)@, order));
            }
            return commands;
        }
        let entries = tasks_entries(&self.active_repeaters);
        let ghost order = entry_keys(entries@);
        proof {
            order.unique_seq_to_set();
            assert forall|j: int| 0 <= j < order.len() implies active.contains_key(
                #[trigger] order[j],
            ) by {
                assert(order.to_set().contains(order[j]));
            }
        }
        let n = entries.len();
        let mut i: usize = 0;
        while i < n
            invariant
                i <= n,
                n == entries@.len(),
                order == entry_keys(entries@),
                forall|j: int| 0 <= j < order.len() ==> active.contains_key(#[trigger] order[j]),
                forall|j: int|
                    0 <= j < entries@.len() ==> active[order[j]] == (#[trigger] entries@[j]).1,
                commands@.len() == i,
                forall|j: int|
                    0 <= j < i ==> (#[trigger] commands@[j])@ == CommandView::Emit(
                        release_of(active[order[j]]),
                    ),
            decreases n - i,
        {
            let task = entries[i].1;
            commands.push(
                RepeaterCommand::Emit(
                    VirtualKeyEvent::release(KeyCode::new(task.0), Modifiers::from_bits(task.1)),
                ),
            );
            i += 1;
        }
        let mut k: usize = 0;
        while k < n
            invariant
                k <= n,
                n == entries@.len(),
                n == order.len(),
                order == entry_keys(entries@),
                forall|j: int| 0 <= j < order.len() ==> active.contains_key(#[trigger] order[j]),
                commands@.len() == n + k,
                forall|j: int|
                    0 <= j < n ==> (#[trigger] commands@[j])@ == CommandView::Emit(
                        release_of(active[order[j]]),
                    ),
                forall|j: int|
                    n <= j < n + k ==> (#[trigger] commands@[j])@ == (CommandView::StopRepeat {
                        key_hash: order[j - n],
                    }),
            decreases n - k,
        {
            commands.push(RepeaterCommand::StopRepeat { key_hash: entries[k].0 });
            k += 1;
        }
        tasks_clear(&mut self.active_repeaters);
        proof {
            assert(command_views(commands@) =~= stop_commands(active, order));
            assert(is_task_order(active, order));
            assert((self@, command_views(commands@)) == stop_all_step(old(self)@, order));
        }
        commands
    }

    /// Handles a keyboard event; `key_event_step` says how. The order in which
    /// a toggle that switches repetition off takes the tasks is not fixed.
    pub fn handle_key_event(&mut self, event: &KeyEvent) -> (commands: Vec<RepeaterCommand>)
        requires
            old(self).wf(),
        ensures
            final(self).wf(),
            final(self).config_of() == old(self).config_of(),
            final(self).dry() == old(self).dry(),
            exists|order: Seq<u64>|
                is_task_order(old(self)@.active, order) && (final(self)@, command_views(commands@))
                    == key_event_step(
                    old(self).config_of(),
                    old(self)@,
                    key_event_view(*event),
                    order,
                ),
    {
        let ghost before = self@;
        let ghost e = key_event_view(*event);
        let ghost config = self.config_of();
        let name = KeyNameToEvdevCode::reverse_translate(event.key_code.value());
        let is_toggle = match (&self.config.repeat.repeat_toggle_key, name) {
            (Some(toggle), Some(key_name)) => str_eq(key_name, toggle.as_str()) && event.state
                == KeyState::Pressed,
            _ => false,
        };
        assert(is_toggle == is_toggle_press(config, e));
        if is_toggle {
            let new_state = !self.repetition_enabled;
            self.repetition_enabled = new_state;
            let mut commands: Vec<RepeaterCommand> = Vec::new();
            if !new_state {
                commands = self.stop_all_repeaters_gracefully();
            }
            let ghost stopped = commands@;
            commands.push(
                RepeaterCommand::Emit(VirtualKeyEvent::press(event.key_code, event.modifiers)),
            );
            proof {
                let flipped = RepeaterState { enabled: !before.enabled, ..before };
                if before.enabled {
                    let order = choose|order: Seq<u64>|
                        is_task_order(flipped.active, order) && (self@, command_views(stopped))
                            == stop_all_step(flipped, order);
                    assert(command_views(commands@) =~= key_event_step(config, before, e, order).1);
                    assert(is_task_order(before.active, order));
                } else {
                    lemma_some_task_order(before.active);
                    let order = choose|order: Seq<u64>| is_task_order(before.active, order);
                    assert(command_views(commands@) =~= key_event_step(config, before, e, order).1);
                }
            }
            return commands;
        }
        let should_repeat = match name {
            Some(key_name) => {
                if !self.repetition_enabled {
                    false
                } else {
                    let modifiers = event.modifiers.to_vec();
                    let pressed = modifiers.as_slice();
                    assert(pressed.deep_view() =~= modifier_names(e.modifier_bits));
                    self.should_repeat_cached(key_name, pressed)
                }
            },
            None => false,
        };
        assert(should_repeat == event_decision(config, before, e));
        assert(self@ == after_event_decision(config, before, e));
        let commands = match event.state {
            KeyState::Pressed => {
                if should_repeat {
                    self.handle_key_press(event)
                } else {
                    let mut passed: Vec<RepeaterCommand> = Vec::new();
                    passed.push(RepeaterCommand::Emit(passthrough_event(event)));
                    assert(command_views(passed@) =~= seq![CommandView::Emit(passthrough_of(e))]);
                    passed
                }
            },
            KeyState::Released => self.handle_key_release(event),
            KeyState::Repeat => {
                let mut passed: Vec<RepeaterCommand> = Vec::new();
                if !should_repeat && !tasks_contains(
                    &self.active_repeaters,
                    event.key_only_hash(),
                ) {
                    passed.push(RepeaterCommand::Emit(passthrough_event(event)));
                    assert(command_views(passed@) =~= seq![CommandView::Emit(passthrough_of(e))]);
                } else {
                    assert(command_views(passed@) =~= Seq::empty());
                }
                passed
            },
        };
        proof {
            lemma_some_task_order(before.active);
            let order = choose|order: Seq<u64>| is_task_order(before.active, order);
            assert((self@, command_views(commands@)) == key_event_step(config, before, e, order));
        }
        commands
    }

    /// Handles a change of the active window: the title is taken over and
    /// every active repeat task is stopped.
    pub fn handle_window_event(&mut self, event: WindowEvent) -> (commands: Vec<RepeaterCommand>)
        requires
            old(self).wf(),
        ensures
            final(self).wf(),
            final(self).config_of() == old(self).config_of(),
            final(self).dry() == old(self).dry(),
            exists|order: Seq<u64>|
                is_task_order(old(self)@.active, order) && (final(self)@, command_views(commands@))
                    == window_event_step(old(self)@, event.window.title@, order),
    {
        self.update_title(event.window.title.as_str());
        self.stop_all_repeaters_gracefully()
    }

    /// Takes a task off the registry whose timer has ended by itself, after it
    /// failed to emit an event. Nothing else changes, and no command follows.
    pub fn handle_repeat_failure(&mut self, key_hash: u64)
        requires
            old(self).wf(),
        ensures
            final(self).wf(),
            final(self).config_of() == old(self).config_of(),
            final(self).dry() == old(self).dry(),
            final(self)@ == (RepeaterState {
                active: old(self)@.active.remove(key_hash),
                ..old(self)@
            }),
    {
        let _ = tasks_remove(&mut self.active_repeaters, key_hash);
    }
}

/// The event for the virtual keyboard that passes a key event on unchanged.
pub fn passthrough_event(event: &KeyEvent) -> (r: VirtualKeyEvent)
    ensures
        r@ == passthrough_of(key_event_view(*event)),
{
    match event.state {
        KeyState::Pressed => VirtualKeyEvent::press(event.key_code, event.modifiers),
        KeyState::Released => VirtualKeyEvent::release(event.key_code, event.modifiers),
        KeyState::Repeat => VirtualKeyEvent::new(event.key_code, KeyState::Repeat, event.modifiers),
    }
}

/// A finite registry has an order of its keys.
pub proof fn lemma_some_task_order(active: Map<u64, (u16, u8)>)
    requires
        active.dom().finite(),
    ensures
        exists|order: Seq<u64>| is_task_order(active, order),
{
    lemma_set_listing(active.dom());
    assert(is_task_order(active, active.dom().to_seq()));
}

/// A finite set, listed, gives each of its elements once.
proof fn lemma_set_listing(s: Set<u64>)
    requires
        s.finite(),
    ensures
        s.to_seq().no_duplicates(),
        s.to_seq().to_set() == s,
    decreases s.len(),
{
    s.lemma_to_seq_to_set_id();
    if s.len() != 0 {
        let x = s.choose();
        let rest = s.remove(x).to_seq();
        lemma_set_listing(s.remove(x));
        assert(s.to_seq() =~= seq![x] + rest);
        assert(!rest.contains(x)) by {
            if rest.contains(x) {
                assert(rest.to_set().contains(x));
            }
        }
        assert forall|i: int, j: int|
            0 <= i < s.to_seq().len() && 0 <= j < s.to_seq().len() && i != j implies s.to_seq()[i]
            != s.to_seq()[j] by {
            if i > 0 && j > 0 {
                assert(rest[i - 1] != rest[j - 1]);
            } else if i == 0 {
                assert(rest.contains(rest[j - 1]));
            } else {
                assert(rest.contains(rest[i - 1]));
            }
        }
    }
}

} // verus!
