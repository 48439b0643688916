//! What holds of the repeat scheduler in every state, proved from the steps
//! that its functions are specified by.

use crate::config::Config;
use crate::events::KeyState;
use crate::hashing::key_code_hash;
use crate::hashing::str_hash;
use crate::services::key_repeater::after_decision;
use crate::services::key_repeater::after_title;
use crate::services::key_repeater::cache_key;
use crate::services::key_repeater::cached_decision;
use crate::services::key_repeater::is_task_order;
use crate::services::key_repeater::is_toggle_press;
use crate::services::key_repeater::key_event_step;
use crate::services::key_repeater::passthrough_of;
use crate::services::key_repeater::press_step;
use crate::services::key_repeater::release_step;
use crate::services::key_repeater::stop_all_step;
use crate::services::key_repeater::stop_commands;
use crate::services::key_repeater::tasks_keyed_by_code;
use crate::services::key_repeater::event_decision;
use crate::services::key_repeater::CommandView;
use crate::services::key_repeater::KeyEventView;
use crate::services::key_repeater::RepeaterState;
use crate::events::VirtualKeyView;
use crate::text::lowercase;
use vstd::prelude::*;

verus! {

/// The number of release events among a list of commands.
pub open spec fn release_count(commands: Seq<CommandView>) -> nat
    decreases commands.len(),
{
    if commands.len() == 0 {
        0
    } else {
        release_count(commands.drop_last()) + match commands.last() {
            CommandView::Emit(event) => if event.state == KeyState::Released {
                1nat
            } else {
                0nat
            },
            _ => 0nat,
        }
    }
}

/// The number of timers that a list of commands starts.
pub open spec fn start_count(commands: Seq<CommandView>) -> nat
    decreases commands.len(),
{
    if commands.len() == 0 {
        0
    } else {
        start_count(commands.drop_last()) + if commands.last() is StartRepeat {
            1nat
        } else {
            0nat
        }
    }
}

/// Idempotence of the decision cache: a decision asked for twice comes out the
/// same, the second time from the cache, whatever any configuration would
/// decide, and the second call leaves the cache as it is.
pub proof fn lemma_decision_is_cached(
    config: Config,
    other: Config,
    s: RepeaterState,
    name: Seq<char>,
    pressed: Seq<Seq<char>>,
)
    ensures
        ({
            let first = cached_decision(config, s, name, pressed);
            let s1 = after_decision(config, s, name, pressed);
            &&& s1.cache.contains_key(cache_key(s1, name, pressed).parts())
            &&& cached_decision(config, s1, name, pressed) == first
            &&& cached_decision(other, s1, name, pressed) == first
            &&& after_decision(config, s1, name, pressed) == s1
        }),
{
    let first = cached_decision(config, s, name, pressed);
    let s1 = after_decision(config, s, name, pressed);
    assert(s1.cache.insert(cache_key(s1, name, pressed).parts(), first) =~= s1.cache);
}

/// Cache invalidation by the cache key: after the window title has changed to
/// one with another hash, a decision that was cached for the old title is not
/// returned. Where the cache held nothing under the new title hash, the
/// configuration decides on the new title.
pub proof fn lemma_title_change_invalidates(
    config: Config,
    s: RepeaterState,
    title: Seq<char>,
    name: Seq<char>,
    pressed: Seq<Seq<char>>,
)
    requires
        str_hash(title) != s.title_hash,
        forall|k: (u64, u8, u64, u64)| #[trigger] s.cache.contains_key(k) ==> k.2 != str_hash(title),
    ensures
        ({
            let cached_for_old = after_decision(config, s, name, pressed);
            let moved = after_title(cached_for_old, title);
            cached_decision(config, moved, name, pressed) == config.decides(
                name,
                pressed,
                lowercase(title),
            )
        }),
{
}

/// A cached decision serves its own key only: asking for one decision leaves
/// every decision under another cache key as it was.
pub proof fn lemma_entry_serves_its_key_only(
    config: Config,
    s: RepeaterState,
    name: Seq<char>,
    pressed: Seq<Seq<char>>,
    other_name: Seq<char>,
    other_pressed: Seq<Seq<char>>,
)
    requires
        cache_key(s, other_name, other_pressed) != cache_key(s, name, pressed),
    ensures
        cached_decision(config, after_decision(config, s, name, pressed), other_name, other_pressed)
            == cached_decision(config, s, other_name, other_pressed),
{
}

/// Task uniqueness: a second press of a key that is being repeated passes the
/// press on and starts no second timer; the registry stays as the first press
/// left it.
pub proof fn lemma_second_press_starts_nothing(
    s: RepeaterState,
    first: KeyEventView,
    second: KeyEventView,
)
    requires
        first.code == second.code,
    ensures
        ({
            let (s1, _) = press_step(s, first);
            let (s2, commands) = press_step(s1, second);
            &&& s1.active.contains_key(key_code_hash(first.code))
            &&& s2 == s1
            &&& commands == seq![
                CommandView::Emit(
                    VirtualKeyView {
                        code: second.code,
                        state: KeyState::Pressed,
                        modifier_bits: second.modifier_bits,
                    },
                ),
            ]
            &&& start_count(commands) == 0
        }),
{
    let (s1, _) = press_step(s, first);
    let (s2, commands) = press_step(s1, second);
    assert(commands.drop_last() =~= Seq::empty());
    assert(start_count(commands.drop_last()) == 0);
}

/// Task uniqueness by key: where every task stands under the hash of its own
/// key, a press keeps it so, and then at most one task is for any one key.
pub proof fn lemma_one_task_per_key(s: RepeaterState, e: KeyEventView, a: u64, b: u64)
    requires
        tasks_keyed_by_code(s.active),
    ensures
        tasks_keyed_by_code(press_step(s, e).0.active),
        tasks_keyed_by_code(release_step(s, e).0.active),
        ({
            let active = press_step(s, e).0.active;
            active.contains_key(a) && active.contains_key(b) && active[a].0 == active[b].0 ==> a
                == b
        }),
{
}

/// Two presses of a key in a row, both decided for repetition, leave one
/// task for the key and start one timer between them.
pub proof fn lemma_two_press_events(
    config: Config,
    s: RepeaterState,
    first: KeyEventView,
    second: KeyEventView,
    order: Seq<u64>,
)
    requires
        first.code == second.code,
        first.state == KeyState::Pressed,
        second.state == KeyState::Pressed,
        !is_toggle_press(config, first),
        event_decision(config, s, first),
        event_decision(config, key_event_step(config, s, first, order).0, second),
    ensures
        ({
            let (s1, c1) = key_event_step(config, s, first, order);
            let (s2, c2) = key_event_step(config, s1, second, order);
            &&& s2.active.contains_key(key_code_hash(first.code))
            &&& s2.active == s1.active
            &&& start_count(c1) <= 1
            &&& start_count(c2) == 0
        }),
{
    let (s1, c1) = key_event_step(config, s, first, order);
    let (s2, c2) = key_event_step(config, s1, second, order);
    assert(s1.active.contains_key(key_code_hash(first.code)));
    assert(c2.len() == 1);
    assert(start_count(c2.drop_last()) == 0);
    if c1.len() == 2 {
        assert(start_count(c1.drop_last().drop_last()) == 0);
        assert(start_count(c1.drop_last()) == 0);
    } else {
        assert(c1.len() == 1);
        assert(start_count(c1.drop_last()) == 0);
    }
}

/// Race resilience: the release of a key finds the task that its press
/// started, whatever modifiers either event carries. The task is stopped and
/// taken off the registry, and the release is passed on.
pub proof fn lemma_release_finds_task(s: RepeaterState, press: KeyEventView, release: KeyEventView)
    requires
        press.code == release.code,
    ensures
        ({
            let (pressed, _) = press_step(s, press);
            let (released, commands) = release_step(pressed, release);
            &&& !released.active.contains_key(key_code_hash(press.code))
            &&& commands == seq![
                CommandView::StopRepeat { key_hash: key_code_hash(press.code) },
                CommandView::Emit(
                    VirtualKeyView {
                        code: release.code,
                        state: KeyState::Released,
                        modifier_bits: release.modifier_bits,
                    },
                ),
            ]
        }),
{
}

/// The commands of a graceful stop hold one release for each task.
proof fn lemma_stop_commands_count(active: Map<u64, (u16, u8)>, order: Seq<u64>)
    ensures
        release_count(stop_commands(active, order)) == order.len(),
{
    let commands = stop_commands(active, order);
    let n = order.len() as int;
    assert forall|len: int| 0 <= len <= 2 * n implies #[trigger] release_count(
        commands.take(len),
    ) == if len <= n {
        len
    } else {
        n
    } by {
        lemma_release_count_prefix(active, order, len);
    }
    assert(commands.take(2 * n) =~= commands);
}

proof fn lemma_release_count_prefix(active: Map<u64, (u16, u8)>, order: Seq<u64>, len: int)
    requires
        0 <= len <= 2 * order.len(),
    ensures
        release_count(stop_commands(active, order).take(len)) == if len <= order.len() {
            len
        } else {
            order.len() as int
        },
    decreases len,
{
    let commands = stop_commands(active, order);
    if len > 0 {
        lemma_release_count_prefix(active, order, len - 1);
        assert(commands.take(len).drop_last() =~= commands.take(len - 1));
        assert(commands.take(len).last() == commands[len - 1]);
    }
}

/// Graceful stop: with N active tasks a global stop emits exactly N release
/// events and leaves the registry empty; a second stop right after it emits
/// nothing and changes nothing.
pub proof fn lemma_graceful_stop(s: RepeaterState, order: Seq<u64>, again: Seq<u64>)
    requires
        s.active.dom().finite(),
        is_task_order(s.active, order),
        is_task_order(stop_all_step(s, order).0.active, again),
    ensures
        ({
            let (stopped, commands) = stop_all_step(s, order);
            &&& release_count(commands) == s.active.len()
            &&& stopped.active == Map::<u64, (u16, u8)>::empty()
            &&& stop_all_step(stopped, again) == (stopped, Seq::<CommandView>::empty())
        }),
{
    let (stopped, commands) = stop_all_step(s, order);
    lemma_stop_commands_count(s.active, order);
    order.unique_seq_to_set();
    assert(again.len() == 0) by {
        if again.len() > 0 {
            assert(again.to_set().contains(again[0]));
        }
    }
    assert(stop_commands(stopped.active, again) =~= Seq::empty());
}

/// Toggle off: a press of the toggle key while repetition is on switches it
/// off and leaves no task active.
pub proof fn lemma_toggle_off_stops_all(
    config: Config,
    s: RepeaterState,
    e: KeyEventView,
    order: Seq<u64>,
)
    requires
        is_toggle_press(config, e),
        s.enabled,
    ensures
        !key_event_step(config, s, e, order).0.enabled,
        key_event_step(config, s, e, order).0.active == Map::<u64, (u16, u8)>::empty(),
{
}

/// While repetition is off, a press of any key but the toggle key is passed
/// on as it is, and nothing changes: no task starts and the cache is not
/// asked. With no task active the same holds of every event.
pub proof fn lemma_disabled_passes_through(
    config: Config,
    s: RepeaterState,
    e: KeyEventView,
    order: Seq<u64>,
)
    requires
        !s.enabled,
        !is_toggle_press(config, e),
        e.state == KeyState::Pressed || s.active == Map::<u64, (u16, u8)>::empty(),
    ensures
        key_event_step(config, s, e, order) == (s, seq![CommandView::Emit(passthrough_of(e))]),
{
}

/// Race resilience for events: a release ends the task of its key whatever
/// modifiers it carries, whatever the decision for it is, and whether
/// repetition is on or off.
pub proof fn lemma_release_event_ends_task(
    config: Config,
    s: RepeaterState,
    e: KeyEventView,
    order: Seq<u64>,
)
    requires
        e.state == KeyState::Released,
        s.active.contains_key(key_code_hash(e.code)),
    ensures
        ({
            let (after, commands) = key_event_step(config, s, e, order);
            &&& after.active == s.active.remove(key_code_hash(e.code))
            &&& commands == seq![
                CommandView::StopRepeat { key_hash: key_code_hash(e.code) },
                CommandView::Emit(passthrough_of(e)),
            ]
        }),
{
}

/// Toggle on: a press of the toggle key while repetition is off switches it
/// on again, changes nothing else, and is passed on.
pub proof fn lemma_toggle_on(config: Config, s: RepeaterState, e: KeyEventView, order: Seq<u64>)
    requires
        is_toggle_press(config, e),
        !s.enabled,
    ensures
        key_event_step(config, s, e, order).0 == (RepeaterState { enabled: true, ..s }),
{
}

} // verus!
