//! What is written to the virtual keyboard for an event: the key with its
//! value, and then the report that ends the group.

use crate::events::KeyCode;
use crate::events::KeyState;
use crate::events::Modifiers;
use crate::events::VirtualKeyEvent;
use crate::events::VirtualKeyView;
use crate::mappings::key_name_to_evdev_code::key_name_of;
use crate::mappings::key_name_to_evdev_code::KeyNameToEvdevCode;
use vstd::prelude::*;

verus! {

/// One write to the virtual keyboard: event type, code and value.
#[derive(Debug, Clone, Copy, PartialEq, Eq, Structural)]
pub struct RawWrite {
    pub kind: i32,
    pub code: i32,
    pub value: i32,
}

/// The value that is written for a key state.
pub open spec fn state_value(state: KeyState) -> i32 {
    match state {
        KeyState::Pressed => 1,
        KeyState::Released => 0,
        KeyState::Repeat => 2,
    }
}

/// The two writes of an event: the key event itself, of type 1, and the
/// synchronisation report, all zeros.
pub open spec fn writes_of(code: u16, state: KeyState) -> Seq<RawWrite> {
    seq![
        RawWrite { kind: 1, code: code as i32, value: state_value(state) },
        RawWrite { kind: 0, code: 0, value: 0 },
    ]
}

/// The writes that inject an event, in order.
pub fn event_writes(event: &VirtualKeyEvent) -> (r: Vec<RawWrite>)
    ensures
        r@ == writes_of(event.key_code.0, event.state),
{
    let value: i32 = match event.state {
        KeyState::Pressed => 1,
        KeyState::Released => 0,
        KeyState::Repeat => 2,
    };
    let mut writes: Vec<RawWrite> = Vec::new();
    writes.push(RawWrite { kind: 1, code: event.key_code.value() as i32, value });
    writes.push(RawWrite { kind: 0, code: 0, value: 0 });
    assert(writes@ =~= writes_of(event.key_code.0, event.state));
    writes
}

/// The virtual keyboard as far as the writes go. In a dry run nothing is
/// written.
pub struct VirtualDevice {
    dry_run: bool,
}

impl VirtualDevice {
    /// Whether the device only pretends to write.
    pub closed spec fn dry(&self) -> bool {
        self.dry_run
    }

    pub fn new(dry_run: bool) -> (r: Self)
        ensures
            r.dry() == dry_run,
    {
        Self { dry_run }
    }

    pub fn is_dry_run(&self) -> (r: bool)
        ensures
            r == self.dry(),
    {
        self.dry_run
    }

    /// The writes that send an event: none in a dry run, else the key and
    /// the report.
    pub fn send_event(&self, event: &VirtualKeyEvent) -> (r: Vec<RawWrite>)
        ensures
            r@ == if self.dry() {
                Seq::<RawWrite>::empty()
            } else {
                writes_of(event.key_code.0, event.state)
            },
    {
        if self.dry_run {
            Vec::new()
        } else {
            event_writes(event)
        }
    }
}

/// The keys with a name whose codes are below `bound`, in rising order.
pub open spec fn named_codes_below(bound: nat) -> Seq<u16>
    decreases bound,
{
    if bound == 0 {
        Seq::empty()
    } else {
        let code = (bound - 1) as u16;
        if bound <= 0x1_0000 && key_name_of(code) is Some {
            named_codes_below((bound - 1) as nat).push(code)
        } else {
            named_codes_below((bound - 1) as nat)
        }
    }
}

/// The release of a key with no modifier held.
pub open spec fn bare_release(code: u16) -> VirtualKeyView {
    VirtualKeyView { code, state: KeyState::Released, modifier_bits: 0 }
}

/// The sweep at the end of a run: a release for every key that has a name,
/// in the rising order of the codes, whether the key is held or not.
pub fn release_sweep() -> (events: Vec<VirtualKeyEvent>)
    ensures
        events@.len() == named_codes_below(0x1_0000).len(),
        forall|i: int|
            0 <= i < events@.len() ==> (#[trigger] events@[i])@ == bare_release(
                named_codes_below(0x1_0000)[i],
            ),
{
    let mut events: Vec<VirtualKeyEvent> = Vec::new();
    let mut code: u16 = 0;
    loop
        invariant
            events@.len() == named_codes_below(code as nat).len(),
            forall|i: int|
                0 <= i < events@.len() ==> (#[trigger] events@[i])@ == bare_release(
                    named_codes_below(code as nat)[i],
                ),
        decreases u16::MAX - code,
    {
        if KeyNameToEvdevCode::reverse_translate(code).is_some() {
            events.push(VirtualKeyEvent::release(KeyCode::new(code), Modifiers::new()));
        }
        assert(named_codes_below((code + 1) as nat) == if key_name_of(code) is Some {
            named_codes_below(code as nat).push(code)
        } else {
            named_codes_below(code as nat)
        });
        if code == u16::MAX {
            return events;
        }
        code += 1;
    }
}

} // verus!
