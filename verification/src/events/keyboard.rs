//! Keyboard events: key codes, key states and the set of held modifiers.

use crate::clock::now;
use crate::hashing::hash_key_code;
use crate::hashing::hash_key_combination;
use crate::hashing::key_code_hash;
use crate::hashing::key_combination_hash;
use crate::text::concat_str;
use crate::text::decimal;
use crate::text::joined;
use crate::text::str_eq;
use crate::text::u16_to_string;
use crate::text::u64_to_string;
use smallvec::SmallVec;
use std::time::Instant;
use vstd::prelude::*;
use vstd::string::StringExecFns;

pub mod device_ids;

verus! {

/// What happened to a key.
#[derive(Debug, Clone, Copy, PartialEq, Eq, Hash, Structural)]
pub enum KeyState {
    Pressed,
    Released,
    Repeat,
}

/// Code of a physical key, independent of the modifiers held with it.
#[derive(Debug, Clone, Copy, PartialEq, Eq, Hash, Structural)]
pub struct KeyCode(pub u16);

impl KeyCode {
    pub fn new(code: u16) -> (r: Self)
        ensures
            r.0 == code,
    {
        Self(code)
    }

    pub fn value(&self) -> (r: u16)
        ensures
            r == self.0,
    {
        self.0
    }

    /// The key's symbolic name: `KEY_` and the code in decimal.
    pub fn display_string(&self) -> (r: String)
        ensures
            r@ == "KEY_"@ + decimal(self.0 as nat),
    {
        let digits = u16_to_string(self.0);
        concat_str("KEY_", digits.as_str())
    }
}

pub const CTRL: u8 = 1;

pub const ALT: u8 = 2;

pub const SHIFT: u8 = 4;

pub const SUPER: u8 = 8;

pub open spec fn has_ctrl(bits: u8) -> bool {
    bits & CTRL != 0
}

pub open spec fn has_alt(bits: u8) -> bool {
    bits & ALT != 0
}

pub open spec fn has_shift(bits: u8) -> bool {
    bits & SHIFT != 0
}

pub open spec fn has_super(bits: u8) -> bool {
    bits & SUPER != 0
}

/// `bits` with the flag `mask` switched on or off.
pub open spec fn with_flag(bits: u8, mask: u8, on: bool) -> u8 {
    if on {
        bits | mask
    } else {
        bits & !mask
    }
}

/// The names of the modifiers held in `bits`, in the order ctrl, alt, shift,
/// super.
pub open spec fn modifier_names(bits: u8) -> Seq<Seq<char>> {
    (if has_ctrl(bits) {
        seq!["ctrl"@]
    } else {
        Seq::empty()
    }) + (if has_alt(bits) {
        seq!["alt"@]
    } else {
        Seq::empty()
    }) + (if has_shift(bits) {
        seq!["shift"@]
    } else {
        Seq::empty()
    }) + (if has_super(bits) {
        seq!["super"@]
    } else {
        Seq::empty()
    })
}

/// The flag that a modifier name stands for; zero for any other string.
pub open spec fn name_bit(name: Seq<char>) -> u8 {
    if name == "ctrl"@ {
        CTRL
    } else if name == "alt"@ {
        ALT
    } else if name == "shift"@ {
        SHIFT
    } else if name == "super"@ {
        SUPER
    } else {
        0
    }
}

/// The flags of all the names in a list; unknown names add nothing.
pub open spec fn names_to_bits(names: Seq<Seq<char>>) -> u8
    decreases names.len(),
{
    if names.len() == 0 {
        0
    } else {
        names_to_bits(names.drop_last()) | name_bit(names.last())
    }
}

/// How a modifier set is written: its names joined by `+`, or `none`.
pub open spec fn modifiers_text(bits: u8) -> Seq<char> {
    if modifier_names(bits).len() == 0 {
        "none"@
    } else {
        joined(modifier_names(bits), "+"@)
    }
}

/// How a key combination is written: the key code in decimal, after the
/// modifiers and a `+` where any bit of the set is on.
pub open spec fn combination_text(code: u16, bits: u8) -> Seq<char> {
    if bits == 0 {
        decimal(code as nat)
    } else {
        modifiers_text(bits) + "+"@ + decimal(code as nat)
    }
}

/// The name of a key state.
pub open spec fn state_name(state: KeyState) -> Seq<char> {
    match state {
        KeyState::Pressed => "Pressed"@,
        KeyState::Released => "Released"@,
        KeyState::Repeat => "Repeat"@,
    }
}

/// How a key event is written for a log line: the combination, the device in
/// square brackets, the state, and its age in milliseconds in round brackets.
pub open spec fn key_event_text(
    code: u16,
    bits: u8,
    device_id: u8,
    state: KeyState,
    age_ms: u64,
) -> Seq<char> {
    combination_text(code, bits) + "["@ + device_ids::device_name(device_id) + "] "@ + state_name(
        state,
    ) + " ("@ + decimal(age_ms as nat) + ")"@
}

/// A short list of modifier names that lives on the stack: a `SmallVec` with
/// room for the four names.
#[verifier::external_body]
pub struct ModifierNames {
    items: SmallVec<[&'static str; 4]>,
}

/// The strings that a list of modifier names holds, in order.
pub uninterp spec fn small_names(v: ModifierNames) -> Seq<Seq<char>>;

impl ModifierNames {
    /// Calls `SmallVec::new`, which constructs an empty vector.
    #[verifier::external_body]
    fn new() -> (v: Self)
        ensures
            small_names(v) =~= Seq::empty(),
    {
        ModifierNames { items: SmallVec::new() }
    }

    /// Calls `SmallVec::push`, which appends an item to the vector.
    #[verifier::external_body]
    fn push(&mut self, name: &'static str)
        ensures
            small_names(*final(self)) == small_names(*old(self)).push(name@),
    {
        self.items.push(name)
    }

    /// Calls `SmallVec::as_slice`, which gives the entire vector as a slice.
    #[verifier::external_body]
    fn items(&self) -> (r: &[&'static str])
        ensures
            r.deep_view() == small_names(*self),
    {
        self.items.as_slice()
    }

    /// The names as a slice.
    pub fn as_slice(&self) -> (r: &[&'static str])
        ensures
            r.deep_view() == small_names(*self),
    {
        self.items()
    }
}

/// The set of modifiers held down, as a bit pattern: bit 0 ctrl, bit 1 alt,
/// bit 2 shift, bit 3 super. Two sets are equal when their patterns are.
#[derive(Debug, Clone, Copy, PartialEq, Eq, Hash, Structural)]
pub struct Modifiers {
    bits: u8,
}

impl View for Modifiers {
    type V = u8;

    closed spec fn view(&self) -> u8 {
        self.bits
    }
}

impl Modifiers {
    pub fn new() -> (r: Self)
        ensures
            r@ == 0,
    {
        Self { bits: 0 }
    }

    pub fn with_ctrl(self, ctrl: bool) -> (r: Self)
        ensures
            r@ == with_flag(self@, CTRL, ctrl),
    {
        if ctrl {
            Self { bits: self.bits | CTRL }
        } else {
            Self { bits: self.bits & !CTRL }
        }
    }

    pub fn with_alt(self, alt: bool) -> (r: Self)
        ensures
            r@ == with_flag(self@, ALT, alt),
    {
        if alt {
            Self { bits: self.bits | ALT }
        } else {
            Self { bits: self.bits & !ALT }
        }
    }

    pub fn with_shift(self, shift: bool) -> (r: Self)
        ensures
            r@ == with_flag(self@, SHIFT, shift),
    {
        if shift {
            Self { bits: self.bits | SHIFT }
        } else {
            Self { bits: self.bits & !SHIFT }
        }
    }

    pub fn with_super(self, super_key: bool) -> (r: Self)
        ensures
            r@ == with_flag(self@, SUPER, super_key),
    {
        if super_key {
            Self { bits: self.bits | SUPER }
        } else {
            Self { bits: self.bits & !SUPER }
        }
    }

    pub fn is_empty(&self) -> (r: bool)
        ensures
            r == (self@ == 0),
    {
        self.bits == 0
    }

    pub fn has_any(&self) -> (r: bool)
        ensures
            r == (self@ != 0),
    {
        !self.is_empty()
    }

    pub fn ctrl(&self) -> (r: bool)
        ensures
            r == has_ctrl(self@),
    {
        self.bits & CTRL != 0
    }

    pub fn alt(&self) -> (r: bool)
        ensures
            r == has_alt(self@),
    {
        self.bits & ALT != 0
    }

    pub fn shift(&self) -> (r: bool)
        ensures
            r == has_shift(self@),
    {
        self.bits & SHIFT != 0
    }

    pub fn super_key(&self) -> (r: bool)
        ensures
            r == has_super(self@),
    {
        self.bits & SUPER != 0
    }

    /// The bit pattern itself.
    pub fn bits(&self) -> (r: u8)
        ensures
            r == self@,
    {
        self.bits
    }

    pub fn to_vec(&self) -> (r: Vec<String>)
        ensures
            r.deep_view() == modifier_names(self@),
    {
        let mut result: Vec<String> = Vec::new();
        if self.bits & CTRL != 0 {
            result.push(String::from_str("ctrl"));
        }
        if self.bits & ALT != 0 {
            result.push(String::from_str("alt"));
        }
        if self.bits & SHIFT != 0 {
            result.push(String::from_str("shift"));
        }
        if self.bits & SUPER != 0 {
            result.push(String::from_str("super"));
        }
        assert(result.deep_view() =~= modifier_names(self@));
        result
    }

    /// The names of the held modifiers without a heap allocation.
    pub fn to_string_vec(&self) -> (r: ModifierNames)
        ensures
            small_names(r) == modifier_names(self@),
    {
        let mut result = ModifierNames::new();
        if self.bits & CTRL != 0 {
            result.push("ctrl");
        }
        if self.bits & ALT != 0 {
            result.push("alt");
        }
        if self.bits & SHIFT != 0 {
            result.push("shift");
        }
        if self.bits & SUPER != 0 {
            result.push("super");
        }
        assert(small_names(result) =~= modifier_names(self@));
        result
    }

    pub fn from_vec(modifiers: &[String]) -> (r: Self)
        ensures
            r@ == names_to_bits(modifiers.deep_view()),
    {
        Self { bits: names_bits(modifiers) }
    }

    pub fn from_bits(bits: u8) -> (r: Self)
        ensures
            r@ == bits,
    {
        Self { bits }
    }

    /// The set written out: its names joined by `+`, or `none` for a set
    /// without a known modifier.
    pub fn display_string(&self) -> (r: String)
        ensures
            r@ == modifiers_text(self@),
    {
        let names = self.to_vec();
        if names.len() == 0 {
            return String::from_str("none");
        }
        let ghost parts = modifier_names(self@);
        let mut out = names[0].clone();
        assert(out@ == parts[0]);
        assert(parts.take(1) =~= seq![parts[0]]);
        let mut i: usize = 1;
        while i < names.len()
            invariant
                1 <= i <= names.len(),
                names.deep_view() == parts,
                out@ == joined(parts.take(i as int), "+"@),
            decreases names.len() - i,
        {
            out.append("+");
            out.append(names[i].as_str());
            proof {
                let next = parts.take(i + 1);
                assert(next.drop_last() =~= parts.take(i as int));
                assert(next.last() == parts[i as int]);
                assert(names.deep_view()[i as int] == names[i as int]@);
            }
            i += 1;
        }
        assert(parts.take(i as int) =~= parts);
        out
    }
}

/// The flags that a list of modifier names stands for.
pub fn names_bits(modifiers: &[String]) -> (bits: u8)
    ensures
        bits == names_to_bits(modifiers.deep_view()),
{
    let mut bits: u8 = 0;
    let mut i: usize = 0;
    let ghost names = modifiers.deep_view();
    assert(names.take(0) =~= Seq::<Seq<char>>::empty());
    while i < modifiers.len()
        invariant
            i <= modifiers.len(),
            names == modifiers.deep_view(),
            bits == names_to_bits(names.take(i as int)),
        decreases modifiers.len() - i,
    {
        let m = modifiers[i].as_str();
        proof {
            assert(names.take(i + 1).drop_last() =~= names.take(i as int));
            assert(names.take(i + 1).last() == names[i as int]);
            assert(names[i as int] == modifiers@[i as int]@);
        }
        if str_eq(m, "ctrl") {
            bits = bits | CTRL;
        } else if str_eq(m, "alt") {
            bits = bits | ALT;
        } else if str_eq(m, "shift") {
            bits = bits | SHIFT;
        } else if str_eq(m, "super") {
            bits = bits | SUPER;
        } else {
            assert(bits | 0 == bits) by (bit_vector);
        }
        i += 1;
    }
    assert(names.take(i as int) =~= names);
    bits
}

/// One event of a physical keyboard.
#[derive(Debug, Clone, PartialEq, Eq)]
pub struct KeyEvent {
    pub key_code: KeyCode,
    pub state: KeyState,
    pub modifiers: Modifiers,
    pub timestamp: Instant,
    pub device_id: u8,
}

impl KeyEvent {
    /// An event stamped with the current time.
    pub fn new(key_code: KeyCode, state: KeyState, modifiers: Modifiers, device_id: u8) -> (r:
        Self)
        ensures
            r.key_code == key_code,
            r.state == state,
            r.modifiers == modifiers,
            r.device_id == device_id,
    {
        Self { key_code, state, modifiers, timestamp: now(), device_id }
    }

    pub fn device_name(&self) -> (r: &'static str)
        ensures
            r@ == device_ids::device_name(self.device_id),
    {
        device_ids::name(self.device_id)
    }

    /// The key combination written out, such as `42` or `ctrl+42`.
    pub fn combination_id(&self) -> (r: String)
        ensures
            r@ == combination_text(self.key_code.0, self.modifiers@),
    {
        let digits = u16_to_string(self.key_code.value());
        if self.modifiers.is_empty() {
            digits
        } else {
            let mut out = self.modifiers.display_string();
            out.append("+");
            out.append(digits.as_str());
            out
        }
    }

    /// The event written out for a log line, with its age in milliseconds.
    pub fn display_string(&self, age_ms: u64) -> (r: String)
        ensures
            r@ == key_event_text(
                self.key_code.0,
                self.modifiers@,
                self.device_id,
                self.state,
                age_ms,
            ),
    {
        let mut out = self.combination_id();
        out.append("[");
        out.append(self.device_name());
        out.append("] ");
        out.append(
            match self.state {
                KeyState::Pressed => "Pressed",
                KeyState::Released => "Released",
                KeyState::Repeat => "Repeat",
            },
        );
        out.append(" (");
        out.append(u64_to_string(age_ms).as_str());
        out.append(")");
        out
    }

    /// Hash of the key together with the modifiers held.
    pub fn combination_hash(&self) -> (r: u64)
        ensures
            r == key_combination_hash(self.key_code.0, self.modifiers@),
    {
        hash_key_combination(self.key_code.value(), self.modifiers.bits())
    }

    /// Hash of the key alone: the identity under which a repeat task is kept,
    /// whatever modifiers are held when the key goes down or up.
    pub fn key_only_hash(&self) -> (r: u64)
        ensures
            r == key_code_hash(self.key_code.0),
    {
        hash_key_code(self.key_code.value())
    }
}

/// The names of a modifier set give its four flags back: what `from_vec`
/// makes of what `to_vec` lists is the set itself, but for the bits above
/// the four flags, which have no name.
pub proof fn lemma_names_round_trip(bits: u8)
    ensures
        names_to_bits(modifier_names(bits)) == bits & 0x0f,
{
    reveal_strlit("ctrl");
    reveal_strlit("alt");
    reveal_strlit("shift");
    reveal_strlit("super");
    let ctrl = "ctrl"@;
    let alt = "alt"@;
    let shift = "shift"@;
    let sup = "super"@;
    assert(ctrl.len() == 4 && alt.len() == 3 && shift.len() == 5 && sup.len() == 5);
    assert(shift[1] != sup[1]);
    assert(name_bit(ctrl) == CTRL && name_bit(alt) == ALT && name_bit(shift) == SHIFT && name_bit(
        sup,
    ) == SUPER);
    let c: Seq<Seq<char>> = if has_ctrl(bits) {
        seq![ctrl]
    } else {
        Seq::empty()
    };
    let a: Seq<Seq<char>> = if has_alt(bits) {
        seq![alt]
    } else {
        Seq::empty()
    };
    let h: Seq<Seq<char>> = if has_shift(bits) {
        seq![shift]
    } else {
        Seq::empty()
    };
    let u: Seq<Seq<char>> = if has_super(bits) {
        seq![sup]
    } else {
        Seq::empty()
    };
    let bc: u8 = if has_ctrl(bits) {
        CTRL
    } else {
        0
    };
    let ba: u8 = if has_alt(bits) {
        ALT
    } else {
        0
    };
    let bh: u8 = if has_shift(bits) {
        SHIFT
    } else {
        0
    };
    let bu: u8 = if has_super(bits) {
        SUPER
    } else {
        0
    };
    assert(names_to_bits(Seq::<Seq<char>>::empty()) == 0);
    assert(names_to_bits(c) == bc) by {
        if has_ctrl(bits) {
            assert(c.drop_last() =~= Seq::<Seq<char>>::empty());
            assert(c.last() == ctrl);
            assert(0u8 | 1u8 == 1u8) by (bit_vector);
        }
    }
    assert(names_to_bits(c + a) == bc | ba) by {
        if has_alt(bits) {
            assert((c + a).drop_last() =~= c);
        } else {
            assert(c + a =~= c);
            assert(bc | 0 == bc) by (bit_vector);
        }
    }
    assert(names_to_bits(c + a + h) == bc | ba | bh) by {
        if has_shift(bits) {
            assert((c + a + h).drop_last() =~= c + a);
        } else {
            assert(c + a + h =~= c + a);
            assert((bc | ba) | 0 == bc | ba) by (bit_vector);
        }
    }
    assert(names_to_bits(c + a + h + u) == bc | ba | bh | bu) by {
        if has_super(bits) {
            assert((c + a + h + u).drop_last() =~= c + a + h);
        } else {
            assert(c + a + h + u =~= c + a + h);
            assert((bc | ba | bh) | 0 == bc | ba | bh) by (bit_vector);
        }
    }
    assert(bc | ba | bh | bu == bits & 0x0f) by (bit_vector)
        requires
            bc == (if bits & 1 != 0 {
                1u8
            } else {
                0u8
            }),
            ba == (if bits & 2 != 0 {
                2u8
            } else {
                0u8
            }),
            bh == (if bits & 4 != 0 {
                4u8
            } else {
                0u8
            }),
            bu == (if bits & 8 != 0 {
                8u8
            } else {
                0u8
            }),
    ;
}

/// One of the four flags.
#[derive(Debug, Clone, Copy, PartialEq, Eq, Structural)]
pub enum Flag {
    Ctrl,
    Alt,
    Shift,
    Super,
}

/// The mask of a flag.
pub open spec fn flag_mask(flag: Flag) -> u8 {
    match flag {
        Flag::Ctrl => CTRL,
        Flag::Alt => ALT,
        Flag::Shift => SHIFT,
        Flag::Super => SUPER,
    }
}

/// Switching a flag sets that flag and leaves every other bit as it was.
pub proof fn lemma_with_flag(bits: u8, flag: Flag, other: Flag, on: bool)
    ensures
        (with_flag(bits, flag_mask(flag), on) & flag_mask(flag) != 0) == on,
        other != flag ==> with_flag(bits, flag_mask(flag), on) & flag_mask(other) == bits
            & flag_mask(other),
        with_flag(bits, flag_mask(flag), on) & 0xf0 == bits & 0xf0,
{
    let m = flag_mask(flag);
    let o = flag_mask(other);
    assert(m == 1 || m == 2 || m == 4 || m == 8);
    assert(o == 1 || o == 2 || o == 4 || o == 8);
    assert(other != flag ==> o != m);
    assert((bits | m) & m != 0) by (bit_vector)
        requires
            m == 1 || m == 2 || m == 4 || m == 8,
    ;
    assert((bits & !m) & m == 0) by (bit_vector);
    assert(o != m ==> (bits | m) & o == bits & o && (bits & !m) & o == bits & o) by (bit_vector)
        requires
            m == 1 || m == 2 || m == 4 || m == 8,
            o == 1 || o == 2 || o == 4 || o == 8,
    ;
    assert((bits | m) & 0xf0 == bits & 0xf0 && (bits & !m) & 0xf0 == bits & 0xf0) by (bit_vector)
        requires
            m == 1 || m == 2 || m == 4 || m == 8,
    ;
}

} // verus!
