//! Audio cues, classified device events, and the modifier-key table.

use vstd::prelude::*;

verus! {

/// One of the four fixed feedback sounds.
#[derive(Clone, Copy, PartialEq, Eq, Structural, Debug)]
pub enum AudioCue {
    Click,
    Scroll,
    Key,
    ModKey,
}

/// A device event classified for cue routing, produced once per dispatch
/// tick and not persisted.
///
/// Continuous-scroll samples also carry per-axis deltas at the device
/// layer; routing reads only the variant and the axis flags, so the deltas
/// stay outside the library.
#[derive(Clone, Copy, PartialEq, Eq, Structural, Debug)]
pub enum ClassifiedEvent {
    KeyPress { code: u32 },
    KeyRelease { code: u32 },
    ButtonPress { code: u32 },
    ButtonRelease { code: u32 },
    ContinuousScroll { has_vertical: bool, has_horizontal: bool },
    WheelScroll,
}

/// The fixed table of raw key codes routed to the ModKey cue: both shifts,
/// both ctrls, both alts, super, and caps lock, as the kernel numbers them.
pub open spec fn modifier_key_codes() -> Seq<u32> {
    seq![42u32, 29u32, 125u32, 56u32, 100u32, 97u32, 54u32, 46u32]
}

/// Whether a raw key code belongs to the modifier-key table.
pub open spec fn is_modifier_code(code: u32) -> bool {
    modifier_key_codes().contains(code)
}

/// Decide whether a key code is routed to the ModKey cue.
pub fn is_modifier_key(code: u32) -> (r: bool)
    ensures
        r == is_modifier_code(code),
{
    let r = code == 42 || code == 29 || code == 125 || code == 56 || code == 100 || code == 97
        || code == 54 || code == 46;
    proof {
        let table = modifier_key_codes();
        if r {
            assert(table.contains(code)) by {
                if code == 42 {
                    assert(table[0] == code);
                } else if code == 29 {
                    assert(table[1] == code);
                } else if code == 125 {
                    assert(table[2] == code);
                } else if code == 56 {
                    assert(table[3] == code);
                } else if code == 100 {
                    assert(table[4] == code);
                } else if code == 97 {
                    assert(table[5] == code);
                } else if code == 54 {
                    assert(table[6] == code);
                } else {
                    assert(table[7] == code);
                }
            }
        } else {
            assert(!table.contains(code)) by {
                assert forall|i: int| 0 <= i < table.len() implies table[i] != code by {
                    assert(table[0] == 42u32);
                    assert(table[1] == 29u32);
                    assert(table[2] == 125u32);
                    assert(table[3] == 56u32);
                    assert(table[4] == 100u32);
                    assert(table[5] == 97u32);
                    assert(table[6] == 54u32);
                    assert(table[7] == 46u32);
                }
            }
        }
    }
    r
}

} // verus!
