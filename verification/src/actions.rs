//! The action table: the twelve recognized command codes and their
//! resolution to an output line and a hold duration.
//!
//! A command code is the big-endian value of a four-character ASCII tag
//! `S<target><action><suffix>`: `<target>` is `1` to `4`, `<action>` is `R`
//! (reset, suffix `S`) or `P` (power, suffix `S` for a short press, `L` for
//! a long one). Every other 32-bit value is unknown and resolves to `None`;
//! that is legal input, not an error.

use vstd::prelude::*;

verus! {

// The twelve command codes, as big-endian values of their ASCII tags
// (0x53 'S', 0x31..0x34 '1'..'4', 0x52 'R', 0x50 'P', 0x4C 'L').
/// Tag "S1RS": reset target 1.
pub const SERV1_RESET: u32 = 0x5331_5253;
/// Tag "S1PS": short power press, target 1.
pub const SERV1_POWER_SHORT: u32 = 0x5331_5053;
/// Tag "S1PL": long power press, target 1.
pub const SERV1_POWER_LONG: u32 = 0x5331_504C;
/// Tag "S2RS": reset target 2.
pub const SERV2_RESET: u32 = 0x5332_5253;
/// Tag "S2PS": short power press, target 2.
pub const SERV2_POWER_SHORT: u32 = 0x5332_5053;
/// Tag "S2PL": long power press, target 2.
pub const SERV2_POWER_LONG: u32 = 0x5332_504C;
/// Tag "S3RS": reset target 3.
pub const SERV3_RESET: u32 = 0x5333_5253;
/// Tag "S3PS": short power press, target 3.
pub const SERV3_POWER_SHORT: u32 = 0x5333_5053;
/// Tag "S3PL": long power press, target 3.
pub const SERV3_POWER_LONG: u32 = 0x5333_504C;
/// Tag "S4RS": reset target 4.
pub const SERV4_RESET: u32 = 0x5334_5253;
/// Tag "S4PS": short power press, target 4.
pub const SERV4_POWER_SHORT: u32 = 0x5334_5053;
/// Tag "S4PL": long power press, target 4.
pub const SERV4_POWER_LONG: u32 = 0x5334_504C;

/// Which of a target's two output lines an action drives.
#[derive(Clone, Copy, Debug, PartialEq, Eq, Structural)]
pub enum LineRole {
    Reset,
    Power,
}

/// One physical output line: a target (1 to 4) and the role of the line on
/// that target.
#[derive(Clone, Copy, Debug, PartialEq, Eq, Structural)]
pub struct Line {
    pub target: u8,
    pub role: LineRole,
}

/// What the actuator does for one recognized code: pulse `line` for
/// `duration_ms` milliseconds (assert, hold, deassert).
#[derive(Clone, Copy, Debug, PartialEq, Eq, Structural)]
pub struct ActionEntry {
    pub line: Line,
    pub duration_ms: u32,
}

/// Hold durations in milliseconds. Configuration, not protocol: the table
/// shape is fixed, the durations may be overridden.
#[derive(Clone, Copy, Debug, PartialEq, Eq, Structural)]
pub struct Durations {
    pub reset_ms: u32,
    pub power_short_ms: u32,
    pub power_long_ms: u32,
}

/// The stock durations: 100 ms for a reset, 100 ms for a short power press,
/// 5000 ms for a long one.
pub open spec fn spec_default_durations() -> Durations {
    Durations { reset_ms: 100, power_short_ms: 100, power_long_ms: 5000 }
}

impl Default for Durations {
    fn default() -> (r: Durations)
        ensures
            r == spec_default_durations(),
    {
        Durations { reset_ms: 100, power_short_ms: 100, power_long_ms: 5000 }
    }
}

/// The action table under the durations `d`: the twelve recognized codes
/// map to their entry, everything else to `None`.
pub open spec fn spec_resolve_with(d: Durations, code: u32) -> Option<ActionEntry> {
    if code == SERV1_RESET {
        Some(ActionEntry { line: Line { target: 1, role: LineRole::Reset }, duration_ms: d.reset_ms })
    } else if code == SERV1_POWER_SHORT {
        Some(ActionEntry { line: Line { target: 1, role: LineRole::Power }, duration_ms: d.power_short_ms })
    } else if code == SERV1_POWER_LONG {
        Some(ActionEntry { line: Line { target: 1, role: LineRole::Power }, duration_ms: d.power_long_ms })
    } else if code == SERV2_RESET {
        Some(ActionEntry { line: Line { target: 2, role: LineRole::Reset }, duration_ms: d.reset_ms })
    } else if code == SERV2_POWER_SHORT {
        Some(ActionEntry { line: Line { target: 2, role: LineRole::Power }, duration_ms: d.power_short_ms })
    } else if code == SERV2_POWER_LONG {
        Some(ActionEntry { line: Line { target: 2, role: LineRole::Power }, duration_ms: d.power_long_ms })
    } else if code == SERV3_RESET {
        Some(ActionEntry { line: Line { target: 3, role: LineRole::Reset }, duration_ms: d.reset_ms })
    } else if code == SERV3_POWER_SHORT {
        Some(ActionEntry { line: Line { target: 3, role: LineRole::Power }, duration_ms: d.power_short_ms })
    } else if code == SERV3_POWER_LONG {
        Some(ActionEntry { line: Line { target: 3, role: LineRole::Power }, duration_ms: d.power_long_ms })
    } else if code == SERV4_RESET {
        Some(ActionEntry { line: Line { target: 4, role: LineRole::Reset }, duration_ms: d.reset_ms })
    } else if code == SERV4_POWER_SHORT {
        Some(ActionEntry { line: Line { target: 4, role: LineRole::Power }, duration_ms: d.power_short_ms })
    } else if code == SERV4_POWER_LONG {
        Some(ActionEntry { line: Line { target: 4, role: LineRole::Power }, duration_ms: d.power_long_ms })
    } else {
        None
    }
}

/// The action table under the stock durations.
pub open spec fn spec_resolve(code: u32) -> Option<ActionEntry> {
    spec_resolve_with(spec_default_durations(), code)
}

/// True exactly of the twelve recognized command codes.
pub open spec fn is_command_code(code: u32) -> bool {
    spec_resolve_with(spec_default_durations(), code) is Some
}

/// Resolves a command code through the action table under the durations
/// `d`. Total: every 32-bit value is legal input, the unrecognized ones
/// return `None`.
pub fn resolve_with(d: &Durations, code: u32) -> (r: Option<ActionEntry>)
    ensures
        r == spec_resolve_with(*d, code),
{
    if code == SERV1_RESET {
        Some(ActionEntry { line: Line { target: 1, role: LineRole::Reset }, duration_ms: d.reset_ms })
    } else if code == SERV1_POWER_SHORT {
        Some(ActionEntry { line: Line { target: 1, role: LineRole::Power }, duration_ms: d.power_short_ms })
    } else if code == SERV1_POWER_LONG {
        Some(ActionEntry { line: Line { target: 1, role: LineRole::Power }, duration_ms: d.power_long_ms })
    } else if code == SERV2_RESET {
        Some(ActionEntry { line: Line { target: 2, role: LineRole::Reset }, duration_ms: d.reset_ms })
    } else if code == SERV2_POWER_SHORT {
        Some(ActionEntry { line: Line { target: 2, role: LineRole::Power }, duration_ms: d.power_short_ms })
    } else if code == SERV2_POWER_LONG {
        Some(ActionEntry { line: Line { target: 2, role: LineRole::Power }, duration_ms: d.power_long_ms })
    } else if code == SERV3_RESET {
        Some(ActionEntry { line: Line { target: 3, role: LineRole::Reset }, duration_ms: d.reset_ms })
    } else if code == SERV3_POWER_SHORT {
        Some(ActionEntry { line: Line { target: 3, role: LineRole::Power }, duration_ms: d.power_short_ms })
    } else if code == SERV3_POWER_LONG {
        Some(ActionEntry { line: Line { target: 3, role: LineRole::Power }, duration_ms: d.power_long_ms })
    } else if code == SERV4_RESET {
        Some(ActionEntry { line: Line { target: 4, role: LineRole::Reset }, duration_ms: d.reset_ms })
    } else if code == SERV4_POWER_SHORT {
        Some(ActionEntry { line: Line { target: 4, role: LineRole::Power }, duration_ms: d.power_short_ms })
    } else if code == SERV4_POWER_LONG {
        Some(ActionEntry { line: Line { target: 4, role: LineRole::Power }, duration_ms: d.power_long_ms })
    } else {
        None
    }
}

/// Resolves a command code under the stock durations.
pub fn resolve(code: u32) -> (r: Option<ActionEntry>)
    ensures
        r == spec_resolve(code),
{
    let d = Durations { reset_ms: 100, power_short_ms: 100, power_long_ms: 5000 };
    resolve_with(&d, code)
}

/// Each command code is the big-endian reading of its four-character
/// ASCII tag.
pub proof fn lemma_code_tags()
    ensures
        crate::codec::spec_word_be(seq![0x53u8, 0x31u8, 0x52u8, 0x53u8]) == SERV1_RESET,
        crate::codec::spec_word_be(seq![0x53u8, 0x31u8, 0x50u8, 0x53u8]) == SERV1_POWER_SHORT,
        crate::codec::spec_word_be(seq![0x53u8, 0x31u8, 0x50u8, 0x4Cu8]) == SERV1_POWER_LONG,
        crate::codec::spec_word_be(seq![0x53u8, 0x32u8, 0x52u8, 0x53u8]) == SERV2_RESET,
        crate::codec::spec_word_be(seq![0x53u8, 0x32u8, 0x50u8, 0x53u8]) == SERV2_POWER_SHORT,
        crate::codec::spec_word_be(seq![0x53u8, 0x32u8, 0x50u8, 0x4Cu8]) == SERV2_POWER_LONG,
        crate::codec::spec_word_be(seq![0x53u8, 0x33u8, 0x52u8, 0x53u8]) == SERV3_RESET,
        crate::codec::spec_word_be(seq![0x53u8, 0x33u8, 0x50u8, 0x53u8]) == SERV3_POWER_SHORT,
        crate::codec::spec_word_be(seq![0x53u8, 0x33u8, 0x50u8, 0x4Cu8]) == SERV3_POWER_LONG,
        crate::codec::spec_word_be(seq![0x53u8, 0x34u8, 0x52u8, 0x53u8]) == SERV4_RESET,
        crate::codec::spec_word_be(seq![0x53u8, 0x34u8, 0x50u8, 0x53u8]) == SERV4_POWER_SHORT,
        crate::codec::spec_word_be(seq![0x53u8, 0x34u8, 0x50u8, 0x4Cu8]) == SERV4_POWER_LONG,
{
}

/// The action table is exactly the twelve-entry mapping: under any
/// durations, each recognized code resolves to its one entry, every other
/// 32-bit value resolves to `None`, recognition does not depend on the
/// durations, and the acknowledgment token is not a command code.
pub proof fn lemma_resolve_table(d: Durations)
    ensures
        spec_resolve_with(d, SERV1_RESET) == Some(ActionEntry { line: Line { target: 1, role: LineRole::Reset }, duration_ms: d.reset_ms }),
        spec_resolve_with(d, SERV1_POWER_SHORT) == Some(ActionEntry { line: Line { target: 1, role: LineRole::Power }, duration_ms: d.power_short_ms }),
        spec_resolve_with(d, SERV1_POWER_LONG) == Some(ActionEntry { line: Line { target: 1, role: LineRole::Power }, duration_ms: d.power_long_ms }),
        spec_resolve_with(d, SERV2_RESET) == Some(ActionEntry { line: Line { target: 2, role: LineRole::Reset }, duration_ms: d.reset_ms }),
        spec_resolve_with(d, SERV2_POWER_SHORT) == Some(ActionEntry { line: Line { target: 2, role: LineRole::Power }, duration_ms: d.power_short_ms }),
        spec_resolve_with(d, SERV2_POWER_LONG) == Some(ActionEntry { line: Line { target: 2, role: LineRole::Power }, duration_ms: d.power_long_ms }),
        spec_resolve_with(d, SERV3_RESET) == Some(ActionEntry { line: Line { target: 3, role: LineRole::Reset }, duration_ms: d.reset_ms }),
        spec_resolve_with(d, SERV3_POWER_SHORT) == Some(ActionEntry { line: Line { target: 3, role: LineRole::Power }, duration_ms: d.power_short_ms }),
        spec_resolve_with(d, SERV3_POWER_LONG) == Some(ActionEntry { line: Line { target: 3, role: LineRole::Power }, duration_ms: d.power_long_ms }),
        spec_resolve_with(d, SERV4_RESET) == Some(ActionEntry { line: Line { target: 4, role: LineRole::Reset }, duration_ms: d.reset_ms }),
        spec_resolve_with(d, SERV4_POWER_SHORT) == Some(ActionEntry { line: Line { target: 4, role: LineRole::Power }, duration_ms: d.power_short_ms }),
        spec_resolve_with(d, SERV4_POWER_LONG) == Some(ActionEntry { line: Line { target: 4, role: LineRole::Power }, duration_ms: d.power_long_ms }),
        forall|code: u32| is_command_code(code) <==> spec_resolve_with(d, code) is Some,
        forall|code: u32| !is_command_code(code) ==> spec_resolve_with(d, code) is None,
        !is_command_code(crate::TASK_COMPLETE),
{
}

} // verus!
