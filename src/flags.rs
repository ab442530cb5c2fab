//! The table of symbolic launch flags and the OR-combination of flag lists.
//!
//! Each group of bit-set fields has its own names. A flag list holds symbolic
//! names and raw integers; its value is the bitwise OR of what each element
//! resolves to. An unknown name, or an element that is neither a name nor an
//! integer, contributes nothing.

use vstd::prelude::*;
use crate::text::text_eq;

verus! {

/// The bit-set field a flag name belongs to.
#[derive(Clone, Copy, Debug, PartialEq, Eq, Structural)]
pub enum FlagGroup {
    /// Process creation flags.
    Creation,
    /// Console fill attributes (colours and grid lines).
    FillAttribute,
    /// Startup-information flags.
    StartupFlags,
    /// Show-window commands.
    ShowWindow,
}

/// One element of a flag list in a rule configuration.
#[derive(Debug)]
pub enum FlagValue {
    /// A symbolic name, looked up in the flag table.
    Name(String),
    /// A raw integer, used as its low 32 bits.
    Bits(u64),
    /// Any other configuration value; it contributes nothing.
    Other,
}

impl Clone for FlagValue {
    fn clone(&self) -> (r: Self)
        ensures
            r == *self,
    {
        match self {
            FlagValue::Name(n) => FlagValue::Name(n.clone()),
            FlagValue::Bits(b) => FlagValue::Bits(*b),
            FlagValue::Other => FlagValue::Other,
        }
    }
}

pub open spec fn creation_flag_bits(name: Seq<char>) -> Option<u32> {
    if name == "CREATE_BREAKAWAY_FROM_JOB"@ { Some(0x0100_0000u32) }
    else if name == "CREATE_DEFAULT_ERROR_MODE"@ { Some(0x0400_0000u32) }
    else if name == "CREATE_NEW_CONSOLE"@ { Some(0x0000_0010u32) }
    else if name == "CREATE_NEW_PROCESS_GROUP"@ { Some(0x0000_0200u32) }
    else if name == "CREATE_NO_WINDOW"@ { Some(0x0800_0000u32) }
    else if name == "CREATE_PROTECTED_PROCESS"@ { Some(0x0004_0000u32) }
    else if name == "CREATE_PRESERVE_CODE_AUTHZ_LEVEL"@ { Some(0x0200_0000u32) }
    else if name == "CREATE_SECURE_PROCESS"@ { Some(0x0040_0000u32) }
    else if name == "CREATE_SEPARATE_WOW_VDM"@ { Some(0x0000_0800u32) }
    else if name == "CREATE_SHARED_WOW_VDM"@ { Some(0x0000_1000u32) }
    else if name == "CREATE_SUSPENDED"@ { Some(0x0000_0004u32) }
    else if name == "CREATE_UNICODE_ENVIRONMENT"@ { Some(0x0000_0400u32) }
    else if name == "DEBUG_ONLY_THIS_PROCESS"@ { Some(0x0000_0002u32) }
    else if name == "DEBUG_PROCESS"@ { Some(0x0000_0001u32) }
    else if name == "DETACHED_PROCESS"@ { Some(0x0000_0008u32) }
    else if name == "EXTENDED_STARTUPINFO_PRESENT"@ { Some(0x0008_0000u32) }
    else if name == "INHERIT_PARENT_AFFINITY"@ { Some(0x0001_0000u32) }
    else { None }
}

pub open spec fn fill_attribute_bits(name: Seq<char>) -> Option<u32> {
    if name == "FOREGROUND_BLUE"@ { Some(0x0001u32) }
    else if name == "FOREGROUND_RED"@ { Some(0x0004u32) }
    else if name == "FOREGROUND_GREEN"@ { Some(0x0002u32) }
    else if name == "BACKGROUND_BLUE"@ { Some(0x0010u32) }
    else if name == "BACKGROUND_RED"@ { Some(0x0040u32) }
    else if name == "BACKGROUND_GREEN"@ { Some(0x0020u32) }
    else if name == "BACKGROUND_INTENSITY"@ { Some(0x0080u32) }
    else if name == "FOREGROUND_INTENSITY"@ { Some(0x0008u32) }
    else if name == "COMMON_LVB_LEADING_BYTE"@ { Some(0x0100u32) }
    else if name == "COMMON_LVB_TRAILING_BYTE"@ { Some(0x0200u32) }
    else if name == "COMMON_LVB_GRID_HORIZONTAL"@ { Some(0x0400u32) }
    else if name == "COMMON_LVB_GRID_LVERTICAL"@ { Some(0x0800u32) }
    else if name == "COMMON_LVB_GRID_RVERTICAL"@ { Some(0x1000u32) }
    else if name == "COMMON_LVB_REVERSE_VIDEO"@ { Some(0x4000u32) }
    else if name == "COMMON_LVB_UNDERSCORE"@ { Some(0x8000u32) }
    else if name == "COMMON_LVB_SBCSDBCS"@ { Some(0x0300u32) }
    else { None }
}

pub open spec fn startup_flag_bits(name: Seq<char>) -> Option<u32> {
    if name == "STARTF_FORCEONFEEDBACK"@ { Some(0x0040u32) }
    else if name == "STARTF_FORCEOFFFEEDBACK"@ { Some(0x0080u32) }
    else if name == "STARTF_PREVENTPINNING"@ { Some(0x2000u32) }
    else if name == "STARTF_RUNFULLSCREEN"@ { Some(0x0020u32) }
    else if name == "STARTF_TITLEISAPPID"@ { Some(0x1000u32) }
    else if name == "STARTF_TITLEISLINKNAME"@ { Some(0x0800u32) }
    else if name == "STARTF_UNTRUSTEDSOURCE"@ { Some(0x8000u32) }
    else if name == "STARTF_USECOUNTCHARS"@ { Some(0x0008u32) }
    else if name == "STARTF_USEFILLATTRIBUTE"@ { Some(0x0010u32) }
    else if name == "STARTF_USEHOTKEY"@ { Some(0x0200u32) }
    else if name == "STARTF_USEPOSITION"@ { Some(0x0004u32) }
    else if name == "STARTF_USESHOWWINDOW"@ { Some(0x0001u32) }
    else if name == "STARTF_USESIZE"@ { Some(0x0002u32) }
    else if name == "STARTF_USESTDHANDLES"@ { Some(0x0100u32) }
    else { None }
}

pub open spec fn show_window_bits(name: Seq<char>) -> Option<u32> {
    if name == "SW_HIDE"@ { Some(0u32) }
    else if name == "SW_MAXIMIZE"@ { Some(3u32) }
    else if name == "SW_MINIMIZE"@ { Some(6u32) }
    else if name == "SW_RESTORE"@ { Some(9u32) }
    else if name == "SW_SHOW"@ { Some(5u32) }
    else if name == "SW_SHOWDEFAULT"@ { Some(10u32) }
    else if name == "SW_SHOWMAXIMIZED"@ { Some(3u32) }
    else if name == "SW_SHOWMINIMIZED"@ { Some(2u32) }
    else if name == "SW_SHOWMINNOACTIVE"@ { Some(7u32) }
    else if name == "SW_SHOWNA"@ { Some(8u32) }
    else if name == "SW_SHOWNOACTIVATE"@ { Some(4u32) }
    else if name == "SW_SHOWNORMAL"@ { Some(1u32) }
    else { None }
}

/// The bit value of a symbolic name in a group, if the table holds it.
pub open spec fn named_bits(group: FlagGroup, name: Seq<char>) -> Option<u32> {
    match group {
        FlagGroup::Creation => creation_flag_bits(name),
        FlagGroup::FillAttribute => fill_attribute_bits(name),
        FlagGroup::StartupFlags => startup_flag_bits(name),
        FlagGroup::ShowWindow => show_window_bits(name),
    }
}

/// What one list element contributes to the combined mask.
pub open spec fn flag_value_bits(group: FlagGroup, v: FlagValue) -> u32 {
    match v {
        FlagValue::Name(n) => match named_bits(group, n@) {
            Some(b) => b,
            None => 0,
        },
        FlagValue::Bits(b) => (b & 0xFFFF_FFFFu64) as u32,
        FlagValue::Other => 0,
    }
}

/// The bitwise OR of what every element of a flag list contributes.
pub open spec fn combined_bits(group: FlagGroup, vs: Seq<FlagValue>) -> u32
    decreases vs.len(),
{
    if vs.len() == 0 {
        0
    } else {
        combined_bits(group, vs.drop_last()) | flag_value_bits(group, vs.last())
    }
}

/// The bit value of a process creation flag name.
pub fn creation_flag_value(name: &str) -> (r: Option<u32>)
    ensures
        r == creation_flag_bits(name@),
{
    if text_eq(name, "CREATE_BREAKAWAY_FROM_JOB") {
        Some(0x0100_0000u32)
    } else if text_eq(name, "CREATE_DEFAULT_ERROR_MODE") {
        Some(0x0400_0000u32)
    } else if text_eq(name, "CREATE_NEW_CONSOLE") {
        Some(0x0000_0010u32)
    } else if text_eq(name, "CREATE_NEW_PROCESS_GROUP") {
        Some(0x0000_0200u32)
    } else if text_eq(name, "CREATE_NO_WINDOW") {
        Some(0x0800_0000u32)
    } else if text_eq(name, "CREATE_PROTECTED_PROCESS") {
        Some(0x0004_0000u32)
    } else if text_eq(name, "CREATE_PRESERVE_CODE_AUTHZ_LEVEL") {
        Some(0x0200_0000u32)
    } else if text_eq(name, "CREATE_SECURE_PROCESS") {
        Some(0x0040_0000u32)
    } else if text_eq(name, "CREATE_SEPARATE_WOW_VDM") {
        Some(0x0000_0800u32)
    } else if text_eq(name, "CREATE_SHARED_WOW_VDM") {
        Some(0x0000_1000u32)
    } else if text_eq(name, "CREATE_SUSPENDED") {
        Some(0x0000_0004u32)
    } else if text_eq(name, "CREATE_UNICODE_ENVIRONMENT") {
        Some(0x0000_0400u32)
    } else if text_eq(name, "DEBUG_ONLY_THIS_PROCESS") {
        Some(0x0000_0002u32)
    } else if text_eq(name, "DEBUG_PROCESS") {
        Some(0x0000_0001u32)
    } else if text_eq(name, "DETACHED_PROCESS") {
        Some(0x0000_0008u32)
    } else if text_eq(name, "EXTENDED_STARTUPINFO_PRESENT") {
        Some(0x0008_0000u32)
    } else if text_eq(name, "INHERIT_PARENT_AFFINITY") {
        Some(0x0001_0000u32)
    } else {
        None
    }
}

/// The bit value of a console fill attribute name.
pub fn fill_attribute_flag_value(name: &str) -> (r: Option<u32>)
    ensures
        r == fill_attribute_bits(name@),
{
    if text_eq(name, "FOREGROUND_BLUE") {
        Some(0x0001u32)
    } else if text_eq(name, "FOREGROUND_RED") {
        Some(0x0004u32)
    } else if text_eq(name, "FOREGROUND_GREEN") {
        Some(0x0002u32)
    } else if text_eq(name, "BACKGROUND_BLUE") {
        Some(0x0010u32)
    } else if text_eq(name, "BACKGROUND_RED") {
        Some(0x0040u32)
    } else if text_eq(name, "BACKGROUND_GREEN") {
        Some(0x0020u32)
    } else if text_eq(name, "BACKGROUND_INTENSITY") {
        Some(0x0080u32)
    } else if text_eq(name, "FOREGROUND_INTENSITY") {
        Some(0x0008u32)
    } else if text_eq(name, "COMMON_LVB_LEADING_BYTE") {
        Some(0x0100u32)
    } else if text_eq(name, "COMMON_LVB_TRAILING_BYTE") {
        Some(0x0200u32)
    } else if text_eq(name, "COMMON_LVB_GRID_HORIZONTAL") {
        Some(0x0400u32)
    } else if text_eq(name, "COMMON_LVB_GRID_LVERTICAL") {
        Some(0x0800u32)
    } else if text_eq(name, "COMMON_LVB_GRID_RVERTICAL") {
        Some(0x1000u32)
    } else if text_eq(name, "COMMON_LVB_REVERSE_VIDEO") {
        Some(0x4000u32)
    } else if text_eq(name, "COMMON_LVB_UNDERSCORE") {
        Some(0x8000u32)
    } else if text_eq(name, "COMMON_LVB_SBCSDBCS") {
        Some(0x0300u32)
    } else {
        None
    }
}

/// The bit value of a startup-information flag name.
pub fn startup_flag_value(name: &str) -> (r: Option<u32>)
    ensures
        r == startup_flag_bits(name@),
{
    if text_eq(name, "STARTF_FORCEONFEEDBACK") {
        Some(0x0040u32)
    } else if text_eq(name, "STARTF_FORCEOFFFEEDBACK") {
        Some(0x0080u32)
    } else if text_eq(name, "STARTF_PREVENTPINNING") {
        Some(0x2000u32)
    } else if text_eq(name, "STARTF_RUNFULLSCREEN") {
        Some(0x0020u32)
    } else if text_eq(name, "STARTF_TITLEISAPPID") {
        Some(0x1000u32)
    } else if text_eq(name, "STARTF_TITLEISLINKNAME") {
        Some(0x0800u32)
    } else if text_eq(name, "STARTF_UNTRUSTEDSOURCE") {
        Some(0x8000u32)
    } else if text_eq(name, "STARTF_USECOUNTCHARS") {
        Some(0x0008u32)
    } else if text_eq(name, "STARTF_USEFILLATTRIBUTE") {
        Some(0x0010u32)
    } else if text_eq(name, "STARTF_USEHOTKEY") {
        Some(0x0200u32)
    } else if text_eq(name, "STARTF_USEPOSITION") {
        Some(0x0004u32)
    } else if text_eq(name, "STARTF_USESHOWWINDOW") {
        Some(0x0001u32)
    } else if text_eq(name, "STARTF_USESIZE") {
        Some(0x0002u32)
    } else if text_eq(name, "STARTF_USESTDHANDLES") {
        Some(0x0100u32)
    } else {
        None
    }
}

/// The bit value of a show-window command name.
pub fn show_window_command_value(name: &str) -> (r: Option<u32>)
    ensures
        r == show_window_bits(name@),
{
    if text_eq(name, "SW_HIDE") {
        Some(0u32)
    } else if text_eq(name, "SW_MAXIMIZE") {
        Some(3u32)
    } else if text_eq(name, "SW_MINIMIZE") {
        Some(6u32)
    } else if text_eq(name, "SW_RESTORE") {
        Some(9u32)
    } else if text_eq(name, "SW_SHOW") {
        Some(5u32)
    } else if text_eq(name, "SW_SHOWDEFAULT") {
        Some(10u32)
    } else if text_eq(name, "SW_SHOWMAXIMIZED") {
        Some(3u32)
    } else if text_eq(name, "SW_SHOWMINIMIZED") {
        Some(2u32)
    } else if text_eq(name, "SW_SHOWMINNOACTIVE") {
        Some(7u32)
    } else if text_eq(name, "SW_SHOWNA") {
        Some(8u32)
    } else if text_eq(name, "SW_SHOWNOACTIVATE") {
        Some(4u32)
    } else if text_eq(name, "SW_SHOWNORMAL") {
        Some(1u32)
    } else {
        None
    }
}


/// The bit value of a symbolic name in a group, if the table holds it.
pub fn flag_bits(group: FlagGroup, name: &str) -> (r: Option<u32>)
    ensures
        r == named_bits(group, name@),
{
    match group {
        FlagGroup::Creation => creation_flag_value(name),
        FlagGroup::FillAttribute => fill_attribute_flag_value(name),
        FlagGroup::StartupFlags => startup_flag_value(name),
        FlagGroup::ShowWindow => show_window_command_value(name),
    }
}

/// What one list element contributes to the combined mask.
pub fn value_bits(group: FlagGroup, v: &FlagValue) -> (r: u32)
    ensures
        r == flag_value_bits(group, *v),
{
    match v {
        FlagValue::Name(n) => match flag_bits(group, n.as_str()) {
            Some(b) => b,
            None => 0,
        },
        FlagValue::Bits(b) => (*b & 0xFFFF_FFFFu64) as u32,
        FlagValue::Other => 0,
    }
}

/// The bitwise OR of what every element of a flag list contributes.
pub fn combine_flags(group: FlagGroup, values: &Vec<FlagValue>) -> (r: u32)
    ensures
        r == combined_bits(group, values@),
{
    let mut acc: u32 = 0;
    let mut i: usize = 0;
    while i < values.len()
        invariant
            i <= values@.len(),
            acc == combined_bits(group, values@.subrange(0, i as int)),
        decreases values@.len() - i,
    {
        let b = value_bits(group, &values[i]);
        assert(values@.subrange(0, i + 1).drop_last() =~= values@.subrange(0, i as int));
        acc = acc | b;
        i += 1;
    }
    assert(values@.subrange(0, values@.len() as int) =~= values@);
    acc
}

proof fn lemma_covered(group: FlagGroup, vs: Seq<FlagValue>, x: u32)
    ensures
        (combined_bits(group, vs) | x) == x <==> (forall|i: int|
            0 <= i < vs.len() ==> (#[trigger] flag_value_bits(group, vs[i]) | x) == x),
    decreases vs.len(),
{
    if vs.len() > 0 {
        let init = vs.drop_last();
        lemma_covered(group, init, x);
        let c = combined_bits(group, init);
        let v = flag_value_bits(group, vs.last());
        assert(((c | v) | x) == x <==> ((c | x) == x && (v | x) == x)) by (bit_vector);
        assert(combined_bits(group, vs) == (c | v));
        assert(vs.last() == vs[vs.len() - 1]);
        if (combined_bits(group, vs) | x) == x {
            assert forall|i: int| 0 <= i < vs.len() implies (#[trigger] flag_value_bits(
                group,
                vs[i],
            ) | x) == x by {
                if i < init.len() {
                    assert(init[i] == vs[i]);
                }
            }
        } else {
            if forall|i: int| 0 <= i < vs.len() ==> (#[trigger] flag_value_bits(group, vs[i]) | x) == x {
                assert forall|i: int| 0 <= i < init.len() implies (#[trigger] flag_value_bits(
                    group,
                    init[i],
                ) | x) == x by {
                    assert(init[i] == vs[i]);
                }
                assert((flag_value_bits(group, vs[vs.len() - 1]) | x) == x);
            }
        }
    } else {
        assert((0u32 | x) == x) by (bit_vector);
    }
}

/// A flag list's mask depends only on which elements it holds: neither
/// their order nor how often each occurs changes it.
pub proof fn lemma_combine_same_elements(group: FlagGroup, a: Seq<FlagValue>, b: Seq<FlagValue>)
    requires
        forall|v: FlagValue| a.contains(v) <==> b.contains(v),
    ensures
        combined_bits(group, a) == combined_bits(group, b),
{
    let ca = combined_bits(group, a);
    let cb = combined_bits(group, b);
    assert((ca | ca) == ca && (cb | cb) == cb) by (bit_vector);
    lemma_covered(group, a, ca);
    lemma_covered(group, a, cb);
    lemma_covered(group, b, ca);
    lemma_covered(group, b, cb);
    assert forall|i: int| 0 <= i < a.len() implies (#[trigger] flag_value_bits(group, a[i]) | cb)
        == cb by {
        assert(a.contains(a[i]));
        assert(b.contains(a[i]));
        let j = choose|j: int| 0 <= j < b.len() && b[j] == a[i];
        assert(flag_value_bits(group, b[j]) == flag_value_bits(group, a[i]));
    }
    assert forall|i: int| 0 <= i < b.len() implies (#[trigger] flag_value_bits(group, b[i]) | ca)
        == ca by {
        assert(b.contains(b[i]));
        assert(a.contains(b[i]));
        let j = choose|j: int| 0 <= j < a.len() && a[j] == b[i];
        assert(flag_value_bits(group, a[j]) == flag_value_bits(group, b[i]));
    }
    assert(((ca | cb) == cb && (cb | ca) == ca) ==> ca == cb) by (bit_vector);
}

/// Any permutation of a flag list yields the same mask.
pub proof fn lemma_combine_permutation(group: FlagGroup, a: Seq<FlagValue>, b: Seq<FlagValue>)
    requires
        a.to_multiset() == b.to_multiset(),
    ensures
        combined_bits(group, a) == combined_bits(group, b),
{
    a.to_multiset_ensures();
    b.to_multiset_ensures();
    assert forall|v: FlagValue| a.contains(v) <==> b.contains(v) by {
        a.to_multiset_ensures();
        b.to_multiset_ensures();
        assert(a.contains(v) <==> a.to_multiset().count(v) > 0);
        assert(b.contains(v) <==> b.to_multiset().count(v) > 0);
    }
    lemma_combine_same_elements(group, a, b);
}

/// Combining is associative: the mask of two lists joined is the OR of
/// their masks.
pub proof fn lemma_combine_concat(group: FlagGroup, a: Seq<FlagValue>, b: Seq<FlagValue>)
    ensures
        combined_bits(group, a + b) == combined_bits(group, a) | combined_bits(group, b),
    decreases b.len(),
{
    let ca = combined_bits(group, a);
    if b.len() == 0 {
        assert(a + b =~= a);
        assert((ca | 0u32) == ca) by (bit_vector);
    } else {
        lemma_combine_concat(group, a, b.drop_last());
        assert((a + b).drop_last() =~= a + b.drop_last());
        assert((a + b).last() == b.last());
        let cb = combined_bits(group, b.drop_last());
        let v = flag_value_bits(group, b.last());
        assert(((ca | cb) | v) == (ca | (cb | v))) by (bit_vector);
    }
}

} // verus!
