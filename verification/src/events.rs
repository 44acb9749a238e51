use vstd::prelude::*;

use crate::NSWorkspaceError;

verus! {

/// A typed occurrence republished from the workspace notification center.
///
/// Application-scoped variants carry the identifier of the application the
/// notification was about: its bundle identifier, falling back to its
/// localized display name. `Error` reports a failed identifier resolution.
#[derive(Clone, Debug, PartialEq, Eq)]
pub enum Event {
    // Activation/focus
    DidActivateApplication(String),
    DidDeactivateApplication(String),

    // Application lifecycle
    DidLaunchApplication(String),
    DidTerminateApplication(String),

    // Visibility
    DidHideApplication(String),
    DidUnhideApplication(String),

    // Power
    DidSleep,
    DidWake,
    DidPowerOff,

    // Screens
    DidScreenSleep,
    DidScreenWake,

    Error(NSWorkspaceError),
}

/// One subscribable notification kind: the `Event` variants that originate
/// from OS notifications (everything but the synthetic `Error`).
#[derive(Clone, Copy, Debug, PartialEq, Eq, Structural)]
pub enum NotificationKind {
    // Activation/focus
    DidActivateApplication,
    DidDeactivateApplication,

    // Application lifecycle
    DidLaunchApplication,
    DidTerminateApplication,

    // Visibility
    DidHideApplication,
    DidUnhideApplication,

    // Power
    DidSleep,
    DidWake,
    DidPowerOff,

    // Screens
    DidScreenSleep,
    DidScreenWake,
}

/// How many subscribable notification kinds there are.
pub const KIND_COUNT: usize = 11;

/// The union of the single-bit values of all subscribable kinds.
pub const FULL_MASK: u16 = 0x7ff;

/// The position of a kind in the fixed enumeration order.
pub open spec fn spec_kind_index(k: NotificationKind) -> int {
    match k {
        NotificationKind::DidActivateApplication => 0,
        NotificationKind::DidDeactivateApplication => 1,
        NotificationKind::DidLaunchApplication => 2,
        NotificationKind::DidTerminateApplication => 3,
        NotificationKind::DidHideApplication => 4,
        NotificationKind::DidUnhideApplication => 5,
        NotificationKind::DidSleep => 6,
        NotificationKind::DidWake => 7,
        NotificationKind::DidPowerOff => 8,
        NotificationKind::DidScreenSleep => 9,
        NotificationKind::DidScreenWake => 10,
    }
}

/// The kind at a position of the fixed enumeration order.
pub open spec fn spec_kind_at(i: int) -> NotificationKind {
    if i == 0 {
        NotificationKind::DidActivateApplication
    } else if i == 1 {
        NotificationKind::DidDeactivateApplication
    } else if i == 2 {
        NotificationKind::DidLaunchApplication
    } else if i == 3 {
        NotificationKind::DidTerminateApplication
    } else if i == 4 {
        NotificationKind::DidHideApplication
    } else if i == 5 {
        NotificationKind::DidUnhideApplication
    } else if i == 6 {
        NotificationKind::DidSleep
    } else if i == 7 {
        NotificationKind::DidWake
    } else if i == 8 {
        NotificationKind::DidPowerOff
    } else if i == 9 {
        NotificationKind::DidScreenSleep
    } else {
        NotificationKind::DidScreenWake
    }
}

/// The single-bit mask value of a kind.
pub open spec fn spec_kind_bit(k: NotificationKind) -> u16 {
    match k {
        NotificationKind::DidActivateApplication => 0x1,
        NotificationKind::DidDeactivateApplication => 0x2,
        NotificationKind::DidLaunchApplication => 0x4,
        NotificationKind::DidTerminateApplication => 0x8,
        NotificationKind::DidHideApplication => 0x10,
        NotificationKind::DidUnhideApplication => 0x20,
        NotificationKind::DidSleep => 0x40,
        NotificationKind::DidWake => 0x80,
        NotificationKind::DidPowerOff => 0x100,
        NotificationKind::DidScreenSleep => 0x200,
        NotificationKind::DidScreenWake => 0x400,
    }
}

/// The human-readable name of a kind, as `flags` yields it.
pub open spec fn spec_kind_label(k: NotificationKind) -> Seq<char> {
    match k {
        NotificationKind::DidActivateApplication => "DidActivateApplication"@,
        NotificationKind::DidDeactivateApplication => "DidDeactivateApplication"@,
        NotificationKind::DidLaunchApplication => "DidLaunchApplication"@,
        NotificationKind::DidTerminateApplication => "DidTerminateApplication"@,
        NotificationKind::DidHideApplication => "DidHideApplication"@,
        NotificationKind::DidUnhideApplication => "DidUnhideApplication"@,
        NotificationKind::DidSleep => "DidSleep"@,
        NotificationKind::DidWake => "DidWake"@,
        NotificationKind::DidPowerOff => "DidPowerOff"@,
        NotificationKind::DidScreenSleep => "DidScreenSleep"@,
        NotificationKind::DidScreenWake => "DidScreenWake"@,
    }
}

/// A bitmask of subscribed notification kinds: one bit per subscribable
/// `Event` variant, combined with `or` and tested with `contains`.
#[derive(Clone, Copy, Debug, PartialEq, Eq, Structural)]
pub struct NotificationListener {
    /// The raw bits; bit `i` stands for the kind at position `i` of the
    /// enumeration order.
    pub bits: u16,
}

impl NotificationListener {
    /// Whether the mask has the bit of kind `k` set.
    pub open spec fn spec_listens(self, k: NotificationKind) -> bool {
        self.bits & spec_kind_bit(k) == spec_kind_bit(k)
    }

    /// The mask with no kind set.
    pub fn empty() -> (r: Self)
        ensures
            r.bits == 0,
    {
        NotificationListener { bits: 0 }
    }

    /// The mask with every subscribable kind set.
    pub fn all() -> (r: Self)
        ensures
            r.bits == FULL_MASK,
    {
        NotificationListener { bits: FULL_MASK }
    }

    /// The single-bit mask of one kind.
    pub fn from_kind(k: NotificationKind) -> (r: Self)
        ensures
            r.bits == spec_kind_bit(k),
    {
        NotificationListener { bits: kind_bit(k) }
    }

    /// Bitwise union of two masks.
    pub fn or(self, other: Self) -> (r: Self)
        ensures
            r.bits == self.bits | other.bits,
    {
        NotificationListener { bits: self.bits | other.bits }
    }

    /// Membership test: whether every bit of `other` is set in `self`.
    pub fn contains(&self, other: Self) -> (r: bool)
        ensures
            r == (self.bits & other.bits == other.bits),
    {
        self.bits & other.bits == other.bits
    }

    /// Enumerates every subscribable kind as a (name, single-bit mask) pair,
    /// in the fixed enumeration order.
    pub fn flags() -> (r: Vec<(&'static str, NotificationListener)>)
        ensures
            r@.len() == KIND_COUNT,
            forall|i: int|
                0 <= i < KIND_COUNT ==> (#[trigger] r@[i]).1.bits == spec_kind_bit(spec_kind_at(i))
                    && r@[i].0@ == spec_kind_label(spec_kind_at(i)),
    {
        let r: Vec<(&'static str, NotificationListener)> = vec![
            ("DidActivateApplication", NotificationListener { bits: 0x1 }),
            ("DidDeactivateApplication", NotificationListener { bits: 0x2 }),
            ("DidLaunchApplication", NotificationListener { bits: 0x4 }),
            ("DidTerminateApplication", NotificationListener { bits: 0x8 }),
            ("DidHideApplication", NotificationListener { bits: 0x10 }),
            ("DidUnhideApplication", NotificationListener { bits: 0x20 }),
            ("DidSleep", NotificationListener { bits: 0x40 }),
            ("DidWake", NotificationListener { bits: 0x80 }),
            ("DidPowerOff", NotificationListener { bits: 0x100 }),
            ("DidScreenSleep", NotificationListener { bits: 0x200 }),
            ("DidScreenWake", NotificationListener { bits: 0x400 }),
        ];
        r
    }
}

/// The single-bit mask value of one kind.
pub fn kind_bit(k: NotificationKind) -> (r: u16)
    ensures
        r == spec_kind_bit(k),
{
    match k {
        NotificationKind::DidActivateApplication => 0x1,
        NotificationKind::DidDeactivateApplication => 0x2,
        NotificationKind::DidLaunchApplication => 0x4,
        NotificationKind::DidTerminateApplication => 0x8,
        NotificationKind::DidHideApplication => 0x10,
        NotificationKind::DidUnhideApplication => 0x20,
        NotificationKind::DidSleep => 0x40,
        NotificationKind::DidWake => 0x80,
        NotificationKind::DidPowerOff => 0x100,
        NotificationKind::DidScreenSleep => 0x200,
        NotificationKind::DidScreenWake => 0x400,
    }
}

/// Every subscribable kind, in the fixed enumeration order.
pub fn all_kinds() -> (r: Vec<NotificationKind>)
    ensures
        r@.len() == KIND_COUNT,
        forall|i: int| 0 <= i < KIND_COUNT ==> #[trigger] r@[i] == spec_kind_at(i),
{
    let r: Vec<NotificationKind> = vec![
        NotificationKind::DidActivateApplication,
        NotificationKind::DidDeactivateApplication,
        NotificationKind::DidLaunchApplication,
        NotificationKind::DidTerminateApplication,
        NotificationKind::DidHideApplication,
        NotificationKind::DidUnhideApplication,
        NotificationKind::DidSleep,
        NotificationKind::DidWake,
        NotificationKind::DidPowerOff,
        NotificationKind::DidScreenSleep,
        NotificationKind::DidScreenWake,
    ];
    r
}

/// The law behind `flags`: the enumeration order visits each subscribable
/// kind exactly once (position and kind are in bijection), distinct kinds
/// have distinct single-bit values, and the union of all single-bit values
/// is the full mask.
pub proof fn lemma_flags_partition()
    ensures
        forall|k: NotificationKind|
            0 <= #[trigger] spec_kind_index(k) < KIND_COUNT && spec_kind_at(spec_kind_index(k)) == k,
        forall|i: int| 0 <= i < KIND_COUNT ==> spec_kind_index(#[trigger] spec_kind_at(i)) == i,
        forall|k1: NotificationKind, k2: NotificationKind|
            #![trigger spec_kind_bit(k1), spec_kind_bit(k2)]
            k1 != k2 ==> spec_kind_bit(k1) != spec_kind_bit(k2),
        spec_kind_bit(spec_kind_at(0)) | spec_kind_bit(spec_kind_at(1)) | spec_kind_bit(
            spec_kind_at(2),
        ) | spec_kind_bit(spec_kind_at(3)) | spec_kind_bit(spec_kind_at(4)) | spec_kind_bit(
            spec_kind_at(5),
        ) | spec_kind_bit(spec_kind_at(6)) | spec_kind_bit(spec_kind_at(7)) | spec_kind_bit(
            spec_kind_at(8),
        ) | spec_kind_bit(spec_kind_at(9)) | spec_kind_bit(spec_kind_at(10)) == FULL_MASK,
{
    assert(0x1u16 | 0x2 | 0x4 | 0x8 | 0x10 | 0x20 | 0x40 | 0x80 | 0x100 | 0x200 | 0x400 == 0x7ffu16)
        by (bit_vector);
}

} // verus!
