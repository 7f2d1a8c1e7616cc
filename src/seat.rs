use vstd::prelude::*;
use crate::device::InputError;
use crate::listing::{find_device_id, listing_id};

verus! {

/// How long to wait after creating a seat before resolving it, in milliseconds.
pub const SEAT_SETTLE_MS: u64 = 200;

/// ` pointer`, the suffix of a seat's pointer half.
pub open spec fn pointer_suffix() -> Seq<char> {
    seq![' ', 'p', 'o', 'i', 'n', 't', 'e', 'r']
}

/// ` keyboard`, the suffix of a seat's keyboard half.
pub open spec fn keyboard_suffix() -> Seq<char> {
    seq![' ', 'k', 'e', 'y', 'b', 'o', 'a', 'r', 'd']
}

/// The device name of the pointer half of the seat called `name`.
pub open spec fn pointer_label(name: Seq<char>) -> Seq<char> {
    name + pointer_suffix()
}

/// The device name of the keyboard half of the seat called `name`.
pub open spec fn keyboard_label(name: Seq<char>) -> Seq<char> {
    name + keyboard_suffix()
}

/// The master ids of the seat called `name`, where the listing shows both halves.
pub open spec fn seat_ids(name: Seq<char>, listing: Seq<char>) -> Option<(i32, i32)> {
    match (listing_id(listing, pointer_label(name)), listing_id(listing, keyboard_label(name))) {
        (Some(p), Some(k)) => Some((p, k)),
        _ => None,
    }
}

/// An isolated logical seat: a master pointer and a master keyboard.
#[derive(Debug, PartialEq, Eq)]
pub struct XInputMaster {
    pub name: String,
    pub pointer_id: i32,
    pub keyboard_id: i32,
}

/// Resolves both halves of the seat called `name` in a device listing.
pub fn find_master(name: &str, listing: &str) -> (r: Option<XInputMaster>)
    ensures
        match seat_ids(name@, listing@) {
            Some((p, k)) => r matches Some(m) && m.name@ == name@ && m.pointer_id == p
                && m.keyboard_id == k,
            None => r is None,
        },
{
    let pointer_name = String::from_str(name).concat(" pointer");
    let keyboard_name = String::from_str(name).concat(" keyboard");
    proof {
        reveal_strlit(" pointer");
        reveal_strlit(" keyboard");
        assert(pointer_name@ =~= pointer_label(name@));
        assert(keyboard_name@ =~= keyboard_label(name@));
    }
    let pointer = find_device_id(listing, pointer_name.as_str());
    let keyboard = find_device_id(listing, keyboard_name.as_str());
    match (pointer, keyboard) {
        (Some(p), Some(k)) => Some(
            XInputMaster { name: String::from_str(name), pointer_id: p, keyboard_id: k },
        ),
        _ => None,
    }
}

/// Where the setup of a seat stands.
#[derive(Debug, Clone, Copy, PartialEq, Eq, Structural)]
pub enum SeatPhase {
    /// Looking for a seat left by an earlier run.
    Lookup,
    /// The seat was requested; it must now resolve.
    Created,
    Ready,
    Failed,
}

/// What a device listing leads to.
#[derive(Debug, Clone, Copy, PartialEq, Eq, Structural)]
pub enum SeatOutcome {
    /// Both halves resolved, with these master ids.
    Resolved(i32, i32),
    /// Ask the windowing system to create the seat, then list again.
    Create,
    /// The created seat did not resolve.
    Unresolved,
}

/// The outcome of a listing seen in a phase.
pub open spec fn seat_outcome(phase: SeatPhase, name: Seq<char>, listing: Seq<char>) -> SeatOutcome {
    match seat_ids(name, listing) {
        Some((p, k)) => SeatOutcome::Resolved(p, k),
        None => if phase == SeatPhase::Lookup {
            SeatOutcome::Create
        } else {
            SeatOutcome::Unresolved
        },
    }
}

/// The next thing to do for a seat.
#[derive(Debug, PartialEq, Eq)]
pub enum SeatCommand {
    /// Create the seat called `name`, wait `settle_ms`, and list the devices again.
    CreateMaster { name: String, settle_ms: u64 },
    /// The seat is ready.
    Ready(XInputMaster),
    /// The seat cannot be had.
    Fail(InputError),
}

/// Creates or reuses the seat called `name`: reuse it where a listing
/// shows both halves; else create it once, settle, and resolve it from a
/// fresh listing, failing if it still does not resolve.
pub struct SeatSetup {
    pub name: String,
    pub phase: SeatPhase,
}

impl SeatSetup {
    pub fn new(name: &str) -> (r: SeatSetup)
        ensures
            r.name@ == name@,
            r.phase == SeatPhase::Lookup,
    {
        SeatSetup { name: String::from_str(name), phase: SeatPhase::Lookup }
    }

    /// Takes the output of a device listing and says what comes next.
    pub fn on_listing(&mut self, listing: &str) -> (cmd: SeatCommand)
        requires
            old(self).phase == SeatPhase::Lookup || old(self).phase == SeatPhase::Created,
        ensures
            final(self).name == old(self).name,
            match seat_outcome(old(self).phase, old(self).name@, listing@) {
                SeatOutcome::Resolved(p, k) => {
                    &&& final(self).phase == SeatPhase::Ready
                    &&& cmd matches SeatCommand::Ready(m) && m.name@ == old(self).name@
                        && m.pointer_id == p && m.keyboard_id == k
                },
                SeatOutcome::Create => {
                    &&& final(self).phase == SeatPhase::Created
                    &&& cmd matches SeatCommand::CreateMaster { name, settle_ms } && name@
                        == old(self).name@ && settle_ms == SEAT_SETTLE_MS
                },
                SeatOutcome::Unresolved => {
                    &&& final(self).phase == SeatPhase::Failed
                    &&& cmd matches SeatCommand::Fail(InputError::SeatResolutionFailed(n)) && n@
                        == old(self).name@
                },
            },
    {
        match find_master(self.name.as_str(), listing) {
            Some(m) => {
                self.phase = SeatPhase::Ready;
                SeatCommand::Ready(m)
            },
            None => {
                if self.phase == SeatPhase::Lookup {
                    self.phase = SeatPhase::Created;
                    SeatCommand::CreateMaster {
                        name: self.name.clone(),
                        settle_ms: SEAT_SETTLE_MS,
                    }
                } else {
                    self.phase = SeatPhase::Failed;
                    SeatCommand::Fail(InputError::SeatResolutionFailed(self.name.clone()))
                }
            },
        }
    }
}

/// Seat creation is idempotent: once a setup has resolved a seat from a
/// device listing, whether it found the seat or created it, a second setup
/// of the same name that sees the same devices resolves it at once, with
/// the same master ids and no second creation request.
pub proof fn lemma_seat_reuse(phase: SeatPhase, name: Seq<char>, listing: Seq<char>, p: i32, k: i32)
    requires
        seat_outcome(phase, name, listing) == SeatOutcome::Resolved(p, k),
    ensures
        seat_outcome(SeatPhase::Lookup, name, listing) == SeatOutcome::Resolved(p, k),
{
}

} // verus!
