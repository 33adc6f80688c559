use vstd::prelude::*;
use std::sync::atomic::{AtomicU8, Ordering};

verus! {

/// Whether the player is stopped, playing or paused.
#[derive(Debug, Clone, Copy, PartialEq, Eq, Structural)]
pub enum PlayerState {
    Stopped,
    Playing,
    Paused,
}

/// The byte a state is stored as.
pub open spec fn state_code(s: PlayerState) -> u8 {
    match s {
        PlayerState::Stopped => 0,
        PlayerState::Playing => 1,
        PlayerState::Paused => 2,
    }
}

/// The state a byte stands for; an unknown byte reads as stopped.
pub open spec fn state_of_code(v: u8) -> PlayerState {
    if v == 1 {
        PlayerState::Playing
    } else if v == 2 {
        PlayerState::Paused
    } else {
        PlayerState::Stopped
    }
}

impl PlayerState {
    pub fn to_u8(self) -> (v: u8)
        ensures
            v == state_code(self),
    {
        match self {
            PlayerState::Stopped => 0,
            PlayerState::Playing => 1,
            PlayerState::Paused => 2,
        }
    }

    pub fn from_u8(v: u8) -> (s: Self)
        ensures
            s == state_of_code(v),
    {
        match v {
            1 => PlayerState::Playing,
            2 => PlayerState::Paused,
            _ => PlayerState::Stopped,
        }
    }
}

/// A state read back from its byte is the state that was stored.
pub proof fn lemma_state_code_roundtrip(s: PlayerState)
    ensures
        state_of_code(state_code(s)) == s,
{
}

/// `AtomicU8::compare_exchange` with acquire-release ordering on success and
/// acquire on failure: writes `new` if the byte is `current`. Claimed, as
/// std documents it: on success the previous value is `current`; on failure
/// the value found, which is not `current` (the strong form fails only
/// then). What another thread left there is not claimed.
#[verifier::external_body]
fn compare_exchange_acq_rel(a: &AtomicU8, current: u8, new: u8) -> (r: Result<u8, u8>)
    ensures
        match r {
            Ok(v) => v == current,
            Err(v) => v != current,
        },
{
    a.compare_exchange(current, new, Ordering::AcqRel, Ordering::Acquire)
}

/// The orderings a load accepts (std panics on `Release` and `AcqRel`).
pub open spec fn load_ordering(o: Ordering) -> bool {
    o != Ordering::Release && o != Ordering::AcqRel
}

/// The orderings a store accepts (std panics on `Acquire` and `AcqRel`).
pub open spec fn store_ordering(o: Ordering) -> bool {
    o != Ordering::Acquire && o != Ordering::AcqRel
}

/// The player's state, shared between the control thread and the decoder.
pub struct AtomicPlayerState(pub AtomicU8);

impl AtomicPlayerState {
    pub fn new(state: PlayerState) -> (a: Self) {
        AtomicPlayerState(AtomicU8::new(state.to_u8()))
    }

    /// The current state. What another thread stored is not known here, so
    /// nothing is said of which state comes back.
    pub fn load(&self, ordering: Ordering) -> (s: PlayerState)
        requires
            load_ordering(ordering),
    {
        PlayerState::from_u8(self.0.load(ordering))
    }

    pub fn store(&self, state: PlayerState, ordering: Ordering)
        requires
            store_ordering(ordering),
    {
        self.0.store(state.to_u8(), ordering);
    }

    /// Moves from `from` to `to` if the state is `from`; otherwise returns
    /// the state found, read from a byte other than `from`'s (which other
    /// thread wrote it is not known here).
    pub fn transition(&self, from: PlayerState, to: PlayerState) -> (r: Result<(), PlayerState>)
        ensures
            r is Err ==> exists|v: u8| v != state_code(from) && r == Err::<(), PlayerState>(state_of_code(v)),
    {
        match compare_exchange_acq_rel(&self.0, from.to_u8(), to.to_u8()) {
            Ok(_) => Ok(()),
            Err(v) => Err(PlayerState::from_u8(v)),
        }
    }
}

} // verus!
