use vstd::prelude::*;

verus! {

/// The state of an element.
#[derive(Debug, Eq, PartialEq, Structural, Hash, Clone, Copy)]
pub enum State {
    VoidPending,
    Null,
    Ready,
    Paused,
    Playing,
    __Unknown(i32),
}

/// The C value of a state.
pub open spec fn state_to_raw(s: State) -> i32 {
    match s {
        State::VoidPending => 0,
        State::Null => 1,
        State::Ready => 2,
        State::Paused => 3,
        State::Playing => 4,
        State::__Unknown(v) => v,
    }
}

/// The state of a C value; values of no known state are kept.
pub open spec fn state_from_raw(v: i32) -> State {
    if v == 0 {
        State::VoidPending
    } else if v == 1 {
        State::Null
    } else if v == 2 {
        State::Ready
    } else if v == 3 {
        State::Paused
    } else if v == 4 {
        State::Playing
    } else {
        State::__Unknown(v)
    }
}

/// The sign of an integer: `1`, `0` or `-1`.
pub open spec fn sign_of(v: int) -> int {
    if v > 0 {
        1
    } else if v < 0 {
        -1
    } else {
        0
    }
}

/// The state one step from `current` towards `pending`.
pub open spec fn next_state(current: State, pending: State) -> State {
    let c = state_to_raw(current) as int;
    let p = state_to_raw(pending) as int;
    state_from_raw((c + sign_of(p - c)) as i32)
}

impl State {
    /// Returns the C value of the state.
    pub fn into_glib(self) -> (r: i32)
        ensures
            r == state_to_raw(self),
    {
        match self {
            State::VoidPending => 0,
            State::Null => 1,
            State::Ready => 2,
            State::Paused => 3,
            State::Playing => 4,
            State::__Unknown(v) => v,
        }
    }

    /// Returns the state of a C value; values of no known state are kept in
    /// `__Unknown`.
    pub fn from_glib(value: i32) -> (r: State)
        ensures
            r == state_from_raw(value),
    {
        if value == 0 {
            State::VoidPending
        } else if value == 1 {
            State::Null
        } else if value == 2 {
            State::Ready
        } else if value == 3 {
            State::Paused
        } else if value == 4 {
            State::Playing
        } else {
            State::__Unknown(value)
        }
    }

    /// Returns the state one step from `self` towards `pending`: `self`
    /// itself when they are equal. The C values must be such that their
    /// difference, and the next value, fit in an `i32`.
    pub fn next(self, pending: State) -> (r: State)
        requires
            i32::MIN <= state_to_raw(pending) - state_to_raw(self) <= i32::MAX,
            i32::MIN <= state_to_raw(self) + sign_of(state_to_raw(pending) - state_to_raw(self))
                <= i32::MAX,
        ensures
            r == next_state(self, pending),
    {
        let current = self.into_glib();
        let pending = pending.into_glib();
        let diff = pending - current;
        let sign: i32 = if diff > 0 {
            1
        } else if diff < 0 {
            -1
        } else {
            0
        };
        State::from_glib(current + sign)
    }
}

/// The next state from a known state towards a known state is that state
/// itself when they are equal, otherwise the adjacent state in the
/// direction of the pending one.
pub proof fn lemma_next_state_moves_towards(current: State, pending: State)
    requires
        !(current is __Unknown),
        !(pending is __Unknown),
    ensures
        current == pending ==> next_state(current, pending) == current,
        current != pending ==> {
            let n = state_to_raw(next_state(current, pending)) as int;
            let c = state_to_raw(current) as int;
            let p = state_to_raw(pending) as int;
            (c < p ==> n == c + 1) && (c > p ==> n == c - 1)
        },
{
}

/// A transition between two states.
#[derive(Debug, Eq, PartialEq, Structural, Hash, Clone, Copy)]
pub enum StateChange {
    NullToReady,
    ReadyToPaused,
    PausedToPlaying,
    PlayingToPaused,
    PausedToReady,
    ReadyToNull,
    NullToNull,
    ReadyToReady,
    PausedToPaused,
    PlayingToPlaying,
    __Unknown(i32),
}

/// The C value of a state change: the current state in the bits above the
/// third one, the next state in the low three bits.
pub open spec fn state_change_to_raw(s: StateChange) -> i32 {
    match s {
        StateChange::NullToReady => 10,
        StateChange::ReadyToPaused => 19,
        StateChange::PausedToPlaying => 28,
        StateChange::PlayingToPaused => 35,
        StateChange::PausedToReady => 26,
        StateChange::ReadyToNull => 17,
        StateChange::NullToNull => 9,
        StateChange::ReadyToReady => 18,
        StateChange::PausedToPaused => 27,
        StateChange::PlayingToPlaying => 36,
        StateChange::__Unknown(v) => v,
    }
}

/// The state change of a C value; values of no known change are kept.
pub open spec fn state_change_from_raw(v: i32) -> StateChange {
    if v == 10 {
        StateChange::NullToReady
    } else if v == 19 {
        StateChange::ReadyToPaused
    } else if v == 28 {
        StateChange::PausedToPlaying
    } else if v == 35 {
        StateChange::PlayingToPaused
    } else if v == 26 {
        StateChange::PausedToReady
    } else if v == 17 {
        StateChange::ReadyToNull
    } else if v == 9 {
        StateChange::NullToNull
    } else if v == 18 {
        StateChange::ReadyToReady
    } else if v == 27 {
        StateChange::PausedToPaused
    } else if v == 36 {
        StateChange::PlayingToPlaying
    } else {
        StateChange::__Unknown(v)
    }
}

impl StateChange {
    /// Returns the C value of the state change.
    pub fn into_glib(self) -> (r: i32)
        ensures
            r == state_change_to_raw(self),
    {
        match self {
            StateChange::NullToReady => 10,
            StateChange::ReadyToPaused => 19,
            StateChange::PausedToPlaying => 28,
            StateChange::PlayingToPaused => 35,
            StateChange::PausedToReady => 26,
            StateChange::ReadyToNull => 17,
            StateChange::NullToNull => 9,
            StateChange::ReadyToReady => 18,
            StateChange::PausedToPaused => 27,
            StateChange::PlayingToPlaying => 36,
            StateChange::__Unknown(v) => v,
        }
    }

    /// Returns the state change of a C value; values of no known change are
    /// kept in `__Unknown`.
    pub fn from_glib(value: i32) -> (r: StateChange)
        ensures
            r == state_change_from_raw(value),
    {
        if value == 10 {
            StateChange::NullToReady
        } else if value == 19 {
            StateChange::ReadyToPaused
        } else if value == 28 {
            StateChange::PausedToPlaying
        } else if value == 35 {
            StateChange::PlayingToPaused
        } else if value == 26 {
            StateChange::PausedToReady
        } else if value == 17 {
            StateChange::ReadyToNull
        } else if value == 9 {
            StateChange::NullToNull
        } else if value == 18 {
            StateChange::ReadyToReady
        } else if value == 27 {
            StateChange::PausedToPaused
        } else if value == 36 {
            StateChange::PlayingToPlaying
        } else {
            StateChange::__Unknown(value)
        }
    }

    /// Returns the change from `current` to `next`, whose C value is the
    /// current state shifted above the third bit, with the next state in the
    /// low bits.
    pub fn new(current: State, next: State) -> (r: StateChange)
        ensures
            r == state_change_from_raw(
                (state_to_raw(current) << 3u32) | state_to_raw(next),
            ),
    {
        let c = current.into_glib();
        let n = next.into_glib();
        StateChange::from_glib((c << 3u32) | n)
    }

    /// Returns the state the change starts from.
    pub fn current(self) -> (r: State)
        ensures
            r == state_from_raw(state_change_to_raw(self) >> 3u32),
    {
        State::from_glib(self.into_glib() >> 3u32)
    }

    /// Returns the state the change goes to.
    pub fn next(self) -> (r: State)
        ensures
            r == state_from_raw(state_change_to_raw(self) & 7),
    {
        State::from_glib(self.into_glib() & 7)
    }
}

/// The change between two known states starts from the first and goes to
/// the second.
pub proof fn lemma_state_change_parts(c: i32, n: i32)
    requires
        0 <= c <= 4,
        0 <= n <= 4,
    ensures
        ((c << 3u32) | n) >> 3u32 == c,
        ((c << 3u32) | n) & 7 == n,
{
    assert(((c << 3u32) | n) >> 3u32 == c && ((c << 3u32) | n) & 7 == n) by (bit_vector)
        requires
            0 <= c <= 4,
            0 <= n <= 4,
    ;
}

/// Every C value is given back by the state read from it.
pub proof fn lemma_state_raw_roundtrip(v: i32)
    ensures
        state_to_raw(state_from_raw(v)) == v,
{
}

/// A state is given back by reading its C value, unless it is an
/// unknown value that holds the C value of a known one.
pub proof fn lemma_state_value_roundtrip(t: State)
    requires
        t matches State::__Unknown(v) ==> state_from_raw(v) is __Unknown,
    ensures
        state_from_raw(state_to_raw(t)) == t,
{
}

/// Every C value is given back by the state change read from it.
pub proof fn lemma_state_change_raw_roundtrip(v: i32)
    ensures
        state_change_to_raw(state_change_from_raw(v)) == v,
{
}

/// A state change is given back by reading its C value, unless it is an
/// unknown value that holds the C value of a known one.
pub proof fn lemma_state_change_value_roundtrip(t: StateChange)
    requires
        t matches StateChange::__Unknown(v) ==> state_change_from_raw(v) is __Unknown,
    ensures
        state_change_from_raw(state_change_to_raw(t)) == t,
{
}


/// The C values of the known states are those of GStreamer's C
/// headers, and each is read back as its own state.
pub proof fn lemma_state_c_values()
    ensures
        state_to_raw(State::VoidPending) == 0,
        state_from_raw(0) == State::VoidPending,
        state_to_raw(State::Null) == 1,
        state_from_raw(1) == State::Null,
        state_to_raw(State::Ready) == 2,
        state_from_raw(2) == State::Ready,
        state_to_raw(State::Paused) == 3,
        state_from_raw(3) == State::Paused,
        state_to_raw(State::Playing) == 4,
        state_from_raw(4) == State::Playing,
{
}


/// The C values of the known state changes are those of GStreamer's C
/// headers, and each is read back as its own state change.
pub proof fn lemma_state_change_c_values()
    ensures
        state_change_to_raw(StateChange::NullToReady) == 10,
        state_change_from_raw(10) == StateChange::NullToReady,
        state_change_to_raw(StateChange::ReadyToPaused) == 19,
        state_change_from_raw(19) == StateChange::ReadyToPaused,
        state_change_to_raw(StateChange::PausedToPlaying) == 28,
        state_change_from_raw(28) == StateChange::PausedToPlaying,
        state_change_to_raw(StateChange::PlayingToPaused) == 35,
        state_change_from_raw(35) == StateChange::PlayingToPaused,
        state_change_to_raw(StateChange::PausedToReady) == 26,
        state_change_from_raw(26) == StateChange::PausedToReady,
        state_change_to_raw(StateChange::ReadyToNull) == 17,
        state_change_from_raw(17) == StateChange::ReadyToNull,
        state_change_to_raw(StateChange::NullToNull) == 9,
        state_change_from_raw(9) == StateChange::NullToNull,
        state_change_to_raw(StateChange::ReadyToReady) == 18,
        state_change_from_raw(18) == StateChange::ReadyToReady,
        state_change_to_raw(StateChange::PausedToPaused) == 27,
        state_change_from_raw(27) == StateChange::PausedToPaused,
        state_change_to_raw(StateChange::PlayingToPlaying) == 36,
        state_change_from_raw(36) == StateChange::PlayingToPlaying,
{
}

} // verus!
