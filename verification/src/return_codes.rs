use vstd::prelude::*;

verus! {

/// The result of passing data to a pad.
#[derive(Debug, Eq, PartialEq, Structural, Hash, Clone, Copy)]
pub enum FlowReturn {
    CustomSuccess2,
    CustomSuccess1,
    CustomSuccess,
    Okay,
    NotLinked,
    Flushing,
    Eos,
    NotNegotiated,
    Error,
    NotSupported,
    CustomError,
    CustomError1,
    CustomError2,
}

/// The C value of a flow return.
pub open spec fn flow_return_to_raw(v: FlowReturn) -> i32 {
    match v {
        FlowReturn::CustomSuccess2 => 102i32,
        FlowReturn::CustomSuccess1 => 101i32,
        FlowReturn::CustomSuccess => 100i32,
        FlowReturn::Okay => 0i32,
        FlowReturn::NotLinked => -1i32,
        FlowReturn::Flushing => -2i32,
        FlowReturn::Eos => -3i32,
        FlowReturn::NotNegotiated => -4i32,
        FlowReturn::Error => -5i32,
        FlowReturn::NotSupported => -6i32,
        FlowReturn::CustomError => -100i32,
        FlowReturn::CustomError1 => -101i32,
        FlowReturn::CustomError2 => -102i32,
    }
}

/// The flow return of a C value: unknown error codes are errors, unknown
/// success codes are successes.
pub open spec fn flow_return_from_raw(value: i32) -> FlowReturn {
    if value < -6 && (value > -100 || value < -102) {
        FlowReturn::Error
    } else if value > 0 && (value < 100 || value > 102) {
        FlowReturn::Okay
    } else {
        if value == 102i32 {
            FlowReturn::CustomSuccess2
        } else if value == 101i32 {
            FlowReturn::CustomSuccess1
        } else if value == 100i32 {
            FlowReturn::CustomSuccess
        } else if value == 0i32 {
            FlowReturn::Okay
        } else if value == -1i32 {
            FlowReturn::NotLinked
        } else if value == -2i32 {
            FlowReturn::Flushing
        } else if value == -3i32 {
            FlowReturn::Eos
        } else if value == -4i32 {
            FlowReturn::NotNegotiated
        } else if value == -5i32 {
            FlowReturn::Error
        } else if value == -6i32 {
            FlowReturn::NotSupported
        } else if value == -100i32 {
            FlowReturn::CustomError
        } else if value == -101i32 {
            FlowReturn::CustomError1
        } else {
            FlowReturn::CustomError2
        }
    }
}

/// The successful flow returns.
#[derive(Debug, Eq, PartialEq, Structural, Hash, Clone, Copy)]
pub enum FlowSuccess {
    CustomSuccess2,
    CustomSuccess1,
    CustomSuccess,
    Okay,
}

/// The failed flow returns.
#[derive(Debug, Eq, PartialEq, Structural, Hash, Clone, Copy)]
pub enum FlowError {
    NotLinked,
    Flushing,
    Eos,
    NotNegotiated,
    Error,
    NotSupported,
    CustomError,
    CustomError1,
    CustomError2,
}

/// The flow return of a success.
pub open spec fn flow_success_to_return(v: FlowSuccess) -> FlowReturn {
    match v {
        FlowSuccess::CustomSuccess2 => FlowReturn::CustomSuccess2,
        FlowSuccess::CustomSuccess1 => FlowReturn::CustomSuccess1,
        FlowSuccess::CustomSuccess => FlowReturn::CustomSuccess,
        FlowSuccess::Okay => FlowReturn::Okay,
    }
}

/// The flow return of an error.
pub open spec fn flow_error_to_return(v: FlowError) -> FlowReturn {
    match v {
        FlowError::NotLinked => FlowReturn::NotLinked,
        FlowError::Flushing => FlowReturn::Flushing,
        FlowError::Eos => FlowReturn::Eos,
        FlowError::NotNegotiated => FlowReturn::NotNegotiated,
        FlowError::Error => FlowReturn::Error,
        FlowError::NotSupported => FlowReturn::NotSupported,
        FlowError::CustomError => FlowReturn::CustomError,
        FlowError::CustomError1 => FlowReturn::CustomError1,
        FlowError::CustomError2 => FlowReturn::CustomError2,
    }
}

/// The result of a flow return: `Ok` for the success codes, `Err` for the
/// error codes.
pub open spec fn flow_return_into_result(v: FlowReturn) -> Result<FlowSuccess, FlowError> {
    match v {
        FlowReturn::CustomSuccess2 => Ok(FlowSuccess::CustomSuccess2),
        FlowReturn::CustomSuccess1 => Ok(FlowSuccess::CustomSuccess1),
        FlowReturn::CustomSuccess => Ok(FlowSuccess::CustomSuccess),
        FlowReturn::Okay => Ok(FlowSuccess::Okay),
        FlowReturn::NotLinked => Err(FlowError::NotLinked),
        FlowReturn::Flushing => Err(FlowError::Flushing),
        FlowReturn::Eos => Err(FlowError::Eos),
        FlowReturn::NotNegotiated => Err(FlowError::NotNegotiated),
        FlowReturn::Error => Err(FlowError::Error),
        FlowReturn::NotSupported => Err(FlowError::NotSupported),
        FlowReturn::CustomError => Err(FlowError::CustomError),
        FlowReturn::CustomError1 => Err(FlowError::CustomError1),
        FlowReturn::CustomError2 => Err(FlowError::CustomError2),
    }
}

impl FlowReturn {
    /// Returns the C value.
    pub fn into_glib(self) -> (r: i32)
        ensures
            r == flow_return_to_raw(self),
    {
        match self {
            FlowReturn::CustomSuccess2 => 102i32,
            FlowReturn::CustomSuccess1 => 101i32,
            FlowReturn::CustomSuccess => 100i32,
            FlowReturn::Okay => 0i32,
            FlowReturn::NotLinked => -1i32,
            FlowReturn::Flushing => -2i32,
            FlowReturn::Eos => -3i32,
            FlowReturn::NotNegotiated => -4i32,
            FlowReturn::Error => -5i32,
            FlowReturn::NotSupported => -6i32,
            FlowReturn::CustomError => -100i32,
            FlowReturn::CustomError1 => -101i32,
            FlowReturn::CustomError2 => -102i32,
        }
    }

    /// Returns the flow return of a C value: unknown error codes become
    /// [`FlowReturn::Error`] and unknown success codes [`FlowReturn::Okay`].
    pub fn from_glib(value: i32) -> (r: FlowReturn)
        ensures
            r == flow_return_from_raw(value),
    {
        if value < -6 && (value > -100 || value < -102) {
            FlowReturn::Error
        } else if value > 0 && (value < 100 || value > 102) {
            FlowReturn::Okay
        } else {
            if value == 102i32 {
                FlowReturn::CustomSuccess2
            } else if value == 101i32 {
                FlowReturn::CustomSuccess1
            } else if value == 100i32 {
                FlowReturn::CustomSuccess
            } else if value == 0i32 {
                FlowReturn::Okay
            } else if value == -1i32 {
                FlowReturn::NotLinked
            } else if value == -2i32 {
                FlowReturn::Flushing
            } else if value == -3i32 {
                FlowReturn::Eos
            } else if value == -4i32 {
                FlowReturn::NotNegotiated
            } else if value == -5i32 {
                FlowReturn::Error
            } else if value == -6i32 {
                FlowReturn::NotSupported
            } else if value == -100i32 {
                FlowReturn::CustomError
            } else if value == -101i32 {
                FlowReturn::CustomError1
            } else {
                FlowReturn::CustomError2
            }
        }
    }

    /// Returns `Ok` for the success codes (C values of zero and above),
    /// `Err` for the error codes.
    pub fn into_result(self) -> (r: Result<FlowSuccess, FlowError>)
        ensures
            r == flow_return_into_result(self),
            r is Ok <==> flow_return_to_raw(self) >= 0,
    {
        match self {
            FlowReturn::CustomSuccess2 => Ok(FlowSuccess::CustomSuccess2),
            FlowReturn::CustomSuccess1 => Ok(FlowSuccess::CustomSuccess1),
            FlowReturn::CustomSuccess => Ok(FlowSuccess::CustomSuccess),
            FlowReturn::Okay => Ok(FlowSuccess::Okay),
            FlowReturn::NotLinked => Err(FlowError::NotLinked),
            FlowReturn::Flushing => Err(FlowError::Flushing),
            FlowReturn::Eos => Err(FlowError::Eos),
            FlowReturn::NotNegotiated => Err(FlowError::NotNegotiated),
            FlowReturn::Error => Err(FlowError::Error),
            FlowReturn::NotSupported => Err(FlowError::NotSupported),
            FlowReturn::CustomError => Err(FlowError::CustomError),
            FlowReturn::CustomError1 => Err(FlowError::CustomError1),
            FlowReturn::CustomError2 => Err(FlowError::CustomError2),
        }
    }

    /// Returns the flow return of an error.
    pub fn from_error(v: FlowError) -> (r: FlowReturn)
        ensures
            r == flow_error_to_return(v),
    {
        match v {
            FlowError::NotLinked => FlowReturn::NotLinked,
            FlowError::Flushing => FlowReturn::Flushing,
            FlowError::Eos => FlowReturn::Eos,
            FlowError::NotNegotiated => FlowReturn::NotNegotiated,
            FlowError::Error => FlowReturn::Error,
            FlowError::NotSupported => FlowReturn::NotSupported,
            FlowError::CustomError => FlowReturn::CustomError,
            FlowError::CustomError1 => FlowReturn::CustomError1,
            FlowError::CustomError2 => FlowReturn::CustomError2,
        }
    }

    /// Returns the flow return of a success.
    pub fn from_ok(v: FlowSuccess) -> (r: FlowReturn)
        ensures
            r == flow_success_to_return(v),
    {
        match v {
            FlowSuccess::CustomSuccess2 => FlowReturn::CustomSuccess2,
            FlowSuccess::CustomSuccess1 => FlowReturn::CustomSuccess1,
            FlowSuccess::CustomSuccess => FlowReturn::CustomSuccess,
            FlowSuccess::Okay => FlowReturn::Okay,
        }
    }

    /// Returns the flow return of a result.
    pub fn from_result(res: Result<FlowSuccess, FlowError>) -> (r: FlowReturn)
        ensures
            r == (match res {
                Ok(s) => flow_success_to_return(s),
                Err(e) => flow_error_to_return(e),
            }),
    {
        match res {
            Ok(s) => FlowReturn::from_ok(s),
            Err(e) => FlowReturn::from_error(e),
        }
    }
}

/// The C value of a known flow return is read back as that flow return.
pub proof fn lemma_flow_return_roundtrip(v: FlowReturn)
    ensures
        flow_return_from_raw(flow_return_to_raw(v)) == v,
{
}

/// The result of linking two pads.
#[derive(Debug, Eq, PartialEq, Structural, Hash, Clone, Copy)]
pub enum PadLinkReturn {
    Okay,
    WrongHierarchy,
    WasLinked,
    WrongDirection,
    Noformat,
    Nosched,
    Refused,
}

/// The C value of a pad link return.
pub open spec fn pad_link_return_to_raw(v: PadLinkReturn) -> i32 {
    match v {
        PadLinkReturn::Okay => 0i32,
        PadLinkReturn::WrongHierarchy => -1i32,
        PadLinkReturn::WasLinked => -2i32,
        PadLinkReturn::WrongDirection => -3i32,
        PadLinkReturn::Noformat => -4i32,
        PadLinkReturn::Nosched => -5i32,
        PadLinkReturn::Refused => -6i32,
    }
}

/// The pad link return of a C value: zero and above is success, unknown
/// error codes are refusals.
pub open spec fn pad_link_return_from_raw(value: i32) -> PadLinkReturn {
    if value >= 0 {
        PadLinkReturn::Okay
    } else if value < -6 {
        PadLinkReturn::Refused
    } else {
        if value == -1i32 {
            PadLinkReturn::WrongHierarchy
        } else if value == -2i32 {
            PadLinkReturn::WasLinked
        } else if value == -3i32 {
            PadLinkReturn::WrongDirection
        } else if value == -4i32 {
            PadLinkReturn::Noformat
        } else if value == -5i32 {
            PadLinkReturn::Nosched
        } else {
            PadLinkReturn::Refused
        }
    }
}

/// A successful pad link.
#[derive(Clone, Copy, Debug, Eq, PartialEq, Structural, Hash)]
pub struct PadLinkSuccess;

/// The failed pad links.
#[derive(Debug, Eq, PartialEq, Structural, Hash, Clone, Copy)]
pub enum PadLinkError {
    WrongHierarchy,
    WasLinked,
    WrongDirection,
    Noformat,
    Nosched,
    Refused,
}

/// The pad link return of an error.
pub open spec fn pad_link_error_to_return(v: PadLinkError) -> PadLinkReturn {
    match v {
        PadLinkError::WrongHierarchy => PadLinkReturn::WrongHierarchy,
        PadLinkError::WasLinked => PadLinkReturn::WasLinked,
        PadLinkError::WrongDirection => PadLinkReturn::WrongDirection,
        PadLinkError::Noformat => PadLinkReturn::Noformat,
        PadLinkError::Nosched => PadLinkReturn::Nosched,
        PadLinkError::Refused => PadLinkReturn::Refused,
    }
}

/// The result of a pad link return: `Ok` for a successful link, `Err`
/// with the matching error otherwise.
pub open spec fn pad_link_return_into_result(v: PadLinkReturn) -> Result<PadLinkSuccess, PadLinkError> {
    match v {
        PadLinkReturn::Okay => Ok(PadLinkSuccess),
        PadLinkReturn::WrongHierarchy => Err(PadLinkError::WrongHierarchy),
        PadLinkReturn::WasLinked => Err(PadLinkError::WasLinked),
        PadLinkReturn::WrongDirection => Err(PadLinkError::WrongDirection),
        PadLinkReturn::Noformat => Err(PadLinkError::Noformat),
        PadLinkReturn::Nosched => Err(PadLinkError::Nosched),
        PadLinkReturn::Refused => Err(PadLinkError::Refused),
    }
}

impl PadLinkReturn {
    /// Returns the C value.
    pub fn into_glib(self) -> (r: i32)
        ensures
            r == pad_link_return_to_raw(self),
    {
        match self {
            PadLinkReturn::Okay => 0i32,
            PadLinkReturn::WrongHierarchy => -1i32,
            PadLinkReturn::WasLinked => -2i32,
            PadLinkReturn::WrongDirection => -3i32,
            PadLinkReturn::Noformat => -4i32,
            PadLinkReturn::Nosched => -5i32,
            PadLinkReturn::Refused => -6i32,
        }
    }

    /// Returns the pad link return of a C value: zero and above is
    /// [`PadLinkReturn::Okay`], unknown error codes are
    /// [`PadLinkReturn::Refused`].
    pub fn from_glib(value: i32) -> (r: PadLinkReturn)
        ensures
            r == pad_link_return_from_raw(value),
    {
        if value >= 0 {
            PadLinkReturn::Okay
        } else if value < -6 {
            PadLinkReturn::Refused
        } else {
            if value == -1i32 {
                PadLinkReturn::WrongHierarchy
            } else if value == -2i32 {
                PadLinkReturn::WasLinked
            } else if value == -3i32 {
                PadLinkReturn::WrongDirection
            } else if value == -4i32 {
                PadLinkReturn::Noformat
            } else if value == -5i32 {
                PadLinkReturn::Nosched
            } else {
                PadLinkReturn::Refused
            }
        }
    }

    /// Returns `Ok` for a successful link, `Err` otherwise.
    pub fn into_result(self) -> (r: Result<PadLinkSuccess, PadLinkError>)
        ensures
            r == pad_link_return_into_result(self),
    {
        match self {
            PadLinkReturn::Okay => Ok(PadLinkSuccess),
            PadLinkReturn::WrongHierarchy => Err(PadLinkError::WrongHierarchy),
            PadLinkReturn::WasLinked => Err(PadLinkError::WasLinked),
            PadLinkReturn::WrongDirection => Err(PadLinkError::WrongDirection),
            PadLinkReturn::Noformat => Err(PadLinkError::Noformat),
            PadLinkReturn::Nosched => Err(PadLinkError::Nosched),
            PadLinkReturn::Refused => Err(PadLinkError::Refused),
        }
    }

    /// Returns the pad link return of an error.
    pub fn from_error(v: PadLinkError) -> (r: PadLinkReturn)
        ensures
            r == pad_link_error_to_return(v),
    {
        match v {
            PadLinkError::WrongHierarchy => PadLinkReturn::WrongHierarchy,
            PadLinkError::WasLinked => PadLinkReturn::WasLinked,
            PadLinkError::WrongDirection => PadLinkReturn::WrongDirection,
            PadLinkError::Noformat => PadLinkReturn::Noformat,
            PadLinkError::Nosched => PadLinkReturn::Nosched,
            PadLinkError::Refused => PadLinkReturn::Refused,
        }
    }

    /// Returns the pad link return of a success.
    pub fn from_ok(v: PadLinkSuccess) -> (r: PadLinkReturn)
        ensures
            r == PadLinkReturn::Okay,
    {
        PadLinkReturn::Okay
    }
}

/// The C value of a pad link return is read back as that return.
pub proof fn lemma_pad_link_return_roundtrip(v: PadLinkReturn)
    ensures
        pad_link_return_from_raw(pad_link_return_to_raw(v)) == v,
{
}

/// The result of a state change.
#[derive(Debug, Eq, PartialEq, Structural, Hash, Clone, Copy)]
pub enum StateChangeReturn {
    Failure,
    Success,
    Async,
    NoPreroll,
}

/// The successful state changes.
#[derive(Debug, Eq, PartialEq, Structural, Hash, Clone, Copy)]
pub enum StateChangeSuccess {
    Success,
    Async,
    NoPreroll,
}

/// The error of a failed state change.
#[derive(Clone, Copy, Debug, Eq, PartialEq, Structural, Hash)]
pub struct StateChangeError;

/// The state change return of a success.
pub open spec fn state_change_success_to_return(v: StateChangeSuccess) -> StateChangeReturn {
    match v {
        StateChangeSuccess::Success => StateChangeReturn::Success,
        StateChangeSuccess::Async => StateChangeReturn::Async,
        StateChangeSuccess::NoPreroll => StateChangeReturn::NoPreroll,
    }
}

impl StateChangeReturn {
    /// Returns `Err` for a failure, `Ok` otherwise.
    pub fn into_result(self) -> (r: Result<StateChangeSuccess, StateChangeError>)
        ensures
            r is Err <==> self == StateChangeReturn::Failure,
            r matches Ok(s) ==> state_change_success_to_return(s) == self,
    {
        match self {
            StateChangeReturn::Failure => Err(StateChangeError),
            StateChangeReturn::Success => Ok(StateChangeSuccess::Success),
            StateChangeReturn::Async => Ok(StateChangeSuccess::Async),
            StateChangeReturn::NoPreroll => Ok(StateChangeSuccess::NoPreroll),
        }
    }

    /// Returns the state change return of an error: a failure.
    pub fn from_error(v: StateChangeError) -> (r: StateChangeReturn)
        ensures
            r == StateChangeReturn::Failure,
    {
        StateChangeReturn::Failure
    }

    /// Returns the state change return of a success.
    pub fn from_ok(v: StateChangeSuccess) -> (r: StateChangeReturn)
        ensures
            r == state_change_success_to_return(v),
    {
        match v {
            StateChangeSuccess::Success => StateChangeReturn::Success,
            StateChangeSuccess::Async => StateChangeReturn::Async,
            StateChangeSuccess::NoPreroll => StateChangeReturn::NoPreroll,
        }
    }
}

/// The result of a clock operation.
#[derive(Debug, Eq, PartialEq, Structural, Hash, Clone, Copy)]
pub enum ClockReturn {
    Okay,
    Early,
    Unscheduled,
    Busy,
    Badtime,
    Error,
    Unsupported,
    Done,
}

/// The successful clock operations.
#[derive(Debug, Eq, PartialEq, Structural, Hash, Clone, Copy)]
pub enum ClockSuccess {
    Okay,
    Done,
}

/// The failed clock operations.
#[derive(Debug, Eq, PartialEq, Structural, Hash, Clone, Copy)]
pub enum ClockError {
    Early,
    Unscheduled,
    Busy,
    Badtime,
    Error,
    Unsupported,
}

/// The clock return of a success.
pub open spec fn clock_success_to_return(v: ClockSuccess) -> ClockReturn {
    match v {
        ClockSuccess::Okay => ClockReturn::Okay,
        ClockSuccess::Done => ClockReturn::Done,
    }
}

/// The clock return of an error.
pub open spec fn clock_error_to_return(v: ClockError) -> ClockReturn {
    match v {
        ClockError::Early => ClockReturn::Early,
        ClockError::Unscheduled => ClockReturn::Unscheduled,
        ClockError::Busy => ClockReturn::Busy,
        ClockError::Badtime => ClockReturn::Badtime,
        ClockError::Error => ClockReturn::Error,
        ClockError::Unsupported => ClockReturn::Unsupported,
    }
}

/// The result of a clock return: `Ok` for [`ClockReturn::Okay`] and
/// [`ClockReturn::Done`], `Err` with the matching error otherwise.
pub open spec fn clock_return_into_result(v: ClockReturn) -> Result<ClockSuccess, ClockError> {
    match v {
        ClockReturn::Okay => Ok(ClockSuccess::Okay),
        ClockReturn::Done => Ok(ClockSuccess::Done),
        ClockReturn::Early => Err(ClockError::Early),
        ClockReturn::Unscheduled => Err(ClockError::Unscheduled),
        ClockReturn::Busy => Err(ClockError::Busy),
        ClockReturn::Badtime => Err(ClockError::Badtime),
        ClockReturn::Error => Err(ClockError::Error),
        ClockReturn::Unsupported => Err(ClockError::Unsupported),
    }
}

impl ClockReturn {
    /// Returns `Ok` for [`ClockReturn::Okay`] and [`ClockReturn::Done`], `Err`
    /// otherwise.
    pub fn into_result(self) -> (r: Result<ClockSuccess, ClockError>)
        ensures
            r == clock_return_into_result(self),
    {
        match self {
            ClockReturn::Okay => Ok(ClockSuccess::Okay),
            ClockReturn::Done => Ok(ClockSuccess::Done),
            ClockReturn::Early => Err(ClockError::Early),
            ClockReturn::Unscheduled => Err(ClockError::Unscheduled),
            ClockReturn::Busy => Err(ClockError::Busy),
            ClockReturn::Badtime => Err(ClockError::Badtime),
            ClockReturn::Error => Err(ClockError::Error),
            ClockReturn::Unsupported => Err(ClockError::Unsupported),
        }
    }

    /// Returns the clock return of an error.
    pub fn from_error(v: ClockError) -> (r: ClockReturn)
        ensures
            r == clock_error_to_return(v),
    {
        match v {
            ClockError::Early => ClockReturn::Early,
            ClockError::Unscheduled => ClockReturn::Unscheduled,
            ClockError::Busy => ClockReturn::Busy,
            ClockError::Badtime => ClockReturn::Badtime,
            ClockError::Error => ClockReturn::Error,
            ClockError::Unsupported => ClockReturn::Unsupported,
        }
    }

    /// Returns the clock return of a success.
    pub fn from_ok(v: ClockSuccess) -> (r: ClockReturn)
        ensures
            r == clock_success_to_return(v),
    {
        match v {
            ClockSuccess::Okay => ClockReturn::Okay,
            ClockSuccess::Done => ClockReturn::Done,
        }
    }
}

/// A success or an error turned into a flow return gives it back as a
/// result.
pub proof fn lemma_flow_result_roundtrip(res: Result<FlowSuccess, FlowError>)
    ensures
        flow_return_into_result(
            match res {
                Ok(s) => flow_success_to_return(s),
                Err(e) => flow_error_to_return(e),
            },
        ) == res,
{
}

/// A success or an error turned into a pad link return gives back the
/// same kind of result, with the same error.
pub proof fn lemma_pad_link_error_roundtrip(e: PadLinkError)
    ensures
        pad_link_return_into_result(pad_link_error_to_return(e)) == Err::<PadLinkSuccess, PadLinkError>(e),
        pad_link_return_into_result(PadLinkReturn::Okay) == Ok::<PadLinkSuccess, PadLinkError>(PadLinkSuccess),
{
}

/// A success or an error turned into a clock return gives it back as a
/// result.
pub proof fn lemma_clock_result_roundtrip(res: Result<ClockSuccess, ClockError>)
    ensures
        clock_return_into_result(
            match res {
                Ok(s) => clock_success_to_return(s),
                Err(e) => clock_error_to_return(e),
            },
        ) == res,
{
}

/// The error of a tag whose value type does not match the tag.
#[derive(Clone, Copy, Debug, Eq, PartialEq, Structural, Hash)]
pub enum TagError {
    TypeMismatch,
}


/// The C values of the known flow returns are those of GStreamer's C
/// headers, and each is read back as its own flow return.
pub proof fn lemma_flow_return_c_values()
    ensures
        flow_return_to_raw(FlowReturn::CustomSuccess2) == 102i32,
        flow_return_from_raw(102i32) == FlowReturn::CustomSuccess2,
        flow_return_to_raw(FlowReturn::CustomSuccess1) == 101i32,
        flow_return_from_raw(101i32) == FlowReturn::CustomSuccess1,
        flow_return_to_raw(FlowReturn::CustomSuccess) == 100i32,
        flow_return_from_raw(100i32) == FlowReturn::CustomSuccess,
        flow_return_to_raw(FlowReturn::Okay) == 0i32,
        flow_return_from_raw(0i32) == FlowReturn::Okay,
        flow_return_to_raw(FlowReturn::NotLinked) == -1i32,
        flow_return_from_raw(-1i32) == FlowReturn::NotLinked,
        flow_return_to_raw(FlowReturn::Flushing) == -2i32,
        flow_return_from_raw(-2i32) == FlowReturn::Flushing,
        flow_return_to_raw(FlowReturn::Eos) == -3i32,
        flow_return_from_raw(-3i32) == FlowReturn::Eos,
        flow_return_to_raw(FlowReturn::NotNegotiated) == -4i32,
        flow_return_from_raw(-4i32) == FlowReturn::NotNegotiated,
        flow_return_to_raw(FlowReturn::Error) == -5i32,
        flow_return_from_raw(-5i32) == FlowReturn::Error,
        flow_return_to_raw(FlowReturn::NotSupported) == -6i32,
        flow_return_from_raw(-6i32) == FlowReturn::NotSupported,
        flow_return_to_raw(FlowReturn::CustomError) == -100i32,
        flow_return_from_raw(-100i32) == FlowReturn::CustomError,
        flow_return_to_raw(FlowReturn::CustomError1) == -101i32,
        flow_return_from_raw(-101i32) == FlowReturn::CustomError1,
        flow_return_to_raw(FlowReturn::CustomError2) == -102i32,
        flow_return_from_raw(-102i32) == FlowReturn::CustomError2,
{
}


/// The C values of the known pad link returns are those of GStreamer's C
/// headers, and each is read back as its own pad link return.
pub proof fn lemma_pad_link_return_c_values()
    ensures
        pad_link_return_to_raw(PadLinkReturn::Okay) == 0i32,
        pad_link_return_from_raw(0i32) == PadLinkReturn::Okay,
        pad_link_return_to_raw(PadLinkReturn::WrongHierarchy) == -1i32,
        pad_link_return_from_raw(-1i32) == PadLinkReturn::WrongHierarchy,
        pad_link_return_to_raw(PadLinkReturn::WasLinked) == -2i32,
        pad_link_return_from_raw(-2i32) == PadLinkReturn::WasLinked,
        pad_link_return_to_raw(PadLinkReturn::WrongDirection) == -3i32,
        pad_link_return_from_raw(-3i32) == PadLinkReturn::WrongDirection,
        pad_link_return_to_raw(PadLinkReturn::Noformat) == -4i32,
        pad_link_return_from_raw(-4i32) == PadLinkReturn::Noformat,
        pad_link_return_to_raw(PadLinkReturn::Nosched) == -5i32,
        pad_link_return_from_raw(-5i32) == PadLinkReturn::Nosched,
        pad_link_return_to_raw(PadLinkReturn::Refused) == -6i32,
        pad_link_return_from_raw(-6i32) == PadLinkReturn::Refused,
{
}


/// An unknown flow return code is read as the generic error when it is
/// below the known errors (outside the custom ones) and as success when it
/// is above zero (outside the custom successes).
pub proof fn lemma_flow_return_unknown_codes(v: i32)
    ensures
        v < -6 && (v > -100 || v < -102) ==> flow_return_from_raw(v) == FlowReturn::Error,
        v > 0 && (v < 100 || v > 102) ==> flow_return_from_raw(v) == FlowReturn::Okay,
{
}

/// A pad link return code of zero or more is read as success, and one below
/// the known errors as refused.
pub proof fn lemma_pad_link_return_unknown_codes(v: i32)
    ensures
        v >= 0 ==> pad_link_return_from_raw(v) == PadLinkReturn::Okay,
        v < -6 ==> pad_link_return_from_raw(v) == PadLinkReturn::Refused,
{
}

} // verus!
