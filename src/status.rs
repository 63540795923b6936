use vstd::prelude::*;

verus! {

/// Status codes returned by the native engine.
#[allow(non_camel_case_types)]
#[derive(Clone, Copy, Debug, PartialEq, Eq, Structural)]
pub enum PvStatus {
    SUCCESS,
    OUT_OF_MEMORY,
    IO_ERROR,
    INVALID_ARGUMENT,
    STOP_ITERATION,
    KEY_ERROR,
    INVALID_STATE,
    RUNTIME_ERROR,
    ACTIVATION_ERROR,
    ACTIVATION_LIMIT_REACHED,
    ACTIVATION_THROTTLED,
    ACTIVATION_REFUSED,
}

/// The status that the native protocol assigns to `code`, if any.
pub open spec fn status_of_code(code: int) -> Option<PvStatus> {
    if code == 0 {
        Some(PvStatus::SUCCESS)
    } else if code == 1 {
        Some(PvStatus::OUT_OF_MEMORY)
    } else if code == 2 {
        Some(PvStatus::IO_ERROR)
    } else if code == 3 {
        Some(PvStatus::INVALID_ARGUMENT)
    } else if code == 4 {
        Some(PvStatus::STOP_ITERATION)
    } else if code == 5 {
        Some(PvStatus::KEY_ERROR)
    } else if code == 6 {
        Some(PvStatus::INVALID_STATE)
    } else if code == 7 {
        Some(PvStatus::RUNTIME_ERROR)
    } else if code == 8 {
        Some(PvStatus::ACTIVATION_ERROR)
    } else if code == 9 {
        Some(PvStatus::ACTIVATION_LIMIT_REACHED)
    } else if code == 10 {
        Some(PvStatus::ACTIVATION_THROTTLED)
    } else if code == 11 {
        Some(PvStatus::ACTIVATION_REFUSED)
    } else {
        None
    }
}

impl PvStatus {
    /// The integer that stands for this status on the native interface.
    pub open spec fn spec_code(self) -> int {
        match self {
            PvStatus::SUCCESS => 0,
            PvStatus::OUT_OF_MEMORY => 1,
            PvStatus::IO_ERROR => 2,
            PvStatus::INVALID_ARGUMENT => 3,
            PvStatus::STOP_ITERATION => 4,
            PvStatus::KEY_ERROR => 5,
            PvStatus::INVALID_STATE => 6,
            PvStatus::RUNTIME_ERROR => 7,
            PvStatus::ACTIVATION_ERROR => 8,
            PvStatus::ACTIVATION_LIMIT_REACHED => 9,
            PvStatus::ACTIVATION_THROTTLED => 10,
            PvStatus::ACTIVATION_REFUSED => 11,
        }
    }

    /// Reads a status code handed back by the native engine. A code that the
    /// protocol does not define is reported as a runtime error.
    pub fn from_native(code: i32) -> (r: PvStatus)
        ensures
            status_of_code(code as int) matches Some(s) ==> r == s,
            status_of_code(code as int) is None ==> r == PvStatus::RUNTIME_ERROR,
    {
        match code {
            0 => PvStatus::SUCCESS,
            1 => PvStatus::OUT_OF_MEMORY,
            2 => PvStatus::IO_ERROR,
            3 => PvStatus::INVALID_ARGUMENT,
            4 => PvStatus::STOP_ITERATION,
            5 => PvStatus::KEY_ERROR,
            6 => PvStatus::INVALID_STATE,
            7 => PvStatus::RUNTIME_ERROR,
            8 => PvStatus::ACTIVATION_ERROR,
            9 => PvStatus::ACTIVATION_LIMIT_REACHED,
            10 => PvStatus::ACTIVATION_THROTTLED,
            11 => PvStatus::ACTIVATION_REFUSED,
            _ => PvStatus::RUNTIME_ERROR,
        }
    }

    /// The native code of this status.
    pub fn code(&self) -> (r: i32)
        ensures
            r as int == self.spec_code(),
            status_of_code(r as int) == Some(*self),
    {
        match self {
            PvStatus::SUCCESS => 0,
            PvStatus::OUT_OF_MEMORY => 1,
            PvStatus::IO_ERROR => 2,
            PvStatus::INVALID_ARGUMENT => 3,
            PvStatus::STOP_ITERATION => 4,
            PvStatus::KEY_ERROR => 5,
            PvStatus::INVALID_STATE => 6,
            PvStatus::RUNTIME_ERROR => 7,
            PvStatus::ACTIVATION_ERROR => 8,
            PvStatus::ACTIVATION_LIMIT_REACHED => 9,
            PvStatus::ACTIVATION_THROTTLED => 10,
            PvStatus::ACTIVATION_REFUSED => 11,
        }
    }

    /// Whether this status reports success.
    pub fn is_success(&self) -> (r: bool)
        ensures
            r == (*self == PvStatus::SUCCESS),
    {
        match self {
            PvStatus::SUCCESS => true,
            _ => false,
        }
    }
}

} // verus!
