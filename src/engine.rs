//! The native symbols an engine needs, the properties it reports once built,
//! and the session that builds it.

use vstd::prelude::*;
use vstd::string::*;

use crate::error::{RhinoError, RhinoErrorStatus};
use crate::text::{decimal, push_decimal, push_signed_decimal, signed_decimal};

verus! {

/// The functions that the native library must export.
#[derive(Clone, Copy, Debug, PartialEq, Eq, Structural)]
pub enum NativeSymbol {
    Init,
    Process,
    Delete,
    IsUnderstood,
    GetIntent,
    FreeSlotsAndValues,
    Reset,
    SampleRate,
    FrameLength,
    Version,
    ContextInfo,
    GetErrorStack,
    FreeErrorStack,
    SetSdk,
}

/// How many symbols are required.
pub const SYMBOL_COUNT: usize = 14;

/// The required symbols, in the order they are resolved.
pub open spec fn symbol_at(i: int) -> NativeSymbol {
    if i == 0 {
        NativeSymbol::Init
    } else if i == 1 {
        NativeSymbol::Process
    } else if i == 2 {
        NativeSymbol::Delete
    } else if i == 3 {
        NativeSymbol::IsUnderstood
    } else if i == 4 {
        NativeSymbol::GetIntent
    } else if i == 5 {
        NativeSymbol::FreeSlotsAndValues
    } else if i == 6 {
        NativeSymbol::Reset
    } else if i == 7 {
        NativeSymbol::SampleRate
    } else if i == 8 {
        NativeSymbol::FrameLength
    } else if i == 9 {
        NativeSymbol::Version
    } else if i == 10 {
        NativeSymbol::ContextInfo
    } else if i == 11 {
        NativeSymbol::GetErrorStack
    } else if i == 12 {
        NativeSymbol::FreeErrorStack
    } else {
        NativeSymbol::SetSdk
    }
}

/// The exported name of a symbol.
pub open spec fn symbol_name(s: NativeSymbol) -> Seq<char> {
    match s {
        NativeSymbol::Init => "pv_rhino_init"@,
        NativeSymbol::Process => "pv_rhino_process"@,
        NativeSymbol::Delete => "pv_rhino_delete"@,
        NativeSymbol::IsUnderstood => "pv_rhino_is_understood"@,
        NativeSymbol::GetIntent => "pv_rhino_get_intent"@,
        NativeSymbol::FreeSlotsAndValues => "pv_rhino_free_slots_and_values"@,
        NativeSymbol::Reset => "pv_rhino_reset"@,
        NativeSymbol::SampleRate => "pv_sample_rate"@,
        NativeSymbol::FrameLength => "pv_rhino_frame_length"@,
        NativeSymbol::Version => "pv_rhino_version"@,
        NativeSymbol::ContextInfo => "pv_rhino_context_info"@,
        NativeSymbol::GetErrorStack => "pv_get_error_stack"@,
        NativeSymbol::FreeErrorStack => "pv_free_error_stack"@,
        NativeSymbol::SetSdk => "pv_set_sdk"@,
    }
}

impl NativeSymbol {
    /// The `i`-th required symbol.
    pub fn at(i: usize) -> (r: NativeSymbol)
        requires
            i < SYMBOL_COUNT,
        ensures
            r == symbol_at(i as int),
    {
        match i {
            0 => NativeSymbol::Init,
            1 => NativeSymbol::Process,
            2 => NativeSymbol::Delete,
            3 => NativeSymbol::IsUnderstood,
            4 => NativeSymbol::GetIntent,
            5 => NativeSymbol::FreeSlotsAndValues,
            6 => NativeSymbol::Reset,
            7 => NativeSymbol::SampleRate,
            8 => NativeSymbol::FrameLength,
            9 => NativeSymbol::Version,
            10 => NativeSymbol::ContextInfo,
            11 => NativeSymbol::GetErrorStack,
            12 => NativeSymbol::FreeErrorStack,
            _ => NativeSymbol::SetSdk,
        }
    }

    /// The exported name of this symbol.
    pub fn name(&self) -> (r: &'static str)
        ensures
            r@ == symbol_name(*self),
    {
        match self {
            NativeSymbol::Init => "pv_rhino_init",
            NativeSymbol::Process => "pv_rhino_process",
            NativeSymbol::Delete => "pv_rhino_delete",
            NativeSymbol::IsUnderstood => "pv_rhino_is_understood",
            NativeSymbol::GetIntent => "pv_rhino_get_intent",
            NativeSymbol::FreeSlotsAndValues => "pv_rhino_free_slots_and_values",
            NativeSymbol::Reset => "pv_rhino_reset",
            NativeSymbol::SampleRate => "pv_sample_rate",
            NativeSymbol::FrameLength => "pv_rhino_frame_length",
            NativeSymbol::Version => "pv_rhino_version",
            NativeSymbol::ContextInfo => "pv_rhino_context_info",
            NativeSymbol::GetErrorStack => "pv_get_error_stack",
            NativeSymbol::FreeErrorStack => "pv_free_error_stack",
            NativeSymbol::SetSdk => "pv_set_sdk",
        }
    }
}

/// What a built engine reported about itself. It never changes after
/// construction.
#[derive(Debug)]
pub struct EngineInfo {
    sample_rate: i32,
    frame_length: i32,
    version: String,
    context_info: String,
}

/// What an engine reported, as plain values.
pub struct EngineInfoView {
    pub sample_rate: i32,
    pub frame_length: i32,
    pub version: Seq<char>,
    pub context_info: Seq<char>,
}

impl View for EngineInfo {
    type V = EngineInfoView;

    closed spec fn view(&self) -> EngineInfoView {
        EngineInfoView {
            sample_rate: self.sample_rate,
            frame_length: self.frame_length,
            version: self.version@,
            context_info: self.context_info@,
        }
    }
}

/// The message for a frame of `len` samples where `expected` are wanted.
pub open spec fn frame_length_message(len: nat, expected: int) -> Seq<char> {
    "Found a frame length of "@ + decimal(len) + " Expected "@ + signed_decimal(expected)
}

impl EngineInfo {
    /// The properties as the engine reported them.
    pub fn new(sample_rate: i32, frame_length: i32, version: String, context_info: String) -> (r: Self)
        ensures
            r@ == (EngineInfoView {
                sample_rate,
                frame_length,
                version: version@,
                context_info: context_info@,
            }),
    {
        EngineInfo { sample_rate, frame_length, version, context_info }
    }

    /// The number of samples per frame.
    pub fn frame_length(&self) -> (r: u32)
        ensures
            r == self@.frame_length as u32,
    {
        self.frame_length as u32
    }

    /// The number of samples per second.
    pub fn sample_rate(&self) -> (r: u32)
        ensures
            r == self@.sample_rate as u32,
    {
        self.sample_rate as u32
    }

    /// The version of the native engine.
    pub fn version(&self) -> (r: String)
        ensures
            r@ == self@.version,
    {
        self.version.clone()
    }

    /// The description of the context's grammar.
    pub fn context_info(&self) -> (r: String)
        ensures
            r@ == self@.context_info,
    {
        self.context_info.clone()
    }

    /// Checks a frame before it is handed to the engine: it fails, with a
    /// frame-length error, exactly when it does not hold as many samples as
    /// the engine's frame length.
    pub fn check_frame(&self, pcm: &[i16]) -> (r: Result<(), RhinoError>)
        ensures
            r is Err <==> pcm@.len() != self@.frame_length as int,
            r matches Err(e) ==> {
                &&& e.status == RhinoErrorStatus::FrameLengthError
                &&& e.message@ == frame_length_message(pcm@.len(), self@.frame_length as int)
                &&& e.message_stack@.len() == 0
            },
    {
        let len = pcm.len();
        if self.frame_length >= 0 && len as u64 == self.frame_length as u64 {
            return Ok(());
        }
        let mut message = String::from_str("Found a frame length of ");
        push_decimal(&mut message, len as u64);
        message.append(" Expected ");
        push_signed_decimal(&mut message, self.frame_length as i64);
        Err(RhinoError::new(RhinoErrorStatus::FrameLengthError, message))
    }
}

} // verus!
