use vstd::prelude::*;
use vstd::string::*;

use crate::error::{RhinoError, RhinoErrorStatus};
use crate::float_bits::{in_closed_range, within, FIVE_BITS, HALF_BITS, ONE_BITS, ZERO_BITS};
use crate::text::{c_compatible, is_c_compatible, joined};

verus! {

/// The sensitivity used when none is set: `0.5`.
pub const DEFAULT_SENSITIVITY: u32 = 0x3F00_0000;

/// The endpoint duration used when none is set: one second.
pub const DEFAULT_ENDPOINT_DURATION_SEC: u32 = 0x3F80_0000;

/// Whether an endpoint is required when none is set.
pub const DEFAULT_REQUIRE_ENDPOINT: bool = true;

/// What a configuration holds, as plain values. The two real-valued settings
/// are IEEE-754 single-precision bit patterns.
pub struct ConfigView {
    pub access_key: Seq<char>,
    pub library_path: Seq<char>,
    pub model_path: Seq<char>,
    pub context_path: Seq<char>,
    pub sensitivity: u32,
    pub endpoint_duration_sec: u32,
    pub require_endpoint: bool,
}

/// The configuration of an engine: the access credential, the paths of the
/// native library, the model and the context, and the tuning settings.
#[derive(Clone, Debug)]
pub struct RhinoBuilder {
    access_key: String,
    library_path: String,
    model_path: String,
    context_path: String,
    sensitivity: u32,
    endpoint_duration_sec: u32,
    require_endpoint: bool,
}

impl View for RhinoBuilder {
    type V = ConfigView;

    closed spec fn view(&self) -> ConfigView {
        ConfigView {
            access_key: self.access_key@,
            library_path: self.library_path@,
            model_path: self.model_path@,
            context_path: self.context_path@,
            sensitivity: self.sensitivity,
            endpoint_duration_sec: self.endpoint_duration_sec,
            require_endpoint: self.require_endpoint,
        }
    }
}

/// Whether a sensitivity lies in `[0, 1]`.
pub open spec fn sensitivity_ok(bits: u32) -> bool {
    in_closed_range(bits, ZERO_BITS, ONE_BITS)
}

/// Whether an endpoint duration lies in `[0.5, 5.0]` seconds.
pub open spec fn endpoint_duration_ok(bits: u32) -> bool {
    in_closed_range(bits, HALF_BITS, FIVE_BITS)
}

/// What is wrong with a configuration, given whether each of its three files
/// exists: the message of the first check that fails, in the order access
/// key, library, model, context, sensitivity, endpoint duration, and the
/// strings that must pass to C. `None` when every check passes.
pub open spec fn config_problem(
    c: ConfigView,
    library_exists: bool,
    model_exists: bool,
    context_exists: bool,
) -> Option<Seq<char>> {
    if c.access_key.len() == 0 {
        Some("AccessKey is required for Rhino initialization"@)
    } else if !library_exists {
        Some("Couldn't find Rhino's dynamic library at "@ + c.library_path)
    } else if !model_exists {
        Some("Couldn't find model file at "@ + c.model_path)
    } else if !context_exists {
        Some("Couldn't find context file at "@ + c.context_path)
    } else if !sensitivity_ok(c.sensitivity) {
        Some("Sensitivity value should be within [0, 1]"@)
    } else if !endpoint_duration_ok(c.endpoint_duration_sec) {
        Some("Endpoint duration value should be within [0.5, 5.0]"@)
    } else if !is_c_compatible(c.access_key) {
        Some("AccessKey is not a valid C string"@)
    } else if !is_c_compatible(c.model_path) {
        Some("Model path is not a valid C string"@)
    } else if !is_c_compatible(c.context_path) {
        Some("Context path is not a valid C string"@)
    } else {
        None
    }
}

impl RhinoBuilder {
    /// A configuration with the given credential, context and default
    /// library and model paths, and the default settings.
    pub fn new(access_key: String, context_path: String, library_path: String, model_path: String) -> (r: Self)
        ensures
            r@ == (ConfigView {
                access_key: access_key@,
                library_path: library_path@,
                model_path: model_path@,
                context_path: context_path@,
                sensitivity: DEFAULT_SENSITIVITY,
                endpoint_duration_sec: DEFAULT_ENDPOINT_DURATION_SEC,
                require_endpoint: DEFAULT_REQUIRE_ENDPOINT,
            }),
    {
        RhinoBuilder {
            access_key,
            library_path,
            model_path,
            context_path,
            sensitivity: DEFAULT_SENSITIVITY,
            endpoint_duration_sec: DEFAULT_ENDPOINT_DURATION_SEC,
            require_endpoint: DEFAULT_REQUIRE_ENDPOINT,
        }
    }

    /// Sets the access credential.
    pub fn access_key(&mut self, access_key: String) -> (r: &mut Self)
        ensures
            r@ == (ConfigView { access_key: access_key@, ..old(self)@ }),
            final(self)@ == final(r)@,
    {
        self.access_key = access_key;
        self
    }

    /// Sets the sensitivity, as the bit pattern of a single-precision value;
    /// it must lie in `[0, 1]`.
    pub fn sensitivity(&mut self, sensitivity: u32) -> (r: &mut Self)
        ensures
            r@ == (ConfigView { sensitivity, ..old(self)@ }),
            final(self)@ == final(r)@,
    {
        self.sensitivity = sensitivity;
        self
    }

    /// Sets the path of the native library.
    pub fn library_path(&mut self, library_path: String) -> (r: &mut Self)
        ensures
            r@ == (ConfigView { library_path: library_path@, ..old(self)@ }),
            final(self)@ == final(r)@,
    {
        self.library_path = library_path;
        self
    }

    /// Sets the path of the model file.
    pub fn model_path(&mut self, model_path: String) -> (r: &mut Self)
        ensures
            r@ == (ConfigView { model_path: model_path@, ..old(self)@ }),
            final(self)@ == final(r)@,
    {
        self.model_path = model_path;
        self
    }

    /// Sets the path of the context file.
    pub fn context_path(&mut self, context_path: String) -> (r: &mut Self)
        ensures
            r@ == (ConfigView { context_path: context_path@, ..old(self)@ }),
            final(self)@ == final(r)@,
    {
        self.context_path = context_path;
        self
    }

    /// Sets the endpoint duration in seconds, as the bit pattern of a
    /// single-precision value; it must lie in `[0.5, 5.0]`.
    pub fn endpoint_duration_sec(&mut self, endpoint_duration_sec: u32) -> (r: &mut Self)
        ensures
            r@ == (ConfigView { endpoint_duration_sec, ..old(self)@ }),
            final(self)@ == final(r)@,
    {
        self.endpoint_duration_sec = endpoint_duration_sec;
        self
    }

    /// Sets whether an endpoint is required before an utterance is
    /// finalized.
    pub fn require_endpoint(&mut self, require_endpoint: bool) -> (r: &mut Self)
        ensures
            r@ == (ConfigView { require_endpoint, ..old(self)@ }),
            final(self)@ == final(r)@,
    {
        self.require_endpoint = require_endpoint;
        self
    }

    /// The access credential.
    pub fn access_key_value(&self) -> (r: &str)
        ensures
            r@ == self@.access_key,
    {
        self.access_key.as_str()
    }

    /// The path of the native library.
    pub fn library_path_value(&self) -> (r: &str)
        ensures
            r@ == self@.library_path,
    {
        self.library_path.as_str()
    }

    /// The path of the model file.
    pub fn model_path_value(&self) -> (r: &str)
        ensures
            r@ == self@.model_path,
    {
        self.model_path.as_str()
    }

    /// The path of the context file.
    pub fn context_path_value(&self) -> (r: &str)
        ensures
            r@ == self@.context_path,
    {
        self.context_path.as_str()
    }

    /// The bit pattern of the sensitivity.
    pub fn sensitivity_value(&self) -> (r: u32)
        ensures
            r == self@.sensitivity,
    {
        self.sensitivity
    }

    /// The bit pattern of the endpoint duration.
    pub fn endpoint_duration_sec_value(&self) -> (r: u32)
        ensures
            r == self@.endpoint_duration_sec,
    {
        self.endpoint_duration_sec
    }

    /// Whether an endpoint is required.
    pub fn require_endpoint_value(&self) -> (r: bool)
        ensures
            r == self@.require_endpoint,
    {
        self.require_endpoint
    }

    /// Checks the configuration, given whether its library, model and context
    /// files exist. Fails with an argument error exactly when
    /// `config_problem` names a problem, and with its message.
    pub fn validate(&self, library_exists: bool, model_exists: bool, context_exists: bool) -> (r: Result<(), RhinoError>)
        ensures
            r is Ok <==> config_problem(self@, library_exists, model_exists, context_exists) is None,
            r matches Err(e) ==> {
                &&& e.status == RhinoErrorStatus::ArgumentError
                &&& config_problem(self@, library_exists, model_exists, context_exists) == Some(e.message@)
                &&& e.message_stack@.len() == 0
            },
    {
        let problem: String;
        if self.access_key.as_str().is_empty() {
            problem = String::from_str("AccessKey is required for Rhino initialization");
        } else if !library_exists {
            problem = joined("Couldn't find Rhino's dynamic library at ", self.library_path.as_str());
        } else if !model_exists {
            problem = joined("Couldn't find model file at ", self.model_path.as_str());
        } else if !context_exists {
            problem = joined("Couldn't find context file at ", self.context_path.as_str());
        } else if !within(self.sensitivity, ZERO_BITS, ONE_BITS) {
            problem = String::from_str("Sensitivity value should be within [0, 1]");
        } else if !within(self.endpoint_duration_sec, HALF_BITS, FIVE_BITS) {
            problem = String::from_str("Endpoint duration value should be within [0.5, 5.0]");
        } else if !c_compatible(self.access_key.as_str()) {
            problem = String::from_str("AccessKey is not a valid C string");
        } else if !c_compatible(self.model_path.as_str()) {
            problem = String::from_str("Model path is not a valid C string");
        } else if !c_compatible(self.context_path.as_str()) {
            problem = String::from_str("Context path is not a valid C string");
        } else {
            return Ok(());
        }
        Err(RhinoError::new(RhinoErrorStatus::ArgumentError, problem))
    }
}

} // verus!
