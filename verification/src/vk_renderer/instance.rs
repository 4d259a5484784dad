//! What to ask of the driver when the instance is created.
use vstd::prelude::*;

use super::debug::MessageTypes;
use super::version::Version;

verus! {

/// The name the application gives itself.
pub const APPLICATION_NAME: &'static str = "alacritty";

/// The layer that checks the application's use of the API.
pub const VALIDATION_LAYER: &'static str = "VK_LAYER_LUNARG_standard_validation";

/// The instance to create, and the debugging to set up with it.
#[derive(Clone, Copy, Debug)]
pub struct InstanceRequest {
    /// The application's name.
    pub application_name: &'static str,
    /// The application's version.
    pub application_version: Version,
    /// Whether to enable the extension that reports debug messages, beside
    /// the extensions the window system needs.
    pub ext_debug_report: bool,
    /// The layer to load, if any.
    pub layer: Option<&'static str>,
    /// The kinds of debug message to listen for; none where no callback is to
    /// be installed.
    pub debug_messages: Option<MessageTypes>,
}

impl InstanceRequest {
    /// Whether this is the request for an instance with debugging on or off, as
    /// `enable_debug` says, for the application in the given version. With
    /// debugging on, the report extension is enabled, the validation layer
    /// loaded, and messages of every kind listened for; with debugging off,
    /// none of the three.
    pub open spec fn is_for(self, enable_debug: bool, application_version: Version) -> bool {
        &&& self.application_name@ == APPLICATION_NAME@
        &&& self.application_version == application_version
        &&& self.ext_debug_report == enable_debug
        &&& match self.layer {
            Some(layer) => enable_debug && layer@ == VALIDATION_LAYER@,
            None => !enable_debug,
        }
        &&& self.debug_messages == if enable_debug {
            Some(MessageTypes::all())
        } else {
            None
        }
    }

    /// The request for an instance with debugging on or off.
    pub fn with_debugging(enable_debug: bool, application_version: Version) -> (request:
        InstanceRequest)
        ensures
            request.is_for(enable_debug, application_version),
    {
        let layer = if enable_debug {
            Some(VALIDATION_LAYER)
        } else {
            None
        };
        let debug_messages = if enable_debug {
            Some(
                MessageTypes {
                    error: true,
                    warning: true,
                    performance_warning: true,
                    information: true,
                    debug: true,
                },
            )
        } else {
            None
        };
        InstanceRequest {
            application_name: APPLICATION_NAME,
            application_version,
            ext_debug_report: enable_debug,
            layer,
            debug_messages,
        }
    }
}

} // verus!
