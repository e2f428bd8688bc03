//! The value assembled by the bootstrap sequence and handed to instance
//! creation: application metadata, a requested API version ceiling, a
//! duplicate-free set of extension names and an ordered list of validation
//! layer names.

use vstd::prelude::*;

use crate::names::no_duplicate_names;

verus! {

/// A graphics-API version, held as plain numbers.
#[derive(Clone, Copy, PartialEq, Eq, Structural, Debug)]
pub struct Version {
    pub major: u32,
    pub minor: u32,
    pub patch: u32,
}

impl Version {
    /// The fixed version ceiling the application requests: 1.0.0.
    pub fn v1_0() -> (r: Version)
        ensures
            r == (Version { major: 1u32, minor: 0u32, patch: 0u32 }),
    {
        Version { major: 1, minor: 0, patch: 0 }
    }
}

/// The parameters of one instance-creation attempt.  Assembled once per
/// bootstrap attempt and immutable once handed to instance creation.
pub struct InstanceCreationParameters {
    /// Fixed application metadata.
    pub application_name: String,
    pub application_version: Version,
    /// Hardcoded engine metadata.
    pub engine_name: String,
    pub engine_version: Version,
    /// The requested API version ceiling.
    pub max_api_version: Version,
    /// The extension names to enable: unique, order-insignificant.
    pub enabled_extensions: Vec<String>,
    /// The validation-layer names to enable, in requirement order; empty
    /// outside debug mode.
    pub enabled_layers: Vec<String>,
}

impl InstanceCreationParameters {
    /// Well-formedness: the extension set holds no name twice.
    pub open spec fn wf(self) -> bool {
        no_duplicate_names(self.enabled_extensions@)
    }

    /// The fixed metadata of this version: application and engine names,
    /// their versions, and the API version ceiling are compile-time
    /// constants, not external configuration.
    pub open spec fn has_fixed_metadata(self) -> bool {
        &&& self.application_name@ == "Vulkan Test"@
        &&& self.application_version == (Version { major: 1u32, minor: 0u32, patch: 0u32 })
        &&& self.engine_name@ == "No engine"@
        &&& self.engine_version == (Version { major: 1u32, minor: 0u32, patch: 0u32 })
        &&& self.max_api_version == (Version { major: 1u32, minor: 0u32, patch: 0u32 })
    }

    /// The base parameter set of every bootstrap attempt: fixed metadata,
    /// no extensions, no layers.
    pub fn base() -> (r: InstanceCreationParameters)
        ensures
            r.has_fixed_metadata(),
            r.enabled_extensions@ == Seq::<String>::empty(),
            r.enabled_layers@ == Seq::<String>::empty(),
            r.wf(),
    {
        InstanceCreationParameters {
            application_name: String::from_str("Vulkan Test"),
            application_version: Version::v1_0(),
            engine_name: String::from_str("No engine"),
            engine_version: Version::v1_0(),
            max_api_version: Version::v1_0(),
            enabled_extensions: Vec::new(),
            enabled_layers: Vec::new(),
        }
    }
}

} // verus!
