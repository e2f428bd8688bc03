//! The error model of the bootstrap sequence: the uniform application-level
//! error value, the closed set of low-level failure shapes reported by the
//! loader and driver collaborators, and the total, deterministic translation
//! from each failure shape to a category/message pair.

use vstd::prelude::*;

verus! {

/// A uniform application-level failure: a category label plus a free-text
/// message describing the cause.  A value has no identity beyond its content
/// and is immutable once produced.
pub struct ApplicationError {
    /// The category label, one of "GLFW", "Loading Error",
    /// "Instance Creation Error", "Out of Memory" or "Validation Layers".
    pub which: String,
    /// The human-readable diagnostic message; underlying diagnostic text is
    /// never discarded, it is always embedded here.
    pub what: String,
}

impl ApplicationError {
    /// Builds an error from a category label and a message.
    pub fn new(which: &str, what: &str) -> (r: ApplicationError)
        ensures
            r.which@ == which@,
            r.what@ == what@,
    {
        ApplicationError { which: String::from_str(which), what: String::from_str(what) }
    }

    /// Renders the error as a single display line of the form
    /// `[<category>] <message>`.
    pub fn display_line(&self) -> (r: String)
        ensures
            r@ == "["@ + self.which@ + "] "@ + self.what@,
    {
        let line = String::from_str("[").concat(self.which.as_str());
        line.concat("] ").concat(self.what.as_str())
    }
}

/// A failure of the library-load primitive of the driver/loader collaborator.
/// Each variant carries the underlying diagnostic text as a plain value.
pub enum LoadingError {
    /// The loader shared library could not be loaded.
    LibraryLoadFailure(String),
    /// The loader reported that memory ran out while loading.
    OomError(String),
}

/// A failure of the instance-creation primitive of the driver collaborator.
/// Variants with free-form diagnostics carry the underlying text as a plain
/// value.
pub enum InstanceCreationError {
    /// Memory ran out during instance creation.
    OomError(String),
    /// The driver failed to initialize for an implementation-specific reason.
    InitializationFailed,
    /// One of the requested validation layers is missing.
    LayerNotPresent,
    /// One of the requested extensions is absent from the driver.
    ExtensionNotPresent,
    /// The driver or platform is incompatible with the requested version.
    IncompatibleDriver,
    /// An extension is present but restricted by platform policy.
    ExtensionRestrictionNotMet(String),
    /// A requirement was unmet, with a rendered description of the
    /// alternatives that would satisfy it.
    RequirementNotMet { required_for: String, requires_one_of: String },
}

/// An out-of-memory report from the layer-property enumeration primitive,
/// carrying the underlying diagnostic text.
pub struct OomError {
    pub what: String,
}

/// The message a loading failure translates to: always the underlying
/// diagnostic text.
pub open spec fn loading_message(e: LoadingError) -> Seq<char> {
    match e {
        LoadingError::LibraryLoadFailure(d) => d@,
        LoadingError::OomError(d) => d@,
    }
}

/// The message an instance-creation failure translates to: a fixed literal
/// for the closed driver conditions, the underlying diagnostic text
/// otherwise.
pub open spec fn instance_creation_message(e: InstanceCreationError) -> Seq<char> {
    match e {
        InstanceCreationError::OomError(d) => d@,
        InstanceCreationError::InitializationFailed => "Initialization failed"@,
        InstanceCreationError::LayerNotPresent => "Layer not present"@,
        InstanceCreationError::ExtensionNotPresent => "Extension not present"@,
        InstanceCreationError::IncompatibleDriver => "Incompatible driver"@,
        InstanceCreationError::ExtensionRestrictionNotMet(d) => d@,
        InstanceCreationError::RequirementNotMet { required_for, requires_one_of } =>
            required_for@ + " requires one of "@ + requires_one_of@,
    }
}

impl ApplicationError {
    /// Translates a loading failure: category "Loading Error", message the
    /// underlying diagnostic text.  (Out-of-memory while loading is folded
    /// into the "Loading Error" category; the separate "Out of Memory"
    /// category is reserved for the layer-enumeration primitive.)
    pub fn from_loading_error(value: LoadingError) -> (r: ApplicationError)
        ensures
            r.which@ == "Loading Error"@,
            r.what@ == loading_message(value),
    {
        let what = match value {
            LoadingError::LibraryLoadFailure(d) => d,
            LoadingError::OomError(d) => d,
        };
        ApplicationError { which: String::from_str("Loading Error"), what }
    }

    /// Translates an instance-creation failure: category
    /// "Instance Creation Error", message as given by
    /// [`instance_creation_message`].
    pub fn from_instance_creation_error(value: InstanceCreationError) -> (r: ApplicationError)
        ensures
            r.which@ == "Instance Creation Error"@,
            r.what@ == instance_creation_message(value),
    {
        let what = match value {
            InstanceCreationError::OomError(d) => d,
            InstanceCreationError::InitializationFailed => String::from_str(
                "Initialization failed",
            ),
            InstanceCreationError::LayerNotPresent => String::from_str("Layer not present"),
            InstanceCreationError::ExtensionNotPresent => String::from_str(
                "Extension not present",
            ),
            InstanceCreationError::IncompatibleDriver => String::from_str("Incompatible driver"),
            InstanceCreationError::ExtensionRestrictionNotMet(d) => d,
            InstanceCreationError::RequirementNotMet { required_for, requires_one_of } =>
                required_for.concat(" requires one of ").concat(requires_one_of.as_str()),
        };
        ApplicationError { which: String::from_str("Instance Creation Error"), what }
    }

    /// Translates an out-of-memory report from layer enumeration: category
    /// "Out of Memory", message the underlying diagnostic text.
    pub fn from_oom_error(value: OomError) -> (r: ApplicationError)
        ensures
            r.which@ == "Out of Memory"@,
            r.what@ == value.what@,
    {
        ApplicationError { which: String::from_str("Out of Memory"), what: value.what }
    }
}

/// Law: error translation is deterministic and total — equal low-level
/// failures translate to equal category/message pairs, however often the
/// translation is repeated.
pub proof fn lemma_error_translation_deterministic(
    l1: LoadingError,
    l2: LoadingError,
    c1: InstanceCreationError,
    c2: InstanceCreationError,
    o1: OomError,
    o2: OomError,
)
    requires
        l1 == l2,
        c1 == c2,
        o1 == o2,
    ensures
        loading_message(l1) == loading_message(l2),
        instance_creation_message(c1) == instance_creation_message(c2),
        o1.what@ == o2.what@,
{
}

} // verus!
