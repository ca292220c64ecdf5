//! The backend context: validating diagnostic layers and assembling the
//! identity, layers and extensions the top-level API handle is created
//! with.

use vstd::prelude::*;

verus! {

/// A fatal failure while negotiating the rendering context.  Every stage is
/// a hard precondition for the next, so any of these aborts the setup.
#[derive(Debug, Clone, Copy, PartialEq, Eq, Structural)]
pub enum SetupError {
    /// Diagnostics were requested but the host driver does not offer the
    /// required validation layer.
    ValidationLayersUnavailable,
    /// No enumerated physical device satisfies the selection requirements.
    NoQualifyingDevice,
}

/// A semantic version triple declared to the driver.
#[derive(Debug, Clone, Copy, PartialEq, Eq, Structural)]
pub struct Version {
    pub major: u32,
    pub minor: u32,
    pub patch: u32,
}

/// Everything the top-level API handle is created with: the declared
/// application and engine identity, the enabled layers and extensions, and
/// whether a diagnostics callback is to be registered.
#[derive(Debug, Clone)]
pub struct InstanceConfig {
    pub application_name: String,
    pub application_version: Version,
    pub engine_name: String,
    pub engine_version: Version,
    pub enabled_extensions: Vec<String>,
    pub enabled_layers: Vec<String>,
    pub enable_debug_messenger: bool,
}

/// The validation layer required whenever diagnostics are enabled.
pub open spec fn validation_layer_name() -> Seq<char> {
    "VK_LAYER_KHRONOS_validation"@
}

/// The instance extension that carries diagnostic messages.
pub open spec fn debug_utils_extension_name() -> Seq<char> {
    "VK_EXT_debug_utils"@
}

/// Whether a list of names holds the given name.
pub open spec fn contains_name(names: Seq<String>, name: Seq<char>) -> bool {
    exists|i: int| 0 <= i < names.len() && names[i]@ == name
}

/// Whether the host driver offers the required validation layer.
pub open spec fn validation_layers_available(available_layers: Seq<String>) -> bool {
    contains_name(available_layers, validation_layer_name())
}

/// Check that every required validation layer is present among the layers
/// the driver reports.
pub fn check_validation_layers(available_layers: &Vec<String>) -> (r: bool)
    ensures
        r == validation_layers_available(available_layers@),
{
    let mut i: usize = 0;
    while i < available_layers.len()
        invariant
            0 <= i <= available_layers@.len(),
            forall|j: int| 0 <= j < i ==> available_layers@[j]@ != validation_layer_name(),
        decreases available_layers@.len() - i,
    {
        if crate::str_eq(available_layers[i].as_str(), "VK_LAYER_KHRONOS_validation") {
            return true;
        }
        i = i + 1;
    }
    false
}

/// The instance extensions to enable: the platform extensions the window
/// shell requires, plus the diagnostics extension when diagnostics are
/// enabled.
pub fn required_extensions(window_extensions: Vec<String>, enable_validation: bool) -> (r: Vec<
    String,
>)
    ensures
        !enable_validation ==> r@ == window_extensions@,
        enable_validation ==> {
            &&& r@.len() == window_extensions@.len() + 1
            &&& forall|j: int| 0 <= j < window_extensions@.len() ==> r@[j] == window_extensions@[j]
            &&& r@[window_extensions@.len() as int]@ == debug_utils_extension_name()
        },
{
    let mut extensions = window_extensions;
    if enable_validation {
        extensions.push(String::from_str("VK_EXT_debug_utils"));
    }
    extensions
}

/// The shape of the instance configuration assembled for a given
/// diagnostics choice and set of window extensions.
pub open spec fn instance_config_matches(
    config: InstanceConfig,
    enable_validation: bool,
    window_extensions: Seq<String>,
) -> bool {
    &&& config.application_name@ == "Scop"@
    &&& config.application_version == (Version { major: 1, minor: 0, patch: 0 })
    &&& config.engine_name@ == "No Engine"@
    &&& config.engine_version == (Version { major: 1, minor: 0, patch: 0 })
    &&& (enable_validation ==> {
        &&& config.enabled_layers@.len() == 1
        &&& config.enabled_layers@[0]@ == validation_layer_name()
        &&& config.enabled_extensions@.len() == window_extensions.len() + 1
        &&& (forall|j: int| 0 <= j < window_extensions.len() ==> config.enabled_extensions@[j]
            == window_extensions[j])
        &&& config.enabled_extensions@[window_extensions.len() as int]@
            == debug_utils_extension_name()
    })
    &&& (!enable_validation ==> {
        &&& config.enabled_layers@.len() == 0
        &&& config.enabled_extensions@ == window_extensions
    })
    &&& config.enable_debug_messenger == enable_validation
}

/// Assemble the top-level API handle's configuration.  When diagnostics
/// are enabled, the required validation layer must be present among the
/// driver's layers, or the setup fails.
pub fn create_instance(
    enable_validation: bool,
    available_layers: &Vec<String>,
    window_extensions: Vec<String>,
) -> (r: Result<InstanceConfig, SetupError>)
    ensures
        enable_validation && !validation_layers_available(available_layers@) ==> r == Err::<
            InstanceConfig,
            SetupError,
        >(SetupError::ValidationLayersUnavailable),
        !enable_validation || validation_layers_available(available_layers@) ==> (r matches Ok(
            config,
        ) && instance_config_matches(config, enable_validation, window_extensions@)),
{
    if enable_validation && !check_validation_layers(available_layers) {
        return Err(SetupError::ValidationLayersUnavailable);
    }
    let enabled_layers: Vec<String> = if enable_validation {
        vec![String::from_str("VK_LAYER_KHRONOS_validation")]
    } else {
        Vec::new()
    };
    let enabled_extensions = required_extensions(window_extensions, enable_validation);
    Ok(
        InstanceConfig {
            application_name: String::from_str("Scop"),
            application_version: Version { major: 1, minor: 0, patch: 0 },
            engine_name: String::from_str("No Engine"),
            engine_version: Version { major: 1, minor: 0, patch: 0 },
            enabled_extensions,
            enabled_layers,
            enable_debug_messenger: enable_validation,
        },
    )
}

} // verus!
