//! Validation policy and what the instance is asked for.
use vstd::prelude::*;
use crate::names::{copy_names, names};
use crate::vulkan::{debug_utils_extension, debug_utils_name, make_version};

verus! {

/// The name of the Khronos validation layer.
pub const KHRONOS_VALIDATION_LAYER: &'static str = "VK_LAYER_KHRONOS_validation";

/// Whether diagnostic validation runs, and if so with which layer and which
/// message severities and types are forwarded to the debug messenger.
#[derive(Clone, Debug)]
pub enum ValidationConfig {
    Disabled,
    Enabled {
        /// The validation layer enabled on the instance and the device.
        layer: String,
        /// The `VkDebugUtilsMessageSeverityFlagsEXT` bits forwarded.
        severity_mask: u32,
        /// The `VkDebugUtilsMessageTypeFlagsEXT` bits forwarded.
        type_mask: u32,
    },
}

/// What the debug messenger is created with.
#[derive(Clone, Copy, Debug, PartialEq, Eq, Structural)]
pub struct MessengerPlan {
    pub severity_mask: u32,
    pub type_mask: u32,
}

/// Everything the instance is created with, besides application metadata.
#[derive(Clone, Debug)]
pub struct InstancePlan {
    /// The enabled instance extensions.
    pub extensions: Vec<String>,
    /// The enabled instance layers.
    pub layers: Vec<String>,
    /// The debug messenger to attach right after the instance, if any.
    pub messenger: Option<MessengerPlan>,
}

/// The layers enabled when validation is configured as `v`.
pub open spec fn layer_names(v: ValidationConfig) -> Seq<Seq<char>> {
    match v {
        ValidationConfig::Enabled { layer, .. } => seq![layer@],
        ValidationConfig::Disabled => seq![],
    }
}

/// The platform's extensions, followed by the debug-utilities extension when
/// validation is enabled.
pub open spec fn instance_extension_names(platform: Seq<Seq<char>>, v: ValidationConfig) -> Seq<Seq<char>> {
    if v is Enabled {
        platform.push(debug_utils_name())
    } else {
        platform
    }
}

/// The messenger attached when validation is configured as `v`.
pub open spec fn messenger_plan(v: ValidationConfig) -> Option<MessengerPlan> {
    match v {
        ValidationConfig::Enabled { severity_mask, type_mask, .. } => Some(
            MessengerPlan { severity_mask, type_mask },
        ),
        ValidationConfig::Disabled => None,
    }
}

impl ValidationConfig {
    /// Validation through the Khronos layer, forwarding the given severities
    /// and message types.
    pub fn khronos(severity_mask: u32, type_mask: u32) -> (r: ValidationConfig)
        ensures
            r matches ValidationConfig::Enabled { layer, severity_mask: s, type_mask: t }
                && layer@ == KHRONOS_VALIDATION_LAYER@ && s == severity_mask && t == type_mask,
    {
        ValidationConfig::Enabled {
            layer: String::from_str(KHRONOS_VALIDATION_LAYER),
            severity_mask,
            type_mask,
        }
    }

    pub fn is_enabled(&self) -> (r: bool)
        ensures
            r == (*self is Enabled),
    {
        match self {
            ValidationConfig::Enabled { .. } => true,
            ValidationConfig::Disabled => false,
        }
    }
}

/// The Vulkan version number for `major.minor.patch`.
pub fn api_version(major: u32, minor: u32, patch: u32) -> (r: u32)
    ensures
        r == ((major << 22u32) | (minor << 12u32) | patch),
{
    make_version(major, minor, patch)
}

/// The layers to enable, on the instance and on the device alike.
pub fn enabled_layers(validation: &ValidationConfig) -> (r: Vec<String>)
    ensures
        names(r@) == layer_names(*validation),
{
    let mut r: Vec<String> = Vec::new();
    match validation {
        ValidationConfig::Enabled { layer, .. } => {
            r.push(layer.clone());
        },
        ValidationConfig::Disabled => {},
    }
    assert(names(r@) =~= layer_names(*validation));
    r
}

/// The platform's required extensions, with the debug-utilities extension
/// added when validation is enabled.
pub fn instance_extensions(platform: &Vec<String>, validation: &ValidationConfig) -> (r: Vec<String>)
    ensures
        names(r@) == instance_extension_names(names(platform@), *validation),
{
    let mut r = copy_names(platform);
    if validation.is_enabled() {
        let ext = debug_utils_extension();
        r.push(ext);
        assert(names(r@) =~= names(platform@).push(debug_utils_name()));
    }
    r
}

/// What the instance is created with under `validation`, given the
/// extensions the windowing platform requires.
pub fn plan_instance(platform: &Vec<String>, validation: &ValidationConfig) -> (r: InstancePlan)
    ensures
        names(r.extensions@) == instance_extension_names(names(platform@), *validation),
        names(r.layers@) == layer_names(*validation),
        r.messenger == messenger_plan(*validation),
{
    let messenger = match validation {
        ValidationConfig::Enabled { severity_mask, type_mask, .. } => Some(
            MessengerPlan { severity_mask: *severity_mask, type_mask: *type_mask },
        ),
        ValidationConfig::Disabled => None,
    };
    InstancePlan {
        extensions: instance_extensions(platform, validation),
        layers: enabled_layers(validation),
        messenger,
    }
}

/// With validation disabled the instance gets no debug messenger, no
/// validation layer and no extension beyond the platform's.
pub proof fn disabled_validation_adds_nothing(platform: Seq<Seq<char>>)
    ensures
        messenger_plan(ValidationConfig::Disabled) is None,
        layer_names(ValidationConfig::Disabled) == Seq::<Seq<char>>::empty(),
        instance_extension_names(platform, ValidationConfig::Disabled) == platform,
{
    assert(layer_names(ValidationConfig::Disabled) =~= Seq::<Seq<char>>::empty());
}

} // verus!
