//! Setting up the Vulkan instance and its diagnostics.

use vstd::prelude::*;
use vstd::string::*;
use crate::bindings::{
    debug_utils_extension, debug_utils_extension_name, format_message_type, message_type_label,
    severity_error, severity_info, severity_verbose, severity_warning,
};
use crate::vulkan::{
    MESSAGE_TYPE_GENERAL, MESSAGE_TYPE_PERFORMANCE, MESSAGE_TYPE_VALIDATION, SEVERITY_ERROR,
    SEVERITY_INFO, SEVERITY_VERBOSE, SEVERITY_WARNING,
};
use crate::device::{contains_name, names};
use crate::error::RendererError;
use crate::window::Window;

verus! {

/// Version 1.0 of the API, as `VK_MAKE_API_VERSION(0, 1, 0, 0)` packs it.
pub const API_VERSION_1_0: u32 = 0x40_0000;

/// The name of the layer that checks the program's use of the API.
pub open spec fn validation_layer() -> Seq<char> {
    "VK_LAYER_KHRONOS_validation"@
}

/// The layers that diagnostics turn on.
pub open spec fn validation_layer_names() -> Seq<Seq<char>> {
    seq![validation_layer()]
}

/// Lists the layers that diagnostics turn on.
pub fn validation_layers() -> (r: Vec<String>)
    ensures
        names(r@) == validation_layer_names(),
{
    let mut r: Vec<String> = Vec::new();
    r.push(String::from_str("VK_LAYER_KHRONOS_validation"));
    assert(names(r@) =~= validation_layer_names());
    r
}

/// Whether diagnostics are on, given the value of the setting that controls
/// them: they are on for the word `true` and for nothing else, an absent
/// value included.
pub fn diagnostics_enabled(setting: &Option<String>) -> (r: bool)
    ensures
        r == (setting matches Some(value) && value@ == "true"@),
{
    match setting {
        Some(value) => *value == String::from_str("true"),
        None => false,
    }
}

/// The instance extensions to enable: those the window asks for, and after
/// them the diagnostics extension where diagnostics are on.
pub open spec fn planned_instance_extensions(
    requested: Seq<Seq<char>>,
    diagnostics: bool,
) -> Seq<Seq<char>> {
    if diagnostics {
        requested.push(debug_utils_extension())
    } else {
        requested
    }
}

/// Completes the list of instance extensions that a window asks for.
pub fn instance_extensions(requested: Vec<String>, diagnostics: bool) -> (r: Vec<String>)
    ensures
        names(r@) == planned_instance_extensions(names(requested@), diagnostics),
{
    let mut extensions: Vec<String> = requested;
    if diagnostics {
        extensions.push(debug_utils_extension_name());
        assert(names(extensions@) =~= names(requested@).push(debug_utils_extension()));
    }
    extensions
}

/// Lists the instance extensions to enable for `window`. The window names its
/// extensions as it pleases; what is stated holds of whatever it named.
pub fn required_instance_extensions<W: Window>(window: &W, diagnostics: bool) -> (r: Vec<String>)
    ensures
        exists|requested: Seq<Seq<char>>|
            names(r@) == #[trigger] planned_instance_extensions(requested, diagnostics),
{
    let requested: Vec<String> = window.get_requested_extensions();
    let ghost asked = names(requested@);
    let r = instance_extensions(requested, diagnostics);
    assert(names(r@) == planned_instance_extensions(asked, diagnostics));
    r
}

/// Which messages the diagnostics callback is to receive.
#[derive(Clone, Copy, Debug, PartialEq, Eq, Structural)]
pub struct DebugMessengerConfig {
    /// Raw `VkDebugUtilsMessageSeverityFlagsEXT`.
    pub message_severity: u32,
    /// Raw `VkDebugUtilsMessageTypeFlagsEXT`.
    pub message_type: u32,
}

/// Every severity and every category.
pub open spec fn all_messages() -> DebugMessengerConfig {
    DebugMessengerConfig {
        message_severity: SEVERITY_VERBOSE | SEVERITY_INFO | SEVERITY_WARNING | SEVERITY_ERROR,
        message_type: MESSAGE_TYPE_GENERAL | MESSAGE_TYPE_PERFORMANCE | MESSAGE_TYPE_VALIDATION,
    }
}

/// Configures the diagnostics callback to receive every message.
pub fn create_debug_info() -> (r: DebugMessengerConfig)
    ensures
        r == all_messages(),
        r.message_severity == 0x1111,
        r.message_type == 0x7,
{
    assert(0x1u32 | 0x10u32 | 0x100u32 | 0x1000u32 == 0x1111u32) by (bit_vector);
    assert(0x1u32 | 0x4u32 | 0x2u32 == 0x7u32) by (bit_vector);
    DebugMessengerConfig {
        message_severity: severity_verbose() | severity_info() | severity_warning()
            | severity_error(),
        message_type: MESSAGE_TYPE_GENERAL | MESSAGE_TYPE_PERFORMANCE | MESSAGE_TYPE_VALIDATION,
    }
}

/// Everything that creating the instance is told.
#[derive(Debug)]
pub struct InstancePlan {
    /// The API version asked for, packed as Vulkan packs versions.
    pub api_version: u32,
    /// The names of the instance extensions to enable.
    pub extensions: Vec<String>,
    /// The names of the layers to enable.
    pub layers: Vec<String>,
    /// The callback configuration to attach to instance creation itself.
    pub debug_messenger: Option<DebugMessengerConfig>,
}

/// Whether a name holds the NUL character, which no name handed to the API
/// may.
pub fn has_nul(name: &String) -> (r: bool)
    ensures
        r == name@.contains('\0'),
{
    let text: &str = name.as_str();
    let n: usize = text.unicode_len();
    let mut i: usize = 0;
    while i < n
        invariant
            i <= n,
            n == text@.len(),
            text@ == name@,
            forall|j: int| 0 <= j < i ==> name@[j] != '\0',
        decreases n - i,
    {
        if text.get_char(i) == '\0' {
            assert(name@[i as int] == '\0');
            return true;
        }
        i += 1;
    }
    false
}

/// The place of the first name in `list` that holds a NUL character.
pub open spec fn first_bad_name(list: Seq<Seq<char>>, i: int) -> bool {
    &&& 0 <= i < list.len()
    &&& list[i].contains('\0')
    &&& forall|j: int| 0 <= j < i ==> !(#[trigger] list[j]).contains('\0')
}

/// No name in `list` holds a NUL character.
pub open spec fn all_names_clean(list: Seq<Seq<char>>) -> bool {
    forall|j: int| 0 <= j < list.len() ==> !(#[trigger] list[j]).contains('\0')
}

/// Finds the first name that cannot be handed to the API.
pub fn find_bad_name(list: &Vec<String>) -> (r: Option<usize>)
    ensures
        match r {
            Some(i) => first_bad_name(names(list@), i as int),
            None => all_names_clean(names(list@)),
        },
{
    let mut i: usize = 0;
    while i < list.len()
        invariant
            i <= list.len(),
            forall|j: int| 0 <= j < i ==> !(#[trigger] names(list@)[j]).contains('\0'),
        decreases list.len() - i,
    {
        assert(names(list@)[i as int] == list@[i as int]@);
        if has_nul(&list[i]) {
            return Some(i);
        }
        i += 1;
    }
    None
}

/// Plans the instance for API version 1.0: the window's extensions, and with
/// diagnostics on also the diagnostics extension, the validation layers and a
/// callback that receives every message. It fails exactly when an extension
/// name holds a NUL character, and names the first such.
pub fn plan_instance(requested: Vec<String>, diagnostics: bool) -> (r: Result<
    InstancePlan,
    RendererError,
>)
    ensures
        match r {
            Ok(plan) => {
                &&& all_names_clean(planned_instance_extensions(names(requested@), diagnostics))
                &&& plan.api_version == API_VERSION_1_0
                &&& names(plan.extensions@) == planned_instance_extensions(
                    names(requested@),
                    diagnostics,
                )
                &&& names(plan.layers@) == if diagnostics {
                    validation_layer_names()
                } else {
                    Seq::<Seq<char>>::empty()
                }
                &&& plan.debug_messenger == if diagnostics {
                    Some(all_messages())
                } else {
                    None::<DebugMessengerConfig>
                }
            },
            Err(error) => exists|index: usize|
                error == (RendererError::BadExtensionName { index }) && first_bad_name(
                    planned_instance_extensions(names(requested@), diagnostics),
                    index as int,
                ),
        },
{
    let extensions: Vec<String> = instance_extensions(requested, diagnostics);
    match find_bad_name(&extensions) {
        Some(index) => {
            return Err(RendererError::BadExtensionName { index });
        },
        None => {},
    }
    let api_version: u32 = ash::vk::make_api_version(0, 1, 0, 0);
    assert((0u32 << 29) | (1u32 << 22) | (0u32 << 12) | 0u32 == 0x40_0000u32) by (bit_vector);
    let layers: Vec<String> = if diagnostics {
        validation_layers()
    } else {
        let none: Vec<String> = Vec::new();
        assert(names(none@) =~= Seq::<Seq<char>>::empty());
        none
    };
    let debug_messenger: Option<DebugMessengerConfig> = if diagnostics {
        Some(create_debug_info())
    } else {
        None
    };
    Ok(InstancePlan { api_version, extensions, layers, debug_messenger })
}

/// The layers of `requested` that are not among `available`, in the order
/// they were asked for.
pub open spec fn missing_layers(
    requested: Seq<Seq<char>>,
    available: Seq<Seq<char>>,
) -> Seq<Seq<char>> {
    requested.filter(|name: Seq<char>| !available.contains(name))
}

/// Lists the requested layers that the installation does not offer. That any
/// is missing is worth a report and stops nothing.
pub fn check_validation_layers(requested: &Vec<String>, available: &Vec<String>) -> (missing: Vec<
    String,
>)
    ensures
        names(missing@) == missing_layers(names(requested@), names(available@)),
{
    let ghost absent = |name: Seq<char>| !names(available@).contains(name);
    let mut missing: Vec<String> = Vec::new();
    let mut i: usize = 0;
    assert(names(requested@).take(0) =~= Seq::<Seq<char>>::empty());
    assert(names(missing@) =~= Seq::<Seq<char>>::empty());
    assert(Seq::<Seq<char>>::empty().filter(absent) =~= Seq::<Seq<char>>::empty()) by {
        reveal(Seq::filter);
    }
    while i < requested.len()
        invariant
            i <= requested.len(),
            absent == |name: Seq<char>| !names(available@).contains(name),
            names(missing@) == names(requested@).take(i as int).filter(absent),
        decreases requested.len() - i,
    {
        let ghost before = names(requested@).take(i as int);
        let ghost after = names(requested@).take(i + 1);
        assert(after.drop_last() =~= before);
        assert(after.last() == requested@[i as int]@);
        assert(after.filter(absent) == if absent(after.last()) {
            before.filter(absent).push(after.last())
        } else {
            before.filter(absent)
        }) by {
            reveal(Seq::filter);
        }
        if !contains_name(available, &requested[i]) {
            let ghost old_names = names(missing@);
            missing.push(requested[i].clone());
            assert(names(missing@) =~= old_names.push(requested@[i as int]@));
        }
        i += 1;
    }
    assert(names(requested@).take(requested@.len() as int) =~= names(requested@));
    missing
}

/// How loud a log record is.
#[derive(Clone, Copy, Debug, PartialEq, Eq, Structural)]
pub enum LogLevel {
    Trace,
    Info,
    Warn,
    Error,
}

/// The level for a diagnostic of the given severity, a raw
/// `VkDebugUtilsMessageSeverityFlagBitsEXT`: each of the four severities has
/// its level, and anything else has none.
pub open spec fn severity_level(severity: u32) -> Option<LogLevel> {
    if severity == SEVERITY_VERBOSE {
        Some(LogLevel::Trace)
    } else if severity == SEVERITY_INFO {
        Some(LogLevel::Info)
    } else if severity == SEVERITY_WARNING {
        Some(LogLevel::Warn)
    } else if severity == SEVERITY_ERROR {
        Some(LogLevel::Error)
    } else {
        None
    }
}

/// Maps a diagnostic's severity to the level it is logged at.
pub fn classify_severity(severity: u32) -> (r: Option<LogLevel>)
    ensures
        r == severity_level(severity),
{
    if severity == severity_verbose() {
        Some(LogLevel::Trace)
    } else if severity == severity_info() {
        Some(LogLevel::Info)
    } else if severity == severity_warning() {
        Some(LogLevel::Warn)
    } else if severity == severity_error() {
        Some(LogLevel::Error)
    } else {
        None
    }
}

/// A line for the log.
#[derive(Debug)]
pub struct LogRecord {
    pub level: LogLevel,
    pub text: String,
}

/// What is logged of a layer that was asked for and is not installed.
pub open spec fn missing_layer_text(layer: Seq<char>) -> Seq<char> {
    "Validation layer \""@ + layer + "\" is not supported on this device"@
}

/// Builds the log record for a layer that was asked for and is not installed:
/// an error that names the layer.
pub fn missing_layer_record(layer: &str) -> (r: LogRecord)
    ensures
        r.level == LogLevel::Error,
        r.text@ == missing_layer_text(layer@),
{
    let mut text: String = String::from_str("Validation layer \"");
    text.append(layer);
    text.append("\" is not supported on this device");
    LogRecord { level: LogLevel::Error, text }
}

/// The text of a diagnostic whose categories print as `label`.
pub open spec fn diagnostic_text(label: Seq<char>, message: Seq<char>) -> Seq<char> {
    "Vulkan ["@ + label + "]: "@ + message
}

/// What is logged instead of a diagnostic whose severity is none of the four.
pub open spec fn invalid_severity_text() -> Seq<char> {
    "Invalid Vulkan debug message severity"@
}

/// Builds the log record for a diagnostic, given how its categories print: the
/// message at its severity's level, or, where the severity is none of the
/// four, an error that says so.
pub fn diagnostic_record(severity: u32, label: &str, message: &str) -> (r: LogRecord)
    ensures
        match severity_level(severity) {
            Some(level) => r.level == level && r.text@ == diagnostic_text(label@, message@),
            None => r.level == LogLevel::Error && r.text@ == invalid_severity_text(),
        },
{
    match classify_severity(severity) {
        Some(level) => {
            let mut text: String = String::from_str("Vulkan [");
            text.append(label);
            text.append("]: ");
            text.append(message);
            LogRecord { level, text }
        },
        None => LogRecord {
            level: LogLevel::Error,
            text: String::from_str("Invalid Vulkan debug message severity"),
        },
    }
}

/// Builds the log record for a diagnostic of the given severity and
/// categories, a raw `VkDebugUtilsMessageTypeFlagsEXT`.
pub fn vulkan_debug_callback(severity: u32, message_type: u32, message: &str) -> (r: LogRecord)
    ensures
        match severity_level(severity) {
            Some(level) => r.level == level && r.text@ == diagnostic_text(
                message_type_label(message_type),
                message@,
            ),
            None => r.level == LogLevel::Error && r.text@ == invalid_severity_text(),
        },
{
    let label: String = format_message_type(message_type);
    diagnostic_record(severity, label.as_str(), message)
}

} // verus!
