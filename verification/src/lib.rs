//! Safe, verified core of a wrapper around the Windows Subsystem for Linux
//! management API (`wslapi.h`).
//!
//! The crate separates the logic of the wrapper - argument validation,
//! wide-string marshaling, status-code classification, environment-variable
//! buffer parsing, and the launch/join decision rules - from the platform
//! calls that carry it out. Everything here works on plain values and is
//! verified; a thin platform layer is expected to perform the actual native
//! calls and hand their raw outcomes to the functions in this crate.

mod configuration;
mod error;
mod flags;
mod library;
mod process;
mod registry;
mod render;
mod stdio;
mod wide;

pub use configuration::entry_content;
pub use configuration::key_of;
pub use configuration::lemma_entry_content_prefix;
pub use configuration::lemma_split_at_first_equals;
pub use configuration::lemma_split_no_equals;
pub use configuration::value_of;
pub use configuration::Configuration;
pub use configuration::EnvironmentVariables;
pub use configuration::EnvironmentVariablesIter;
pub use error::classify_hresult;
pub use error::hr2ek;
pub use error::hresult_code;
pub use error::hresult_facility;
pub use error::hresult_failed;
pub use error::hresult_from_win32;
pub use error::win32_hresult;
pub use error::succeeded;
pub use error::Error;
pub use error::ErrorKind;
pub use error::E_INVALIDARG;
pub use error::FACILITY_WIN32;
pub use flags::flags_debug_chars;
pub use flags::flags_parts;
pub use flags::joined;
pub use flags::named_parts;
pub use flags::WSL_DISTRIBUTION_FLAGS;
pub use library::bool_chars;
pub use library::bool_from_native;
pub use library::command_args;
pub use library::conversion_message;
pub use library::finish_configuration;
pub use library::finish_launch;
pub use library::finish_launch_interactive;
pub use library::finish_status;
pub use library::invalid_name_message;
pub use library::plan_command;
pub use library::plan_is_distribution_registered;
pub use library::plan_name_only;
pub use library::plan_register_distribution;
pub use library::quoted;
pub use library::register_args;
pub use library::status_message;
pub use library::stream_conversion_error;
pub use library::CommandPlan;
pub use process::close_error_message;
pub use process::wait_error_message;
pub use process::ExitStatus;
pub use process::JoinOutcome;
pub use process::Process;
pub use registry::enum_step;
pub use registry::EnumStep;
pub use registry::ERROR_NO_MORE_ITEMS;
pub use registry::ERROR_SUCCESS;
pub use render::dec_chars;
pub use render::dec_digit;
pub use render::hex_chars;
pub use render::hex_digit;
pub use render::hex_digit_lower;
pub use render::hex_fixed_chars;
pub use render::lemma_dec_chars_injective;
pub use render::lemma_dec_chars_len;
pub use stdio::lemma_temp_names_distinct;
pub use stdio::temp_name_chars;
pub use stdio::Stdio;
pub use wide::contains_zero_unit;
pub use wide::encode_utf16;
pub use wide::encode_wide;
pub use wide::has_nul;
pub use wide::lemma_encode_zero_iff_nul;
pub use wide::terminate;
pub use wide::utf16_units;
pub use wide::wide_nul;
