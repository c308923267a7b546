//! Sandbox policy resolution and command confinement planning.
//!
//! The library models an opt-in sandboxing subsystem: a policy is resolved
//! from CLI flags and environment values, and from it either the whole host
//! process is re-launched under the platform confinement tool, or individual
//! shell commands are wrapped in a confinement tool invocation.

mod ascii;
mod command;
mod launcher;
mod policy;
mod resolve;
mod wrapper;

pub use ascii::canon;
pub use ascii::fold_char;
pub use ascii::fold_seq;
pub use ascii::folded_eq;
pub use ascii::lower;
pub use ascii::lower_char;
pub use ascii::str_eq;

pub use command::append_strings;
pub use command::clone_strings;
pub use command::direct_command;
pub use command::spec_direct_command;
pub use command::CommandSpec;
pub use command::CommandView;
pub use command::ShellConfig;
pub use command::ShellView;

pub use launcher::filter_sandbox_args;
pub use launcher::is_sandbox_flag;
pub use launcher::lemma_filter_removes_flag_and_value;
pub use launcher::lemma_filter_result_flag_free;
pub use launcher::lemma_filter_without_flag_is_identity;
pub use launcher::lemma_sentinel_is_noop;
pub use launcher::permissive_closed_policy;
pub use launcher::permissive_open_policy;
pub use launcher::plan_sandbox_entry;
pub use launcher::seatbelt_relaunch_command;
pub use launcher::spec_data_dir;
pub use launcher::spec_filter_args;
pub use launcher::spec_is_sandbox_flag;
pub use launcher::spec_permissive_closed_policy;
pub use launcher::spec_permissive_open_policy;
pub use launcher::spec_plan;
pub use launcher::spec_requested_method;
pub use launcher::spec_seatbelt_relaunch;
pub use launcher::spec_starts_with_dash;
pub use launcher::spec_state_dir;
pub use launcher::starts_with_dash;
pub use launcher::LaunchPlan;
pub use launcher::PlanView;

pub use policy::lemma_method_render_parse_round_trip;
pub use policy::lemma_profile_parse_case_insensitive;
pub use policy::lemma_profile_render_parse_round_trip;
pub use policy::spec_default_config;
pub use policy::spec_method_name;
pub use policy::spec_parse_method;
pub use policy::spec_parse_profile;
pub use policy::spec_profile_filename;
pub use policy::spec_profile_name;
pub use policy::spec_profile_variant_name;
pub use policy::SandboxConfig;
pub use policy::SandboxMethod;
pub use policy::SeatbeltProfile;

pub use resolve::lemma_cli_overrides_env;
pub use resolve::lemma_unsupported_platform_stays_disabled;
pub use resolve::parse_sandbox_config;
pub use resolve::parse_sandbox_config_from_env;
pub use resolve::spec_apply_cli_method;
pub use resolve::spec_apply_env_method;
pub use resolve::spec_apply_platform_default;
pub use resolve::spec_apply_profile;
pub use resolve::spec_resolve;

pub use wrapper::method_available;
pub use wrapper::spec_error_message;
pub use wrapper::spec_method_available;
pub use wrapper::spec_profile_asset_path;
pub use wrapper::spec_result_view;
pub use wrapper::spec_seatbelt_command;
pub use wrapper::spec_seatbelt_wrap;
pub use wrapper::spec_status_info;
pub use wrapper::spec_wrap_command;
pub use wrapper::ErrorView;
pub use wrapper::SandboxError;
pub use wrapper::SandboxWrapper;
pub use wrapper::WrapperView;
