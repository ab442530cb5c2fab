//! Resolves a target file to a command through a tiered rule set, and turns
//! the chosen command into a complete process-launch descriptor.

pub mod text;
pub mod flags;
pub mod pattern;
pub mod paths;
pub mod table;
pub mod rules;
pub mod placeholders;
pub mod launch;
pub mod process;

pub use flags::{FlagGroup, FlagValue, combine_flags, flag_bits};
pub use launch::{
    CreationExtras, LaunchStep, NativeCreationExtras, NativeSecurityAttributes, NativeStartupInfo,
    ProcessCreationParameters, StartupInformation, combine_into,
};
pub use placeholders::{expand_placeholders, subst_arg_placeholders};
pub use process::{CreateProcessError, check_command};
pub use rules::{
    Command, Extras, FassocRules, FileContent, FindCommandError, Matcher, MatcherError,
    Resolution, SecurityAttributes, Tier,
};
pub use table::NameMap;
