//! The launch-configuration builder.
//!
//! A command's sparse, optional settings become a dense descriptor of how to
//! create the process. The native structures are modelled here with plain
//! values; every field starts from its native default (zero, no string, no
//! inheritance) and only the settings that are present change it. Building
//! never fails: an unknown flag name contributes nothing, and a string that
//! cannot be passed to the operating system (it holds a NUL character) is
//! left out.

use vstd::prelude::*;
use crate::flags::{
    FlagGroup, FlagValue, combine_flags, combined_bits, creation_flag_bits, creation_flag_value,
    fill_attribute_bits, fill_attribute_flag_value, startup_flag_bits, startup_flag_value,
};
use crate::paths::{path_extension, path_file_name};
use crate::placeholders::{subst_arg_placeholders, substituted};
use crate::rules::{
    Command, Extras, FassocRules, FileContent, FindCommandError, Resolution, SecurityAttributes, Step,
    clone_text,
};
use crate::text::{is_representable, representable};

verus! {

pub open spec fn or_else<T>(o: Option<T>, default: T) -> T {
    match o {
        Some(v) => v,
        None => default,
    }
}

/// A bit-set value applied to a native field: OR-ed onto the field when
/// `append` is set, replacing it otherwise. An absent value leaves the field
/// as it is.
pub open spec fn apply_bits(current: u32, value: Option<u32>, append: Option<bool>) -> u32 {
    match value {
        None => current,
        Some(v) => if append == Some(true) {
            current | v
        } else {
            v
        },
    }
}

/// Applies a bit-set value to a native field; see [`apply_bits`].
pub fn combine_into(current: u32, value: Option<u32>, append: Option<bool>) -> (r: u32)
    ensures
        r == apply_bits(current, value, append),
{
    match value {
        None => current,
        Some(v) => if append == Some(true) {
            current | v
        } else {
            v
        },
    }
}

/// An optional string as the native structure can hold it: left out when it
/// holds a NUL character.
pub open spec fn kept_text(o: Option<String>) -> Option<String> {
    match o {
        Some(s) => if representable(s@) {
            Some(s)
        } else {
            None
        },
        None => None,
    }
}

fn keep_text(o: &Option<String>) -> (r: Option<String>)
    ensures
        r == kept_text(*o),
{
    match o {
        Some(s) => if is_representable(s.as_str()) {
            Some(s.clone())
        } else {
            None
        },
        None => None,
    }
}

/// The mask of an optional flag list.
pub open spec fn combined_opt(group: FlagGroup, o: Option<Vec<FlagValue>>) -> Option<u32> {
    match o {
        Some(v) => Some(combined_bits(group, v@)),
        None => None,
    }
}

fn combine_opt(group: FlagGroup, o: &Option<Vec<FlagValue>>) -> (r: Option<u32>)
    ensures
        r == combined_opt(group, *o),
{
    match o {
        Some(v) => Some(combine_flags(group, v)),
        None => None,
    }
}

/// Security attributes as the process-creation call takes them.
#[derive(Clone, Copy, Debug, PartialEq, Eq, Structural)]
pub struct NativeSecurityAttributes {
    /// The address of the security descriptor; 0 for none.
    pub security_descriptor: isize,
    pub inherit_handle: bool,
}

pub open spec fn no_security() -> NativeSecurityAttributes {
    NativeSecurityAttributes { security_descriptor: 0, inherit_handle: false }
}

impl Default for NativeSecurityAttributes {
    fn default() -> (r: Self)
        ensures
            r == no_security(),
    {
        NativeSecurityAttributes { security_descriptor: 0, inherit_handle: false }
    }
}

/// Startup information as the process-creation call takes it.
#[derive(Debug)]
pub struct NativeStartupInfo {
    pub desktop: Option<String>,
    pub title: Option<String>,
    pub x: u32,
    pub y: u32,
    pub x_size: u32,
    pub y_size: u32,
    pub x_count_chars: u32,
    pub y_count_chars: u32,
    pub fill_attribute: u32,
    pub flags: u32,
    pub show_window: u16,
    pub std_input: isize,
    pub std_output: isize,
    pub std_error: isize,
}

pub open spec fn blank_startup() -> NativeStartupInfo {
    NativeStartupInfo {
        desktop: None,
        title: None,
        x: 0,
        y: 0,
        x_size: 0,
        y_size: 0,
        x_count_chars: 0,
        y_count_chars: 0,
        fill_attribute: 0,
        flags: 0,
        show_window: 0,
        std_input: 0,
        std_output: 0,
        std_error: 0,
    }
}

impl Default for NativeStartupInfo {
    fn default() -> (r: Self)
        ensures
            r == blank_startup(),
    {
        NativeStartupInfo {
            desktop: None,
            title: None,
            x: 0,
            y: 0,
            x_size: 0,
            y_size: 0,
            x_count_chars: 0,
            y_count_chars: 0,
            fill_attribute: 0,
            flags: 0,
            show_window: 0,
            std_input: 0,
            std_output: 0,
            std_error: 0,
        }
    }
}

/// Everything but the command line that the process-creation call takes.
#[derive(Debug)]
pub struct NativeCreationExtras {
    pub process_attributes: NativeSecurityAttributes,
    pub thread_attributes: NativeSecurityAttributes,
    pub inherit_handles: bool,
    pub creation_flags: u32,
    /// The address of the environment block; 0 for the caller's own.
    pub environment: isize,
    pub startup_info: NativeStartupInfo,
}

pub open spec fn blank_creation() -> NativeCreationExtras {
    NativeCreationExtras {
        process_attributes: no_security(),
        thread_attributes: no_security(),
        inherit_handles: false,
        creation_flags: 0,
        environment: 0,
        startup_info: blank_startup(),
    }
}

impl Default for NativeCreationExtras {
    fn default() -> (r: Self)
        ensures
            r == blank_creation(),
    {
        NativeCreationExtras {
            process_attributes: NativeSecurityAttributes::default(),
            thread_attributes: NativeSecurityAttributes::default(),
            inherit_handles: false,
            creation_flags: 0,
            environment: 0,
            startup_info: NativeStartupInfo::default(),
        }
    }
}

pub open spec fn security_native(a: SecurityAttributes) -> NativeSecurityAttributes {
    let d = no_security();
    NativeSecurityAttributes {
        security_descriptor: or_else(a.security_descriptor, d.security_descriptor),
        inherit_handle: or_else(a.inherit_handle, d.inherit_handle),
    }
}

impl Default for SecurityAttributes {
    fn default() -> (r: Self)
        ensures
            r.security_descriptor is None,
            r.inherit_handle is None,
    {
        SecurityAttributes { security_descriptor: None, inherit_handle: None }
    }
}

impl SecurityAttributes {
    /// The native form: the descriptor and the inheritance flag as given,
    /// the defaults where absent.
    pub fn as_native(&self) -> (r: NativeSecurityAttributes)
        ensures
            r == security_native(*self),
    {
        let mut sa = NativeSecurityAttributes::default();
        if let Some(sd) = self.security_descriptor {
            sa.security_descriptor = sd;
        }
        if let Some(ih) = self.inherit_handle {
            sa.inherit_handle = ih;
        }
        sa
    }
}

/// Startup settings with every bit set already combined into its mask.
#[derive(Debug)]
pub struct StartupInformation {
    pub desktop: Option<String>,
    pub title: Option<String>,
    pub x: Option<u32>,
    pub y: Option<u32>,
    pub x_size: Option<u32>,
    pub y_size: Option<u32>,
    pub x_count_chars: Option<u32>,
    pub y_count_chars: Option<u32>,
    pub fill_attribute: Option<u32>,
    pub fill_attribute_append: Option<bool>,
    pub flags: Option<u32>,
    pub flags_append: Option<bool>,
    pub show_window: Option<u16>,
    pub stdin_handle: Option<isize>,
    pub stdout_handle: Option<isize>,
    pub stderr_handle: Option<isize>,
}

pub open spec fn startup_native(si: StartupInformation) -> NativeStartupInfo {
    let d = blank_startup();
    NativeStartupInfo {
        desktop: kept_text(si.desktop),
        title: kept_text(si.title),
        x: or_else(si.x, d.x),
        y: or_else(si.y, d.y),
        x_size: or_else(si.x_size, d.x_size),
        y_size: or_else(si.y_size, d.y_size),
        x_count_chars: or_else(si.x_count_chars, d.x_count_chars),
        y_count_chars: or_else(si.y_count_chars, d.y_count_chars),
        fill_attribute: apply_bits(d.fill_attribute, si.fill_attribute, si.fill_attribute_append),
        flags: apply_bits(d.flags, si.flags, si.flags_append),
        show_window: or_else(si.show_window, d.show_window),
        std_input: or_else(si.stdin_handle, d.std_input),
        std_output: or_else(si.stdout_handle, d.std_output),
        std_error: or_else(si.stderr_handle, d.std_error),
    }
}

/// The startup settings of a command's extras: each flag list combined
/// into its mask, the show-window commands combined and kept to 16 bits.
pub open spec fn startup_of_extras(e: Extras) -> StartupInformation {
    StartupInformation {
        desktop: e.desktop,
        title: e.title,
        x: e.x,
        y: e.y,
        x_size: e.x_size,
        y_size: e.y_size,
        x_count_chars: e.x_count_chars,
        y_count_chars: e.y_count_chars,
        fill_attribute: combined_opt(FlagGroup::FillAttribute, e.fill_attribute),
        fill_attribute_append: e.fill_attribute_append,
        flags: combined_opt(FlagGroup::StartupFlags, e.flags),
        flags_append: e.flags_append,
        show_window: match e.show_window {
            Some(v) => Some((combined_bits(FlagGroup::ShowWindow, v@) & 0xFFFFu32) as u16),
            None => None,
        },
        stdin_handle: None,
        stdout_handle: None,
        stderr_handle: None,
    }
}

impl Default for StartupInformation {
    fn default() -> (r: Self)
        ensures
            r == (StartupInformation {
                desktop: None,
                title: None,
                x: None,
                y: None,
                x_size: None,
                y_size: None,
                x_count_chars: None,
                y_count_chars: None,
                fill_attribute: None,
                fill_attribute_append: None,
                flags: None,
                flags_append: None,
                show_window: None,
                stdin_handle: None,
                stdout_handle: None,
                stderr_handle: None,
            }),
    {
        StartupInformation {
            desktop: None,
            title: None,
            x: None,
            y: None,
            x_size: None,
            y_size: None,
            x_count_chars: None,
            y_count_chars: None,
            fill_attribute: None,
            fill_attribute_append: None,
            flags: None,
            flags_append: None,
            show_window: None,
            stdin_handle: None,
            stdout_handle: None,
            stderr_handle: None,
        }
    }
}

impl StartupInformation {
    /// The bit value of a console fill-attribute name.
    pub fn fattr_flagstr_to_u32(flagstr: &str) -> (r: Option<u32>)
        ensures
            r == fill_attribute_bits(flagstr@),
    {
        fill_attribute_flag_value(flagstr)
    }

    /// The bit value of a startup-information flag name.
    pub fn siwf_flagstr_to_u32(flagstr: &str) -> (r: Option<u32>)
        ensures
            r == startup_flag_bits(flagstr@),
    {
        startup_flag_value(flagstr)
    }

    /// The startup settings of a command's extras; see [`startup_of_extras`].
    pub fn from_extras(e: &Extras) -> (r: Self)
        ensures
            r == startup_of_extras(*e),
    {
        let show_window = match &e.show_window {
            Some(v) => Some((combine_flags(FlagGroup::ShowWindow, v) & 0xFFFFu32) as u16),
            None => None,
        };
        StartupInformation {
            desktop: clone_text(&e.desktop),
            title: clone_text(&e.title),
            x: e.x,
            y: e.y,
            x_size: e.x_size,
            y_size: e.y_size,
            x_count_chars: e.x_count_chars,
            y_count_chars: e.y_count_chars,
            fill_attribute: combine_opt(FlagGroup::FillAttribute, &e.fill_attribute),
            fill_attribute_append: e.fill_attribute_append,
            flags: combine_opt(FlagGroup::StartupFlags, &e.flags),
            flags_append: e.flags_append,
            show_window,
            stdin_handle: None,
            stdout_handle: None,
            stderr_handle: None,
        }
    }

    /// The native startup information: the default, with each present
    /// setting applied.
    pub fn as_native(&self) -> (r: NativeStartupInfo)
        ensures
            r == startup_native(*self),
    {
        let mut si = NativeStartupInfo::default();
        si.desktop = keep_text(&self.desktop);
        si.title = keep_text(&self.title);
        if let Some(x) = self.x {
            si.x = x;
        }
        if let Some(y) = self.y {
            si.y = y;
        }
        if let Some(x_size) = self.x_size {
            si.x_size = x_size;
        }
        if let Some(y_size) = self.y_size {
            si.y_size = y_size;
        }
        if let Some(x_count_chars) = self.x_count_chars {
            si.x_count_chars = x_count_chars;
        }
        if let Some(y_count_chars) = self.y_count_chars {
            si.y_count_chars = y_count_chars;
        }
        si.fill_attribute = combine_into(
            si.fill_attribute,
            self.fill_attribute,
            self.fill_attribute_append,
        );
        si.flags = combine_into(si.flags, self.flags, self.flags_append);
        if let Some(sw) = self.show_window {
            si.show_window = sw;
        }
        if let Some(h) = self.stdin_handle {
            si.std_input = h;
        }
        if let Some(h) = self.stdout_handle {
            si.std_output = h;
        }
        if let Some(h) = self.stderr_handle {
            si.std_error = h;
        }
        si
    }
}

/// Process-creation settings with every bit set already combined into its
/// mask.
#[derive(Debug)]
pub struct CreationExtras {
    pub process_attributes: Option<SecurityAttributes>,
    pub thread_attributes: Option<SecurityAttributes>,
    pub inherit_handles: Option<bool>,
    pub creation_flags: Option<u32>,
    pub creation_flags_append: Option<bool>,
    pub environment: Option<isize>,
    pub startup_info: Option<StartupInformation>,
}

pub open spec fn creation_native(c: CreationExtras) -> NativeCreationExtras {
    let d = blank_creation();
    NativeCreationExtras {
        process_attributes: match c.process_attributes {
            Some(a) => security_native(a),
            None => d.process_attributes,
        },
        thread_attributes: match c.thread_attributes {
            Some(a) => security_native(a),
            None => d.thread_attributes,
        },
        inherit_handles: or_else(c.inherit_handles, d.inherit_handles),
        creation_flags: apply_bits(d.creation_flags, c.creation_flags, c.creation_flags_append),
        environment: or_else(c.environment, d.environment),
        startup_info: match c.startup_info {
            Some(si) => startup_native(si),
            None => d.startup_info,
        },
    }
}

/// The process-creation settings of a command.
pub open spec fn creation_of_command(rule: Command) -> CreationExtras {
    CreationExtras {
        process_attributes: rule.process_attributes,
        thread_attributes: rule.thread_attributes,
        inherit_handles: rule.inherit_handles,
        creation_flags: combined_opt(FlagGroup::Creation, rule.creation_flags),
        creation_flags_append: rule.creation_flags_append,
        environment: None,
        startup_info: match rule.extras {
            Some(e) => Some(startup_of_extras(e)),
            None => None,
        },
    }
}

impl Default for CreationExtras {
    fn default() -> (r: Self)
        ensures
            r == (CreationExtras {
                process_attributes: None,
                thread_attributes: None,
                inherit_handles: None,
                creation_flags: None,
                creation_flags_append: None,
                environment: None,
                startup_info: None,
            }),
    {
        CreationExtras {
            process_attributes: None,
            thread_attributes: None,
            inherit_handles: None,
            creation_flags: None,
            creation_flags_append: None,
            environment: None,
            startup_info: None,
        }
    }
}

impl CreationExtras {
    /// The bit value of a process creation flag name.
    pub fn cf_flagstr_to_u32(flagstr: &str) -> (r: Option<u32>)
        ensures
            r == creation_flag_bits(flagstr@),
    {
        creation_flag_value(flagstr)
    }

    /// The process-creation settings of a command; see
    /// [`creation_of_command`].
    pub fn from_command(rule: &Command) -> (r: Self)
        ensures
            r == creation_of_command(*rule),
    {
        let startup_info = match &rule.extras {
            Some(e) => Some(StartupInformation::from_extras(e)),
            None => None,
        };
        CreationExtras {
            process_attributes: rule.process_attributes,
            thread_attributes: rule.thread_attributes,
            inherit_handles: rule.inherit_handles,
            creation_flags: combine_opt(FlagGroup::Creation, &rule.creation_flags),
            creation_flags_append: rule.creation_flags_append,
            environment: None,
            startup_info,
        }
    }

    /// The native process-creation settings: the default, with each present
    /// setting applied.
    pub fn as_native(&self) -> (r: NativeCreationExtras)
        ensures
            r == creation_native(*self),
    {
        let mut np = NativeCreationExtras::default();
        if let Some(pa) = &self.process_attributes {
            np.process_attributes = pa.as_native();
        }
        if let Some(ta) = &self.thread_attributes {
            np.thread_attributes = ta.as_native();
        }
        if let Some(ih) = self.inherit_handles {
            np.inherit_handles = ih;
        }
        np.creation_flags = combine_into(
            np.creation_flags,
            self.creation_flags,
            self.creation_flags_append,
        );
        if let Some(e) = self.environment {
            np.environment = e;
        }
        if let Some(si) = &self.startup_info {
            np.startup_info = si.as_native();
        }
        np
    }
}

/// The complete launch descriptor of a command.
#[derive(Debug)]
pub struct ProcessCreationParameters {
    /// The executable; none when its path holds a NUL character.
    pub command: Option<String>,
    pub arguments: Option<String>,
    pub cwd: Option<String>,
    pub process_attributes: NativeSecurityAttributes,
    pub thread_attributes: NativeSecurityAttributes,
    pub inherit_handles: bool,
    pub creation_flags: u32,
    pub environment: isize,
    pub startup_info: NativeStartupInfo,
}

/// The launch descriptor of a command: its executable path, arguments and
/// working directory where they can be passed on (a string holding a NUL
/// character is left out), and the native form of its process-creation
/// settings.
pub open spec fn launch_descriptor(rule: Command) -> ProcessCreationParameters {
    let n = creation_native(creation_of_command(rule));
    ProcessCreationParameters {
        command: kept_text(Some(rule.path)),
        arguments: kept_text(rule.arguments),
        cwd: kept_text(rule.cwd),
        process_attributes: n.process_attributes,
        thread_attributes: n.thread_attributes,
        inherit_handles: n.inherit_handles,
        creation_flags: n.creation_flags,
        environment: n.environment,
        startup_info: n.startup_info,
    }
}

impl Default for ProcessCreationParameters {
    fn default() -> (r: Self)
        ensures
            r.command is None,
            r.arguments is None,
            r.cwd is None,
            r.process_attributes == no_security(),
            r.thread_attributes == no_security(),
            !r.inherit_handles,
            r.creation_flags == 0,
            r.environment == 0,
            r.startup_info == blank_startup(),
    {
        ProcessCreationParameters {
            command: None,
            arguments: None,
            cwd: None,
            process_attributes: NativeSecurityAttributes::default(),
            thread_attributes: NativeSecurityAttributes::default(),
            inherit_handles: false,
            creation_flags: 0,
            environment: 0,
            startup_info: NativeStartupInfo::default(),
        }
    }
}

impl ProcessCreationParameters {
    /// The launch descriptor of a command; see [`launch_descriptor`].
    pub fn from_rule(rule: &Command) -> (r: ProcessCreationParameters)
        ensures
            r == launch_descriptor(*rule),
    {
        let native = CreationExtras::from_command(rule).as_native();
        ProcessCreationParameters {
            command: if is_representable(rule.path.as_str()) {
                Some(rule.path.clone())
            } else {
                None
            },
            arguments: keep_text(&rule.arguments),
            cwd: keep_text(&rule.cwd),
            process_attributes: native.process_attributes,
            thread_attributes: native.thread_attributes,
            inherit_handles: native.inherit_handles,
            creation_flags: native.creation_flags,
            environment: native.environment,
            startup_info: native.startup_info,
        }
    }
}


/// What preparing a launch yields.
#[derive(Debug)]
pub enum LaunchStep {
    /// The descriptor to hand to the process-creation call.
    Ready(ProcessCreationParameters),
    /// The file's content is needed to choose the command: read it once and
    /// prepare again.
    NeedsContent,
}

impl FassocRules {
    /// Resolves the file at `file_path` to a command, expands the command's
    /// placeholders with the invocation arguments and named bindings, and
    /// builds its launch descriptor.
    pub fn prepare_launch(
        &self,
        file_path: &str,
        args: &Vec<String>,
        named: &Vec<(String, String)>,
        content: &FileContent,
    ) -> (r: Result<LaunchStep, FindCommandError>)
        ensures
            match path_file_name(file_path@) {
                None => r matches Err(FindCommandError::CannotConvertPath),
                Some(f) => match self.resolve_spec(f, path_extension(file_path@), *content) {
                    Err(e) => r == Err::<LaunchStep, FindCommandError>(e),
                    Ok(Step::NeedsContent) => r matches Ok(LaunchStep::NeedsContent),
                    Ok(Step::Found(c)) => r matches Ok(LaunchStep::Ready(p)) && exists|cmd: Command|
                        substituted(c, cmd, args@, named@) && p == #[trigger] launch_descriptor(cmd),
                    Ok(Step::Miss) => false,
                },
            },
    {
        match self.find_suitable_command(file_path, content) {
            Err(e) => Err(e),
            Ok(Resolution::NeedsContent) => Ok(LaunchStep::NeedsContent),
            Ok(Resolution::Found(c)) => {
                let cmd = subst_arg_placeholders(c, args, named);
                let p = ProcessCreationParameters::from_rule(&cmd);
                assert(substituted(*c, cmd, args@, named@) && p == launch_descriptor(cmd));
                Ok(LaunchStep::Ready(p))
            },
        }
    }
}

} // verus!
