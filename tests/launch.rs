use fassoc::{
    combine_flags, combine_into, flag_bits, Command, CreationExtras, Extras, FassocRules,
    FileContent, FlagGroup, FlagValue, LaunchStep, Matcher, ProcessCreationParameters,
    SecurityAttributes, StartupInformation,
};

fn names(list: &[&str]) -> Vec<FlagValue> {
    list.iter().map(|s| FlagValue::Name(s.to_string())).collect()
}

fn command(path: &str) -> Command {
    Command {
        path: path.to_string(),
        arguments: None,
        cwd: None,
        process_attributes: None,
        thread_attributes: None,
        inherit_handles: None,
        creation_flags: None,
        creation_flags_append: None,
        extras: None,
    }
}

fn extras() -> Extras {
    Extras {
        desktop: None,
        title: None,
        x: None,
        y: None,
        x_size: None,
        y_size: None,
        x_count_chars: None,
        y_count_chars: None,
        fill_attribute: None,
        fill_attribute_append: None,
        flags: None,
        flags_append: None,
        show_window: None,
    }
}

#[test]
fn unknown_creation_flag_contributes_nothing() {
    let mut c = command("C:\\tool.exe");
    c.creation_flags = Some(names(&["CREATE_NO_WINDOW", "UNKNOWN_FLAG"]));
    let p = ProcessCreationParameters::from_rule(&c);
    assert_eq!(p.creation_flags, 0x0800_0000);
}

#[test]
fn flag_mask_ignores_order() {
    let a = names(&["CREATE_NEW_CONSOLE", "CREATE_SUSPENDED", "DEBUG_PROCESS"]);
    let b = names(&["DEBUG_PROCESS", "CREATE_NEW_CONSOLE", "CREATE_SUSPENDED"]);
    let c = names(&["CREATE_SUSPENDED", "DEBUG_PROCESS", "CREATE_NEW_CONSOLE", "DEBUG_PROCESS"]);
    let ma = combine_flags(FlagGroup::Creation, &a);
    assert_eq!(ma, 0x10 | 0x4 | 0x1);
    assert_eq!(combine_flags(FlagGroup::Creation, &b), ma);
    assert_eq!(combine_flags(FlagGroup::Creation, &c), ma);
}

#[test]
fn flag_mask_of_joined_lists_is_or_of_masks() {
    let a = names(&["STARTF_USESIZE", "STARTF_USEPOSITION"]);
    let b = vec![FlagValue::Bits(0x100), FlagValue::Name("STARTF_USESHOWWINDOW".to_string())];
    let mut ab = a.clone();
    ab.extend(b.iter().cloned());
    let g = FlagGroup::StartupFlags;
    assert_eq!(combine_flags(g, &ab), combine_flags(g, &a) | combine_flags(g, &b));
    assert_eq!(combine_flags(g, &ab), 0x2 | 0x4 | 0x100 | 0x1);
}

#[test]
fn raw_bits_and_other_values() {
    let v = vec![FlagValue::Bits(0x1_0000_0010), FlagValue::Other, FlagValue::Bits(0x8)];
    assert_eq!(combine_flags(FlagGroup::Creation, &v), 0x18);
    assert_eq!(combine_flags(FlagGroup::Creation, &Vec::new()), 0);
    assert_eq!(combine_flags(FlagGroup::Creation, &vec![FlagValue::Bits(u64::MAX)]), u32::MAX);
}

#[test]
fn flag_tables() {
    assert_eq!(CreationExtras::cf_flagstr_to_u32("CREATE_BREAKAWAY_FROM_JOB"), Some(0x0100_0000));
    assert_eq!(CreationExtras::cf_flagstr_to_u32("INHERIT_PARENT_AFFINITY"), Some(0x0001_0000));
    assert_eq!(CreationExtras::cf_flagstr_to_u32("create_no_window"), None);
    assert_eq!(StartupInformation::fattr_flagstr_to_u32("BACKGROUND_RED"), Some(0x40));
    assert_eq!(StartupInformation::fattr_flagstr_to_u32("COMMON_LVB_SBCSDBCS"), Some(0x300));
    assert_eq!(StartupInformation::fattr_flagstr_to_u32("CREATE_NO_WINDOW"), None);
    assert_eq!(StartupInformation::siwf_flagstr_to_u32("STARTF_UNTRUSTEDSOURCE"), Some(0x8000));
    assert_eq!(StartupInformation::siwf_flagstr_to_u32(""), None);
    assert_eq!(flag_bits(FlagGroup::ShowWindow, "SW_SHOWDEFAULT"), Some(10));
    assert_eq!(flag_bits(FlagGroup::ShowWindow, "SW_HIDE"), Some(0));
}

#[test]
fn append_or_replace() {
    assert_eq!(combine_into(0b01, Some(0b10), Some(true)), 0b11);
    assert_eq!(combine_into(0b01, Some(0b10), Some(false)), 0b10);
    assert_eq!(combine_into(0b01, Some(0b10), None), 0b10);
    assert_eq!(combine_into(0b01, None, Some(true)), 0b01);
}

#[test]
fn absent_settings_keep_defaults() {
    let p = ProcessCreationParameters::from_rule(&command("C:\\tool.exe"));
    assert_eq!(p.command.as_deref(), Some("C:\\tool.exe"));
    assert_eq!(p.arguments, None);
    assert_eq!(p.cwd, None);
    assert_eq!(p.creation_flags, 0);
    assert!(!p.inherit_handles);
    assert_eq!(p.process_attributes.security_descriptor, 0);
    assert!(!p.thread_attributes.inherit_handle);
    assert_eq!(p.startup_info.x, 0);
    assert_eq!(p.startup_info.title, None);
    assert_eq!(p.startup_info.show_window, 0);
}

#[test]
fn present_settings_are_applied() {
    let mut c = command("C:\\tool.exe");
    c.arguments = Some("--flag".to_string());
    c.cwd = Some("C:\\work".to_string());
    c.inherit_handles = Some(true);
    c.process_attributes =
        Some(SecurityAttributes { security_descriptor: Some(42), inherit_handle: Some(true) });
    c.thread_attributes = Some(SecurityAttributes { security_descriptor: None, inherit_handle: None });
    let mut e = extras();
    e.title = Some("Title".to_string());
    e.desktop = Some("bad\0desk".to_string());
    e.x = Some(10);
    e.y_size = Some(300);
    e.y_count_chars = Some(50);
    e.fill_attribute = Some(vec![
        FlagValue::Name("FOREGROUND_RED".to_string()),
        FlagValue::Name("BACKGROUND_BLUE".to_string()),
    ]);
    e.flags = Some(names(&["STARTF_USESHOWWINDOW", "STARTF_USEPOSITION"]));
    e.flags_append = Some(true);
    e.show_window = Some(vec![FlagValue::Name("SW_SHOWMAXIMIZED".to_string()), FlagValue::Bits(0x1_0004)]);
    c.extras = Some(e);
    let p = ProcessCreationParameters::from_rule(&c);
    assert_eq!(p.arguments.as_deref(), Some("--flag"));
    assert_eq!(p.cwd.as_deref(), Some("C:\\work"));
    assert!(p.inherit_handles);
    assert_eq!(p.process_attributes.security_descriptor, 42);
    assert!(p.process_attributes.inherit_handle);
    assert_eq!(p.thread_attributes.security_descriptor, 0);
    let si = &p.startup_info;
    assert_eq!(si.title.as_deref(), Some("Title"));
    assert_eq!(si.desktop, None);
    assert_eq!(si.x, 10);
    assert_eq!(si.y, 0);
    assert_eq!(si.y_size, 300);
    assert_eq!(si.y_count_chars, 50);
    assert_eq!(si.fill_attribute, 0x4 | 0x10);
    assert_eq!(si.flags, 0x1 | 0x4);
    assert_eq!(si.show_window, 0x7);
}

#[test]
fn arguments_with_nul_are_left_out() {
    let mut c = command("C:\\tool.exe");
    c.arguments = Some("a\0b".to_string());
    c.cwd = Some("\0".to_string());
    let p = ProcessCreationParameters::from_rule(&c);
    assert_eq!(p.arguments, None);
    assert_eq!(p.cwd, None);
    assert_eq!(p.command.as_deref(), Some("C:\\tool.exe"));
}

#[test]
fn command_path_with_nul_is_left_out() {
    let mut c = command("C:\\to\0ol.exe");
    c.arguments = Some("x".to_string());
    let p = ProcessCreationParameters::from_rule(&c);
    assert_eq!(p.command, None);
    assert_eq!(p.arguments.as_deref(), Some("x"));
}

#[test]
fn startup_information_as_native() {
    let mut si = StartupInformation::default();
    si.fill_attribute = Some(0x0F);
    si.fill_attribute_append = Some(true);
    si.flags = Some(0x100);
    si.show_window = Some(3);
    si.stdout_handle = Some(7);
    si.desktop = Some("winsta0\\default".to_string());
    let n = si.as_native();
    assert_eq!(n.fill_attribute, 0x0F);
    assert_eq!(n.flags, 0x100);
    assert_eq!(n.show_window, 3);
    assert_eq!(n.std_output, 7);
    assert_eq!(n.std_input, 0);
    assert_eq!(n.desktop.as_deref(), Some("winsta0\\default"));
}

#[test]
fn creation_extras_as_native() {
    let mut ce = CreationExtras::default();
    ce.creation_flags = Some(0x10);
    ce.creation_flags_append = Some(true);
    ce.environment = Some(99);
    ce.thread_attributes =
        Some(SecurityAttributes { security_descriptor: Some(5), inherit_handle: None });
    let n = ce.as_native();
    assert_eq!(n.creation_flags, 0x10);
    assert_eq!(n.environment, 99);
    assert_eq!(n.thread_attributes.security_descriptor, 5);
    assert!(!n.thread_attributes.inherit_handle);
    assert_eq!(n.startup_info.flags, 0);
    let d = ProcessCreationParameters::default();
    assert_eq!(d.command, None);
    assert_eq!(d.creation_flags, 0);
}

#[test]
fn security_attributes_as_native() {
    let a = SecurityAttributes { security_descriptor: Some(-3), inherit_handle: Some(true) };
    let n = a.as_native();
    assert_eq!(n.security_descriptor, -3);
    assert!(n.inherit_handle);
    let n = SecurityAttributes::default().as_native();
    assert_eq!(n.security_descriptor, 0);
    assert!(!n.inherit_handle);
}

#[test]
fn prepare_launch_expands_placeholders() {
    let mut rules = FassocRules::new();
    rules.mappings.insert("txt".to_string(), vec!["open".to_string()]);
    rules.matchers.insert(
        "open".to_string(),
        Matcher { command: "editor".to_string(), regexf: None, regexc: None },
    );
    let mut c = command("C:\\Editor\\~~$0");
    c.arguments = Some("edit \"~~$1\"".to_string());
    c.cwd = Some("~~$2".to_string());
    let mut e = extras();
    e.title = Some("Editing ~~$1".to_string());
    e.desktop = Some("~~$3".to_string());
    c.extras = Some(e);
    c.creation_flags = Some(names(&["CREATE_NEW_CONSOLE"]));
    rules.commands.insert("editor".to_string(), c);
    let args = vec!["run.exe".to_string(), "C:\\a.txt".to_string(), "C:\\w".to_string()];
    let r = rules.prepare_launch("C:\\a.txt", &args, &Vec::new(), &FileContent::Unread);
    let p = match r {
        Ok(LaunchStep::Ready(p)) => p,
        other => panic!("expected a descriptor, got {:?}", other),
    };
    assert_eq!(p.command.as_deref(), Some("C:\\Editor\\run.exe"));
    assert_eq!(p.arguments.as_deref(), Some("edit \"C:\\a.txt\""));
    assert_eq!(p.cwd.as_deref(), Some("C:\\w"));
    assert_eq!(p.startup_info.title.as_deref(), Some("Editing C:\\a.txt"));
    assert_eq!(p.startup_info.desktop.as_deref(), Some("~~$3"));
    assert_eq!(p.creation_flags, 0x10);
}

#[test]
fn prepare_launch_asks_for_content_and_reports_errors() {
    let mut rules = FassocRules::new();
    rules.mappings.insert("sh".to_string(), vec!["script".to_string()]);
    rules.matchers.insert(
        "script".to_string(),
        Matcher { command: "shell".to_string(), regexf: None, regexc: Some("^#!".to_string()) },
    );
    rules.commands.insert("shell".to_string(), command("sh.exe"));
    let args = vec!["run.exe".to_string()];
    let r = rules.prepare_launch("x.sh", &args, &Vec::new(), &FileContent::Unread);
    assert!(matches!(r, Ok(LaunchStep::NeedsContent)));
    let r = rules.prepare_launch("x.sh", &args, &Vec::new(), &FileContent::Text("#!".to_string()));
    assert!(matches!(r, Ok(LaunchStep::Ready(_))));
    let r = rules.prepare_launch("x.sh", &args, &Vec::new(), &FileContent::Unavailable);
    assert!(matches!(r, Err(fassoc::FindCommandError::NoMatchFound)));
    let r = rules.prepare_launch("x.py", &args, &Vec::new(), &FileContent::Unread);
    assert!(matches!(r, Err(fassoc::FindCommandError::NoMappingFound)));
}

#[test]
fn command_clone_keeps_settings() {
    let mut c = command("a.exe");
    c.arguments = Some("x".to_string());
    c.creation_flags = Some(vec![FlagValue::Bits(3)]);
    let mut e = extras();
    e.title = Some("t".to_string());
    e.show_window = Some(names(&["SW_SHOW"]));
    c.extras = Some(e);
    let d = c.clone();
    assert_eq!(d.path, "a.exe");
    assert_eq!(d.arguments.as_deref(), Some("x"));
    assert_eq!(ProcessCreationParameters::from_rule(&d).creation_flags, 3);
    assert_eq!(ProcessCreationParameters::from_rule(&d).startup_info.show_window, 5);
    assert_eq!(d.extras.unwrap().title.as_deref(), Some("t"));
}
