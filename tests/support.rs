use fassoc::text::{ends_with_text, is_representable, replace_text, text_eq};
use fassoc::{check_command, CreateProcessError, NameMap};

#[test]
fn missing_executable() {
    let r = check_command("/opt/tool.exe", false);
    assert!(matches!(r, Err(CreateProcessError::CommandDoesNotExist(ref c)) if c == "/opt/tool.exe"));
}

#[test]
fn executable_needs_exe_extension() {
    let r = check_command("/opt/tool.txt", true);
    assert!(matches!(r, Err(CreateProcessError::CommandNotExecutable(_))));
    let r = check_command("/opt/tool", true);
    assert!(matches!(r, Err(CreateProcessError::CommandNotExecutable(_))));
}

#[test]
fn executable_needs_absolute_path() {
    let r = check_command("bin/tool.exe", true);
    assert!(matches!(r, Err(CreateProcessError::CommandNotAbsolute(_))));
}

#[test]
fn executable_accepted() {
    assert!(check_command("/opt/tool.exe", true).is_ok());
}

#[test]
fn create_process_error_messages() {
    let p = "C:\\x.exe".to_string();
    assert_eq!(
        CreateProcessError::CommandNotExecutable(p.clone()).message(),
        "The command \"C:\\x.exe\" is not executable"
    );
    assert_eq!(
        CreateProcessError::CommandDoesNotExist(p.clone()).message(),
        "The command \"C:\\x.exe\" does not exist"
    );
    assert_eq!(
        CreateProcessError::CommandNotAbsolute(p).message(),
        "The command \"C:\\x.exe\" does not have an absolute path"
    );
}

#[test]
fn name_map_insert_and_get() {
    let mut m: NameMap<u32> = NameMap::new();
    assert_eq!(m.get("a"), None);
    m.insert("a".to_string(), 1);
    m.insert("b".to_string(), 2);
    m.insert("a".to_string(), 3);
    assert_eq!(m.get("a"), Some(&3));
    assert_eq!(m.get("b"), Some(&2));
    assert_eq!(m.get("c"), None);
}

#[test]
fn text_helpers() {
    assert!(text_eq("abc", "abc"));
    assert!(!text_eq("abc", "abd"));
    assert!(!text_eq("abc", "ab"));
    assert!(text_eq("", ""));
    assert!(ends_with_text("tool.exe", "exe"));
    assert!(!ends_with_text("ex", "exe"));
    assert!(is_representable("plain"));
    assert!(!is_representable("a\0b"));
    assert_eq!(replace_text("aaaa", "aa", "b"), "bb");
    assert_eq!(replace_text("abc", "", "x"), "abc");
    assert_eq!(replace_text("héllo wörld", "ö", "o"), "héllo world");
}
