use fassoc::{flag_bits, FlagGroup};
use windows::Win32::System::Console as con;
use windows::Win32::System::Threading as th;
use windows::Win32::UI::WindowsAndMessaging as wm;

#[test]
fn creation_flag_table_matches_win32() {
    let table = [
        ("CREATE_BREAKAWAY_FROM_JOB", th::CREATE_BREAKAWAY_FROM_JOB),
        ("CREATE_DEFAULT_ERROR_MODE", th::CREATE_DEFAULT_ERROR_MODE),
        ("CREATE_NEW_CONSOLE", th::CREATE_NEW_CONSOLE),
        ("CREATE_NEW_PROCESS_GROUP", th::CREATE_NEW_PROCESS_GROUP),
        ("CREATE_NO_WINDOW", th::CREATE_NO_WINDOW),
        ("CREATE_PROTECTED_PROCESS", th::CREATE_PROTECTED_PROCESS),
        ("CREATE_PRESERVE_CODE_AUTHZ_LEVEL", th::CREATE_PRESERVE_CODE_AUTHZ_LEVEL),
        ("CREATE_SECURE_PROCESS", th::CREATE_SECURE_PROCESS),
        ("CREATE_SEPARATE_WOW_VDM", th::CREATE_SEPARATE_WOW_VDM),
        ("CREATE_SHARED_WOW_VDM", th::CREATE_SHARED_WOW_VDM),
        ("CREATE_SUSPENDED", th::CREATE_SUSPENDED),
        ("CREATE_UNICODE_ENVIRONMENT", th::CREATE_UNICODE_ENVIRONMENT),
        ("DEBUG_ONLY_THIS_PROCESS", th::DEBUG_ONLY_THIS_PROCESS),
        ("DEBUG_PROCESS", th::DEBUG_PROCESS),
        ("DETACHED_PROCESS", th::DETACHED_PROCESS),
        ("EXTENDED_STARTUPINFO_PRESENT", th::EXTENDED_STARTUPINFO_PRESENT),
        ("INHERIT_PARENT_AFFINITY", th::INHERIT_PARENT_AFFINITY),
    ];
    for (name, value) in table {
        assert_eq!(flag_bits(FlagGroup::Creation, name), Some(value.0), "{}", name);
    }
}

#[test]
fn fill_attribute_table_matches_win32() {
    let table = [
        ("FOREGROUND_BLUE", con::FOREGROUND_BLUE),
        ("FOREGROUND_RED", con::FOREGROUND_RED),
        ("FOREGROUND_GREEN", con::FOREGROUND_GREEN),
        ("BACKGROUND_BLUE", con::BACKGROUND_BLUE),
        ("BACKGROUND_RED", con::BACKGROUND_RED),
        ("BACKGROUND_GREEN", con::BACKGROUND_GREEN),
        ("BACKGROUND_INTENSITY", con::BACKGROUND_INTENSITY),
        ("FOREGROUND_INTENSITY", con::FOREGROUND_INTENSITY),
        ("COMMON_LVB_LEADING_BYTE", con::COMMON_LVB_LEADING_BYTE),
        ("COMMON_LVB_TRAILING_BYTE", con::COMMON_LVB_TRAILING_BYTE),
        ("COMMON_LVB_GRID_HORIZONTAL", con::COMMON_LVB_GRID_HORIZONTAL),
        ("COMMON_LVB_GRID_LVERTICAL", con::COMMON_LVB_GRID_LVERTICAL),
        ("COMMON_LVB_GRID_RVERTICAL", con::COMMON_LVB_GRID_RVERTICAL),
        ("COMMON_LVB_REVERSE_VIDEO", con::COMMON_LVB_REVERSE_VIDEO),
        ("COMMON_LVB_UNDERSCORE", con::COMMON_LVB_UNDERSCORE),
        ("COMMON_LVB_SBCSDBCS", con::COMMON_LVB_SBCSDBCS),
    ];
    for (name, value) in table {
        assert_eq!(flag_bits(FlagGroup::FillAttribute, name), Some(value.0 as u32), "{}", name);
    }
}

#[test]
fn startup_flag_table_matches_win32() {
    let table = [
        ("STARTF_FORCEONFEEDBACK", th::STARTF_FORCEONFEEDBACK),
        ("STARTF_FORCEOFFFEEDBACK", th::STARTF_FORCEOFFFEEDBACK),
        ("STARTF_PREVENTPINNING", th::STARTF_PREVENTPINNING),
        ("STARTF_RUNFULLSCREEN", th::STARTF_RUNFULLSCREEN),
        ("STARTF_TITLEISAPPID", th::STARTF_TITLEISAPPID),
        ("STARTF_TITLEISLINKNAME", th::STARTF_TITLEISLINKNAME),
        ("STARTF_UNTRUSTEDSOURCE", th::STARTF_UNTRUSTEDSOURCE),
        ("STARTF_USECOUNTCHARS", th::STARTF_USECOUNTCHARS),
        ("STARTF_USEFILLATTRIBUTE", th::STARTF_USEFILLATTRIBUTE),
        ("STARTF_USEHOTKEY", th::STARTF_USEHOTKEY),
        ("STARTF_USEPOSITION", th::STARTF_USEPOSITION),
        ("STARTF_USESHOWWINDOW", th::STARTF_USESHOWWINDOW),
        ("STARTF_USESIZE", th::STARTF_USESIZE),
        ("STARTF_USESTDHANDLES", th::STARTF_USESTDHANDLES),
    ];
    for (name, value) in table {
        assert_eq!(flag_bits(FlagGroup::StartupFlags, name), Some(value.0), "{}", name);
    }
}

#[test]
fn show_window_table_matches_win32() {
    let table = [
        ("SW_HIDE", wm::SW_HIDE),
        ("SW_MAXIMIZE", wm::SW_MAXIMIZE),
        ("SW_MINIMIZE", wm::SW_MINIMIZE),
        ("SW_RESTORE", wm::SW_RESTORE),
        ("SW_SHOW", wm::SW_SHOW),
        ("SW_SHOWDEFAULT", wm::SW_SHOWDEFAULT),
        ("SW_SHOWMAXIMIZED", wm::SW_SHOWMAXIMIZED),
        ("SW_SHOWMINIMIZED", wm::SW_SHOWMINIMIZED),
        ("SW_SHOWMINNOACTIVE", wm::SW_SHOWMINNOACTIVE),
        ("SW_SHOWNA", wm::SW_SHOWNA),
        ("SW_SHOWNOACTIVATE", wm::SW_SHOWNOACTIVATE),
        ("SW_SHOWNORMAL", wm::SW_SHOWNORMAL),
    ];
    for (name, value) in table {
        assert_eq!(flag_bits(FlagGroup::ShowWindow, name), Some(value.0), "{}", name);
    }
}
