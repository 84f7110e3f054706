use usbwatch::install::{install_plan, InstallPlan, EXECUTABLE_MODE};
use usbwatch::Platform;

fn unix_plan() -> InstallPlan {
    InstallPlan {
        base_directory: "/usr/local/bin".to_string(),
        subdirectory: None,
        executable: "usbwatch".to_string(),
        create_directory: false,
        set_mode: true,
        mention_search_path: false,
        remove_empty_directory: false,
    }
}

fn windows_plan(base: &str) -> InstallPlan {
    InstallPlan {
        base_directory: base.to_string(),
        subdirectory: Some("usbwatch".to_string()),
        executable: "usbwatch.exe".to_string(),
        create_directory: true,
        set_mode: false,
        mention_search_path: true,
        remove_empty_directory: true,
    }
}

#[test]
fn unix_installs_into_usr_local_bin() {
    assert_eq!(install_plan(Platform::Linux, None), unix_plan());
    assert_eq!(install_plan(Platform::Macos, None), unix_plan());
    assert_eq!(install_plan(Platform::Other, None), unix_plan());
    assert_eq!(install_plan(Platform::Linux, Some("D:\\Programs".to_string())), unix_plan());
}

#[test]
fn windows_installs_below_program_files() {
    assert_eq!(install_plan(Platform::Windows, None), windows_plan("C:\\Program Files"));
    assert_eq!(
        install_plan(Platform::Windows, Some("D:\\Programs".to_string())),
        windows_plan("D:\\Programs")
    );
    assert_eq!(install_plan(Platform::Windows, Some(String::new())), windows_plan(""));
}

#[test]
fn installed_executable_is_world_readable_and_executable() {
    assert_eq!(EXECUTABLE_MODE, 0o755);
    assert_eq!(EXECUTABLE_MODE, 493);
}
