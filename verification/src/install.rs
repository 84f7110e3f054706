//! Where the program installs itself.
//!
//! Copying and removing files is the caller's part; which file goes where,
//! and what else has to be done on which platform, is decided here.

use crate::text::{text_of, text_or, unwrap_or_text};
use crate::Platform;
use vstd::prelude::*;

verus! {

/// The permission bits of the installed executable where the platform has
/// such bits: read and execute for all, write for the owner.
pub const EXECUTABLE_MODE: u32 = 0o755;

/// What installing or removing the program involves on one platform.
#[derive(Debug, PartialEq, Eq)]
pub struct InstallPlan {
    /// The directory under which the program is installed.
    pub base_directory: String,
    /// The directory of the program's own below the base directory, where
    /// the platform gives it one.
    pub subdirectory: Option<String>,
    /// The file name of the executable.
    pub executable: String,
    /// Whether the target directory has to be created before the copy.
    pub create_directory: bool,
    /// Whether the copy has to be given the mode [`EXECUTABLE_MODE`].
    pub set_mode: bool,
    /// Whether the user has to be told to add the target directory to the
    /// search path.
    pub mention_search_path: bool,
    /// Whether the target directory is removed on uninstall once it is
    /// empty.
    pub remove_empty_directory: bool,
}

/// The mathematical value of an [`InstallPlan`].
pub struct InstallPlanView {
    pub base_directory: Seq<char>,
    pub subdirectory: Option<Seq<char>>,
    pub executable: Seq<char>,
    pub create_directory: bool,
    pub set_mode: bool,
    pub mention_search_path: bool,
    pub remove_empty_directory: bool,
}

impl View for InstallPlan {
    type V = InstallPlanView;

    open spec fn view(&self) -> InstallPlanView {
        InstallPlanView {
            base_directory: self.base_directory@,
            subdirectory: text_of(self.subdirectory),
            executable: self.executable@,
            create_directory: self.create_directory,
            set_mode: self.set_mode,
            mention_search_path: self.mention_search_path,
            remove_empty_directory: self.remove_empty_directory,
        }
    }
}

/// The plan for `platform`, where `program_files` is the directory that the
/// environment names for installed programs, if it names one.
///
/// On Windows the program goes into a directory `usbwatch` of its own below
/// that directory, or below `C:\Program Files` where the environment names
/// none, under the name `usbwatch.exe`. Everywhere else it goes into
/// `/usr/local/bin` under the name `usbwatch`.
pub open spec fn plan_for(platform: Platform, program_files: Option<Seq<char>>) -> InstallPlanView {
    if platform == Platform::Windows {
        InstallPlanView {
            base_directory: text_or(program_files, "C:\\Program Files"@),
            subdirectory: Some("usbwatch"@),
            executable: "usbwatch.exe"@,
            create_directory: true,
            set_mode: false,
            mention_search_path: true,
            remove_empty_directory: true,
        }
    } else {
        InstallPlanView {
            base_directory: "/usr/local/bin"@,
            subdirectory: None,
            executable: "usbwatch"@,
            create_directory: false,
            set_mode: true,
            mention_search_path: false,
            remove_empty_directory: false,
        }
    }
}

/// Makes the plan for installing or removing the program on `platform`.
pub fn install_plan(platform: Platform, program_files: Option<String>) -> (plan: InstallPlan)
    ensures
        plan@ == plan_for(platform, text_of(program_files)),
{
    match platform {
        Platform::Windows => InstallPlan {
            base_directory: unwrap_or_text(program_files, "C:\\Program Files"),
            subdirectory: Some(String::from_str("usbwatch")),
            executable: String::from_str("usbwatch.exe"),
            create_directory: true,
            set_mode: false,
            mention_search_path: true,
            remove_empty_directory: true,
        },
        _ => InstallPlan {
            base_directory: String::from_str("/usr/local/bin"),
            subdirectory: None,
            executable: String::from_str("usbwatch"),
            create_directory: false,
            set_mode: true,
            mention_search_path: false,
            remove_empty_directory: false,
        },
    }
}

} // verus!
