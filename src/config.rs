//! The application's configuration: one value, built once from what the
//! platform reports, and handed to every part that needs a directory.
use vstd::prelude::*;

use crate::text::{join_path, joined, same_text};

verus! {

pub const APP_NAME: &'static str = "Yad";

/// The application's directories and names.
#[derive(Clone, Debug)]
pub struct Config {
    /// The operating system: Windows, Linux or Darwin (macOS).
    pub os: String,
    /// The logged-in user.
    pub user: String,
    /// Where finished files go, usually ~/Downloads/Yad.
    pub download_dir: String,
    /// Where the application keeps its data.
    pub config_dir: String,
    /// Where temporary files go.
    pub tmp_dir: String,
    /// The name of the database file.
    pub db_name: String,
}

pub open spec fn config_dir_for(os: Seq<char>, home: Seq<char>) -> Seq<char> {
    if os == "Windows"@ {
        joined(joined(joined(home, "AppData"@), "Local"@), APP_NAME@)
    } else if os == "Darwin"@ {
        joined(joined(joined(home, "Library"@), "Application Support"@), APP_NAME@)
    } else if os == "Linux"@ {
        joined(joined(home, ".config"@), APP_NAME@)
    } else {
        "~/"@
    }
}

pub open spec fn tmp_dir_for(os: Seq<char>, home: Seq<char>) -> Seq<char> {
    if os == "Windows"@ {
        joined(joined(joined(joined(home, "AppData"@), "Local"@), "Temp"@), APP_NAME@)
    } else {
        joined("/tmp"@, APP_NAME@)
    }
}

pub open spec fn download_dir_for(home: Seq<char>) -> Seq<char> {
    joined(joined(home, "Downloads"@), APP_NAME@)
}

impl Config {
    /// The configuration for a user `user` whose home directory is `home_dir`
    /// on the operating system `os`.
    pub fn for_platform(os: &str, user: &str, home_dir: &str) -> (r: Config)
        ensures
            r.os@ == os@,
            r.user@ == user@,
            r.config_dir@ == config_dir_for(os@, home_dir@),
            r.tmp_dir@ == tmp_dir_for(os@, home_dir@),
            r.download_dir@ == download_dir_for(home_dir@),
            r.db_name@ == APP_NAME@ + ".db"@,
    {
        let config_dir = if same_text(os, "Windows") {
            let a = join_path(home_dir, "AppData");
            let b = join_path(a.as_str(), "Local");
            join_path(b.as_str(), APP_NAME)
        } else if same_text(os, "Darwin") {
            let a = join_path(home_dir, "Library");
            let b = join_path(a.as_str(), "Application Support");
            join_path(b.as_str(), APP_NAME)
        } else if same_text(os, "Linux") {
            let a = join_path(home_dir, ".config");
            join_path(a.as_str(), APP_NAME)
        } else {
            String::from_str("~/")
        };
        let tmp_dir = if same_text(os, "Windows") {
            let a = join_path(home_dir, "AppData");
            let b = join_path(a.as_str(), "Local");
            let c = join_path(b.as_str(), "Temp");
            join_path(c.as_str(), APP_NAME)
        } else {
            join_path("/tmp", APP_NAME)
        };
        let d = join_path(home_dir, "Downloads");
        let download_dir = join_path(d.as_str(), APP_NAME);
        let mut db_name = String::from_str(APP_NAME);
        db_name.append(".db");
        Config {
            os: String::from_str(os),
            user: String::from_str(user),
            download_dir,
            config_dir,
            tmp_dir,
            db_name,
        }
    }
}

} // verus!
