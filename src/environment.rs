//! The conventions and the host state that directory locations depend on.
use vstd::prelude::*;

verus! {

/// A platform convention for where applications keep their files.
#[derive(Clone, Copy, Debug, PartialEq, Eq, Structural)]
pub enum Convention {
    /// The XDG Base Directory convention of Linux and other Unix-like systems.
    Xdg,
    /// The known-folder convention of Windows.
    Windows,
    /// The standard-directories convention of macOS and iOS.
    Apple,
}

/// The text of an optional string.
pub open spec fn opt_view(o: Option<String>) -> Option<Seq<char>> {
    match o {
        Some(s) => Some(s@),
        None => None,
    }
}

/// A snapshot of the host state, as text.
pub struct EnvironmentView {
    pub home: Option<Seq<char>>,
    pub xdg_config_home: Option<Seq<char>>,
    pub xdg_data_home: Option<Seq<char>>,
    pub xdg_cache_home: Option<Seq<char>>,
    pub xdg_state_home: Option<Seq<char>>,
    pub xdg_runtime_dir: Option<Seq<char>>,
    pub app_data: Option<Seq<char>>,
}

/// What the conventions read from the host: the user's home directory (absent
/// where it cannot be located), the XDG base-directory variables, and the
/// Windows roaming application-data folder. `None` stands for a variable that
/// is not set.
#[derive(Clone, Debug)]
pub struct HostEnvironment {
    pub home: Option<String>,
    pub xdg_config_home: Option<String>,
    pub xdg_data_home: Option<String>,
    pub xdg_cache_home: Option<String>,
    pub xdg_state_home: Option<String>,
    pub xdg_runtime_dir: Option<String>,
    pub app_data: Option<String>,
}

impl View for HostEnvironment {
    type V = EnvironmentView;

    open spec fn view(&self) -> EnvironmentView {
        EnvironmentView {
            home: opt_view(self.home),
            xdg_config_home: opt_view(self.xdg_config_home),
            xdg_data_home: opt_view(self.xdg_data_home),
            xdg_cache_home: opt_view(self.xdg_cache_home),
            xdg_state_home: opt_view(self.xdg_state_home),
            xdg_runtime_dir: opt_view(self.xdg_runtime_dir),
            app_data: opt_view(self.app_data),
        }
    }
}

impl HostEnvironment {
    /// An environment with the given home directory and no variable set.
    pub fn with_home(home: Option<String>) -> (r: HostEnvironment)
        ensures
            r.home == home,
            r.xdg_config_home is None,
            r.xdg_data_home is None,
            r.xdg_cache_home is None,
            r.xdg_state_home is None,
            r.xdg_runtime_dir is None,
            r.app_data is None,
    {
        HostEnvironment {
            home,
            xdg_config_home: None,
            xdg_data_home: None,
            xdg_cache_home: None,
            xdg_state_home: None,
            xdg_runtime_dir: None,
            app_data: None,
        }
    }
}

} // verus!
