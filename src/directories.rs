//! The resolver of per-application directories.
use vstd::prelude::*;

use crate::environment::{opt_view, Convention, EnvironmentView, HostEnvironment};
use crate::identity::{AppIdentity, IdentityView};
use crate::path::{join, joined, Separator};

verus! {

/// Why a resolver could not be built.
#[derive(Clone, Copy, Debug, PartialEq, Eq, Structural)]
pub enum DirectoryError {
    /// The current user's home directory could not be located.
    HomeNotFound,
}

#[verifier::external_type_specification]
#[verifier::external_body]
pub struct ExHomeDirError(etcetera::HomeDirError);

/// Relies on etcetera's `home_dir`: the current user's home directory, or its
/// `HomeDirError` where none can be located. What it returns depends on the
/// host alone, so nothing is stated of it.
#[verifier::external_body]
fn etcetera_home_dir() -> (r: Result<String, etcetera::HomeDirError>) {
    match etcetera::home_dir() {
        Ok(p) => Ok(p.to_string_lossy().into_owned()),
        Err(e) => Err(e),
    }
}

/// Locates the current user's home directory on this host.
pub fn locate_home_dir() -> (r: Result<String, DirectoryError>)
    ensures
        r is Err ==> r == Err::<String, DirectoryError>(DirectoryError::HomeNotFound),
{
    match etcetera_home_dir() {
        Ok(h) => Ok(h),
        Err(_) => Err(DirectoryError::HomeNotFound),
    }
}

/// A path is absolute under the Xdg convention when it starts at the root.
pub open spec fn is_absolute_unix(p: Seq<char>) -> bool {
    p.len() > 0 && p[0] == '/'
}

/// An Xdg base directory: the variable where it is set to an absolute path,
/// else `fallback` under the home directory.
pub open spec fn xdg_base_path(var: Option<Seq<char>>, home: Seq<char>, fallback: Seq<char>) -> Seq<char> {
    if var is Some && is_absolute_unix(var->0) {
        var->0
    } else {
        joined(home, fallback, '/')
    }
}

/// The Windows roaming application-data folder: the known folder where it is
/// given and not empty, else `AppData\Roaming` under the home directory.
pub open spec fn roaming_path(app_data: Option<Seq<char>>, home: Seq<char>) -> Seq<char> {
    if app_data is Some && app_data->0.len() > 0 {
        app_data->0
    } else {
        joined(joined(home, "AppData"@, '\\'), "Roaming"@, '\\')
    }
}

/// What a resolver holds: the convention, the home directory, the host
/// snapshot, the identity and its reverse-domain identifier.
pub struct DirectoriesView {
    pub convention: Convention,
    pub home: Seq<char>,
    pub env: EnvironmentView,
    pub identity: IdentityView,
    pub bundle_id: Seq<char>,
}

impl DirectoriesView {
    /// The resolver that the given convention, host snapshot and identity
    /// determine, once the home directory is known.
    pub open spec fn resolved(convention: Convention, env: EnvironmentView, identity: IdentityView) -> DirectoriesView
        recommends
            env.home is Some,
    {
        DirectoriesView {
            convention,
            home: env.home->0,
            env,
            identity,
            bundle_id: identity.bundle_id(),
        }
    }

    pub open spec fn home_path(self) -> Seq<char> {
        self.home
    }

    /// `author\app_name` under the roaming folder.
    pub open spec fn windows_app_path(self) -> Seq<char> {
        joined(
            joined(roaming_path(self.env.app_data, self.home), self.identity.author, '\\'),
            self.identity.app_name,
            '\\',
        )
    }

    /// `Library/Application Support/<bundle id>` under the home directory.
    pub open spec fn apple_support_path(self) -> Seq<char> {
        joined(joined(self.home, "Library/Application Support"@, '/'), self.bundle_id, '/')
    }

    pub open spec fn config_path(self) -> Seq<char> {
        match self.convention {
            Convention::Xdg => joined(
                xdg_base_path(self.env.xdg_config_home, self.home, ".config"@),
                self.identity.app_name,
                '/',
            ),
            Convention::Windows => joined(self.windows_app_path(), "config"@, '\\'),
            Convention::Apple => joined(self.apple_support_path(), "Config"@, '/'),
        }
    }

    pub open spec fn data_path(self) -> Seq<char> {
        match self.convention {
            Convention::Xdg => joined(
                xdg_base_path(self.env.xdg_data_home, self.home, ".local/share"@),
                self.identity.app_name,
                '/',
            ),
            Convention::Windows => joined(self.windows_app_path(), "data"@, '\\'),
            Convention::Apple => self.apple_support_path(),
        }
    }

    pub open spec fn cache_path(self) -> Seq<char> {
        match self.convention {
            Convention::Xdg => joined(
                xdg_base_path(self.env.xdg_cache_home, self.home, ".cache"@),
                self.identity.app_name,
                '/',
            ),
            Convention::Windows => joined(self.windows_app_path(), "cache"@, '\\'),
            Convention::Apple => joined(
                joined(self.home, "Library/Caches"@, '/'),
                self.bundle_id,
                '/',
            ),
        }
    }

    /// Only the Xdg convention has a state directory.
    pub open spec fn state_path(self) -> Option<Seq<char>> {
        match self.convention {
            Convention::Xdg => Some(
                joined(
                    xdg_base_path(self.env.xdg_state_home, self.home, ".local/state"@),
                    self.identity.app_name,
                    '/',
                ),
            ),
            _ => None,
        }
    }

    /// Only the Xdg convention has a runtime directory, and only where its
    /// variable is set to an absolute path.
    pub open spec fn runtime_path(self) -> Option<Seq<char>> {
        match self.convention {
            Convention::Xdg => {
                let var = self.env.xdg_runtime_dir;
                if var is Some && is_absolute_unix(var->0) {
                    Some(joined(var->0, self.identity.app_name, '/'))
                } else {
                    None
                }
            },
            _ => None,
        }
    }
}

/// Resolves the standard directories of one application under one
/// convention. It is immutable once built: every accessor derives its path
/// from what was given at construction, and touches no file.
#[derive(Clone, Debug)]
pub struct Directories {
    convention: Convention,
    home: String,
    env: HostEnvironment,
    identity: AppIdentity,
    bundle_id: String,
}

impl View for Directories {
    type V = DirectoriesView;

    closed spec fn view(&self) -> DirectoriesView {
        DirectoriesView {
            convention: self.convention,
            home: self.home@,
            env: self.env@,
            identity: self.identity@,
            bundle_id: self.bundle_id@,
        }
    }
}

/// Whether `p` starts at the root.
fn is_absolute_unix_exec(p: &String) -> (r: bool)
    ensures
        r == is_absolute_unix(p@),
{
    p.unicode_len() > 0 && p.as_str().get_char(0) == '/'
}

/// The Xdg base directory for `var`, falling back to `fallback` under `home`.
fn xdg_base(var: &Option<String>, home: &String, fallback: &str) -> (r: String)
    ensures
        r@ == xdg_base_path(opt_view(*var), home@, fallback@),
{
    match var {
        Some(v) if is_absolute_unix_exec(v) => v.clone(),
        _ => join(home.as_str(), fallback, Separator::Slash),
    }
}

impl Directories {
    /// Builds the resolver from a reverse-domain identifier already derived
    /// from `identity`.
    pub fn from_parts(
        convention: Convention,
        env: HostEnvironment,
        identity: AppIdentity,
        bundle_id: String,
    ) -> (r: Result<Directories, DirectoryError>)
        ensures
            env@.home is None ==> r == Err::<Directories, DirectoryError>(DirectoryError::HomeNotFound),
            env@.home is Some ==> r is Ok && r->Ok_0@ == (DirectoriesView {
                convention,
                home: env@.home->0,
                env: env@,
                identity: identity@,
                bundle_id: bundle_id@,
            }),
    {
        match &env.home {
            Some(h) => {
                let home = h.clone();
                Ok(Directories { convention, home, env, identity, bundle_id })
            },
            None => Err(DirectoryError::HomeNotFound),
        }
    }

    /// Builds the resolver, or reports that the home directory is unknown.
    pub fn try_new(
        convention: Convention,
        env: HostEnvironment,
        top_level_domain: String,
        author: String,
        app_name: String,
    ) -> (r: Result<Directories, DirectoryError>)
        ensures
            r is Err <==> env@.home is None,
            r is Err ==> r == Err::<Directories, DirectoryError>(DirectoryError::HomeNotFound),
            r is Ok ==> r->Ok_0@ == DirectoriesView::resolved(
                convention,
                env@,
                IdentityView { top_level_domain: top_level_domain@, author: author@, app_name: app_name@ },
            ),
    {
        let identity = AppIdentity::new(top_level_domain, author, app_name);
        let bundle_id = identity.bundle_id();
        Directories::from_parts(convention, env, identity, bundle_id)
    }

    /// Builds the resolver. Where the home directory cannot be located no
    /// resolver can be built: that case is left to `try_new`.
    pub fn new(
        convention: Convention,
        env: HostEnvironment,
        top_level_domain: String,
        author: String,
        app_name: String,
    ) -> (r: Directories)
        requires
            env.home is Some,
        ensures
            r@ == DirectoriesView::resolved(
                convention,
                env@,
                IdentityView { top_level_domain: top_level_domain@, author: author@, app_name: app_name@ },
            ),
    {
        match Directories::try_new(convention, env, top_level_domain, author, app_name) {
            Ok(d) => d,
            Err(_) => vstd::pervasive::unreached(),
        }
    }

    /// The home directory of the user.
    pub fn home_dir(&self) -> (r: &str)
        ensures
            r@ == self@.home_path(),
    {
        self.home.as_str()
    }

    /// `author\app_name` under the Windows roaming folder.
    fn windows_app_dir(&self) -> (r: String)
        ensures
            r@ == self@.windows_app_path(),
    {
        let roaming = match &self.env.app_data {
            Some(a) if a.unicode_len() > 0 => a.clone(),
            _ => {
                let app_data = join(self.home.as_str(), "AppData", Separator::Backslash);
                join(app_data.as_str(), "Roaming", Separator::Backslash)
            },
        };
        let author = join(roaming.as_str(), self.identity.author.as_str(), Separator::Backslash);
        join(author.as_str(), self.identity.app_name.as_str(), Separator::Backslash)
    }

    /// `Library/Application Support/<bundle id>` under the home directory.
    fn apple_support_dir(&self) -> (r: String)
        ensures
            r@ == self@.apple_support_path(),
    {
        let support = join(self.home.as_str(), "Library/Application Support", Separator::Slash);
        join(support.as_str(), self.bundle_id.as_str(), Separator::Slash)
    }

    /// The configuration directory of the application.
    pub fn config_dir(&self) -> (r: String)
        ensures
            r@ == self@.config_path(),
    {
        match self.convention {
            Convention::Xdg => {
                let base = xdg_base(&self.env.xdg_config_home, &self.home, ".config");
                join(base.as_str(), self.identity.app_name.as_str(), Separator::Slash)
            },
            Convention::Windows => {
                let app = self.windows_app_dir();
                join(app.as_str(), "config", Separator::Backslash)
            },
            Convention::Apple => {
                let support = self.apple_support_dir();
                join(support.as_str(), "Config", Separator::Slash)
            },
        }
    }

    /// The persistent-data directory of the application.
    pub fn data_dir(&self) -> (r: String)
        ensures
            r@ == self@.data_path(),
    {
        match self.convention {
            Convention::Xdg => {
                let base = xdg_base(&self.env.xdg_data_home, &self.home, ".local/share");
                join(base.as_str(), self.identity.app_name.as_str(), Separator::Slash)
            },
            Convention::Windows => {
                let app = self.windows_app_dir();
                join(app.as_str(), "data", Separator::Backslash)
            },
            Convention::Apple => self.apple_support_dir(),
        }
    }

    /// The cache directory of the application.
    pub fn cache_dir(&self) -> (r: String)
        ensures
            r@ == self@.cache_path(),
    {
        match self.convention {
            Convention::Xdg => {
                let base = xdg_base(&self.env.xdg_cache_home, &self.home, ".cache");
                join(base.as_str(), self.identity.app_name.as_str(), Separator::Slash)
            },
            Convention::Windows => {
                let app = self.windows_app_dir();
                join(app.as_str(), "cache", Separator::Backslash)
            },
            Convention::Apple => {
                let caches = join(self.home.as_str(), "Library/Caches", Separator::Slash);
                join(caches.as_str(), self.bundle_id.as_str(), Separator::Slash)
            },
        }
    }

    /// The state directory of the application, where the convention has one.
    pub fn state_dir(&self) -> (r: Option<String>)
        ensures
            opt_view(r) == self@.state_path(),
    {
        match self.convention {
            Convention::Xdg => {
                let base = xdg_base(&self.env.xdg_state_home, &self.home, ".local/state");
                Some(join(base.as_str(), self.identity.app_name.as_str(), Separator::Slash))
            },
            _ => None,
        }
    }

    /// The runtime directory of the application, where the convention has
    /// one and the host provides it.
    pub fn runtime_dir(&self) -> (r: Option<String>)
        ensures
            opt_view(r) == self@.runtime_path(),
    {
        match self.convention {
            Convention::Xdg => match &self.env.xdg_runtime_dir {
                Some(v) if is_absolute_unix_exec(v) => {
                    Some(join(v.as_str(), self.identity.app_name.as_str(), Separator::Slash))
                },
                _ => None,
            },
            _ => None,
        }
    }

    /// The convention that this resolver follows.
    pub fn get(&self) -> (r: Convention)
        ensures
            r == self@.convention,
    {
        self.convention
    }
}

} // verus!
