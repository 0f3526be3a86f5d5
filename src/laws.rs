//! What holds of every resolver, whatever the identity and the host.
use vstd::prelude::*;

use crate::directories::DirectoriesView;
use crate::environment::{Convention, EnvironmentView};
use crate::identity::IdentityView;
use crate::path::joined;

verus! {

/// A joined path is at least as long as each of its two parts.
pub proof fn lemma_joined_len(base: Seq<char>, segment: Seq<char>, sep: char)
    ensures
        joined(base, segment, sep).len() >= base.len(),
        joined(base, segment, sep).len() >= segment.len(),
{
}

/// Resolution is deterministic: two resolvers built from the same
/// convention, host snapshot and identity give the same path for every
/// directory.
pub proof fn lemma_resolution_deterministic(
    convention: Convention,
    env: EnvironmentView,
    identity: IdentityView,
    a: DirectoriesView,
    b: DirectoriesView,
)
    requires
        env.home is Some,
        a == DirectoriesView::resolved(convention, env, identity),
        b == DirectoriesView::resolved(convention, env, identity),
    ensures
        a.home_path() == b.home_path(),
        a.config_path() == b.config_path(),
        a.data_path() == b.data_path(),
        a.cache_path() == b.cache_path(),
        a.state_path() == b.state_path(),
        a.runtime_path() == b.runtime_path(),
{
}

/// Under every convention the configuration, data and cache directories are
/// present, as non-empty paths. The Xdg convention always has a state
/// directory; the Windows and Apple conventions have neither a state nor a
/// runtime directory.
pub proof fn lemma_required_dirs_present(v: DirectoriesView)
    ensures
        v.config_path().len() > 0,
        v.data_path().len() > 0,
        v.cache_path().len() > 0,
        v.convention == Convention::Xdg ==> v.state_path() is Some,
        v.convention != Convention::Xdg ==> v.state_path() is None && v.runtime_path() is None,
{
    reveal_strlit(".config");
    reveal_strlit(".local/share");
    reveal_strlit(".cache");
    reveal_strlit("config");
    reveal_strlit("data");
    reveal_strlit("cache");
    reveal_strlit("Config");
    reveal_strlit("Library/Application Support");
    reveal_strlit("Library/Caches");
    let home = v.home;
    lemma_joined_len(home, ".config"@, '/');
    lemma_joined_len(home, ".local/share"@, '/');
    lemma_joined_len(home, ".cache"@, '/');
    lemma_joined_len(home, "Library/Application Support"@, '/');
    lemma_joined_len(home, "Library/Caches"@, '/');
    let support = joined(home, "Library/Application Support"@, '/');
    lemma_joined_len(support, v.bundle_id, '/');
    lemma_joined_len(joined(home, "Library/Caches"@, '/'), v.bundle_id, '/');
    lemma_joined_len(v.apple_support_path(), "Config"@, '/');
    lemma_joined_len(v.windows_app_path(), "config"@, '\\');
    lemma_joined_len(v.windows_app_path(), "data"@, '\\');
    lemma_joined_len(v.windows_app_path(), "cache"@, '\\');
}

/// The home directory does not depend on the identity: resolvers that differ
/// only in their identity have the same home directory, the one that the host
/// snapshot gives.
pub proof fn lemma_home_independent_of_identity(
    convention: Convention,
    env: EnvironmentView,
    first: IdentityView,
    second: IdentityView,
)
    requires
        env.home is Some,
    ensures
        DirectoriesView::resolved(convention, env, first).home_path()
            == DirectoriesView::resolved(convention, env, second).home_path(),
        DirectoriesView::resolved(convention, env, first).home_path() == env.home->0,
{
}

} // verus!
