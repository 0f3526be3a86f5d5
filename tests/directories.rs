use bevy_etcetera::directories::{locate_home_dir, Directories, DirectoryError};
use bevy_etcetera::environment::{Convention, HostEnvironment};
use bevy_etcetera::identity::AppIdentity;
use bevy_etcetera::path::{join, Separator};

fn env_with_home(home: &str) -> HostEnvironment {
    HostEnvironment::with_home(Some(home.to_string()))
}

fn foo(convention: Convention, env: HostEnvironment) -> Directories {
    Directories::new(convention, env, "com".to_string(), "doomy".to_string(), "Foo".to_string())
}

fn cool_game(convention: Convention, env: HostEnvironment) -> Directories {
    Directories::new(
        convention,
        env,
        "com".to_string(),
        "doomy".to_string(),
        "Cool Bevy Game".to_string(),
    )
}

#[test]
fn join_adds_one_separator() {
    assert_eq!(join("/tmp/cfg", "Foo", Separator::Slash), "/tmp/cfg/Foo");
    assert_eq!(join("/tmp/cfg/", "Foo", Separator::Slash), "/tmp/cfg/Foo");
    assert_eq!(join("", "Foo", Separator::Slash), "Foo");
    assert_eq!(join("C:\\Users", "u", Separator::Backslash), "C:\\Users\\u");
    assert_eq!(join("C:\\Users\\", "u", Separator::Backslash), "C:\\Users\\u");
}

#[test]
fn xdg_config_from_variable() {
    let mut env = env_with_home("/home/u");
    env.xdg_config_home = Some("/tmp/cfg".to_string());
    assert_eq!(foo(Convention::Xdg, env).config_dir(), "/tmp/cfg/Foo");
}

#[test]
fn xdg_config_under_home_without_variable() {
    let d = foo(Convention::Xdg, env_with_home("/home/u"));
    assert_eq!(d.config_dir(), "/home/u/.config/Foo");
}

#[test]
fn xdg_defaults_under_home() {
    let d = foo(Convention::Xdg, env_with_home("/home/u"));
    assert_eq!(d.data_dir(), "/home/u/.local/share/Foo");
    assert_eq!(d.cache_dir(), "/home/u/.cache/Foo");
    assert_eq!(d.state_dir(), Some("/home/u/.local/state/Foo".to_string()));
}

#[test]
fn xdg_variables_override_defaults() {
    let mut env = env_with_home("/home/u");
    env.xdg_data_home = Some("/srv/data".to_string());
    env.xdg_cache_home = Some("/var/cache/".to_string());
    env.xdg_state_home = Some("/srv/state".to_string());
    let d = foo(Convention::Xdg, env);
    assert_eq!(d.data_dir(), "/srv/data/Foo");
    assert_eq!(d.cache_dir(), "/var/cache/Foo");
    assert_eq!(d.state_dir(), Some("/srv/state/Foo".to_string()));
}

#[test]
fn xdg_relative_variable_is_ignored() {
    let mut env = env_with_home("/home/u");
    env.xdg_config_home = Some("relative/cfg".to_string());
    env.xdg_runtime_dir = Some("run".to_string());
    let d = foo(Convention::Xdg, env);
    assert_eq!(d.config_dir(), "/home/u/.config/Foo");
    assert_eq!(d.runtime_dir(), None);
}

#[test]
fn xdg_runtime_dir_follows_variable() {
    let d = foo(Convention::Xdg, env_with_home("/home/u"));
    assert_eq!(d.runtime_dir(), None);
    let mut env = env_with_home("/home/u");
    env.xdg_runtime_dir = Some("/run/user/1000".to_string());
    let d = foo(Convention::Xdg, env);
    assert_eq!(d.runtime_dir(), Some("/run/user/1000/Foo".to_string()));
}

#[test]
fn missing_home_refuses_construction() {
    let r = Directories::try_new(
        Convention::Xdg,
        HostEnvironment::with_home(None),
        "com".to_string(),
        "doomy".to_string(),
        "Foo".to_string(),
    );
    assert_eq!(r.err(), Some(DirectoryError::HomeNotFound));
    let identity = AppIdentity::new("com".to_string(), "doomy".to_string(), "Foo".to_string());
    let r = Directories::from_parts(
        Convention::Apple,
        HostEnvironment::with_home(None),
        identity,
        "com.doomy.Foo".to_string(),
    );
    assert_eq!(r.err(), Some(DirectoryError::HomeNotFound));
}

#[test]
fn try_new_with_home_succeeds() {
    let r = Directories::try_new(
        Convention::Xdg,
        env_with_home("/home/u"),
        "com".to_string(),
        "doomy".to_string(),
        "Foo".to_string(),
    );
    let d = r.expect("a home directory was given");
    assert_eq!(d.home_dir(), "/home/u");
    assert_eq!(d.config_dir(), "/home/u/.config/Foo");
}

#[test]
fn home_dir_is_independent_of_identity() {
    for convention in [Convention::Xdg, Convention::Windows, Convention::Apple] {
        let a = foo(convention, env_with_home("/home/u"));
        let b = Directories::new(
            convention,
            env_with_home("/home/u"),
            "org".to_string(),
            "Acme Corp".to_string(),
            "Frobnicator Plus".to_string(),
        );
        assert_eq!(a.home_dir(), "/home/u");
        assert_eq!(a.home_dir(), b.home_dir());
    }
}

#[test]
fn accessors_are_deterministic() {
    for convention in [Convention::Xdg, Convention::Windows, Convention::Apple] {
        let mut env = env_with_home("/home/u");
        env.xdg_runtime_dir = Some("/run/user/1000".to_string());
        let a = cool_game(convention, env.clone());
        let b = cool_game(convention, env);
        assert_eq!(a.config_dir(), a.config_dir());
        assert_eq!(a.config_dir(), b.config_dir());
        assert_eq!(a.data_dir(), b.data_dir());
        assert_eq!(a.cache_dir(), b.cache_dir());
        assert_eq!(a.state_dir(), b.state_dir());
        assert_eq!(a.runtime_dir(), b.runtime_dir());
        assert_eq!(a.home_dir(), b.home_dir());
    }
}

#[test]
fn windows_and_apple_have_no_state_or_runtime_dir() {
    for convention in [Convention::Windows, Convention::Apple] {
        let mut env = env_with_home("/home/u");
        env.xdg_state_home = Some("/srv/state".to_string());
        env.xdg_runtime_dir = Some("/run/user/1000".to_string());
        let d = foo(convention, env);
        assert_eq!(d.state_dir(), None);
        assert_eq!(d.runtime_dir(), None);
        assert!(!d.config_dir().is_empty());
        assert!(!d.data_dir().is_empty());
        assert!(!d.cache_dir().is_empty());
    }
}

#[test]
fn windows_paths_under_known_folder() {
    let mut env = env_with_home("C:\\Users\\u");
    env.app_data = Some("C:\\Users\\u\\AppData\\Roaming".to_string());
    let d = cool_game(Convention::Windows, env);
    assert_eq!(d.config_dir(), "C:\\Users\\u\\AppData\\Roaming\\doomy\\Cool Bevy Game\\config");
    assert_eq!(d.data_dir(), "C:\\Users\\u\\AppData\\Roaming\\doomy\\Cool Bevy Game\\data");
    assert_eq!(d.cache_dir(), "C:\\Users\\u\\AppData\\Roaming\\doomy\\Cool Bevy Game\\cache");
}

#[test]
fn windows_paths_fall_back_under_home() {
    let mut env = env_with_home("C:\\Users\\u");
    env.app_data = Some(String::new());
    let d = cool_game(Convention::Windows, env);
    assert_eq!(d.data_dir(), "C:\\Users\\u\\AppData\\Roaming\\doomy\\Cool Bevy Game\\data");
}

#[test]
fn bundle_id_joins_identity() {
    let identity = AppIdentity::new(
        "org".to_string(),
        "Acme Corp".to_string(),
        "Frobnicator Plus".to_string(),
    );
    assert_eq!(identity.bundle_id(), "org.acme-corp.Frobnicator-Plus");
}

#[test]
fn apple_paths_use_bundle_id() {
    let d = cool_game(Convention::Apple, env_with_home("/Users/u"));
    assert_eq!(
        d.config_dir(),
        "/Users/u/Library/Application Support/com.doomy.Cool-Bevy-Game/Config"
    );
    assert_eq!(d.data_dir(), "/Users/u/Library/Application Support/com.doomy.Cool-Bevy-Game");
    assert_eq!(d.cache_dir(), "/Users/u/Library/Caches/com.doomy.Cool-Bevy-Game");
}

#[test]
fn from_parts_keeps_given_bundle_id() {
    let identity = AppIdentity::new("com".to_string(), "doomy".to_string(), "Foo".to_string());
    let d = Directories::from_parts(
        Convention::Apple,
        env_with_home("/Users/u"),
        identity,
        "io.example.Foo".to_string(),
    )
    .expect("a home directory was given");
    assert_eq!(d.data_dir(), "/Users/u/Library/Application Support/io.example.Foo");
}

#[test]
fn get_returns_convention() {
    for convention in [Convention::Xdg, Convention::Windows, Convention::Apple] {
        assert_eq!(foo(convention, env_with_home("/home/u")).get(), convention);
    }
}

#[test]
fn locate_home_dir_reports_only_home_not_found() {
    match locate_home_dir() {
        Ok(home) => assert!(!home.is_empty()),
        Err(e) => assert_eq!(e, DirectoryError::HomeNotFound),
    }
}
