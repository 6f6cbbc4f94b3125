use std::path::Path;

use kubernation::config::{ColorMode, Config};
use kubernation::paths::{layout_file_name, layout_path, layouts_dir, log_dir, path_join, StateEnv};

fn env() -> StateEnv {
    StateEnv { xdg_state_home: Some("/var/state".to_string()), local_app_data: None, home: Some("/home/u".to_string()) }
}

#[test]
fn defaults_are_sane() {
    let c = Config::default();
    assert_eq!(c.tick_ms(), 250);
    assert_eq!(c.color, ColorMode::Auto);
}

#[test]
fn a_partial_config_keeps_its_fields_and_defaults_the_rest() {
    let c = Config { tick_ms: Some(100), color: ColorMode::Mono, ..Config::default() };
    assert_eq!(c.tick_ms(), 100);
    assert_eq!(c.color, ColorMode::Mono);
    assert!(!c.attention_expanded);
}

#[test]
fn the_tick_is_clamped_into_its_range() {
    let low = Config { tick_ms: Some(1), ..Config::default() };
    assert_eq!(low.tick_ms(), 50);
    let high = Config { tick_ms: Some(1_000_000), ..Config::default() };
    assert_eq!(high.tick_ms(), 5000);
    let zero = Config { tick_ms: Some(0), ..Config::default() };
    assert_eq!(zero.tick_ms(), 50);
    let edge = Config { tick_ms: Some(5000), ..Config::default() };
    assert_eq!(edge.tick_ms(), 5000);
    let edge_low = Config { tick_ms: Some(50), ..Config::default() };
    assert_eq!(edge_low.tick_ms(), 50);
}

#[test]
fn a_context_name_becomes_one_path_safe_file() {
    let env = env();
    let dir = layouts_dir(&env);
    let arn = "arn:aws:eks:eu-west-1:123456789012:cluster/prod";
    let p = layout_path(&env, arn);
    let p = Path::new(&p);
    assert_eq!(p.parent(), Some(Path::new(&dir)));
    let name = p.file_name().unwrap().to_str().unwrap();
    assert!(!name.contains('/'), "{name}");
    assert!(!name.contains(':'), "{name}");
    assert!(name.ends_with(".json"));

    let q = layout_path(&env, "../../etc/passwd");
    let q = Path::new(&q);
    assert_eq!(q.parent(), Some(Path::new(&dir)));
    assert_eq!(q.components().count(), Path::new(&dir).components().count() + 1);

    let dots = layout_path(&env, "..");
    assert_eq!(Path::new(&dots).file_name().unwrap().to_str().unwrap(), "unnamed.json");

    let slashes = layout_path(&env, "///");
    assert_eq!(Path::new(&slashes).file_name().unwrap().to_str().unwrap(), "___.json");
}

#[test]
fn two_similar_context_names_do_not_share_a_file() {
    let env = env();
    assert_ne!(layout_path(&env, "prod-eu"), layout_path(&env, "prod-us"));
    assert_ne!(layout_path(&env, "kind-a"), layout_path(&env, "kind-b"));
}

#[test]
fn the_state_directories_follow_xdg_then_home_then_cwd() {
    let xdg = env();
    assert_eq!(log_dir(&xdg), "/var/state/kubernation");
    assert_eq!(layouts_dir(&xdg), "/var/state/kubernation/layouts");

    let home = StateEnv { xdg_state_home: None, local_app_data: None, home: Some("/home/u".to_string()) };
    assert_eq!(log_dir(&home), "/home/u/.local/state/kubernation");
    assert_eq!(layouts_dir(&home), "/home/u/.local/state/kubernation/layouts");

    let none = StateEnv { xdg_state_home: None, local_app_data: None, home: None };
    assert_eq!(log_dir(&none), "./kubernation");
    assert_eq!(layouts_dir(&none), "./layouts");
}

#[test]
fn path_join_follows_the_unix_push_rule() {
    assert_eq!(path_join("/a", "b"), "/a/b");
    assert_eq!(path_join("/a/", "b"), "/a/b");
    assert_eq!(path_join("/a", "/b"), "/b");
    assert_eq!(path_join("", "b"), "b");
    assert_eq!(path_join("a", ""), "a/");
}

#[test]
fn layout_file_names_keep_clean_names_and_trim_dots() {
    assert_eq!(layout_file_name("kind-a"), "kind-a.json");
    assert_eq!(layout_file_name("..hidden.."), "hidden.json");
    assert_eq!(layout_file_name(""), "unnamed.json");
    assert_eq!(layout_file_name("a b:c"), "a_b_c.json");
    assert_eq!(layout_file_name("ümlaut"), "_mlaut.json");
}

#[test]
fn a_layout_path_sits_directly_in_the_layouts_directory() {
    let env = env();
    assert_eq!(layout_path(&env, "prod"), "/var/state/kubernation/layouts/prod.json");
}

#[test]
fn local_app_data_comes_after_xdg_and_before_home() {
    let win = StateEnv {
        xdg_state_home: None,
        local_app_data: Some("/appdata".to_string()),
        home: Some("/home/u".to_string()),
    };
    assert_eq!(log_dir(&win), "/appdata/kubernation");
    assert_eq!(layouts_dir(&win), "/appdata/kubernation/layouts");
    let xdg = StateEnv { local_app_data: Some("/appdata".to_string()), ..env() };
    assert_eq!(log_dir(&xdg), "/var/state/kubernation");
}
