use pylib::{
    append_venv_bin_path, build_env, command_path, find_python_mod_dir, marker_file_name,
    mod_diagnostic, override_file_name, pip_command_args, resolve_venv, str_eq, trim_ascii,
    venv_cfg_file_name, venv_create_override, venv_diagnostic, venv_dir_name, AbsPath, Env,
    Platform,
};

fn path(parts: &[&str]) -> AbsPath {
    AbsPath { components: parts.iter().map(|s| s.to_string()).collect() }
}

fn env_of(pairs: &[(&str, &str)]) -> Env {
    Env { pairs: pairs.iter().map(|(k, v)| (k.to_string(), v.to_string())).collect() }
}

fn strings(parts: &[&str]) -> Vec<String> {
    parts.iter().map(|s| s.to_string()).collect()
}

#[test]
fn locates_closest_marked_ancestor() {
    let cwd = path(&["a", "b", "c"]);
    // marker_at[k] describes the ancestor of k components: /, /a, /a/b, /a/b/c
    let found = find_python_mod_dir(&cwd, &vec![false, true, false, false]);
    assert_eq!(found.unwrap().components, strings(&["a"]));
    let found = find_python_mod_dir(&cwd, &vec![false, true, true, false]);
    assert_eq!(found.unwrap().components, strings(&["a", "b"]));
    let found = find_python_mod_dir(&cwd, &vec![false, false, false, true]);
    assert_eq!(found.unwrap().components, strings(&["a", "b", "c"]));
}

#[test]
fn locates_nothing_without_marker() {
    let cwd = path(&["a", "b", "c"]);
    let found = find_python_mod_dir(&cwd, &vec![false, false, false, false]);
    assert!(found.is_none());
}

#[test]
fn discovery_is_depth_independent() {
    // Starting at the marker directory itself...
    let at_marker = find_python_mod_dir(&path(&["a"]), &vec![false, true]);
    // ...and five unmarked levels below it.
    let below = find_python_mod_dir(
        &path(&["a", "u", "v", "w", "x", "y"]),
        &vec![false, true, false, false, false, false, false],
    );
    assert_eq!(at_marker.unwrap().components, strings(&["a"]));
    assert_eq!(below.unwrap().components, strings(&["a"]));
}

#[test]
fn empty_directory_reports_mod_none() {
    let found = find_python_mod_dir(&path(&[]), &vec![false]);
    assert!(found.is_none());
    assert_eq!(mod_diagnostic(&found), "mod: none");
}

#[test]
fn venv_name_defaults_to_env() {
    assert_eq!(venv_dir_name(""), "env");
    assert_eq!(venv_dir_name("  \t\n"), "env");
    assert_eq!(venv_dir_name("myenv\n"), "myenv");
    assert_eq!(venv_dir_name("  custom  "), "custom");
}

#[test]
fn override_is_preferred_over_conventional() {
    let marker = path(&["home", "p"]);
    let over = Some(path(&["opt", "venvs", "proj"]));
    // Whether or not the conventional subdirectory would also be valid,
    // the override wins.
    let picked = resolve_venv(&over, &marker, "env", true);
    assert_eq!(picked.unwrap().components, strings(&["opt", "venvs", "proj"]));
    let picked = resolve_venv(&over, &marker, "env", false);
    assert_eq!(picked.unwrap().components, strings(&["opt", "venvs", "proj"]));
}

#[test]
fn conventional_subdirectory_needs_its_cfg_file() {
    let marker = path(&["home", "p"]);
    // The subdirectory may well exist; without its configuration file it
    // is no virtual environment.
    assert!(resolve_venv(&None, &marker, "env", false).is_none());
    let picked = resolve_venv(&None, &marker, "myenv", true);
    assert_eq!(picked.unwrap().components, strings(&["home", "p", "myenv"]));
}

#[test]
fn path_is_untouched_without_venv() {
    let base = env_of(&[("PATH", "/usr/bin:/bin"), ("HOME", "/root"), ("PYTHONHOME", "/oddity")]);
    let marker = path(&["home", "p"]);
    let child = build_env(&base, &marker, &None, Platform::Posix);
    assert_eq!(child.get("PATH"), Some(&"/usr/bin:/bin".to_string()));
    assert_eq!(child.get("PYTHONPATH"), Some(&"/home/p".to_string()));
    assert_eq!(child.get("HOME"), Some(&"/root".to_string()));
    // Without a venv there is nothing to isolate from.
    assert_eq!(child.get("PYTHONHOME"), Some(&"/oddity".to_string()));
}

#[test]
fn venv_env_prefixes_path_and_scrubs_pythonhome() {
    let base = env_of(&[("PATH", "/usr/bin:/bin"), ("PYTHONHOME", "/old"), ("HOME", "/root")]);
    let marker = path(&["home", "p"]);
    let name = venv_dir_name("myenv");
    let venv = resolve_venv(&None, &marker, &name, true);
    let child = build_env(&base, &marker, &venv, Platform::Posix);
    assert_eq!(child.get("VIRTUAL_ENV"), Some(&"/home/p/myenv".to_string()));
    assert_eq!(child.get("PYTHONPATH"), Some(&"/home/p".to_string()));
    assert_eq!(child.get("PATH"), Some(&"/home/p/myenv/bin:/usr/bin:/bin".to_string()));
    assert_eq!(child.get("PYTHONHOME"), None);
    assert_eq!(child.get("HOME"), Some(&"/root".to_string()));
}

#[test]
fn windows_uses_scripts_and_semicolon() {
    let base = env_of(&[("PATH", "C:/W;C:/S")]);
    let marker = path(&["proj"]);
    let venv = Some(path(&["proj", "env"]));
    let child = build_env(&base, &marker, &venv, Platform::Windows);
    assert_eq!(child.get("PATH"), Some(&"/proj/env/Scripts;C:/W;C:/S".to_string()));
    let mut p = path(&["proj", "env"]);
    append_venv_bin_path(&mut p, Platform::Windows);
    assert_eq!(p.components, strings(&["proj", "env", "Scripts"]));
}

#[test]
fn command_path_points_into_venv_bin() {
    let venv = Some(path(&["home", "p", "myenv"]));
    assert_eq!(command_path("python3", &venv, Platform::Posix), "/home/p/myenv/bin/python3");
    assert_eq!(command_path("python3", &None, Platform::Posix), "python3");
}

#[test]
fn pip_delegation_keeps_arguments_untouched() {
    let args = strings(&["install", "requests"]);
    let pip = pip_command_args(&args);
    assert_eq!(pip, strings(&["-m", "pip", "install", "requests"]));
    // The caller's arguments themselves are unchanged.
    assert_eq!(args, strings(&["install", "requests"]));
    // With no marker present the delegation runs without resolution.
    assert!(find_python_mod_dir(&path(&["w"]), &vec![false, false]).is_none());
}

#[test]
fn custom_venv_path_is_recorded() {
    let req = venv_create_override(&strings(&["-m", "venv", "/custom/path"]));
    assert_eq!(req, Some("/custom/path".to_string()));
    // The conventional name needs no override.
    assert_eq!(venv_create_override(&strings(&["-m", "venv", "env"])), None);
    assert_eq!(venv_create_override(&strings(&["install", "requests"])), None);
    assert_eq!(venv_create_override(&strings(&["-m", "venv"])), None);
    // A later invocation picks the recorded directory up as an override.
    let over = Some(path(&["custom", "path"]));
    let picked = resolve_venv(&over, &path(&["home", "p"]), "env", false);
    assert_eq!(picked.unwrap().components, strings(&["custom", "path"]));
}

#[test]
fn venv_path_with_spaces_is_joined() {
    let req = venv_create_override(&strings(&["-m", "venv", "my", "env dir"]));
    assert_eq!(req, Some("my env dir".to_string()));
}

#[test]
fn diagnostics_name_what_was_found() {
    assert_eq!(mod_diagnostic(&Some(path(&["home", "p"]))), "mod: /home/p");
    assert_eq!(venv_diagnostic(&path(&["home", "p", "myenv"])), "venv: /home/p/myenv");
}

#[test]
fn paths_render_from_the_root() {
    assert_eq!(path(&[]).render(), "/");
    assert_eq!(path(&["a"]).render(), "/a");
    assert_eq!(path(&["a", "b"]).render(), "/a/b");
}

#[test]
fn trim_removes_surrounding_whitespace_only() {
    assert_eq!(trim_ascii("  a b \t\r\n"), "a b");
    assert_eq!(trim_ascii(""), "");
    assert_eq!(trim_ascii(" \n "), "");
    assert_eq!(trim_ascii("x"), "x");
}

#[test]
fn string_equality_is_by_characters() {
    assert!(str_eq("abc", "abc"));
    assert!(!str_eq("abc", "abd"));
    assert!(!str_eq("abc", "ab"));
    assert!(str_eq("", ""));
}

#[test]
fn environment_lookup_takes_the_first_match() {
    let e = env_of(&[("A", "1"), ("A", "2")]);
    assert_eq!(e.get("A"), Some(&"1".to_string()));
    assert_eq!(e.get("B"), None);
}

#[test]
fn interface_file_names() {
    assert_eq!(marker_file_name(), "py.mod");
    assert_eq!(override_file_name(), "py.venv");
    assert_eq!(venv_cfg_file_name(), "pyvenv.cfg");
}
