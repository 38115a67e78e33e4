use std::path::PathBuf;

use cache_extractor::paths::check_delete_target;
use cache_extractor::paths::detect_directory;
use cache_extractor::paths::directory_candidates;
use cache_extractor::paths::resolve_path;
use cache_extractor::paths::resolve_path_for;
use cache_extractor::paths::validate_directory;
use cache_extractor::paths::DirectoryProbe;
use cache_extractor::paths::SafetyViolation;

#[test]
fn placeholders_are_filled_in() {
    assert_eq!(
        resolve_path_for("%Temp%\\Roblox", "bob"),
        "C:\\Users\\bob\\AppData\\Local\\Temp\\Roblox"
    );
    assert_eq!(
        resolve_path_for("%localappdata%\\Roblox", "bob"),
        "C:\\Users\\bob\\AppData\\Local\\Roblox"
    );
    assert_eq!(
        resolve_path_for("~/.var/app/org.vinegarhq.Sober/cache/sober", "alice"),
        "/home/alice/.var/app/org.vinegarhq.Sober/cache/sober"
    );
}

#[test]
fn paths_without_placeholders_stay() {
    assert_eq!(resolve_path_for("/srv/cache", "bob"), "/srv/cache");
    assert_eq!(resolve_path_for("", "bob"), "");
    assert_eq!(resolve_path_for("%temp%", "bob"), "%temp%");
}

#[test]
fn every_match_is_replaced() {
    assert_eq!(resolve_path_for("~~", "u"), "/home/u/home/u");
    assert_eq!(
        resolve_path_for("%Temp%;%Temp%", "u"),
        "C:\\Users\\u\\AppData\\Local\\Temp;C:\\Users\\u\\AppData\\Local\\Temp"
    );
}

#[test]
fn a_tilde_in_the_user_name_is_replaced_in_turn() {
    assert_eq!(
        resolve_path_for("%Temp%", "a~b"),
        "C:\\Users\\a/home/a~bb\\AppData\\Local\\Temp"
    );
}

#[test]
fn resolve_path_fills_in_the_current_user() {
    let user = whoami::username();
    assert_eq!(resolve_path("~/x"), format!("/home/{user}/x"));
    assert_eq!(resolve_path("%Temp%\\Roblox"), resolve_path_for("%Temp%\\Roblox", &user));
    assert_eq!(resolve_path("/plain"), "/plain");
}

#[test]
fn a_directory_is_accepted() {
    assert_eq!(
        validate_directory("/srv/cache".to_string(), DirectoryProbe::Directory),
        Ok("/srv/cache".to_string())
    );
}

#[test]
fn what_is_no_directory_is_refused() {
    assert_eq!(
        validate_directory("/etc/hosts".to_string(), DirectoryProbe::NotDirectory),
        Err("/etc/hosts: Not a directory".to_string())
    );
}

#[test]
fn an_unreadable_path_is_refused_with_its_error() {
    assert_eq!(
        validate_directory(
            "/nowhere".to_string(),
            DirectoryProbe::Failed("No such file or directory (os error 2)".to_string())
        ),
        Err("No such file or directory (os error 2)".to_string())
    );
}

#[test]
fn candidates_start_with_the_configured_directory() {
    assert_eq!(
        directory_candidates(Some("\"/srv/my cache\"")),
        vec!["/srv/my cache", "%Temp%\\Roblox", "~/.var/app/org.vinegarhq.Sober/cache/sober"]
    );
    assert_eq!(
        directory_candidates(None),
        vec!["%Temp%\\Roblox", "~/.var/app/org.vinegarhq.Sober/cache/sober"]
    );
}

#[test]
fn detection_takes_the_first_accepted_directory() {
    let outcomes = vec![
        Err("first failed".to_string()),
        Ok("/second".to_string()),
        Ok("/third".to_string()),
    ];
    assert_eq!(detect_directory(&outcomes).unwrap(), "/second");
    assert_eq!(detect_directory(&vec![Ok("/only".to_string())]).unwrap(), "/only");
}

#[test]
fn detection_fails_with_all_errors() {
    let outcomes = vec![
        Err("a: Not a directory".to_string()),
        Err("No such file".to_string()),
        Err("denied".to_string()),
    ];
    let failure = detect_directory(&outcomes).unwrap_err();
    assert_eq!(failure.errors, "a: Not a directoryNo such filedenied");
    let failure = detect_directory(&vec![]).unwrap_err();
    assert_eq!(failure.errors, "");
}

#[test]
fn the_empty_path_may_not_be_emptied() {
    assert_eq!(check_delete_target(&PathBuf::new()), Err(SafetyViolation::EmptyPath));
    assert_eq!(check_delete_target(&PathBuf::from("")), Err(SafetyViolation::EmptyPath));
}

#[test]
fn the_root_may_not_be_emptied() {
    assert_eq!(check_delete_target(&PathBuf::from("/")), Err(SafetyViolation::FilesystemRoot));
    assert_eq!(check_delete_target(&PathBuf::from("//")), Err(SafetyViolation::FilesystemRoot));
}

#[test]
fn other_directories_may_be_emptied() {
    assert_eq!(check_delete_target(&PathBuf::from("/tmp/cache")), Ok(()));
    assert_eq!(check_delete_target(&PathBuf::from("relative")), Ok(()));
    assert_eq!(check_delete_target(&PathBuf::from("/home")), Ok(()));
}
