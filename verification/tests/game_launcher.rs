use maplelink::config::AppConfig;
use maplelink::game_launcher::{
    build_launch_command, extract_parent_dir, validate_game_path, GameCredentials,
};

#[test]
fn valid_exe_path_accepted() {
    assert!(validate_game_path(r"C:\Games\MapleStory\MapleStory.exe").is_ok());
}

#[test]
fn valid_exe_path_case_insensitive() {
    assert!(validate_game_path(r"D:\Game\test.EXE").is_ok());
    assert!(validate_game_path(r"D:\Game\test.Exe").is_ok());
}

#[test]
fn empty_path_rejected() {
    assert!(validate_game_path("").is_err());
}

#[test]
fn non_exe_extension_rejected() {
    assert!(validate_game_path(r"C:\Games\game.txt").is_err());
    assert!(validate_game_path(r"C:\Games\game").is_err());
}

#[test]
fn invalid_chars_rejected() {
    assert!(validate_game_path(r"C:\Games\game<1>.exe").is_err());
    assert!(validate_game_path("C:\\Games\\game\".exe").is_err());
    assert!(validate_game_path("C:\\Games\\game\x01.exe").is_err());
}

#[test]
fn forward_slash_path_accepted() {
    assert!(validate_game_path("C:/Games/MapleStory.exe").is_ok());
}

fn make_config(game_path: &str) -> AppConfig {
    AppConfig {
        game_path: game_path.to_string(),
        ..AppConfig::default()
    }
}

fn make_credentials(otp: &str) -> GameCredentials {
    GameCredentials {
        account_id: "acc123".to_string(),
        otp: otp.to_string(),
    }
}

#[test]
fn build_launch_command_basic() {
    let config = make_config(r"C:\Nexon\MapleStory\MapleStory.exe");
    let creds = make_credentials("1234567890");

    let cmd = build_launch_command(&config, &creds).unwrap();

    assert_eq!(cmd.executable, r"C:\Nexon\MapleStory\MapleStory.exe");
    assert_eq!(cmd.working_dir, r"C:\Nexon\MapleStory");
    assert_eq!(cmd.args, vec!["1234567890"]);
}

#[test]
fn build_launch_command_forward_slashes() {
    let config = make_config("C:/Games/MapleStory.exe");
    let creds = make_credentials("0000000000");

    let cmd = build_launch_command(&config, &creds).unwrap();

    assert_eq!(cmd.working_dir, "C:/Games");
}

#[test]
fn build_launch_command_invalid_path_errors() {
    let config = make_config("not_an_exe");
    let creds = make_credentials("1234567890");

    assert!(build_launch_command(&config, &creds).is_err());
}

#[test]
fn extract_parent_dir_no_separator() {
    assert_eq!(extract_parent_dir("game.exe"), ".");
}

#[test]
fn prop_empty_string_rejected() {
    assert!(
        validate_game_path("").is_err(),
        "empty string should always be rejected"
    );
}

#[test]
fn parent_dir_uses_last_separator_of_either_kind() {
    assert_eq!(extract_parent_dir("a/b\\c/d.exe"), "a/b\\c");
    assert_eq!(extract_parent_dir("\\game.exe"), "");
}

#[test]
fn only_c0_control_characters_rejected() {
    assert!(validate_game_path("C:\\game\u{1F}.exe").is_err());
    assert!(validate_game_path("C:\\game\u{0}.exe").is_err());
    assert!(validate_game_path("C:\\game\u{20}.exe").is_ok());
    assert!(validate_game_path("C:\\a\u{7F}.exe").is_ok());
    assert!(validate_game_path("C:\\game\u{85}.exe").is_ok());
    assert!(validate_game_path("C:\\gam\u{e9}.exe").is_ok());
}

#[test]
fn error_names_the_path() {
    match validate_game_path("C:\\game.txt") {
        Err(maplelink::error::FsError::NotFound { path }) => assert_eq!(path, "C:\\game.txt"),
        Ok(()) => panic!("expected an error"),
    }
}

#[test]
fn bare_extension_is_a_valid_name() {
    assert!(validate_game_path(".exe").is_ok());
    assert!(validate_game_path("exe").is_err());
}
