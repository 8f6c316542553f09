use gst::argparse::Cli;
use gst::config::Config;
use gst::options::{
    ascii_choice, ascii_mode, check_config_version, check_git_client, current_dir, names_client,
    normalize_path_str, normalize_path_string, path, paths, purge_paths, remove_path,
    search_depth, verbose, AsciiChoice, ConfigState, ConfigStateHandler, OptionError,
    TargetFamily, MAX_SEARCH_DEPTH, MAX_SEARCH_HEIGHT, MIN_SEARCH_DEPTH,
};
use gst::provider::ExecuteType;
use gst::render::VerboseMode;

fn cli() -> Cli {
    Cli {
        path: None,
        paths: None,
        verbose: 0,
        remove_path: None,
        purge_paths: false,
        ascii_mode: None,
        show_config: false,
        search_depth: None,
        current_dir: false,
    }
}

fn roots(config: &Config) -> Vec<&str> {
    config.project_paths.iter().map(|p| p.as_str()).collect()
}

#[test]
fn bounds_are_one_to_thirty() {
    assert_eq!((MIN_SEARCH_DEPTH, MAX_SEARCH_DEPTH, MAX_SEARCH_HEIGHT), (1, 30, 0));
}

#[test]
fn path_adds_each_given_path_once() {
    let mut config = Config::defaults("1");
    let mut state = ConfigStateHandler::new();
    let mut args = cli();
    path(&args, &mut config, &mut state, TargetFamily::Unix);
    assert_eq!(state.state, ConfigState::NoConfigChange);
    args.path = Some(vec!["/a".to_string(), "/b".to_string(), "/a".to_string()]);
    path(&args, &mut config, &mut state, TargetFamily::Unix);
    assert_eq!(roots(&config), vec!["/a", "/b"]);
    assert_eq!(state.state, ConfigState::ConfigChange);
}

#[test]
fn empty_list_of_paths_changes_nothing() {
    let mut config = Config::defaults("1");
    let mut state = ConfigStateHandler::new();
    let mut args = cli();
    args.path = Some(Vec::new());
    path(&args, &mut config, &mut state, TargetFamily::Unix);
    assert!(config.project_paths.is_empty());
    assert_eq!(state.state, ConfigState::NoConfigChange);
}

#[test]
fn paths_splits_at_single_spaces() {
    let mut config = Config::defaults("1");
    let mut state = ConfigStateHandler::new();
    let mut args = cli();
    args.paths = Some("/a /b  /a".to_string());
    paths(&args, &mut config, &mut state, TargetFamily::Unix);
    assert_eq!(roots(&config), vec!["/a", "/b", ""]);
    assert_eq!(state.state, ConfigState::ConfigChange);
}

#[test]
fn paths_are_written_the_way_of_the_platform() {
    let mut config = Config::defaults("1");
    let mut state = ConfigStateHandler::new();
    let mut args = cli();
    args.paths = Some("C:/a C:/b/c".to_string());
    paths(&args, &mut config, &mut state, TargetFamily::Windows);
    assert_eq!(roots(&config), vec!["C:\\a", "C:\\b\\c"]);
    assert_eq!(normalize_path_str("a/b", TargetFamily::Windows), "a\\b");
    assert_eq!(normalize_path_str("a/b", TargetFamily::Unix), "a/b");
    assert_eq!(normalize_path_string(&"a/b".to_string(), TargetFamily::Windows), "a\\b");
    assert_eq!(normalize_path_string(&"a/b".to_string(), TargetFamily::Unix), "a/b");
}

#[test]
fn remove_path_takes_the_normalized_path_out() {
    let mut config = Config::defaults("1");
    config.add_path("C:\\a").add_path("/b");
    let mut state = ConfigStateHandler::new();
    let mut args = cli();
    remove_path(&args, &mut config, &mut state, TargetFamily::Windows);
    assert_eq!(state.state, ConfigState::NoConfigChange);
    args.remove_path = Some("C:/a".to_string());
    remove_path(&args, &mut config, &mut state, TargetFamily::Windows);
    assert_eq!(roots(&config), vec!["/b"]);
    assert_eq!(state.state, ConfigState::ConfigChange);
}

#[test]
fn purge_paths_needs_the_flag() {
    let mut config = Config::defaults("1");
    config.add_path("/a");
    let mut state = ConfigStateHandler::new();
    let mut args = cli();
    purge_paths(&args, &mut config, &mut state);
    assert_eq!(roots(&config), vec!["/a"]);
    assert_eq!(state.state, ConfigState::NoConfigChange);
    args.purge_paths = true;
    purge_paths(&args, &mut config, &mut state);
    assert!(config.project_paths.is_empty());
    assert_eq!(state.state, ConfigState::ConfigChange);
}

#[test]
fn ascii_mode_reads_true_and_false_in_any_case() {
    let mut config = Config::defaults("1");
    let mut state = ConfigStateHandler::new();
    let mut args = cli();
    assert_eq!(ascii_mode(&args, &mut config, &mut state), Ok(()));
    assert_eq!(state.state, ConfigState::NoConfigChange);
    args.ascii_mode = Some("TRUE".to_string());
    assert_eq!(ascii_mode(&args, &mut config, &mut state), Ok(()));
    assert!(config.ascii_mode);
    assert_eq!(state.state, ConfigState::ConfigChange);
    args.ascii_mode = Some("False".to_string());
    assert_eq!(ascii_mode(&args, &mut config, &mut state), Ok(()));
    assert!(!config.ascii_mode);
}

#[test]
fn ascii_mode_refuses_other_values() {
    let mut config = Config::defaults("1");
    let mut state = ConfigStateHandler::new();
    let mut args = cli();
    args.ascii_mode = Some("yes".to_string());
    assert_eq!(ascii_mode(&args, &mut config, &mut state), Err(OptionError::UnknownAsciiMode));
    assert!(!config.ascii_mode);
    assert_eq!(state.state, ConfigState::NoConfigChange);
    args.ascii_mode = Some(String::new());
    assert_eq!(ascii_mode(&args, &mut config, &mut state), Ok(()));
    assert_eq!(state.state, ConfigState::NoConfigChange);
}

#[test]
fn ascii_choice_goes_by_the_lowered_text() {
    assert_eq!(ascii_choice("TRUE", "true"), AsciiChoice::Enable);
    assert_eq!(ascii_choice("false", "false"), AsciiChoice::Disable);
    assert_eq!(ascii_choice("x", "x"), AsciiChoice::Unknown);
    assert_eq!(ascii_choice("", ""), AsciiChoice::Keep);
    assert_eq!(ascii_choice("TRUE", "TRUE"), AsciiChoice::Unknown);
}

#[test]
fn search_depth_is_held_to_its_bounds() {
    let mut config = Config::defaults("1");
    let mut state = ConfigStateHandler::new();
    let mut args = cli();
    assert_eq!(search_depth(&args, &mut config, &mut state), Ok(()));
    assert_eq!(config.search_depth, 5);
    for bad in [0, -1, 31, i8::MAX, i8::MIN] {
        args.search_depth = Some(bad);
        assert_eq!(
            search_depth(&args, &mut config, &mut state),
            Err(OptionError::DepthOutOfBounds)
        );
        assert_eq!(config.search_depth, 5);
        assert_eq!(state.state, ConfigState::NoConfigChange);
    }
    for good in [1, 17, 30] {
        args.search_depth = Some(good);
        assert_eq!(search_depth(&args, &mut config, &mut state), Ok(()));
        assert_eq!(config.search_depth, good);
        assert_eq!(state.state, ConfigState::ConfigChange);
    }
}

#[test]
fn verbosity_counts_the_flags() {
    let mut args = cli();
    assert_eq!(verbose(&args), VerboseMode::Nothing);
    args.verbose = 1;
    assert_eq!(verbose(&args), VerboseMode::Verbose1);
    args.verbose = 2;
    assert_eq!(verbose(&args), VerboseMode::Verbose2);
    args.verbose = 3;
    assert_eq!(verbose(&args), VerboseMode::Nothing);
}

#[test]
fn current_dir_chooses_the_source_of_the_roots() {
    let mut args = cli();
    assert_eq!(current_dir(&args), ExecuteType::FromConfig);
    args.current_dir = true;
    assert_eq!(current_dir(&args), ExecuteType::CurrentPath);
}

#[test]
fn client_is_known_by_its_name_in_any_case() {
    assert!(check_git_client("git version 2.43.0\n"));
    assert!(check_git_client("GIT VERSION 2\n"));
    assert!(!check_git_client(""));
    assert!(!check_git_client("command not found"));
    assert!(names_client("a git b"));
    assert!(!names_client("GIT"));
}

#[test]
fn configuration_of_another_version_is_refused() {
    let mut config = Config::defaults("1.2.3");
    assert_eq!(check_config_version(&config, "1.2.3"), Ok(()));
    assert_eq!(check_config_version(&config, "1.2.4"), Err(OptionError::OutdatedConfig));
    config.version = "UNKNOWN".to_string();
    assert_eq!(check_config_version(&config, "1.2.4"), Err(OptionError::UnknownVersion));
    assert_eq!(check_config_version(&config, "UNKNOWN"), Ok(()));
}

#[test]
fn every_refusal_has_its_text() {
    assert_eq!(OptionError::UnknownAsciiMode.message(), "Unkown value. Try `true` or `false`");
    assert_eq!(
        OptionError::DepthOutOfBounds.message(),
        "Provided search depth is out of bounds. Please choose a number from 1 to 30"
    );
    assert!(OptionError::UnknownVersion.message().contains("unknown version"));
    assert!(OptionError::OutdatedConfig.message().contains("too old"));
}

#[test]
fn change_is_recorded_once_and_for_all() {
    let mut state = ConfigStateHandler::new();
    assert_eq!(state.state, ConfigState::NoConfigChange);
    state.config_change().config_change();
    assert_eq!(state.state, ConfigState::ConfigChange);
}
