use twitch_gui_core::launch::{build_launch_plan, LaunchPlan, StdioMode};
use twitch_gui_core::template::{ConfigError, SubstitutionValues};

fn vals() -> SubstitutionValues {
    SubstitutionValues {
        title: "A Title".to_string(),
        oauth_token: "tok123".to_string(),
        broadcaster_username: "somelogin".to_string(),
        broadcaster_displayname: "SomeLogin".to_string(),
    }
}

#[test]
fn single_mode_without_player_template() {
    let plan = build_launch_plan("twitch-hls-client $broadcaster_username", "", &vals()).unwrap();
    match plan {
        LaunchPlan::Single { stream } => {
            assert_eq!(
                stream.argv,
                vec!["twitch-hls-client".to_string(), "somelogin".to_string()]
            );
            assert_eq!(stream.stdin, StdioMode::Null);
            assert_eq!(stream.stdout, StdioMode::Null);
            assert_eq!(stream.stderr, StdioMode::Inherit);
        }
        LaunchPlan::Piped { .. } => panic!("expected single mode"),
    }
}

#[test]
fn piped_mode_connects_stream_stdout_to_player_stdin() {
    let plan = build_launch_plan(
        "streamlink --stdout $broadcaster_username",
        "mpv --title \"$title\" -",
        &vals(),
    )
    .unwrap();
    match plan {
        LaunchPlan::Piped { stream, player } => {
            assert_eq!(
                stream.argv,
                vec![
                    "streamlink".to_string(),
                    "--stdout".to_string(),
                    "somelogin".to_string(),
                ]
            );
            assert_eq!(
                player.argv,
                vec!["mpv".to_string(), "--title".to_string(), "A Title".to_string(), "-".to_string()]
            );
            // The pipe: the stream process writes its standard output into
            // the player process's standard input.
            assert_eq!(stream.stdout, StdioMode::Piped);
            assert_eq!(player.stdin, StdioMode::Piped);
            assert_eq!(stream.stdin, StdioMode::Null);
            assert_eq!(stream.stderr, StdioMode::Null);
            assert_eq!(player.stdout, StdioMode::Null);
            assert_eq!(player.stderr, StdioMode::Null);
        }
        LaunchPlan::Single { .. } => panic!("expected piped mode"),
    }
}

#[test]
fn whitespace_only_player_template_means_no_player() {
    let plan = build_launch_plan("prog arg", "   ", &vals()).unwrap();
    assert!(matches!(plan, LaunchPlan::Single { .. }));
}

#[test]
fn empty_stream_template_is_rejected() {
    assert_eq!(
        build_launch_plan("", "mpv -", &vals()).unwrap_err(),
        ConfigError::EmptyStreamCommand
    );
}

#[test]
fn whitespace_only_stream_template_is_rejected() {
    assert_eq!(
        build_launch_plan(" \t ", "", &vals()).unwrap_err(),
        ConfigError::EmptyStreamCommand
    );
}

#[test]
fn unbalanced_stream_quotes_are_rejected() {
    assert_eq!(
        build_launch_plan("prog \"oops", "", &vals()).unwrap_err(),
        ConfigError::UnbalancedQuotes
    );
}

#[test]
fn unbalanced_player_quotes_are_rejected() {
    assert_eq!(
        build_launch_plan("prog ok", "mpv \"oops", &vals()).unwrap_err(),
        ConfigError::UnbalancedQuotes
    );
}
