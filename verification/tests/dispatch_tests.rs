use twitch_gui_core::dispatch::{
    channel_url, chat_url, default_stream_command, thumbnail_url, Action, AppState, ChannelInfo,
    Msg,
};
use twitch_gui_core::launch::{LaunchPlan, StdioMode};
use twitch_gui_core::template::ConfigError;

fn channel(login: &str, name: &str, title: &str) -> ChannelInfo {
    ChannelInfo {
        user_login: login.to_string(),
        user_name: name.to_string(),
        title: title.to_string(),
        game_name: "A Game".to_string(),
        thumbnail_url: "https://cdn.example/{width}x{height}.jpg".to_string(),
    }
}

fn state_with(stream_cmd: &str, player_cmd: &str) -> AppState {
    AppState::init(stream_cmd.to_string(), player_cmd.to_string(), "tok".to_string())
}

#[test]
fn init_mirrors_settings_into_inputs() {
    let s = state_with("prog $broadcaster_username", "");
    assert_eq!(s.stream_command, "prog $broadcaster_username");
    assert_eq!(s.stream_command_input, "prog $broadcaster_username");
    assert_eq!(s.num_columns, 4);
    assert!(!s.settings_open);
    assert!(!s.has_token);
    assert!(s.streams.is_empty());
    assert!(s.live.previous.is_empty());
}

#[test]
fn default_command_fetches_by_login() {
    assert_eq!(default_stream_command(), "twitch-hls-client $broadcaster_username");
}

#[test]
fn clicked_stream_launches_the_planned_pipeline() {
    let mut s = state_with("fetch $broadcaster_username $oauth_token", "play \"$title\"");
    s.update(Msg::SaveRefresh(vec![channel("log", "Log", "The Title")]));
    match s.update(Msg::ClickedStream(0)) {
        Action::Launch { plan } => match plan {
            LaunchPlan::Piped { stream, player } => {
                assert_eq!(
                    stream.argv,
                    vec!["fetch".to_string(), "log".to_string(), "tok".to_string()]
                );
                assert_eq!(player.argv, vec!["play".to_string(), "The Title".to_string()]);
                assert_eq!(stream.stdout, StdioMode::Piped);
                assert_eq!(player.stdin, StdioMode::Piped);
            }
            LaunchPlan::Single { .. } => panic!("expected a piped plan"),
        },
        _ => panic!("expected a launch"),
    }
}

#[test]
fn clicked_stream_with_empty_template_reports_without_spawning() {
    let mut s = state_with("", "");
    s.update(Msg::SaveRefresh(vec![channel("log", "Log", "T")]));
    match s.update(Msg::ClickedStream(0)) {
        Action::ReportConfigError { error } => assert_eq!(error, ConfigError::EmptyStreamCommand),
        _ => panic!("an empty stream command must be rejected before any spawn"),
    }
}

#[test]
fn refresh_seeds_and_next_tick_stays_quiet() {
    let mut s = state_with("prog", "");
    let a = s.update(Msg::SaveRefresh(vec![channel("a", "A", "t"), channel("b", "B", "t")]));
    assert!(matches!(a, Action::Nothing));
    assert_eq!(s.live.previous, vec!["a".to_string(), "b".to_string()]);
    // The tick right after the refresh sees the same set: no notification.
    let a = s.update(Msg::CheckAndNotifyNewStreams(vec!["a".to_string(), "b".to_string()]));
    assert!(matches!(a, Action::Nothing));
}

#[test]
fn tick_with_new_channel_notifies_once() {
    let mut s = state_with("prog", "");
    s.update(Msg::SaveRefresh(vec![channel("a", "A", "t")]));
    match s.update(Msg::CheckAndNotifyNewStreams(vec!["a".to_string(), "c".to_string()])) {
        Action::Notify { summary, body } => {
            assert_eq!(summary, "Iced Twitch GUI");
            assert_eq!(body, "The following streamers have started streaming: c");
        }
        _ => panic!("expected a notification"),
    }
    // The transition was consumed: the same set notifies nothing more.
    let a = s.update(Msg::CheckAndNotifyNewStreams(vec!["a".to_string(), "c".to_string()]));
    assert!(matches!(a, Action::Nothing));
}

#[test]
fn settings_input_and_apply() {
    let mut s = state_with("old", "");
    s.update(Msg::SettingsToggle);
    assert!(s.settings_open);
    s.update(Msg::StreamCommandInput("new $title".to_string()));
    s.update(Msg::PlayerCommandInput("mpv -".to_string()));
    s.update(Msg::OAuthTokenInput("tok2".to_string()));
    // Nothing committed yet.
    assert_eq!(s.stream_command, "old");
    match s.update(Msg::ApplySettings) {
        Action::SaveSettings { stream_command, player_command, oauth_token } => {
            assert_eq!(stream_command, "new $title");
            assert_eq!(player_command, "mpv -");
            assert_eq!(oauth_token, "tok2");
        }
        _ => panic!("expected the settings to be persisted"),
    }
    assert_eq!(s.stream_command, "new $title");
    assert_eq!(s.player_command, "mpv -");
    assert_eq!(s.oauth_token, "tok2");
    assert!(!s.settings_open);
}

#[test]
fn window_resize_sets_columns() {
    let mut s = state_with("prog", "");
    s.update(Msg::WindowResized(1000));
    assert_eq!(s.num_columns, 3);
    s.update(Msg::WindowResized(200));
    assert_eq!(s.num_columns, 0);
}

#[test]
fn startup_and_token_flow() {
    let mut s = state_with("prog", "");
    match s.update(Msg::Startup("cached".to_string())) {
        Action::ValidateToken { access_token } => assert_eq!(access_token, "cached"),
        _ => panic!("expected a validation request"),
    }
    assert!(matches!(s.update(Msg::GotUserToken), Action::FetchStreams));
    assert!(s.has_token);
    assert!(matches!(s.update(Msg::Refresh), Action::FetchStreams));
    assert!(matches!(s.update(Msg::MinuteTick), Action::PollStreams));
    assert!(matches!(s.update(Msg::GotChildProcessId(Some(1234))), Action::Nothing));
}

#[test]
fn open_chat_and_channel_urls() {
    let mut s = state_with("prog", "");
    s.update(Msg::SaveRefresh(vec![channel("some_login", "Some", "t")]));
    match s.update(Msg::OpenChannel(0)) {
        Action::OpenUrl { url } => assert_eq!(url, "https://www.twitch.tv/some_login"),
        _ => panic!("expected a channel URL"),
    }
    match s.update(Msg::OpenChat(0)) {
        Action::OpenUrl { url } => assert_eq!(url, "https://www.twitch.tv/popout/some_login/chat"),
        _ => panic!("expected a chat URL"),
    }
    assert_eq!(channel_url("x"), "https://www.twitch.tv/x");
    assert_eq!(chat_url("x"), "https://www.twitch.tv/popout/x/chat");
}

#[test]
fn thumbnail_url_fills_both_size_markers() {
    assert_eq!(
        thumbnail_url("https://cdn.example/{width}x{height}.jpg"),
        "https://cdn.example/320x180.jpg"
    );
    assert_eq!(thumbnail_url("no-markers"), "no-markers");
}
