//! The event dispatcher: the decision core of the client.
//!
//! The surrounding program turns everything that happens (user clicks,
//! timer ticks, completed fetches) into a message of the closed set below,
//! feeds it here, and performs whatever single action comes back: fetching,
//! spawning a planned pipeline, showing a notification, opening a URL or
//! persisting settings.  All decisions stand in this module; the actions
//! themselves are carried out outside.
use vstd::prelude::*;

use crate::launch::{build_launch_plan, plan_error, plan_matches, plan_ok, LaunchPlan};
use crate::poller::{
    newly_live, notification_body, notification_body_spec, notification_summary, LivePoller,
};
use crate::template::{ConfigError, SubstitutionValues};
use crate::text::{replace_all, replace_all_str, views_of};

verus! {

/// What the core keeps of one live channel: the identifier used for
/// diffing, and the fields substituted into command templates and URLs.
#[derive(Clone, Debug)]
pub struct ChannelInfo {
    /// The unique login name of the broadcaster.
    pub user_login: String,
    /// The display name of the broadcaster.
    pub user_name: String,
    /// The stream's title.
    pub title: String,
    /// The game or category name.
    pub game_name: String,
    /// The thumbnail reference, with `{width}` and `{height}` markers.
    pub thumbnail_url: String,
}

/// The login names of the channels, in order.
pub open spec fn logins_of(streams: Seq<ChannelInfo>) -> Seq<Seq<char>> {
    Seq::new(streams.len(), |i: int| streams[i].user_login@)
}

/// Copies out the login names of the channels, in order.
pub fn collect_logins(streams: &Vec<ChannelInfo>) -> (r: Vec<String>)
    ensures
        views_of(r@) == logins_of(streams@),
{
    let mut out: Vec<String> = Vec::new();
    let mut i: usize = 0;
    while i < streams.len()
        invariant
            i <= streams@.len(),
            out@.len() == i,
            forall|k: int| 0 <= k < i ==> views_of(out@)[k] == logins_of(streams@)[k],
        decreases streams@.len() - i,
    {
        let c: &ChannelInfo = &streams[i];
        out.push(c.user_login.clone());
        i = i + 1;
    }
    proof {
        assert(views_of(out@) =~= logins_of(streams@));
    }
    out
}

/// The thumbnail reference with its size markers filled in: the fixed
/// 320 by 180 preview size of the grid.
pub open spec fn thumbnail_url_spec(raw: Seq<char>) -> Seq<char> {
    replace_all(replace_all(raw, "{width}"@, "320"@), "{height}"@, "180"@)
}

pub fn thumbnail_url(raw: &str) -> (r: String)
    ensures
        r@ == thumbnail_url_spec(raw@),
{
    let once = replace_all_str(raw, "{width}", "320");
    replace_all_str(once.as_str(), "{height}", "180")
}

/// The public page of the channel with this login name.
pub fn channel_url(login: &str) -> (r: String)
    ensures
        r@ == "https://www.twitch.tv/"@ + login@,
{
    let mut out: String = String::from_str("https://www.twitch.tv/");
    out.append(login);
    out
}

/// The pop-out chat page of the channel with this login name.
pub fn chat_url(login: &str) -> (r: String)
    ensures
        r@ == "https://www.twitch.tv/popout/"@ + login@ + "/chat"@,
{
    let mut out: String = String::from_str("https://www.twitch.tv/popout/");
    out.append(login);
    out.append("/chat");
    proof {
        assert(out@ =~= "https://www.twitch.tv/popout/"@ + login@ + "/chat"@);
    }
    out
}

/// The stream command used when no template was ever saved.
pub fn default_stream_command() -> (r: String)
    ensures
        r@ == "twitch-hls-client $broadcaster_username"@,
{
    String::from_str("twitch-hls-client $broadcaster_username")
}

/// The closed set of events the dispatcher consumes.
pub enum Msg {
    /// The user asked for a full refresh of the stream list.
    Refresh,
    /// The user clicked play on the stream at this index.
    ClickedStream(usize),
    /// A full refresh came back with the live channels, in fetch order.
    SaveRefresh(Vec<ChannelInfo>),
    /// The cached access token was read at startup.
    Startup(String),
    /// The access token was validated; fetching can begin.
    GotUserToken,
    /// A single-process launch reported its child's identifier.
    GotChildProcessId(Option<u32>),
    /// The user asked for the chat of the stream at this index.
    OpenChat(usize),
    /// The user asked for the channel page of the stream at this index.
    OpenChannel(usize),
    /// The window was opened or resized to this width in pixels.
    WindowResized(u32),
    /// The user opened or closed the settings pane.
    SettingsToggle,
    /// The user committed the settings pane's inputs.
    ApplySettings,
    /// The player command input field changed.
    PlayerCommandInput(String),
    /// The stream command input field changed.
    StreamCommandInput(String),
    /// The stored OAuth token input field changed.
    OAuthTokenInput(String),
    /// The fixed-interval poll timer fired.
    MinuteTick,
    /// The poll fetch came back with the live login names, in fetch order.
    CheckAndNotifyNewStreams(Vec<String>),
}

/// The single follow-up the surrounding program must perform.
pub enum Action {
    /// Nothing to do.
    Nothing,
    /// Validate this access token against the platform, then send
    /// GotUserToken.
    ValidateToken { access_token: String },
    /// Fetch the followed live channels with their thumbnails, then send
    /// SaveRefresh.
    FetchStreams,
    /// Fetch the followed live channels' login names, then send
    /// CheckAndNotifyNewStreams.
    PollStreams,
    /// Spawn exactly what the plan says.
    Launch { plan: LaunchPlan },
    /// The templates admitted no plan; report it and spawn nothing.
    ReportConfigError { error: ConfigError },
    /// Show a desktop notification.
    Notify { summary: String, body: String },
    /// Open this URL in the user's browser.
    OpenUrl { url: String },
    /// Persist the committed settings to their cache files.
    SaveSettings { stream_command: String, player_command: String, oauth_token: String },
}

/// The whole dispatcher state: committed settings, the settings pane's
/// uncommitted inputs, window layout, and what is known live.
pub struct AppState {
    /// The committed stream command template.
    pub stream_command: String,
    /// The committed player command template; empty means "no player".
    pub player_command: String,
    /// The stored OAuth token substituted for `$oauth_token`.
    pub oauth_token: String,
    /// The settings pane's uncommitted stream command input.
    pub stream_command_input: String,
    /// The settings pane's uncommitted player command input.
    pub player_command_input: String,
    /// The settings pane's uncommitted OAuth token input.
    pub oauth_token_input: String,
    /// Whether the settings pane is open.
    pub settings_open: bool,
    /// How many stream cells fit one grid row.
    pub num_columns: usize,
    /// Whether the session token has been validated.
    pub has_token: bool,
    /// The live channels of the last full refresh, in fetch order.
    pub streams: Vec<ChannelInfo>,
    /// The live set of the previous poll tick.
    pub live: LivePoller,
}

impl AppState {
    /// The state at startup, from the three loaded settings values: the
    /// inputs mirror the committed values, the settings pane is closed,
    /// four columns fit, nothing is known live and no token is validated.
    pub fn init(stream_command: String, player_command: String, oauth_token: String) -> (r:
        AppState)
        ensures
            r.stream_command == stream_command,
            r.player_command == player_command,
            r.oauth_token == oauth_token,
            r.stream_command_input == stream_command,
            r.player_command_input == player_command,
            r.oauth_token_input == oauth_token,
            r.settings_open == false,
            r.num_columns == 4,
            r.has_token == false,
            r.streams@.len() == 0,
            r.live.previous@.len() == 0,
    {
        let stream_command_input = stream_command.clone();
        let player_command_input = player_command.clone();
        let oauth_token_input = oauth_token.clone();
        AppState {
            stream_command,
            player_command,
            oauth_token,
            stream_command_input,
            player_command_input,
            oauth_token_input,
            settings_open: false,
            num_columns: 4,
            has_token: false,
            streams: Vec::new(),
            live: LivePoller::new(),
        }
    }
}

/// The settings, layout and token fields of the two states agree; only the
/// stream list and the live set may differ.
pub open spec fn same_settings(a: AppState, b: AppState) -> bool {
    &&& a.stream_command == b.stream_command
    &&& a.player_command == b.player_command
    &&& a.oauth_token == b.oauth_token
    &&& a.stream_command_input == b.stream_command_input
    &&& a.player_command_input == b.player_command_input
    &&& a.oauth_token_input == b.oauth_token_input
    &&& a.settings_open == b.settings_open
    &&& a.num_columns == b.num_columns
    &&& a.has_token == b.has_token
}

impl AppState {
    /// Consumes one message and returns the single follow-up action.
    /// Messages that carry a stream index must name an existing stream, and
    /// the messages that start a fetch come only once a token is validated.
    pub fn update(&mut self, msg: Msg) -> (a: Action)
        requires
            msg matches Msg::ClickedStream(i) ==> i < old(self).streams@.len(),
            msg matches Msg::OpenChat(i) ==> i < old(self).streams@.len(),
            msg matches Msg::OpenChannel(i) ==> i < old(self).streams@.len(),
            msg is Refresh ==> old(self).has_token,
            msg is MinuteTick ==> old(self).has_token,
        ensures
            msg is Refresh ==> *final(self) == *old(self) && a == Action::FetchStreams,
            msg matches Msg::ClickedStream(i) ==> {
                let st = old(self).streams@[i as int];
                let stream_t = old(self).stream_command@;
                let player_t = old(self).player_command@;
                &&& *final(self) == *old(self)
                &&& (plan_ok(stream_t, player_t) ==> (a matches Action::Launch { plan }
                    && plan_matches(
                    plan,
                    stream_t,
                    player_t,
                    st.title@,
                    old(self).oauth_token@,
                    st.user_login@,
                    st.user_name@,
                )))
                &&& (!plan_ok(stream_t, player_t) ==> a == (Action::ReportConfigError {
                    error: plan_error(stream_t, player_t),
                }))
            },
            msg matches Msg::SaveRefresh(streams) ==> {
                &&& final(self).streams == streams
                &&& views_of(final(self).live.previous@) == logins_of(streams@)
                &&& same_settings(*final(self), *old(self))
                &&& a == Action::Nothing
            },
            msg matches Msg::Startup(tok) ==> *final(self) == *old(self) && a
                == (Action::ValidateToken { access_token: tok }),
            msg is GotUserToken ==> {
                &&& final(self).has_token == true
                &&& final(self).stream_command == old(self).stream_command
                &&& final(self).player_command == old(self).player_command
                &&& final(self).oauth_token == old(self).oauth_token
                &&& final(self).stream_command_input == old(self).stream_command_input
                &&& final(self).player_command_input == old(self).player_command_input
                &&& final(self).oauth_token_input == old(self).oauth_token_input
                &&& final(self).settings_open == old(self).settings_open
                &&& final(self).num_columns == old(self).num_columns
                &&& final(self).streams == old(self).streams
                &&& final(self).live == old(self).live
                &&& a == Action::FetchStreams
            },
            msg matches Msg::GotChildProcessId(p) ==> *final(self) == *old(self) && a
                == Action::Nothing,
            msg matches Msg::OpenChat(i) ==> *final(self) == *old(self) && (a
                matches Action::OpenUrl { url } && url@ == "https://www.twitch.tv/popout/"@
                + old(self).streams@[i as int].user_login@ + "/chat"@),
            msg matches Msg::OpenChannel(i) ==> *final(self) == *old(self) && (a
                matches Action::OpenUrl { url } && url@ == "https://www.twitch.tv/"@ + old(
                self,
            ).streams@[i as int].user_login@),
            msg matches Msg::WindowResized(w) ==> {
                &&& final(self).num_columns == w as int / 320
                &&& same_settings_but_columns(*final(self), *old(self))
                &&& final(self).streams == old(self).streams
                &&& final(self).live == old(self).live
                &&& a == Action::Nothing
            },
            msg is SettingsToggle ==> {
                &&& final(self).settings_open == !old(self).settings_open
                &&& same_settings_but_pane(*final(self), *old(self))
                &&& final(self).streams == old(self).streams
                &&& final(self).live == old(self).live
                &&& a == Action::Nothing
            },
            msg is ApplySettings ==> {
                &&& final(self).stream_command == old(self).stream_command_input
                &&& final(self).player_command == old(self).player_command_input
                &&& final(self).oauth_token == old(self).oauth_token_input
                &&& final(self).stream_command_input == old(self).stream_command_input
                &&& final(self).player_command_input == old(self).player_command_input
                &&& final(self).oauth_token_input == old(self).oauth_token_input
                &&& final(self).settings_open == false
                &&& final(self).num_columns == old(self).num_columns
                &&& final(self).has_token == old(self).has_token
                &&& final(self).streams == old(self).streams
                &&& final(self).live == old(self).live
                &&& a == (Action::SaveSettings {
                    stream_command: old(self).stream_command_input,
                    player_command: old(self).player_command_input,
                    oauth_token: old(self).oauth_token_input,
                })
            },
            msg matches Msg::PlayerCommandInput(s) ==> {
                &&& final(self).player_command_input == s
                &&& final(self).stream_command_input == old(self).stream_command_input
                &&& final(self).oauth_token_input == old(self).oauth_token_input
                &&& same_committed(*final(self), *old(self))
                &&& a == Action::Nothing
            },
            msg matches Msg::StreamCommandInput(s) ==> {
                &&& final(self).stream_command_input == s
                &&& final(self).player_command_input == old(self).player_command_input
                &&& final(self).oauth_token_input == old(self).oauth_token_input
                &&& same_committed(*final(self), *old(self))
                &&& a == Action::Nothing
            },
            msg matches Msg::OAuthTokenInput(s) ==> {
                &&& final(self).oauth_token_input == s
                &&& final(self).stream_command_input == old(self).stream_command_input
                &&& final(self).player_command_input == old(self).player_command_input
                &&& same_committed(*final(self), *old(self))
                &&& a == Action::Nothing
            },
            msg is MinuteTick ==> *final(self) == *old(self) && a == Action::PollStreams,
            msg matches Msg::CheckAndNotifyNewStreams(logins) ==> {
                let nl = newly_live(views_of(old(self).live.previous@), views_of(logins@));
                &&& final(self).live.previous == logins
                &&& final(self).streams == old(self).streams
                &&& same_settings(*final(self), *old(self))
                &&& (nl.len() == 0 ==> a == Action::Nothing)
                &&& (nl.len() > 0 ==> (a matches Action::Notify { summary, body } && summary@
                    == "Iced Twitch GUI"@ && body@ == notification_body_spec(nl)))
            },
    {
        match msg {
            Msg::Refresh => Action::FetchStreams,
            Msg::ClickedStream(i) => {
                let st: &ChannelInfo = &self.streams[i];
                let vals = SubstitutionValues {
                    title: st.title.clone(),
                    oauth_token: self.oauth_token.clone(),
                    broadcaster_username: st.user_login.clone(),
                    broadcaster_displayname: st.user_name.clone(),
                };
                match build_launch_plan(
                    self.stream_command.as_str(),
                    self.player_command.as_str(),
                    &vals,
                ) {
                    Ok(plan) => Action::Launch { plan },
                    Err(error) => Action::ReportConfigError { error },
                }
            },
            Msg::SaveRefresh(streams) => {
                let logins = collect_logins(&streams);
                self.live.seed(logins);
                self.streams = streams;
                Action::Nothing
            },
            Msg::Startup(tok) => Action::ValidateToken { access_token: tok },
            Msg::GotUserToken => {
                self.has_token = true;
                Action::FetchStreams
            },
            Msg::GotChildProcessId(_) => Action::Nothing,
            Msg::OpenChat(i) => {
                let url = chat_url(self.streams[i].user_login.as_str());
                Action::OpenUrl { url }
            },
            Msg::OpenChannel(i) => {
                let url = channel_url(self.streams[i].user_login.as_str());
                Action::OpenUrl { url }
            },
            Msg::WindowResized(w) => {
                self.num_columns = (w / 320) as usize;
                Action::Nothing
            },
            Msg::SettingsToggle => {
                self.settings_open = !self.settings_open;
                Action::Nothing
            },
            Msg::ApplySettings => {
                self.stream_command = self.stream_command_input.clone();
                self.player_command = self.player_command_input.clone();
                self.oauth_token = self.oauth_token_input.clone();
                self.settings_open = false;
                Action::SaveSettings {
                    stream_command: self.stream_command_input.clone(),
                    player_command: self.player_command_input.clone(),
                    oauth_token: self.oauth_token_input.clone(),
                }
            },
            Msg::PlayerCommandInput(s) => {
                self.player_command_input = s;
                Action::Nothing
            },
            Msg::StreamCommandInput(s) => {
                self.stream_command_input = s;
                Action::Nothing
            },
            Msg::OAuthTokenInput(s) => {
                self.oauth_token_input = s;
                Action::Nothing
            },
            Msg::MinuteTick => Action::PollStreams,
            Msg::CheckAndNotifyNewStreams(logins) => {
                match self.live.reconcile(logins) {
                    Some(fresh) => {
                        let body = notification_body(&fresh);
                        let summary = notification_summary();
                        Action::Notify { summary, body }
                    },
                    None => Action::Nothing,
                }
            },
        }
    }
}

/// The two states agree on everything but the column count.
pub open spec fn same_settings_but_columns(a: AppState, b: AppState) -> bool {
    &&& a.stream_command == b.stream_command
    &&& a.player_command == b.player_command
    &&& a.oauth_token == b.oauth_token
    &&& a.stream_command_input == b.stream_command_input
    &&& a.player_command_input == b.player_command_input
    &&& a.oauth_token_input == b.oauth_token_input
    &&& a.settings_open == b.settings_open
    &&& a.has_token == b.has_token
}

/// The two states agree on everything but whether the pane is open.
pub open spec fn same_settings_but_pane(a: AppState, b: AppState) -> bool {
    &&& a.stream_command == b.stream_command
    &&& a.player_command == b.player_command
    &&& a.oauth_token == b.oauth_token
    &&& a.stream_command_input == b.stream_command_input
    &&& a.player_command_input == b.player_command_input
    &&& a.oauth_token_input == b.oauth_token_input
    &&& a.num_columns == b.num_columns
    &&& a.has_token == b.has_token
}

/// The committed settings, layout, token, stream list and live set of the
/// two states agree; only the pane's inputs may differ.
pub open spec fn same_committed(a: AppState, b: AppState) -> bool {
    &&& a.stream_command == b.stream_command
    &&& a.player_command == b.player_command
    &&& a.oauth_token == b.oauth_token
    &&& a.settings_open == b.settings_open
    &&& a.num_columns == b.num_columns
    &&& a.has_token == b.has_token
    &&& a.streams == b.streams
    &&& a.live == b.live
}

} // verus!
