//! The decisions of the voice delivery: when the bot joins or leaves a voice
//! channel, and what is shown of its connection.
//!
//! The bot follows one user. It streams while that user is in a voice
//! channel, or, where the settings say so, only while that user shares a
//! screen there.

use vstd::prelude::*;
use vstd::string::StringExecFns;
use crate::config::{Config, ConfigView, ReadOnlyConfig};

verus! {

/// The user that the bot is logged in as.
#[derive(Debug)]
pub struct CurrentUser {
    pub id: u64,
    pub name: String,
}

/// A voice channel of a guild.
#[derive(Debug)]
pub struct GuildChannel {
    pub id: u64,
    pub guild_id: u64,
    pub name: String,
}

/// What the bot does in voice.
#[derive(Debug)]
pub enum VoiceState {
    Idle,
    Joining(GuildChannel),
    Active(GuildChannel),
    Error(String),
}

/// What is shown of the connection of the bot.
#[derive(Debug)]
pub enum State {
    Idle,
    Connecting,
    Connected(CurrentUser, VoiceState),
    Error(String),
}

/// What the bot reports.
#[derive(Debug)]
pub enum BotEvent {
    /// The bot has connected.
    Connected(CurrentUser),
    /// The bot has taken its session up again.
    Reconnected,
    /// The bot is joining a voice channel.
    Joining(GuildChannel),
    /// The bot has joined a voice channel.
    Joined(GuildChannel),
    /// The bot has left its voice channel.
    Left,
    /// The followed user went to a voice channel, or left voice.
    TargetUserMoved(Option<GuildChannel>),
    /// The followed user started or stopped sharing a screen.
    TargetUserStreamStateChanged(bool),
    /// The connection failed.
    ClientError(String),
    /// The voice connection failed.
    VoiceError(String),
}

/// What the bot is to do about its voice channel.
#[derive(Debug, Clone, Copy, PartialEq, Eq, Structural)]
pub enum VoiceCommand {
    /// Nothing.
    Stay,
    /// Leave the voice channel.
    Leave,
    /// Join the followed user and stream.
    Join,
}

/// What has to follow an event of the bot.
#[derive(Debug, Clone, Copy, PartialEq, Eq, Structural)]
pub enum Followup {
    /// Nothing.
    Nothing,
    /// Ask whether the followed user shares a screen, and report the answer
    /// with [`DiscordSystem::set_streaming`].
    AskStreaming,
    /// Carry out a command.
    Command(VoiceCommand),
}

/// What a voice state update says of a user.
#[derive(Debug, Clone, Copy, PartialEq, Eq, Structural)]
pub struct VoiceSnapshot {
    pub user_id: u64,
    pub channel_id: Option<u64>,
    pub self_stream: Option<bool>,
}

/// What a voice state update of the followed user amounts to.
#[derive(Debug, Clone, Copy, PartialEq, Eq, Structural)]
pub struct VoiceUpdate {
    /// The user started or stopped sharing a screen.
    pub stream_state: Option<bool>,
    /// The user moved: to the channel given, or out of voice or into the
    /// channel of the bot.
    pub moved_to: Option<Option<u64>>,
}

/// The members of a voice channel.
#[derive(Debug)]
pub struct ChannelMembers {
    pub members: Vec<u64>,
    pub channel: GuildChannel,
}

/// The part of the program that speaks for the voice delivery.
#[derive(Debug)]
pub struct DiscordSystem {
    state: State,
    is_streaming: bool,
    config: Option<ReadOnlyConfig>,
}

/// What the voice delivery holds, as plain values.
pub struct DiscordView {
    pub state: State,
    /// Whether the followed user shares a screen.
    pub is_streaming: bool,
    /// The settings that the bot was connected with.
    pub config: Option<ConfigView>,
}

/// Whether a flag that may be unknown is set.
pub open spec fn flag(value: Option<bool>) -> bool {
    match value {
        Some(b) => b,
        None => false,
    }
}

/// What a voice state update amounts to for the bot that follows
/// `target_user` and sits in the channel `connected_to`.
pub open spec fn voice_update(
    target_user: u64,
    connected_to: Option<u64>,
    old: Option<VoiceSnapshot>,
    new: VoiceSnapshot,
) -> VoiceUpdate {
    if new.user_id != target_user {
        VoiceUpdate { stream_state: None, moved_to: None }
    } else {
        let was_streaming = match old {
            Some(o) => flag(o.self_stream),
            None => false,
        };
        let has_moved = match old {
            Some(o) => o.channel_id != new.channel_id,
            None => false,
        };
        VoiceUpdate {
            stream_state: if was_streaming != flag(new.self_stream) {
                Some(flag(new.self_stream))
            } else {
                None
            },
            moved_to: if !has_moved {
                None
            } else if new.channel_id is Some && new.channel_id != connected_to {
                Some(new.channel_id)
            } else {
                Some(None)
            },
        }
    }
}

/// The first channel that has `user` among its members.
pub open spec fn channel_of(channels: Seq<ChannelMembers>, user: u64) -> Option<GuildChannel>
    decreases channels.len(),
{
    if channels.len() == 0 {
        None
    } else if channels[0].members@.contains(user) {
        Some(channels[0].channel)
    } else {
        channel_of(channels.drop_first(), user)
    }
}

/// What the bot is to do about its voice channel: where only a shared
/// screen is streamed and none is shared, it leaves the channel it is in and
/// joins none; else it joins the followed user.
pub open spec fn on_demand(screen_share_only: bool, is_streaming: bool, connected: bool) -> VoiceCommand {
    if screen_share_only && !is_streaming {
        if connected {
            VoiceCommand::Leave
        } else {
            VoiceCommand::Stay
        }
    } else {
        VoiceCommand::Join
    }
}

impl State {
    /// The state with another voice state, which only a connected bot has.
    pub open spec fn with_voice(self, voice: VoiceState) -> State {
        match self {
            State::Connected(user, _) => State::Connected(user, voice),
            _ => self,
        }
    }

    /// The bot is connected.
    pub open spec fn connected(self) -> bool {
        self is Connected
    }

    /// Sets the voice state of a connected bot; any other state stays.
    pub fn set_voice_state(self, voice: VoiceState) -> (next: State)
        ensures
            next == self.with_voice(voice),
    {
        match self {
            State::Connected(user, _) => State::Connected(user, voice),
            other => other,
        }
    }

    /// Tells whether the bot is connected.
    pub fn is_connected(&self) -> (connected: bool)
        ensures
            connected == self.connected(),
    {
        match self {
            State::Connected(_, _) => true,
            _ => false,
        }
    }

    /// Tells whether the setup form takes input: not while the bot connects
    /// or is connected.
    pub fn accepts_setup(&self) -> (accepts: bool)
        ensures
            accepts == (*self is Idle || *self is Error),
    {
        match self {
            State::Idle => true,
            State::Error(_) => true,
            _ => false,
        }
    }
}

impl Clone for CurrentUser {
    fn clone(&self) -> (copy: Self)
        ensures
            copy == *self,
    {
        CurrentUser { id: self.id, name: self.name.clone() }
    }
}

impl Clone for GuildChannel {
    fn clone(&self) -> (copy: Self)
        ensures
            copy == *self,
    {
        GuildChannel { id: self.id, guild_id: self.guild_id, name: self.name.clone() }
    }
}

impl Clone for VoiceState {
    fn clone(&self) -> (copy: Self)
        ensures
            copy == *self,
    {
        match self {
            VoiceState::Idle => VoiceState::Idle,
            VoiceState::Joining(channel) => VoiceState::Joining(channel.clone()),
            VoiceState::Active(channel) => VoiceState::Active(channel.clone()),
            VoiceState::Error(error) => VoiceState::Error(error.clone()),
        }
    }
}

impl Clone for State {
    fn clone(&self) -> (copy: Self)
        ensures
            copy == *self,
    {
        match self {
            State::Idle => State::Idle,
            State::Connecting => State::Connecting,
            State::Connected(user, voice) => State::Connected(user.clone(), voice.clone()),
            State::Error(error) => State::Error(error.clone()),
        }
    }
}

impl Default for State {
    fn default() -> (state: Self)
        ensures
            state == State::Idle,
    {
        State::Idle
    }
}

impl Default for VoiceState {
    fn default() -> (state: Self)
        ensures
            state == VoiceState::Idle,
    {
        VoiceState::Idle
    }
}

impl DiscordView {
    /// Whether only a shared screen is streamed; not before the bot was
    /// connected with its settings.
    pub open spec fn screen_share_only(self) -> bool {
        match self.config {
            Some(config) => config.screen_share_only,
            None => false,
        }
    }

    /// What the bot is to do about its voice channel as things stand.
    /// Nothing, before the bot was connected with its settings.
    pub open spec fn demand(self) -> VoiceCommand {
        if self.config is None {
            VoiceCommand::Stay
        } else {
            on_demand(self.screen_share_only(), self.is_streaming, self.state.connected())
        }
    }

    /// The system after an event of the bot.
    pub open spec fn after(self, event: BotEvent) -> DiscordView {
        match event {
            BotEvent::Connected(user) => DiscordView {
                state: State::Connected(user, VoiceState::Idle),
                ..self
            },
            BotEvent::Reconnected => self,
            BotEvent::Joining(channel) => DiscordView {
                state: self.state.with_voice(VoiceState::Joining(channel)),
                ..self
            },
            BotEvent::Joined(channel) => DiscordView {
                state: self.state.with_voice(VoiceState::Active(channel)),
                ..self
            },
            BotEvent::Left => DiscordView { state: self.state.with_voice(VoiceState::Idle), ..self },
            BotEvent::TargetUserMoved(Some(channel)) => DiscordView {
                state: self.state.with_voice(VoiceState::Active(channel)),
                ..self
            },
            BotEvent::TargetUserMoved(None) => DiscordView {
                state: self.state.with_voice(VoiceState::Idle),
                ..self
            },
            BotEvent::TargetUserStreamStateChanged(streaming) => DiscordView {
                is_streaming: streaming,
                ..self
            },
            BotEvent::ClientError(error) => DiscordView { state: State::Error(error), ..self },
            BotEvent::VoiceError(error) => DiscordView {
                state: self.state.with_voice(VoiceState::Error(error)),
                ..self
            },
        }
    }

    /// What has to follow an event of the bot, once the event is taken in.
    pub open spec fn followup(self, event: BotEvent) -> Followup {
        match event {
            BotEvent::Connected(_) => Followup::AskStreaming,
            BotEvent::TargetUserMoved(Some(_)) => Followup::Command(self.after(event).demand()),
            BotEvent::TargetUserMoved(None) => Followup::Command(VoiceCommand::Leave),
            BotEvent::TargetUserStreamStateChanged(_) => Followup::Command(
                self.after(event).demand(),
            ),
            _ => Followup::Nothing,
        }
    }
}

impl View for DiscordSystem {
    type V = DiscordView;

    closed spec fn view(&self) -> DiscordView {
        DiscordView {
            state: self.state,
            is_streaming: self.is_streaming,
            config: match self.config {
                Some(config) => Some(config@),
                None => None,
            },
        }
    }
}

impl DiscordSystem {
    /// A system whose bot is not connected.
    pub fn new() -> (system: Self)
        ensures
            system@.state == State::Idle,
            !system@.is_streaming,
            system@.config is None,
    {
        DiscordSystem { state: State::Idle, is_streaming: false, config: None }
    }

    /// Takes note that the bot is being connected with the settings given.
    pub fn connect(&mut self, config: &Config)
        ensures
            final(self)@ == (DiscordView {
                state: State::Connecting,
                config: Some(config@),
                ..old(self)@
            }),
    {
        self.config = Some(config.read_only());
        self.state = State::Connecting;
    }

    /// Takes note that the bot was stopped.
    pub fn disconnect(&mut self)
        ensures
            final(self)@ == (DiscordView { state: State::Idle, ..old(self)@ }),
    {
        self.state = State::Idle;
    }

    /// What is shown of the connection.
    pub fn state(&self) -> (state: State)
        ensures
            state == self@.state,
    {
        self.state.clone()
    }

    /// Decides what the bot is to do about its voice channel.
    pub fn stream_on_demand(&self) -> (command: VoiceCommand)
        ensures
            command == self@.demand(),
    {
        let screen_share_only = match &self.config {
            Some(config) => config.screen_share_only,
            None => {
                return VoiceCommand::Stay;
            },
        };
        if screen_share_only && !self.is_streaming {
            if self.state.is_connected() {
                VoiceCommand::Leave
            } else {
                VoiceCommand::Stay
            }
        } else {
            VoiceCommand::Join
        }
    }

    /// Takes new settings and decides what the bot is to do under them.
    pub fn set_config(&mut self, config: ReadOnlyConfig) -> (command: VoiceCommand)
        ensures
            final(self)@ == (DiscordView { config: Some(config@), ..old(self)@ }),
            command == final(self)@.demand(),
    {
        self.config = Some(config);
        self.stream_on_demand()
    }

    /// Takes note whether the followed user shares a screen and decides what
    /// the bot is to do.
    pub fn set_streaming(&mut self, streaming: bool) -> (command: VoiceCommand)
        ensures
            final(self)@ == (DiscordView { is_streaming: streaming, ..old(self)@ }),
            command == final(self)@.demand(),
    {
        self.is_streaming = streaming;
        self.stream_on_demand()
    }

    /// Takes an event of the bot in and says what has to follow it.
    pub fn handle_event(&mut self, event: BotEvent) -> (followup: Followup)
        ensures
            final(self)@ == old(self)@.after(event),
            followup == old(self)@.followup(event),
    {
        let state = self.state.clone();
        match event {
            BotEvent::Connected(user) => {
                self.state = State::Connected(user, VoiceState::Idle);
                Followup::AskStreaming
            },
            BotEvent::Reconnected => Followup::Nothing,
            BotEvent::Joining(channel) => {
                self.state = state.set_voice_state(VoiceState::Joining(channel));
                Followup::Nothing
            },
            BotEvent::Joined(channel) => {
                self.state = state.set_voice_state(VoiceState::Active(channel));
                Followup::Nothing
            },
            BotEvent::Left => {
                self.state = state.set_voice_state(VoiceState::Idle);
                Followup::Nothing
            },
            BotEvent::TargetUserMoved(new_channel) => match new_channel {
                Some(channel) => {
                    self.state = state.set_voice_state(VoiceState::Active(channel));
                    Followup::Command(self.stream_on_demand())
                },
                None => {
                    self.state = state.set_voice_state(VoiceState::Idle);
                    Followup::Command(VoiceCommand::Leave)
                },
            },
            BotEvent::TargetUserStreamStateChanged(streaming) => {
                self.is_streaming = streaming;
                Followup::Command(self.stream_on_demand())
            },
            BotEvent::ClientError(error) => {
                self.state = State::Error(error);
                Followup::Nothing
            },
            BotEvent::VoiceError(error) => {
                self.state = state.set_voice_state(VoiceState::Error(error));
                Followup::Nothing
            },
        }
    }
}

/// Decides what a voice state update means to the bot that follows
/// `target_user` and sits in the channel `connected_to`.
pub fn voice_state_update(
    target_user: u64,
    connected_to: Option<u64>,
    old: Option<VoiceSnapshot>,
    new: VoiceSnapshot,
) -> (update: VoiceUpdate)
    ensures
        update == voice_update(target_user, connected_to, old, new),
{
    if new.user_id != target_user {
        return VoiceUpdate { stream_state: None, moved_to: None };
    }
    let has_changed = match old {
        Some(o) => o.channel_id != new.channel_id,
        None => false,
    };
    let old_stream_state = match old {
        Some(o) => match o.self_stream {
            Some(b) => b,
            None => false,
        },
        None => false,
    };
    let new_stream_state = match new.self_stream {
        Some(b) => b,
        None => false,
    };
    let stream_state = if old_stream_state != new_stream_state {
        Some(new_stream_state)
    } else {
        None
    };
    if !has_changed {
        return VoiceUpdate { stream_state, moved_to: None };
    }
    let moved_to = match new.channel_id {
        Some(id) => if connected_to == Some(id) {
            Some(None)
        } else {
            Some(Some(id))
        },
        None => Some(None),
    };
    VoiceUpdate { stream_state, moved_to }
}

/// Tells whether `user` is among `members`.
fn has_member(members: &Vec<u64>, user: u64) -> (found: bool)
    ensures
        found == members@.contains(user),
{
    let mut i: usize = 0;
    while i < members.len()
        invariant
            i <= members.len(),
            forall|k: int| 0 <= k < i ==> members@[k] != user,
        decreases members.len() - i,
    {
        if members[i] == user {
            return true;
        }
        i = i + 1;
    }
    false
}

/// Finds the voice channel that the followed user is in.
pub fn locate_target_user_channel(channels: &Vec<ChannelMembers>, target_user: u64) -> (channel: Option<GuildChannel>)
    ensures
        channel == channel_of(channels@, target_user),
{
    let mut i: usize = 0;
    proof {
        assert(channels@.skip(0) == channels@);
    }
    while i < channels.len()
        invariant
            i <= channels.len(),
            channel_of(channels@, target_user) == channel_of(channels@.skip(i as int), target_user),
        decreases channels.len() - i,
    {
        proof {
            let rest = channels@.skip(i as int);
            assert(rest[0] == channels@[i as int]);
            assert(rest.drop_first() == channels@.skip(i + 1));
        }
        if has_member(&channels[i].members, target_user) {
            return Some(channels[i].channel.clone());
        }
        i = i + 1;
    }
    None
}

/// The release to tell the user of: the latest one, unless its tag is that
/// of the version that runs.
pub fn newer_release(tag_name: String, version: &str) -> (update: Option<String>)
    ensures
        update == if tag_name@ != "v"@ + version@ {
            Some(tag_name)
        } else {
            None
        },
{
    let mut running = String::from_str("v");
    running.append(version);
    if tag_name != running {
        Some(tag_name)
    } else {
        None
    }
}

} // verus!
