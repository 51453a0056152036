//! The settings of the program.

use vstd::prelude::*;

verus! {

/// The settings as the user edits them.
#[derive(Debug)]
pub struct Config {
    pub bot_token: String,
    pub user_id: u64,
    pub show_meter: bool,
    pub screen_share_only: bool,
}

/// A copy of the settings that is handed out to be read.
#[derive(Debug)]
pub struct ReadOnlyConfig {
    pub bot_token: String,
    pub user_id: u64,
    pub show_meter: bool,
    pub screen_share_only: bool,
}

/// What the settings hold, as plain values.
pub struct ConfigView {
    pub bot_token: Seq<char>,
    pub user_id: u64,
    pub show_meter: bool,
    pub screen_share_only: bool,
}

impl View for Config {
    type V = ConfigView;

    open spec fn view(&self) -> ConfigView {
        ConfigView {
            bot_token: self.bot_token@,
            user_id: self.user_id,
            show_meter: self.show_meter,
            screen_share_only: self.screen_share_only,
        }
    }
}

impl View for ReadOnlyConfig {
    type V = ConfigView;

    open spec fn view(&self) -> ConfigView {
        ConfigView {
            bot_token: self.bot_token@,
            user_id: self.user_id,
            show_meter: self.show_meter,
            screen_share_only: self.screen_share_only,
        }
    }
}

impl Config {
    /// The settings of a new setup: the meter is shown, and audio is
    /// streamed whether or not the user shares a screen.
    pub fn new(bot_token: String, user_id: u64) -> (config: Self)
        ensures
            config@ == (ConfigView {
                bot_token: bot_token@,
                user_id,
                show_meter: true,
                screen_share_only: false,
            }),
    {
        Config { bot_token, user_id, show_meter: true, screen_share_only: false }
    }

    /// A copy of the settings to read from.
    pub fn read_only(&self) -> (copy: ReadOnlyConfig)
        ensures
            copy@ == self@,
    {
        ReadOnlyConfig {
            bot_token: self.bot_token.clone(),
            user_id: self.user_id,
            show_meter: self.show_meter,
            screen_share_only: self.screen_share_only,
        }
    }
}

impl Clone for Config {
    fn clone(&self) -> (copy: Self)
        ensures
            copy@ == self@,
    {
        Config {
            bot_token: self.bot_token.clone(),
            user_id: self.user_id,
            show_meter: self.show_meter,
            screen_share_only: self.screen_share_only,
        }
    }
}

impl Clone for ReadOnlyConfig {
    fn clone(&self) -> (copy: Self)
        ensures
            copy@ == self@,
    {
        ReadOnlyConfig {
            bot_token: self.bot_token.clone(),
            user_id: self.user_id,
            show_meter: self.show_meter,
            screen_share_only: self.screen_share_only,
        }
    }
}

} // verus!
