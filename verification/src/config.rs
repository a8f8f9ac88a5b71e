//! The application's settings, as they are kept on disk, and what they mean
//! for the timer.

use crate::path::{join_path, path_join};
use crate::pomodoro::{Pomodoro, PomodoroView};
use crate::session::{clone_text, text_view, SessionStatus, SessionType};
use vstd::prelude::*;
use vstd::string::StringExecFns;

verus! {

/// The settings of the application.
#[derive(PartialEq, Debug)]
pub struct Config {
    pub always_on_top: bool,
    pub auto_quit: Option<SessionType>,
    pub auto_start_break_timer: bool,
    pub auto_start_on_app_startup: bool,
    pub auto_start_work_timer: bool,
    pub default_focus_label: String,
    pub default_long_break_label: String,
    pub default_short_break_label: String,
    pub desktop_notifications: bool,
    pub focus_audio: Option<String>,
    pub focus_duration: u16,
    pub long_break_audio: Option<String>,
    pub long_break_duration: u16,
    pub max_round_number: u16,
    pub minimize_to_tray: bool,
    pub minimize_to_tray_on_close: bool,
    pub muted: bool,
    pub short_break_audio: Option<String>,
    pub short_break_duration: u16,
    pub start_minimized: bool,
    pub system_startup_auto_start: bool,
    pub theme: String,
    pub tick_sounds_during_work: bool,
    pub tick_sounds_during_break: bool,
}

/// The mathematical value of a [`Config`].
pub struct ConfigView {
    pub always_on_top: bool,
    pub auto_quit: Option<SessionType>,
    pub auto_start_break_timer: bool,
    pub auto_start_on_app_startup: bool,
    pub auto_start_work_timer: bool,
    pub default_focus_label: Seq<char>,
    pub default_long_break_label: Seq<char>,
    pub default_short_break_label: Seq<char>,
    pub desktop_notifications: bool,
    pub focus_audio: Option<Seq<char>>,
    pub focus_duration: nat,
    pub long_break_audio: Option<Seq<char>>,
    pub long_break_duration: nat,
    pub max_round_number: nat,
    pub minimize_to_tray: bool,
    pub minimize_to_tray_on_close: bool,
    pub muted: bool,
    pub short_break_audio: Option<Seq<char>>,
    pub short_break_duration: nat,
    pub start_minimized: bool,
    pub system_startup_auto_start: bool,
    pub theme: Seq<char>,
    pub tick_sounds_during_work: bool,
    pub tick_sounds_during_break: bool,
}

impl View for Config {
    type V = ConfigView;

    open spec fn view(&self) -> ConfigView {
        ConfigView {
            always_on_top: self.always_on_top,
            auto_quit: self.auto_quit,
            auto_start_break_timer: self.auto_start_break_timer,
            auto_start_on_app_startup: self.auto_start_on_app_startup,
            auto_start_work_timer: self.auto_start_work_timer,
            default_focus_label: self.default_focus_label@,
            default_long_break_label: self.default_long_break_label@,
            default_short_break_label: self.default_short_break_label@,
            desktop_notifications: self.desktop_notifications,
            focus_audio: text_view(self.focus_audio),
            focus_duration: self.focus_duration as nat,
            long_break_audio: text_view(self.long_break_audio),
            long_break_duration: self.long_break_duration as nat,
            max_round_number: self.max_round_number as nat,
            minimize_to_tray: self.minimize_to_tray,
            minimize_to_tray_on_close: self.minimize_to_tray_on_close,
            muted: self.muted,
            short_break_audio: text_view(self.short_break_audio),
            short_break_duration: self.short_break_duration as nat,
            start_minimized: self.start_minimized,
            system_startup_auto_start: self.system_startup_auto_start,
            theme: self.theme@,
            tick_sounds_during_work: self.tick_sounds_during_work,
            tick_sounds_during_break: self.tick_sounds_during_break,
        }
    }
}

impl ConfigView {
    /// The settings of a fresh installation.
    pub open spec fn defaults() -> ConfigView {
        ConfigView {
            always_on_top: true,
            auto_quit: None,
            auto_start_break_timer: true,
            auto_start_on_app_startup: false,
            auto_start_work_timer: true,
            default_focus_label: "Focus"@,
            default_long_break_label: "Long break"@,
            default_short_break_label: "Short break"@,
            desktop_notifications: true,
            focus_audio: None,
            focus_duration: 1500,
            long_break_audio: None,
            long_break_duration: 1200,
            max_round_number: 4,
            minimize_to_tray: true,
            minimize_to_tray_on_close: true,
            muted: false,
            short_break_audio: None,
            short_break_duration: 300,
            start_minimized: false,
            system_startup_auto_start: false,
            theme: "pomotroid"@,
            tick_sounds_during_work: true,
            tick_sounds_during_break: true,
        }
    }

    /// The timer's configuration under these settings, for a given session
    /// file. Both breaks start by themselves if breaks do.
    pub open spec fn pomodoro_config(
        self,
        session_file: Seq<char>,
    ) -> crate::pomodoro::ConfigView {
        crate::pomodoro::ConfigView {
            auto_start_long_break_timer: self.auto_start_break_timer,
            auto_start_short_break_timer: self.auto_start_break_timer,
            auto_start_focus_timer: self.auto_start_work_timer,
            default_focus_label: self.default_focus_label,
            default_long_break_label: self.default_long_break_label,
            default_short_break_label: self.default_short_break_label,
            focus_duration: self.focus_duration,
            long_break_duration: self.long_break_duration,
            max_focus_rounds: self.max_round_number,
            session_file,
            short_break_duration: self.short_break_duration,
        }
    }

    /// Whether the tick sound is due in a session of this status and kind:
    /// it is while a session runs, unless the sound is muted or switched off
    /// for sessions of that kind.
    pub open spec fn plays_tick_sound(
        self,
        status: SessionStatus,
        session_type: SessionType,
    ) -> bool {
        &&& !self.muted
        &&& status == SessionStatus::Running
        &&& match session_type {
            SessionType::Focus => self.tick_sounds_during_work,
            SessionType::ShortBreak => self.tick_sounds_during_break,
            SessionType::LongBreak => self.tick_sounds_during_break,
        }
    }
}

/// The label of a focus session where the settings give none.
pub fn default_focus_label() -> (label: String)
    ensures
        label@ == "Focus"@,
{
    String::from_str("Focus")
}

/// The label of a long break where the settings give none.
pub fn default_long_break_label() -> (label: String)
    ensures
        label@ == "Long break"@,
{
    String::from_str("Long break")
}

/// The label of a short break where the settings give none.
pub fn default_short_break_label() -> (label: String)
    ensures
        label@ == "Short break"@,
{
    String::from_str("Short break")
}

/// The theme where the settings give none.
pub fn default_theme() -> (theme: String)
    ensures
        theme@ == "pomotroid"@,
{
    String::from_str("pomotroid")
}

/// The name of the settings file: the one asked for, or `config.toml`.
pub open spec fn config_file_name(asked: Option<Seq<char>>) -> Seq<char> {
    match asked {
        Some(name) => name,
        None => "config.toml"@,
    }
}

impl Config {
    /// Where the settings file lives: in `config_dir`, under the name asked
    /// for, or under `config.toml`.
    pub fn get_config_file_path(config_dir: &str, config_file_name: Option<String>) -> (path:
        String)
        ensures
            path@ == path_join(config_dir@, self::config_file_name(text_view(config_file_name))),
    {
        match config_file_name {
            Some(name) => join_path(config_dir, name.as_str()),
            None => join_path(config_dir, "config.toml"),
        }
    }
}

impl Clone for Config {
    fn clone(&self) -> (copy: Self)
        ensures
            copy@ == self@,
    {
        Config {
            always_on_top: self.always_on_top,
            auto_quit: self.auto_quit,
            auto_start_break_timer: self.auto_start_break_timer,
            auto_start_on_app_startup: self.auto_start_on_app_startup,
            auto_start_work_timer: self.auto_start_work_timer,
            default_focus_label: self.default_focus_label.clone(),
            default_long_break_label: self.default_long_break_label.clone(),
            default_short_break_label: self.default_short_break_label.clone(),
            desktop_notifications: self.desktop_notifications,
            focus_audio: clone_text(&self.focus_audio),
            focus_duration: self.focus_duration,
            long_break_audio: clone_text(&self.long_break_audio),
            long_break_duration: self.long_break_duration,
            max_round_number: self.max_round_number,
            minimize_to_tray: self.minimize_to_tray,
            minimize_to_tray_on_close: self.minimize_to_tray_on_close,
            muted: self.muted,
            short_break_audio: clone_text(&self.short_break_audio),
            short_break_duration: self.short_break_duration,
            start_minimized: self.start_minimized,
            system_startup_auto_start: self.system_startup_auto_start,
            theme: self.theme.clone(),
            tick_sounds_during_work: self.tick_sounds_during_work,
            tick_sounds_during_break: self.tick_sounds_during_break,
        }
    }
}

impl Default for Config {
    fn default() -> (config: Self)
        ensures
            config@ == ConfigView::defaults(),
    {
        Config {
            always_on_top: true,
            auto_quit: None,
            auto_start_break_timer: true,
            auto_start_on_app_startup: false,
            auto_start_work_timer: true,
            default_focus_label: default_focus_label(),
            default_long_break_label: default_long_break_label(),
            default_short_break_label: default_short_break_label(),
            desktop_notifications: true,
            focus_audio: None,
            focus_duration: 25 * 60,
            long_break_audio: None,
            long_break_duration: 20 * 60,
            max_round_number: 4u16,
            minimize_to_tray: true,
            minimize_to_tray_on_close: true,
            muted: false,
            short_break_audio: None,
            short_break_duration: 5 * 60,
            start_minimized: false,
            system_startup_auto_start: false,
            theme: default_theme(),
            tick_sounds_during_work: true,
            tick_sounds_during_break: true,
        }
    }
}

/// The timer's configuration under `config`, with `session_file` as the
/// session file.
pub fn pomodoro_config_with(config: &Config, session_file: String) -> (timer:
    crate::pomodoro::Config)
    ensures
        timer@ == config@.pomodoro_config(session_file@),
{
    crate::pomodoro::Config {
        auto_start_long_break_timer: config.auto_start_break_timer,
        auto_start_short_break_timer: config.auto_start_break_timer,
        auto_start_focus_timer: config.auto_start_work_timer,
        default_focus_label: config.default_focus_label.clone(),
        default_long_break_label: config.default_long_break_label.clone(),
        default_short_break_label: config.default_short_break_label.clone(),
        focus_duration: config.focus_duration,
        long_break_duration: config.long_break_duration,
        max_focus_rounds: config.max_round_number,
        session_file,
        short_break_duration: config.short_break_duration,
    }
}

/// The timer's configuration under `config`, with the session file in the
/// user's cache directory.
pub fn pomodoro_config(config: &Config) -> (timer: crate::pomodoro::Config)
    ensures
        exists|cache_dir: Option<Seq<char>>|
            timer@ == config@.pomodoro_config(crate::path::session_file_in(cache_dir)),
{
    let session_file = crate::path::default_session_file();
    let timer = pomodoro_config_with(config, session_file);
    proof {
        let cache_dir = choose|cache_dir: Option<Seq<char>>|
            timer.session_file@ == crate::path::session_file_in(cache_dir);
        assert(timer@ == config@.pomodoro_config(crate::path::session_file_in(cache_dir)));
    }
    timer
}

/// A timer set up from `config`: in its first round, with a focus session
/// that has not started.
pub fn pomodoro_state_from_config(config: &Config) -> (pomodoro: Pomodoro)
    ensures
        exists|cache_dir: Option<Seq<char>>|
            pomodoro@ == PomodoroView::initial(
                config@.pomodoro_config(crate::path::session_file_in(cache_dir)),
            ),
{
    let pomodoro = Pomodoro::new(pomodoro_config(config));
    proof {
        let cache_dir = choose|cache_dir: Option<Seq<char>>|
            pomodoro.config@ == config@.pomodoro_config(crate::path::session_file_in(cache_dir));
        assert(pomodoro@ == PomodoroView::initial(
            config@.pomodoro_config(crate::path::session_file_in(cache_dir)),
        ));
    }
    pomodoro
}

/// Whether the tick sound is due: only while a session runs, never when
/// muted, and only if the sound is switched on for sessions of the current
/// kind.
pub fn should_play_tick_sound(config: &Config, pomodoro: &Pomodoro) -> (due: bool)
    ensures
        due == config@.plays_tick_sound(
            pomodoro.current_session.status,
            pomodoro.current_session.session_type,
        ),
{
    match (
        pomodoro.current_session.status,
        pomodoro.current_session.session_type,
        config.tick_sounds_during_work,
        config.tick_sounds_during_break,
        config.muted,
    ) {
        (_, _, _, _, true) => false,
        (_, _, false, false, _) => false,
        (SessionStatus::Running, SessionType::Focus, true, _, _) => true,
        (SessionStatus::Running, SessionType::LongBreak, _, true, _) => true,
        (SessionStatus::Running, SessionType::ShortBreak, _, true, _) => true,
        _ => false,
    }
}

} // verus!
