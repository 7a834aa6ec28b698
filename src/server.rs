use crate::blocked_sites::{add_url, list_urls, remove_url, texts, SiteList};
use crate::config::PomodoroStateConfig;
use crate::pomodoro::{
    no_effects, pause_spec, reset_progress_spec, reset_spec, resume_spec, start_spec, Effects,
    PomodoroHandle,
};
use vstd::prelude::*;
use vstd::string::StringExecFns;

verus! {

/// A snapshot of the session, with the blocked hostnames when they were
/// asked for.
#[derive(Clone, Debug, PartialEq, Eq)]
pub struct StatusWithOptionalUrls {
    pub config: PomodoroStateConfig,
    pub blocked_urls: Option<Vec<String>>,
}

/// What a client is sent: in answer to a command, or as a periodic status.
#[derive(Clone, Debug, PartialEq, Eq)]
pub enum ResponsePayload {
    Message(String),
    Status(StatusWithOptionalUrls),
    Error(String),
    Help(String),
    List(Vec<String>),
}

/// A request from a client.
#[derive(Clone, Debug, PartialEq, Eq)]
pub enum ClientCommand {
    Start,
    Pause,
    Resume,
    Status,
    MyConfig,
    ResetProgress,
    ResetConfig,
    Test,
    Help,
    Block { url: String },
    Unblock { url: String },
    UpdateConfig { new_config: PomodoroStateConfig },
    ListBlocked,
}

/// The answer to one command and what the server must carry out after it.
pub struct Reply {
    pub response: ResponsePayload,
    /// Session work: save, start the driver, announce a phase.
    pub effects: Effects,
    /// Save the blocked-site list.
    pub save_sites: bool,
    /// Play the test sound.
    pub test_sound: bool,
}

/// `r` is a message with text `text`.
pub open spec fn says(r: ResponsePayload, text: Seq<char>) -> bool {
    r matches ResponsePayload::Message(m) && m@ == text
}

/// `r` is an error with text `text`.
pub open spec fn refuses(r: ResponsePayload, text: Seq<char>) -> bool {
    r matches ResponsePayload::Error(m) && m@ == text
}

/// The help text.
pub const HELP_TEXT: &'static str = "
    🆘 Available Commands:
    { \"command\": \"start\" }               Start the Pomodoro timer
    { \"command\": \"pause\" }               Pause the timer
    { \"command\": \"resume\" }              Resume the timer
    { \"command\": \"status\" }              Show current timer status
    { \"command\": \"myconfig\" }            Show config file location
    { \"command\": \"resetprogress\" }       Reset progress
    { \"command\": \"resetconfig\" }         Reset entire config
    { \"command\": \"updateconfig\", \"new_config\": {...} }  Replace the configuration
    { \"command\": \"test\" }                Play test sound
    { \"command\": \"block\", \"url\": \"...\" } Block a website
    { \"command\": \"unblock\", \"url\": \"...\" } Unblock a website
    { \"command\": \"listblocked\" }         List blocked websites
    { \"command\": \"help\" }                Show this help message
    ";

/// The status sent in answer to a `Status` command: the session alone.
pub fn status_reply(config: &PomodoroStateConfig) -> (r: ResponsePayload)
    ensures
        r == ResponsePayload::Status(StatusWithOptionalUrls { config: *config, blocked_urls: None }),
{
    ResponsePayload::Status(StatusWithOptionalUrls { config: *config, blocked_urls: None })
}

/// The status broadcast to every observer: the session and the blocked
/// hostnames.
pub fn status_update(config: &PomodoroStateConfig, blocked_urls: Vec<String>) -> (r: ResponsePayload)
    ensures
        r == ResponsePayload::Status(
            StatusWithOptionalUrls { config: *config, blocked_urls: Some(blocked_urls) },
        ),
{
    ResponsePayload::Status(StatusWithOptionalUrls { config: *config, blocked_urls: Some(blocked_urls) })
}

/// The answer to a request that is no command; `detail` says what is wrong.
pub fn malformed_command(detail: &str) -> (r: ResponsePayload)
    ensures
        refuses(r, "❌ Comando inválido: "@ + detail@),
{
    ResponsePayload::Error(String::from_str("❌ Comando inválido: ").concat(detail))
}

/// The answer a client gets once the saves its command asked for are done:
/// the command's own answer when they succeeded, and otherwise an error that
/// says what failed. The session keeps its state in memory either way.
pub fn settle_reply(response: ResponsePayload, saved: Result<(), String>) -> (r: ResponsePayload)
    ensures
        match saved {
            Ok(_) => r == response,
            Err(e) => refuses(r, "❌ Failed to save: "@ + e@),
        },
{
    match saved {
        Ok(()) => response,
        Err(e) => ResponsePayload::Error(String::from_str("❌ Failed to save: ").concat(e.as_str())),
    }
}

fn message(text: &str) -> (r: ResponsePayload)
    ensures
        says(r, text@),
{
    ResponsePayload::Message(String::from_str(text))
}

fn session_reply(response: ResponsePayload, effects: Effects) -> (r: Reply)
    ensures
        r == (Reply { response, effects, save_sites: false, test_sound: false }),
{
    Reply { response, effects, save_sites: false, test_sound: false }
}

/// Carries out one command, under exclusive access to the session, and
/// answers it. `config_file` is where the configuration is stored, when it
/// exists. A configuration replacing the session's is adopted only when it
/// is valid; otherwise the session is left as it was.
pub fn dispatch(
    handle: &mut PomodoroHandle,
    config: &mut PomodoroStateConfig,
    sites: &mut SiteList,
    command: ClientCommand,
    config_file: Option<String>,
) -> (r: Reply)
    requires
        old(config).wf(),
    ensures
        final(config).wf(),
        !(command is Block || command is Unblock) ==> final(sites)@ == old(sites)@ && !r.save_sites,
        !(command is Test) ==> !r.test_sound,
        match command {
            ClientCommand::Start => {
                &&& (final(handle).driver, *final(config), r.effects) == start_spec(
                    old(handle).driver,
                    *old(config),
                )
                &&& says(r.response, "✅ Timer started"@)
            },
            ClientCommand::Pause => {
                &&& (final(handle).driver, *final(config), r.effects) == pause_spec(
                    old(handle).driver,
                    *old(config),
                )
                &&& says(r.response, "⏸ Timer paused"@)
            },
            ClientCommand::Resume => {
                &&& (final(handle).driver, *final(config), r.effects) == resume_spec(
                    old(handle).driver,
                    *old(config),
                )
                &&& says(r.response, "▶️ Timer resumed"@)
            },
            ClientCommand::ResetProgress => {
                &&& (final(handle).driver, *final(config), r.effects) == reset_progress_spec(
                    old(handle).driver,
                    *old(config),
                )
                &&& says(r.response, "🔄 Progress reset"@)
            },
            ClientCommand::ResetConfig => {
                &&& (final(handle).driver, *final(config), r.effects) == reset_spec(
                    old(handle).driver,
                    *old(config),
                )
                &&& says(r.response, "🔄 Config set to default"@)
            },
            ClientCommand::UpdateConfig { new_config } => {
                &&& *final(handle) == *old(handle)
                &&& if new_config.wf() {
                    &&& *final(config) == new_config
                    &&& r.effects == (Effects { persist: true, spawn_driver: false, announce: None })
                    &&& says(r.response, "✅ Config updated"@)
                } else {
                    &&& *final(config) == *old(config)
                    &&& r.effects == no_effects()
                    &&& refuses(
                        r.response,
                        "❌ Invalid configuration: durations, cycles and the long break interval must be positive, and the progress must fit them"@,
                    )
                }
            },
            _ => {
                &&& *final(handle) == *old(handle)
                &&& *final(config) == *old(config)
                &&& r.effects == no_effects()
                &&& match command {
                    ClientCommand::Status => r.response == ResponsePayload::Status(
                        StatusWithOptionalUrls { config: *old(config), blocked_urls: None },
                    ),
                    ClientCommand::MyConfig => match config_file {
                        Some(path) => says(r.response, "🗂 Config file found at: "@ + path@),
                        None => refuses(r.response, "❌ Config file not found"@),
                    },
                    ClientCommand::Test => r.test_sound && says(
                        r.response,
                        "🔊 Test sound played"@,
                    ),
                    ClientCommand::Help => r.response matches ResponsePayload::Help(h) && h@
                        == HELP_TEXT@,
                    ClientCommand::Block { url } => {
                        &&& r.save_sites == !old(sites)@.contains(url@)
                        &&& final(sites)@ == (if r.save_sites {
                            old(sites)@.push(url@)
                        } else {
                            old(sites)@
                        })
                        &&& says(
                            r.response,
                            "🔒 URL "@ + url@ + " add to the blocked file"@,
                        )
                    },
                    ClientCommand::Unblock { url } => {
                        &&& r.save_sites == old(sites)@.contains(url@)
                        &&& final(sites)@ == old(sites)@.remove_value(url@)
                        &&& says(
                            r.response,
                            "🔓 URL "@ + url@ + " removed from the blocked file"@,
                        )
                    },
                    ClientCommand::ListBlocked => r.response matches ResponsePayload::List(l)
                        && texts(l@) == old(sites)@,
                    _ => true,
                }
            },
        },
{
    match command {
        ClientCommand::Start => {
            let e = handle.start(config);
            session_reply(message("✅ Timer started"), e)
        },
        ClientCommand::Pause => {
            let e = handle.pause(config);
            session_reply(message("⏸ Timer paused"), e)
        },
        ClientCommand::Resume => {
            let e = handle.resume(config);
            session_reply(message("▶️ Timer resumed"), e)
        },
        ClientCommand::ResetProgress => {
            let e = handle.reset_progress(config);
            session_reply(message("🔄 Progress reset"), e)
        },
        ClientCommand::ResetConfig => {
            let e = handle.reset(config);
            session_reply(message("🔄 Config set to default"), e)
        },
        ClientCommand::UpdateConfig { new_config } => {
            if new_config.is_valid() {
                *config = new_config;
                session_reply(
                    message("✅ Config updated"),
                    Effects { persist: true, spawn_driver: false, announce: None },
                )
            } else {
                session_reply(
                    ResponsePayload::Error(
                        String::from_str(
                            "❌ Invalid configuration: durations, cycles and the long break interval must be positive, and the progress must fit them",
                        ),
                    ),
                    Effects { persist: false, spawn_driver: false, announce: None },
                )
            }
        },
        ClientCommand::Status => session_reply(
            status_reply(config),
            Effects { persist: false, spawn_driver: false, announce: None },
        ),
        ClientCommand::MyConfig => {
            let response = match config_file {
                Some(path) => ResponsePayload::Message(
                    String::from_str("🗂 Config file found at: ").concat(path.as_str()),
                ),
                None => ResponsePayload::Error(String::from_str("❌ Config file not found")),
            };
            session_reply(response, Effects { persist: false, spawn_driver: false, announce: None })
        },
        ClientCommand::Test => Reply {
            response: message("🔊 Test sound played"),
            effects: Effects { persist: false, spawn_driver: false, announce: None },
            save_sites: false,
            test_sound: true,
        },
        ClientCommand::Help => session_reply(
            ResponsePayload::Help(String::from_str(HELP_TEXT)),
            Effects { persist: false, spawn_driver: false, announce: None },
        ),
        ClientCommand::Block { url } => {
            let inserted = add_url(sites, url.as_str());
            let text = String::from_str("🔒 URL ").concat(url.as_str()).concat(
                " add to the blocked file",
            );
            Reply {
                response: ResponsePayload::Message(text),
                effects: Effects { persist: false, spawn_driver: false, announce: None },
                save_sites: inserted,
                test_sound: false,
            }
        },
        ClientCommand::Unblock { url } => {
            let removed = remove_url(sites, url.as_str());
            let text = String::from_str("🔓 URL ").concat(url.as_str()).concat(
                " removed from the blocked file",
            );
            Reply {
                response: ResponsePayload::Message(text),
                effects: Effects { persist: false, spawn_driver: false, announce: None },
                save_sites: removed,
                test_sound: false,
            }
        },
        ClientCommand::ListBlocked => session_reply(
            ResponsePayload::List(list_urls(sites)),
            Effects { persist: false, spawn_driver: false, announce: None },
        ),
    }
}

} // verus!
