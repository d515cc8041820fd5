//! The bridge protocol between the dedicated native event-pump thread and
//! the rest of the system: decoding menu identifiers into messages,
//! classifying a temperature into the tri-state icon severity, tracking the
//! icon state so equal states never re-trigger a command, and suppressing
//! duplicate events delivered in quick succession.
//!
//! The thread itself, the channels it is reached over, and the native tray
//! object stay outside the library; everything they decide passes through
//! the functions here.
use vstd::prelude::*;

verus! {

use crate::strutil::str_eq;

/// A user action surfaced from the native side of the bridge.
#[derive(Debug, Clone, Copy, PartialEq, Eq, Structural)]
pub enum TrayMessage {
    Exit,
    Pause,
    Resume,
    Settings,
    ShowLogs,
    InstallAutostart,
    UninstallAutostart,
    About,
    OpenConfig,
    OpenLogsFolder,
    OpenWebInterface,
}

/// Tri-state severity shown by the tray icon.
#[derive(Debug, Clone, Copy, PartialEq, Eq, Structural)]
pub enum IconState {
    Cool,
    Warm,
    Hot,
}

/// An instruction sent to the dedicated event-pump thread. Exactly one
/// `Shutdown` is ever sent, as the last command.
#[derive(Debug, Clone, Copy, PartialEq, Eq, Structural)]
pub enum BridgeCommand {
    UpdateIcon(IconState),
    Shutdown,
}

/// Why bridge startup failed: the native reason, surfaced through the
/// readiness handshake before the caller proceeds.
#[derive(Debug, Clone, PartialEq)]
pub enum InitError {
    IconLoad(String),
    MenuConstruction(String),
    TrayRegistration(String),
}

/// The message a menu identifier decodes to, if any.
pub open spec fn spec_menu_message(id: Seq<char>) -> Option<TrayMessage> {
    if id == "about"@ {
        Some(TrayMessage::About)
    } else if id == "pause"@ {
        Some(TrayMessage::Pause)
    } else if id == "resume"@ {
        Some(TrayMessage::Resume)
    } else if id == "settings"@ {
        Some(TrayMessage::OpenWebInterface)
    } else if id == "show_logs"@ {
        Some(TrayMessage::ShowLogs)
    } else if id == "open_config"@ {
        Some(TrayMessage::OpenConfig)
    } else if id == "open_logs_folder"@ {
        Some(TrayMessage::OpenLogsFolder)
    } else if id == "autostart_install"@ {
        Some(TrayMessage::InstallAutostart)
    } else if id == "autostart_remove"@ {
        Some(TrayMessage::UninstallAutostart)
    } else if id == "exit"@ {
        Some(TrayMessage::Exit)
    } else {
        None
    }
}

/// Decode the identifier of a clicked menu item into the message handed to
/// the orchestrator; an unknown identifier decodes to nothing.
pub fn menu_id_to_message(id: &str) -> (r: Option<TrayMessage>)
    ensures
        r == spec_menu_message(id@),
{
    if str_eq(id, "about") {
        Some(TrayMessage::About)
    } else if str_eq(id, "pause") {
        Some(TrayMessage::Pause)
    } else if str_eq(id, "resume") {
        Some(TrayMessage::Resume)
    } else if str_eq(id, "settings") {
        Some(TrayMessage::OpenWebInterface)
    } else if str_eq(id, "show_logs") {
        Some(TrayMessage::ShowLogs)
    } else if str_eq(id, "open_config") {
        Some(TrayMessage::OpenConfig)
    } else if str_eq(id, "open_logs_folder") {
        Some(TrayMessage::OpenLogsFolder)
    } else if str_eq(id, "autostart_install") {
        Some(TrayMessage::InstallAutostart)
    } else if str_eq(id, "autostart_remove") {
        Some(TrayMessage::UninstallAutostart)
    } else if str_eq(id, "exit") {
        Some(TrayMessage::Exit)
    } else {
        None
    }
}

/// Severity class for a temperature against a threshold, both in tenths of
/// a degree: over the threshold is hot, within ten degrees below it is
/// warm, anything cooler is cool.
pub open spec fn spec_icon_state(temperature: int, threshold: int) -> IconState {
    if temperature > threshold {
        IconState::Hot
    } else if temperature > threshold - 100 {
        IconState::Warm
    } else {
        IconState::Cool
    }
}

/// Classify a temperature reading into the icon severity scale.
pub fn icon_state_for_temperature(temperature_tenths: i32, threshold_tenths: i32) -> (state:
    IconState)
    ensures
        state == spec_icon_state(temperature_tenths as int, threshold_tenths as int),
{
    let temperature: i64 = temperature_tenths as i64;
    let threshold: i64 = threshold_tenths as i64;
    if temperature > threshold {
        IconState::Hot
    } else if temperature > threshold - 100 {
        IconState::Warm
    } else {
        IconState::Cool
    }
}

/// The caller-side icon memory: sends an icon command only when the newly
/// classified state differs from the state last commanded, so equal states
/// never re-trigger the bridge.
pub struct IconTracker {
    pub current_icon_state: IconState,
}

impl IconTracker {
    /// The bridge starts with a cool icon.
    pub fn new() -> (t: IconTracker)
        ensures
            t.current_icon_state == IconState::Cool,
    {
        IconTracker { current_icon_state: IconState::Cool }
    }

    /// Classify the temperature and return the icon command to send, or
    /// nothing when the severity did not change.
    pub fn update_icon_for_temperature(
        &mut self,
        temperature_tenths: i32,
        threshold_tenths: i32,
    ) -> (command: Option<BridgeCommand>)
        ensures
            ({
                let new_state = spec_icon_state(temperature_tenths as int, threshold_tenths as int);
                if new_state == old(self).current_icon_state {
                    command is None && *final(self) == *old(self)
                } else {
                    command == Some(BridgeCommand::UpdateIcon(new_state))
                        && final(self).current_icon_state == new_state
                }
            }),
    {
        let new_state = icon_state_for_temperature(temperature_tenths, threshold_tenths);
        if new_state == self.current_icon_state {
            None
        } else {
            self.current_icon_state = new_state;
            Some(BridgeCommand::UpdateIcon(new_state))
        }
    }
}

/// An event identical to the previous delivered one is dropped when it
/// arrives within this many milliseconds of it.
pub const DUPLICATE_WINDOW_MS: u64 = 500;

/// Duplicate-click protection: remembers the last event delivered to the
/// consumer together with its arrival instant, and silently drops an
/// identical event arriving inside the suppression window.
pub struct DuplicateFilter {
    pub last_delivered: Option<(TrayMessage, u64)>,
}

impl DuplicateFilter {
    /// Whether an event arriving now passes the filter in this state.
    pub open spec fn spec_accepts(self, event: TrayMessage, now_ms: u64) -> bool {
        match self.last_delivered {
            Option::None => true,
            Option::Some((last_event, last_ms)) => !(last_event == event && now_ms - last_ms
                < DUPLICATE_WINDOW_MS),
        }
    }

    pub fn new() -> (f: DuplicateFilter)
        ensures
            f.last_delivered is None,
    {
        DuplicateFilter { last_delivered: None }
    }

    /// Decide whether to deliver an event. A delivered event is recorded
    /// with its instant; a suppressed one leaves the filter unchanged, so
    /// the window is measured from the last event actually delivered.
    pub fn accept(&mut self, event: TrayMessage, now_ms: u64) -> (delivered: bool)
        ensures
            delivered == old(self).spec_accepts(event, now_ms),
            delivered ==> final(self).last_delivered == Some((event, now_ms)),
            !delivered ==> *final(self) == *old(self),
    {
        match self.last_delivered {
            None => {}
            Some((last_event, last_ms)) => {
                if last_event == event && (now_ms < last_ms || now_ms - last_ms
                    < DUPLICATE_WINDOW_MS) {
                    return false;
                }
            }
        }
        self.last_delivered = Some((event, now_ms));
        true
    }
}

/// What the orchestrator does in reaction to a bridge event.
#[derive(Debug, Clone, Copy, PartialEq, Eq, Structural)]
pub enum TrayAction {
    Quit,
    PauseMonitoring,
    ResumeMonitoring,
    OpenDashboard,
    OpenLogFile,
    OpenConfigFile,
    OpenLogsFolder,
    InstallAutostart,
    UninstallAutostart,
    ShowAbout,
}

/// The action each bridge event maps to.
pub open spec fn spec_tray_action(message: TrayMessage) -> TrayAction {
    match message {
        TrayMessage::Exit => TrayAction::Quit,
        TrayMessage::Pause => TrayAction::PauseMonitoring,
        TrayMessage::Resume => TrayAction::ResumeMonitoring,
        TrayMessage::Settings => TrayAction::OpenDashboard,
        TrayMessage::ShowLogs => TrayAction::OpenLogFile,
        TrayMessage::InstallAutostart => TrayAction::InstallAutostart,
        TrayMessage::UninstallAutostart => TrayAction::UninstallAutostart,
        TrayMessage::About => TrayAction::ShowAbout,
        TrayMessage::OpenConfig => TrayAction::OpenConfigFile,
        TrayMessage::OpenLogsFolder => TrayAction::OpenLogsFolder,
        TrayMessage::OpenWebInterface => TrayAction::OpenDashboard,
    }
}

/// Decide the orchestrator's reaction to a bridge event: quitting ends the
/// process, dashboard requests open the browser, log and settings requests
/// open the corresponding file, all performed outside the library without
/// blocking the poll.
pub fn tray_action_for(message: TrayMessage) -> (action: TrayAction)
    ensures
        action == spec_tray_action(message),
{
    match message {
        TrayMessage::Exit => TrayAction::Quit,
        TrayMessage::Pause => TrayAction::PauseMonitoring,
        TrayMessage::Resume => TrayAction::ResumeMonitoring,
        TrayMessage::Settings => TrayAction::OpenDashboard,
        TrayMessage::ShowLogs => TrayAction::OpenLogFile,
        TrayMessage::InstallAutostart => TrayAction::InstallAutostart,
        TrayMessage::UninstallAutostart => TrayAction::UninstallAutostart,
        TrayMessage::About => TrayAction::ShowAbout,
        TrayMessage::OpenConfig => TrayAction::OpenConfigFile,
        TrayMessage::OpenLogsFolder => TrayAction::OpenLogsFolder,
        TrayMessage::OpenWebInterface => TrayAction::OpenDashboard,
    }
}

} // verus!
