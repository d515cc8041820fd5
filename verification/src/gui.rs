//! The small state the native UI shows: the last temperature, whether
//! monitoring is paused, whether autostart is on, and the tooltip composed
//! from them. Dialogs and file-open calls happen outside the library.
use vstd::prelude::*;

verus! {

use crate::strutil::{format_tenths, spec_tenths};

/// State behind the tray icon's tooltip.
#[derive(Debug)]
pub struct GuiManager {
    pub last_temperature_tenths: i32,
    pub monitoring_paused: bool,
    pub autostart_enabled: bool,
}

/// The tooltip text for the given state.
pub open spec fn spec_status_tooltip(
    temperature: int,
    monitoring_paused: bool,
    autostart_enabled: bool,
) -> Seq<char> {
    "GPU Temperature Monitor\nStatus: "@ + (if monitoring_paused {
        "PAUSED"@
    } else {
        "ACTIVE"@
    }) + "\nTemperature: "@ + spec_tenths(temperature) + "°C\nAutostart: "@
        + (if autostart_enabled {
        "ON"@
    } else {
        "OFF"@
    })
}

impl GuiManager {
    pub fn new() -> (manager: GuiManager)
        ensures
            manager.last_temperature_tenths == 0,
            !manager.monitoring_paused,
            !manager.autostart_enabled,
    {
        GuiManager {
            last_temperature_tenths: 0,
            monitoring_paused: false,
            autostart_enabled: false,
        }
    }

    pub fn update_temperature(&mut self, temperature_tenths: i32)
        ensures
            *final(self) == (GuiManager {
                last_temperature_tenths: temperature_tenths,
                ..*old(self)
            }),
    {
        self.last_temperature_tenths = temperature_tenths;
    }

    pub fn set_monitoring_paused(&mut self, paused: bool)
        ensures
            *final(self) == (GuiManager { monitoring_paused: paused, ..*old(self) }),
    {
        self.monitoring_paused = paused;
    }

    pub fn set_autostart_enabled(&mut self, enabled: bool)
        ensures
            *final(self) == (GuiManager { autostart_enabled: enabled, ..*old(self) }),
    {
        self.autostart_enabled = enabled;
    }

    /// Compose the tooltip shown on the tray icon.
    pub fn get_status_tooltip(&self) -> (tooltip: String)
        ensures
            tooltip@ == spec_status_tooltip(
                self.last_temperature_tenths as int,
                self.monitoring_paused,
                self.autostart_enabled,
            ),
    {
        let mut tooltip = "GPU Temperature Monitor\nStatus: ".to_owned();
        tooltip.append(if self.monitoring_paused {
            "PAUSED"
        } else {
            "ACTIVE"
        });
        tooltip.append("\nTemperature: ");
        tooltip.append(format_tenths(self.last_temperature_tenths).as_str());
        tooltip.append("°C\nAutostart: ");
        tooltip.append(if self.autostart_enabled {
            "ON"
        } else {
            "OFF"
        });
        proof {
            assert(tooltip@ =~= spec_status_tooltip(
                self.last_temperature_tenths as int,
                self.monitoring_paused,
                self.autostart_enabled,
            ));
        }
        tooltip
    }
}

} // verus!
