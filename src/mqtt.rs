//! Messages of a player's live channel: its status, its playback events, and
//! the commands it accepts.
use vstd::prelude::*;

verus! {

/// A player's status report.
#[derive(Debug, Clone, Default)]
pub struct Status {
    pub status_version: u32,
    pub fw_version: String,
    pub product_type: String,
    pub battery_level: u32,
    pub als: u32,
    pub free_disk: u32,
    pub shutdown_timeout: u32,
    pub dbat_timeout: u32,
    pub charging: bool,
    pub active_card: String,
    pub card_inserted: bool,
    pub playing_status: u32,
    pub headphones: bool,
    pub dnow_brightness: u32,
    pub day_bright: u32,
    pub night_bright: u32,
    pub bluetooth_hp: bool,
    pub volume: u32,
    pub user_volume: u32,
    pub time_format: String,
    pub nightlight_mode: String,
    pub temp: String,
    pub day: u32,
}

/// A playback event. `event_utc` and `card_updated_at` are Unix timestamps
/// in seconds; lengths and positions are in seconds.
#[derive(Debug, Clone, Default)]
pub struct Event {
    pub repeat_all: bool,
    pub streaming: bool,
    pub volume: u32,
    pub volume_max: u32,
    pub playback_wait: bool,
    pub sleep_timer_active: bool,
    pub event_utc: i64,
    pub track_length: u32,
    pub position: u32,
    pub card_id: String,
    pub source: String,
    pub card_updated_at: i64,
    pub chapter_title: String,
    pub chapter_key: String,
    pub track_title: String,
    pub track_key: String,
    pub playback_status: String,
    pub sleep_timer_seconds: u32,
}

/// What a start command plays, and from where.
#[derive(Debug, Clone)]
pub struct CardTarget {
    pub uri: String,
    pub chapter_key: Option<String>,
    pub track_key: Option<String>,
    pub seconds_in: Option<u32>,
    pub cut_off: Option<u32>,
    pub any_button_stop: Option<bool>,
}

/// A command sent to a player.
#[derive(Debug, Clone)]
pub enum Command {
    Reboot,
    GetStatus,
    GetEvents,
    SetVolume(u32),
    SetAmbient(u8, u8, u8),
    SetSleepTimer(u32),
    ShowIcon { uri: String, timeout: u32, animated: bool },
    Start(CardTarget),
    Stop,
    Pause,
    Resume,
    BluetoothOn,
    BluetoothOff,
    BluetoothConnect,
    BluetoothDisconnect,
    BluetoothState,
}

} // verus!
