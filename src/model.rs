//! Resource shapes exchanged with the service, and the media-format resolver.
use vstd::prelude::*;

verus! {

/// A player linked to the account.
#[derive(Debug, Clone)]
pub struct Device {
    pub id: String,
    pub name: String,
    pub description: String,
    pub online: bool,
    pub release_channel: Option<String>,
    pub device_type: Option<String>,
    pub family: Option<String>,
    pub group: Option<String>,
}

/// A player's reported state. `updated_at` is a Unix timestamp in seconds.
#[derive(Debug, Clone)]
pub struct DeviceStatus {
    pub id: String,
    pub uptime: u64,
    pub utc_offset_seconds: u32,
    pub utc_time: String,
    pub updated_at: i64,
    pub active_card: String,
    pub card_insertion_state: u32,
    pub day_mode: u32,
    pub nightlight_mode: String,
    pub active_download: bool,
    pub download_speed: u64,
    pub online: bool,
    pub network_ssid: String,
    pub wifi_strength: u32,
    pub charging: bool,
    pub battery_level: u32,
    pub power_source: u32,
    pub user_volume: u32,
    pub system_volume: u32,
    pub is_audio_device_connected: bool,
    pub is_bluetooth_audio_connected: bool,
    pub free_disk_space: u64,
    pub total_disk_space: u64,
    pub ambient_light: Option<String>,
    pub temperature: u32,
}

/// An image of the family's library. `last_modified` is a Unix timestamp in
/// seconds.
#[derive(Debug, Clone)]
pub struct Image {
    pub id: String,
    pub etag: String,
    pub last_modified: i64,
    pub size: u64,
}

/// An icon for the players' display. `created_at` is a Unix timestamp in
/// seconds.
#[derive(Debug, Clone)]
pub struct DisplayIcon {
    pub id: String,
    pub media_id: String,
    pub public: bool,
    pub url: String,
    pub created_at: i64,
    pub user_id: String,
}

/// Kind of a track's media.
#[derive(Debug, Clone, PartialEq, Eq)]
pub enum MediaType {
    Audio,
    Stream,
    Unknown(String),
}

/// Audio encodings understood by the transcoder, plus any other encoding
/// carried by its name.
#[derive(Debug, Clone, PartialEq, Eq)]
pub enum MediaFormat {
    Mp3,
    Aac,
    Opus,
    Ogg,
    Unknown(String),
}

/// The format that a lowercase file extension names, if it is supported.
pub open spec fn format_of_ext(ext: Seq<char>) -> Option<MediaFormat> {
    if ext == "mp3"@ {
        Some(MediaFormat::Mp3)
    } else if ext == "aac"@ {
        Some(MediaFormat::Aac)
    } else if ext == "ogg"@ {
        Some(MediaFormat::Ogg)
    } else if ext == "opus"@ {
        Some(MediaFormat::Opus)
    } else {
        None
    }
}

/// The transfer content type of a format.
pub open spec fn content_type_of(f: MediaFormat) -> Seq<char> {
    match f {
        MediaFormat::Mp3 => "audio/mpeg"@,
        MediaFormat::Aac => "audio/aac"@,
        MediaFormat::Ogg => "audio/ogg"@,
        MediaFormat::Opus => "audio/opus"@,
        MediaFormat::Unknown(name) => "audio/"@ + name@,
    }
}

/// Text equality of two strings.
fn same_text(a: &str, b: &str) -> (r: bool)
    ensures
        r == (a@ == b@),
{
    a.to_owned() == b.to_owned()
}

impl MediaFormat {
    /// Resolves a lowercase file extension; anything outside the supported
    /// set is refused rather than guessed.
    pub fn from_ext(ext: &str) -> (r: Result<MediaFormat, String>)
        ensures
            format_of_ext(ext@) matches Some(f) ==> r == Ok::<MediaFormat, String>(f),
            format_of_ext(ext@) is None ==> (r matches Err(m) && m@ == "Unsupported file extension"@),
    {
        if same_text(ext, "mp3") {
            Ok(MediaFormat::Mp3)
        } else if same_text(ext, "aac") {
            Ok(MediaFormat::Aac)
        } else if same_text(ext, "ogg") {
            Ok(MediaFormat::Ogg)
        } else if same_text(ext, "opus") {
            Ok(MediaFormat::Opus)
        } else {
            Err("Unsupported file extension".to_owned())
        }
    }

    /// The content type sent with the bytes of a file in this format.
    pub fn content_type(&self) -> (r: String)
        ensures
            r@ == content_type_of(*self),
    {
        match self {
            MediaFormat::Mp3 => "audio/mpeg".to_string(),
            MediaFormat::Aac => "audio/aac".to_string(),
            MediaFormat::Ogg => "audio/ogg".to_string(),
            MediaFormat::Opus => "audio/opus".to_string(),
            MediaFormat::Unknown(name) => {
                let prefix = "audio/".to_string();
                prefix.concat(name.as_str())
            },
        }
    }
}

/// Channel layout of a track.
#[derive(Debug, Clone, PartialEq, Eq)]
pub enum ChannelType {
    Mono,
    Stereo,
    Unknown(String),
}

/// How a card's chapters are played.
#[derive(Debug, Clone, PartialEq, Eq, Default)]
pub enum PlaybackType {
    #[default]
    Linear,
    Interactive,
    Unknown(String),
}

/// A content card.
#[derive(Debug, Clone, Default)]
pub struct Card {
    pub title: String,
    pub slug: Option<String>,
    pub sort_key: Option<String>,
    pub availability: String,
    pub card_id: String,
    pub content: CardContent,
    pub created_at: String,
    pub deleted: bool,
    pub metadata: CardMetadata,
}

/// What a card plays.
#[derive(Debug, Clone, Default)]
pub struct CardContent {
    pub version: String,
    pub chapters: Vec<Chapter>,
    pub config: ContentConfig,
    pub playback_type: PlaybackType,
}

/// Playback settings of a card.
#[derive(Debug, Clone, Default)]
pub struct ContentConfig {
    pub autoadvance: Option<bool>,
    pub resume_timeout: Option<u64>,
    pub system_activity: Option<bool>,
    pub track_number_overlay_timeout: Option<u64>,
}

/// Descriptive data of a card.
#[derive(Debug, Clone, Default)]
pub struct CardMetadata {
    pub author: String,
    pub category: String,
    pub description: String,
}

/// A chapter of a card.
#[derive(Debug, Clone)]
pub struct Chapter {
    pub key: String,
    pub title: String,
    pub overlay_label: Option<String>,
    pub overlay_label_override: Option<String>,
    pub tracks: Vec<Track>,
    pub default_track_display: Option<String>,
    pub default_track_ambient: Option<String>,
    pub duration: Option<u64>,
    pub file_size: Option<u64>,
    pub display: Option<Icon>,
}

/// A track of a chapter.
#[derive(Debug, Clone)]
pub struct Track {
    pub title: String,
    pub track_url: String,
    pub key: String,
    pub uid: Option<String>,
    pub media: MediaType,
    pub format: MediaFormat,
    pub icon: Option<Icon>,
    pub overlay_label_override: Option<String>,
    pub overlay_label: String,
    pub duration: u64,
    pub file_size: u64,
    pub channels: Option<ChannelType>,
}

/// The icon shown for a chapter or a track.
#[derive(Debug, Clone)]
pub struct Icon {
    pub small: Option<String>,
}

} // verus!
