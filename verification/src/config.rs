//! Configuration profiles: a loaded profile's fields are merged over the
//! current conversion options, a set field replacing the older value.
//! Reading and decoding the configuration file is the surrounding
//! program's job; the merge rules live here.

use vstd::prelude::*;
use crate::plan::ConversionOptions;
use crate::plan::FfmpegPreference;
use crate::plan::os_view;
use crate::strings::lower_spec;
use crate::strings::str_eq;
use crate::strings::to_lower;

verus! {

/// One configuration profile, every field optional; the ffmpeg preference
/// arrives as its configuration word.
#[derive(Debug, Clone)]
pub struct Profile {
    pub image_quality: Option<u8>,
    pub video_bitrate: Option<String>,
    pub audio_bitrate: Option<String>,
    pub preset: Option<String>,
    pub video_codec: Option<String>,
    pub audio_codec: Option<String>,
    pub ffmpeg_preference: Option<String>,
}

impl Default for Profile {
    /// A profile that sets nothing.
    fn default() -> (r: Self)
        ensures
            r.image_quality is None,
            r.video_bitrate is None,
            r.audio_bitrate is None,
            r.preset is None,
            r.video_codec is None,
            r.audio_codec is None,
            r.ffmpeg_preference is None,
    {
        Profile {
            image_quality: None,
            video_bitrate: None,
            audio_bitrate: None,
            preset: None,
            video_codec: None,
            audio_codec: None,
            ffmpeg_preference: None,
        }
    }
}

/// Why a configuration value was rejected; the error keeps the rejected
/// word so the report can name it.
#[derive(Clone, Debug, PartialEq, Eq)]
pub enum ConfigError {
    InvalidPreference { value: String },
}

/// Spec: the text `ConfigError::message` returns.
pub open spec fn config_error_message_spec(e: ConfigError) -> Seq<char> {
    match e {
        ConfigError::InvalidPreference { value } => "invalid ffmpeg_preference: "@ + value@,
    }
}

impl ConfigError {
    /// Human-readable description, naming the rejected value.
    pub fn message(&self) -> (r: String)
        ensures
            r@ == config_error_message_spec(*self),
    {
        match self {
            ConfigError::InvalidPreference { value } => String::from_str(
                "invalid ffmpeg_preference: ",
            ).concat(value.as_str()),
        }
    }
}

/// Spec: the preference a configuration word names, compared without case:
/// `auto`, `stream-copy` or `stream_copy`, and `transcode`.
pub open spec fn preference_of_spec(value: Seq<char>) -> Option<FfmpegPreference> {
    let low = lower_spec(value);
    if low == "auto"@ {
        Some(FfmpegPreference::Auto)
    } else if low == "stream-copy"@ || low == "stream_copy"@ {
        Some(FfmpegPreference::StreamCopy)
    } else if low == "transcode"@ {
        Some(FfmpegPreference::Transcode)
    } else {
        None
    }
}

/// Parses the configuration word for the ffmpeg preference; an unknown
/// word is rejected with an error naming it.
pub fn parse_preference(value: &str) -> (r: Result<FfmpegPreference, ConfigError>)
    ensures
        match r {
            Ok(p) => preference_of_spec(value@) == Some(p),
            Err(e) => preference_of_spec(value@) is None && (e matches
                ConfigError::InvalidPreference { value: v } && v@ == value@),
        },
{
    let low = to_lower(value);
    let l = low.as_str();
    if str_eq(l, "auto") {
        Ok(FfmpegPreference::Auto)
    } else if str_eq(l, "stream-copy") || str_eq(l, "stream_copy") {
        Ok(FfmpegPreference::StreamCopy)
    } else if str_eq(l, "transcode") {
        Ok(FfmpegPreference::Transcode)
    } else {
        Err(ConfigError::InvalidPreference { value: String::from_str(value) })
    }
}

/// Merges a profile over the options: every set field replaces the current
/// value, an unset field keeps it. A bad preference word fails the merge
/// after the other fields were applied, exactly as loading works.
pub fn apply_profile(profile: &Profile, options: &mut ConversionOptions) -> (r: Result<
    (),
    ConfigError,
>)
    ensures
        final(options).image_quality == (if profile.image_quality is Some {
            profile.image_quality
        } else {
            old(options).image_quality
        }),
        os_view(final(options).video_bitrate) == (if profile.video_bitrate is Some {
            Some(profile.video_bitrate->0@)
        } else {
            os_view(old(options).video_bitrate)
        }),
        os_view(final(options).audio_bitrate) == (if profile.audio_bitrate is Some {
            Some(profile.audio_bitrate->0@)
        } else {
            os_view(old(options).audio_bitrate)
        }),
        os_view(final(options).preset) == (if profile.preset is Some {
            Some(profile.preset->0@)
        } else {
            os_view(old(options).preset)
        }),
        os_view(final(options).video_codec) == (if profile.video_codec is Some {
            Some(profile.video_codec->0@)
        } else {
            os_view(old(options).video_codec)
        }),
        os_view(final(options).audio_codec) == (if profile.audio_codec is Some {
            Some(profile.audio_codec->0@)
        } else {
            os_view(old(options).audio_codec)
        }),
        match r {
            Ok(()) => (match profile.ffmpeg_preference {
                Some(w) => preference_of_spec(w@) == Some(final(options).ffmpeg_preference),
                None => final(options).ffmpeg_preference == old(options).ffmpeg_preference,
            }),
            Err(e) => {
                &&& profile.ffmpeg_preference is Some
                &&& preference_of_spec(profile.ffmpeg_preference->0@) is None
                &&& (e matches ConfigError::InvalidPreference { value: v } && v@
                    == profile.ffmpeg_preference->0@)
                &&& final(options).ffmpeg_preference == old(options).ffmpeg_preference
            },
        },
{
    if let Some(value) = profile.image_quality {
        options.image_quality = Some(value);
    }
    if let Some(value) = &profile.video_bitrate {
        options.video_bitrate = Some(value.clone());
    }
    if let Some(value) = &profile.audio_bitrate {
        options.audio_bitrate = Some(value.clone());
    }
    if let Some(value) = &profile.preset {
        options.preset = Some(value.clone());
    }
    if let Some(value) = &profile.video_codec {
        options.video_codec = Some(value.clone());
    }
    if let Some(value) = &profile.audio_codec {
        options.audio_codec = Some(value.clone());
    }
    if let Some(value) = &profile.ffmpeg_preference {
        match parse_preference(value.as_str()) {
            Ok(p) => {
                options.ffmpeg_preference = p;
            },
            Err(e) => {
                return Err(e);
            },
        }
    }
    Ok(())
}

} // verus!
