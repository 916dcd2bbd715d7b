use vstd::prelude::*;

use crate::value::{text_eq, Json, Value};

verus! {

/// Properties of the player, to query, set or observe.
///
/// Those marked **(RW)** are generally writable.
#[derive(Debug, Copy, Clone, PartialEq, Eq, Structural)]
pub enum Property {
    /// Factor by which audio speed is corrected; usually exactly 1.
    AudioSpeedCorrection,
    /// Factor by which video speed is corrected; usually exactly 1.
    VideoSpeedCorrection,
    /// Whether `--video-sync=display` is actually active.
    DisplaySyncActive,
    /// Currently played file, with the path stripped.
    Filename,
    /// Like `Filename`, with everything after the last `.` stripped.
    FilenameNoExt,
    /// Length in bytes of the source file or stream.
    FileSize,
    /// Estimated total number of frames in the current file.
    EstimatedFrameCount,
    /// Estimated number of the current frame in the current stream.
    EstimatedFrameNumber,
    /// Full path of the currently played file.
    Path,
    /// The full path to the currently played media.
    StreamOpenFilename,
    /// The file's `title` tag if it has one, else the file name.
    MediaTitle,
    /// Symbolic name of the file format.
    FileFormat,
    /// Name of the current demuxer.
    CurrentDemuxer,
    /// Full path of the stream layer file name.
    StreamPath,
    /// Raw byte position in the source stream.
    StreamPos,
    /// Raw end position in bytes in the source stream.
    StreamEnd,
    /// Duration of the current file in seconds.
    Duration,
    /// **(RW)** Position in the current file, from 0 to 100.
    PercentPos,
    /// **(RW)** Position in the current file in seconds.
    TimePos,
    /// Always 0; kept for older players only.
    TimeStart,
    /// Remaining length of the file in seconds.
    TimeRemaining,
    /// **(RW)** Position in the current file in seconds, clamped to the file.
    PlaybackTime,
    /// Whether the player is seeking or restarting playback.
    Seeking,
    /// **(RW)** Volume: 0 is silence, 100 is neither reduced nor amplified.
    Volume,
    /// **(RW)** Whether playback is paused.
    Pause,
}

/// The name by which the protocol knows `p`.
pub open spec fn property_name(p: Property) -> Seq<char> {
    match p {
        Property::AudioSpeedCorrection => "audio-speed-correction"@,
        Property::VideoSpeedCorrection => "video-speed-correction"@,
        Property::DisplaySyncActive => "display-sync-active"@,
        Property::Filename => "filename"@,
        Property::FilenameNoExt => "filename/no-ext"@,
        Property::FileSize => "file-size"@,
        Property::EstimatedFrameCount => "estimated-frame-count"@,
        Property::EstimatedFrameNumber => "estimated-frame-number"@,
        Property::Path => "path"@,
        Property::StreamOpenFilename => "stream-open-filename"@,
        Property::MediaTitle => "media-title"@,
        Property::FileFormat => "file-format"@,
        Property::CurrentDemuxer => "current-demuxer"@,
        Property::StreamPath => "stream-path"@,
        Property::StreamPos => "stream-pos"@,
        Property::StreamEnd => "stream-end"@,
        Property::Duration => "duration"@,
        Property::PercentPos => "percent-pos"@,
        Property::TimePos => "time-pos"@,
        Property::TimeStart => "time-start"@,
        Property::TimeRemaining => "time-remaining"@,
        Property::PlaybackTime => "playback-time"@,
        Property::Seeking => "seeking"@,
        Property::Volume => "volume"@,
        Property::Pause => "pause"@,
    }
}

impl Property {
    /// The name by which the protocol knows this property.
    pub fn as_str(&self) -> (r: &'static str)
        ensures
            r@ == property_name(*self),
    {
        match self {
            Property::AudioSpeedCorrection => "audio-speed-correction",
            Property::VideoSpeedCorrection => "video-speed-correction",
            Property::DisplaySyncActive => "display-sync-active",
            Property::Filename => "filename",
            Property::FilenameNoExt => "filename/no-ext",
            Property::FileSize => "file-size",
            Property::EstimatedFrameCount => "estimated-frame-count",
            Property::EstimatedFrameNumber => "estimated-frame-number",
            Property::Path => "path",
            Property::StreamOpenFilename => "stream-open-filename",
            Property::MediaTitle => "media-title",
            Property::FileFormat => "file-format",
            Property::CurrentDemuxer => "current-demuxer",
            Property::StreamPath => "stream-path",
            Property::StreamPos => "stream-pos",
            Property::StreamEnd => "stream-end",
            Property::Duration => "duration",
            Property::PercentPos => "percent-pos",
            Property::TimePos => "time-pos",
            Property::TimeStart => "time-start",
            Property::TimeRemaining => "time-remaining",
            Property::PlaybackTime => "playback-time",
            Property::Seeking => "seeking",
            Property::Volume => "volume",
            Property::Pause => "pause",
        }
    }

    /// The property that the protocol knows by `name`, if any.
    pub fn from_name(name: &str) -> (r: Option<Property>)
        ensures
            match r {
                Some(p) => property_name(p) == name@,
                None => forall|p: Property| property_name(p) != name@,
            },
    {
        if text_eq(name, "audio-speed-correction") {
            return Some(Property::AudioSpeedCorrection);
        }
        if text_eq(name, "video-speed-correction") {
            return Some(Property::VideoSpeedCorrection);
        }
        if text_eq(name, "display-sync-active") {
            return Some(Property::DisplaySyncActive);
        }
        if text_eq(name, "filename") {
            return Some(Property::Filename);
        }
        if text_eq(name, "filename/no-ext") {
            return Some(Property::FilenameNoExt);
        }
        if text_eq(name, "file-size") {
            return Some(Property::FileSize);
        }
        if text_eq(name, "estimated-frame-count") {
            return Some(Property::EstimatedFrameCount);
        }
        if text_eq(name, "estimated-frame-number") {
            return Some(Property::EstimatedFrameNumber);
        }
        if text_eq(name, "path") {
            return Some(Property::Path);
        }
        if text_eq(name, "stream-open-filename") {
            return Some(Property::StreamOpenFilename);
        }
        if text_eq(name, "media-title") {
            return Some(Property::MediaTitle);
        }
        if text_eq(name, "file-format") {
            return Some(Property::FileFormat);
        }
        if text_eq(name, "current-demuxer") {
            return Some(Property::CurrentDemuxer);
        }
        if text_eq(name, "stream-path") {
            return Some(Property::StreamPath);
        }
        if text_eq(name, "stream-pos") {
            return Some(Property::StreamPos);
        }
        if text_eq(name, "stream-end") {
            return Some(Property::StreamEnd);
        }
        if text_eq(name, "duration") {
            return Some(Property::Duration);
        }
        if text_eq(name, "percent-pos") {
            return Some(Property::PercentPos);
        }
        if text_eq(name, "time-pos") {
            return Some(Property::TimePos);
        }
        if text_eq(name, "time-start") {
            return Some(Property::TimeStart);
        }
        if text_eq(name, "time-remaining") {
            return Some(Property::TimeRemaining);
        }
        if text_eq(name, "playback-time") {
            return Some(Property::PlaybackTime);
        }
        if text_eq(name, "seeking") {
            return Some(Property::Seeking);
        }
        if text_eq(name, "volume") {
            return Some(Property::Volume);
        }
        if text_eq(name, "pause") {
            return Some(Property::Pause);
        }
        None
    }

    /// The property as a parameter of a command: its name, as a string.
    pub fn to_value(&self) -> (r: Value)
        ensures
            r@ == Json::Str(property_name(*self)),
    {
        Value::String(self.as_str().to_owned())
    }
}

} // verus!
