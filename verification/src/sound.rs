//! Which sound goes with which event.

use crate::config::{Config, ConfigView};
use crate::text::same_text;
use vstd::prelude::*;
use vstd::string::StringExecFns;

verus! {

/// Where a sound is to be found.
#[derive(PartialEq, Debug)]
pub enum SoundFile {
    /// A file that the settings name, by its path.
    Custom(String),
    /// A sound that comes with the application, by its resource name.
    Bundled(String),
}

/// The mathematical value of a [`SoundFile`].
pub enum SoundFileView {
    Custom(Seq<char>),
    Bundled(Seq<char>),
}

impl View for SoundFile {
    type V = SoundFileView;

    open spec fn view(&self) -> SoundFileView {
        match self {
            SoundFile::Custom(path) => SoundFileView::Custom(path@),
            SoundFile::Bundled(name) => SoundFileView::Bundled(name@),
        }
    }
}

/// The file that the settings name for a sound, or else the one that comes
/// with the application.
pub open spec fn custom_or_bundled(custom: Option<Seq<char>>, bundled: Seq<char>) -> SoundFileView {
    match custom {
        Some(path) => SoundFileView::Custom(path),
        None => SoundFileView::Bundled(bundled),
    }
}

/// The sound called `sound_id`. The alerts for work and for the two breaks
/// can be replaced in the settings; the tick cannot. Any other name is no
/// sound.
pub open spec fn sound_file(sound_id: Seq<char>, config: ConfigView) -> Option<SoundFileView> {
    if sound_id == "audio-long-break"@ {
        Some(custom_or_bundled(config.long_break_audio, "audio/alert-long-break.mp3"@))
    } else if sound_id == "audio-short-break"@ {
        Some(custom_or_bundled(config.short_break_audio, "audio/alert-short-break.mp3"@))
    } else if sound_id == "audio-work"@ {
        Some(custom_or_bundled(config.focus_audio, "audio/alert-work.mp3"@))
    } else if sound_id == "audio-tick"@ {
        Some(SoundFileView::Bundled("audio/tick.mp3"@))
    } else {
        None
    }
}

/// The view of a sound that may be missing.
pub open spec fn sound_view(sound: Option<SoundFile>) -> Option<SoundFileView> {
    match sound {
        Some(file) => Some(file@),
        None => None,
    }
}

fn pick(custom: &Option<String>, bundled: &str) -> (file: SoundFile)
    ensures
        file@ == custom_or_bundled(crate::session::text_view(*custom), bundled@),
{
    match custom {
        Some(path) => SoundFile::Custom(path.clone()),
        None => SoundFile::Bundled(String::from_str(bundled)),
    }
}

/// The sound called `sound_id` under the settings `config`.
pub fn get_sound_file(sound_id: &str, config: &Config) -> (sound: Option<SoundFile>)
    ensures
        sound_view(sound) == sound_file(sound_id@, config@),
{
    if same_text(sound_id, "audio-long-break") {
        Some(pick(&config.long_break_audio, "audio/alert-long-break.mp3"))
    } else if same_text(sound_id, "audio-short-break") {
        Some(pick(&config.short_break_audio, "audio/alert-short-break.mp3"))
    } else if same_text(sound_id, "audio-work") {
        Some(pick(&config.focus_audio, "audio/alert-work.mp3"))
    } else if same_text(sound_id, "audio-tick") {
        Some(SoundFile::Bundled(String::from_str("audio/tick.mp3")))
    } else {
        None
    }
}

} // verus!
