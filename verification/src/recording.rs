//! The state of a screen or camera recording session.

use std::path::PathBuf;
use vstd::prelude::*;
use vstd::string::*;
use crate::locations::{Location, LocationView};
use crate::outside::utc_now_text;
use crate::text::{push_text, texts};

verus! {

/// What the user chose for a recording.
#[derive(Debug, Clone)]
pub struct RecordingSettings {
    pub microphone: Option<String>,
    pub microphone_enabled: bool,
    pub webcam_enabled: bool,
    pub webcam_device: Option<String>,
    pub output_path: Option<PathBuf>,
}

/// Whether a recording runs, with which settings, and what it produced.
#[derive(Debug, Clone)]
pub struct RecordingState {
    pub is_recording: bool,
    pub current_settings: RecordingSettings,
    pub output_file: Option<String>,
}

impl Default for RecordingSettings {
    /// Nothing selected, nothing enabled.
    fn default() -> (r: Self)
        ensures
            r.microphone is None,
            !r.microphone_enabled,
            !r.webcam_enabled,
            r.webcam_device is None,
            r.output_path is None,
    {
        RecordingSettings {
            microphone: None,
            microphone_enabled: false,
            webcam_enabled: false,
            webcam_device: None,
            output_path: None,
        }
    }
}

impl RecordingState {
    /// The state before any recording: idle, default settings, no output.
    pub fn new() -> (r: Self)
        ensures
            !r.is_recording,
            r.output_file is None,
            r.current_settings.microphone is None,
            !r.current_settings.microphone_enabled,
            !r.current_settings.webcam_enabled,
            r.current_settings.webcam_device is None,
            r.current_settings.output_path is None,
    {
        RecordingState {
            is_recording: false,
            current_settings: RecordingSettings::default(),
            output_file: None,
        }
    }

    /// Records that a recording started or stopped. New settings replace the
    /// current ones; stopping forgets the last output file.
    pub fn update(&mut self, is_recording: bool, settings: Option<RecordingSettings>)
        ensures
            final(self).is_recording == is_recording,
            final(self).current_settings == match settings {
                Some(s) => s,
                None => old(self).current_settings,
            },
            final(self).output_file == if is_recording {
                old(self).output_file
            } else {
                None
            },
    {
        self.is_recording = is_recording;
        if let Some(s) = settings {
            self.current_settings = s;
        }
        if !is_recording {
            self.output_file = None;
        }
    }

    /// Records that the recording was processed into `output_file`.
    pub fn finish(&mut self, output_file: String)
        ensures
            !final(self).is_recording,
            final(self).current_settings == old(self).current_settings,
            final(self).output_file == Some(output_file),
    {
        self.is_recording = false;
        self.output_file = Some(output_file);
    }
}

/// Why a processed recording is no good.
#[derive(Clone, Copy, Debug, PartialEq, Eq, Structural)]
pub enum RecordingError {
    /// The converted file was not made.
    OutputMissing,
    /// The converted file holds nothing.
    OutputEmpty,
}

/// Why a recording cannot be copied to the gallery.
#[derive(Clone, Copy, Debug, PartialEq, Eq, Structural)]
pub enum GalleryError {
    /// The recording's path has no directory.
    InvalidPath,
    /// The recording's directory has no directory above it.
    InvalidStructure,
}

/// The names of the files of one recording: the raw recording and what it
/// is converted to.
pub struct RecordingFiles {
    /// The time the names are made from.
    pub stamp: String,
    pub webm: String,
    pub mp4: String,
}

/// Whether `files` holds the names of the recording made at `stamp`.
pub open spec fn is_named_after(files: RecordingFiles, stamp: Seq<char>) -> bool {
    &&& files.stamp@ == stamp
    &&& files.webm@ == "recording_"@ + stamp + ".webm"@
    &&& files.mp4@ == "recording_"@ + stamp + ".mp4"@
}

/// The names of the files of the recording made at `stamp`.
pub fn recording_files_for(stamp: String) -> (files: RecordingFiles)
    ensures
        is_named_after(files, stamp@),
{
    let mut webm = String::from_str("recording_");
    webm.append(stamp.as_str());
    webm.append(".webm");
    let mut mp4 = String::from_str("recording_");
    mp4.append(stamp.as_str());
    mp4.append(".mp4");
    RecordingFiles { stamp, webm, mp4 }
}

/// The names of the files of a recording made now: named after the date
/// and the time of day in UTC.
pub fn recording_files() -> (files: RecordingFiles)
    ensures
        is_named_after(files, files.stamp@),
{
    recording_files_for(utc_now_text("%Y%m%d_%H%M%S"))
}

/// The name of the preview picture of the recording looked at at `stamp`.
pub fn recording_thumbnail_name_for(stamp: &str) -> (name: String)
    ensures
        name@ == "recording_preview_"@ + stamp@ + ".jpg"@,
{
    let mut name = String::from_str("recording_preview_");
    name.append(stamp);
    name.append(".jpg");
    name
}

/// The argument list that converts the raw recording `webm` to `mp4`.
pub open spec fn reencode_args_of(webm: Seq<char>, mp4: Seq<char>) -> Seq<Seq<char>> {
    seq![
        "-i"@,
        webm,
        "-c:v"@,
        "libx264"@,
        "-preset"@,
        "fast"@,
        "-crf"@,
        "23"@,
        "-c:a"@,
        "aac"@,
        "-b:a"@,
        "192k"@,
        "-movflags"@,
        "+faststart"@,
        "-y"@,
        mp4,
    ]
}

/// The argument list that converts the raw recording at `webm_path` to
/// `mp4_path`.
pub fn reencode_args(webm_path: &str, mp4_path: &str) -> (args: Vec<String>)
    ensures
        texts(args@) == reencode_args_of(webm_path@, mp4_path@),
{
    let mut args: Vec<String> = Vec::new();
    push_text(&mut args, "-i");
    push_text(&mut args, webm_path);
    push_text(&mut args, "-c:v");
    push_text(&mut args, "libx264");
    push_text(&mut args, "-preset");
    push_text(&mut args, "fast");
    push_text(&mut args, "-crf");
    push_text(&mut args, "23");
    push_text(&mut args, "-c:a");
    push_text(&mut args, "aac");
    push_text(&mut args, "-b:a");
    push_text(&mut args, "192k");
    push_text(&mut args, "-movflags");
    push_text(&mut args, "+faststart");
    push_text(&mut args, "-y");
    push_text(&mut args, mp4_path);
    assert(texts(args@) =~= reencode_args_of(webm_path@, mp4_path@));
    args
}

/// The argument list that takes the frame of `file` at one second and
/// writes it to `thumbnail`.
pub open spec fn recording_thumbnail_args_of(file: Seq<char>, thumbnail: Seq<char>) -> Seq<
    Seq<char>,
> {
    seq!["-ss"@, "1"@, "-i"@, file, "-vframes"@, "1"@, "-q:v"@, "2"@, "-y"@, thumbnail]
}

/// The argument list that makes the preview picture of the recording at
/// `file_path`.
pub fn generate_recording_thumbnail(file_path: &str, thumbnail_path: &str) -> (args: Vec<String>)
    ensures
        texts(args@) == recording_thumbnail_args_of(file_path@, thumbnail_path@),
{
    let mut args: Vec<String> = Vec::new();
    push_text(&mut args, "-ss");
    push_text(&mut args, "1");
    push_text(&mut args, "-i");
    push_text(&mut args, file_path);
    push_text(&mut args, "-vframes");
    push_text(&mut args, "1");
    push_text(&mut args, "-q:v");
    push_text(&mut args, "2");
    push_text(&mut args, "-y");
    push_text(&mut args, thumbnail_path);
    assert(texts(args@) =~= recording_thumbnail_args_of(file_path@, thumbnail_path@));
    args
}

/// Whether a converted recording is good, going by its size in bytes, if
/// the file is there at all.
pub fn check_recording(size: Option<u64>) -> (r: Result<(), RecordingError>)
    ensures
        r == match size {
            None => Err::<(), RecordingError>(RecordingError::OutputMissing),
            Some(n) => if n == 0 {
                Err::<(), RecordingError>(RecordingError::OutputEmpty)
            } else {
                Ok::<(), RecordingError>(())
            },
        },
{
    match size {
        None => Err(RecordingError::OutputMissing),
        Some(n) => if n == 0 {
            Err(RecordingError::OutputEmpty)
        } else {
            Ok(())
        },
    }
}

/// Where a recording goes in the gallery: into `exports` beside the
/// directory it lies in, under its own name.
pub open spec fn gallery_destination_of(file: LocationView) -> Result<LocationView, GalleryError> {
    match file.parent() {
        None => Err(GalleryError::InvalidPath),
        Some(dir) => match dir.parent() {
            None => Err(GalleryError::InvalidStructure),
            Some(base) => Ok(base.child("exports"@).child(file.parts.last())),
        },
    }
}

/// Where the recording at `file` goes in the gallery.
pub fn import_recording_to_gallery(file: &Location) -> (r: Result<Location, GalleryError>)
    ensures
        match r {
            Ok(destination) => gallery_destination_of(file@) == Ok::<LocationView, GalleryError>(
                destination@,
            ),
            Err(e) => gallery_destination_of(file@) == Err::<LocationView, GalleryError>(e),
        },
{
    let dir = match file.parent() {
        Some(d) => d,
        None => {
            return Err(GalleryError::InvalidPath);
        },
    };
    let base = match dir.parent() {
        Some(b) => b,
        None => {
            return Err(GalleryError::InvalidStructure);
        },
    };
    let name = &file.parts[file.parts.len() - 1];
    assert(name@ == file@.parts.last());
    Ok(base.child("exports").child(name.as_str()))
}

} // verus!
