//! Bringing media files into the library.
//!
//! Importing a file takes three turns with the host: the host probes the
//! file, this module plans the thumbnail and the preview copy, the host
//! makes them, and this module writes the record.

use vstd::prelude::*;
use vstd::string::*;
use crate::model::VideoInfo;
use crate::outside::{
    base64_standard, encode_base64, lower_case, random_uuid_text, to_lower_case, utc_now_rfc3339,
};
use crate::text::{
    is_text, opt_text, plain_text, push_owned, push_plain, push_text, push_trimmed, texts, trimmed_text,
    magnitude, magnitude_of,
};

verus! {

/// A media file in the library.
pub struct MediaItem {
    pub id: String,
    pub name: String,
    pub file_path: String,
    pub proxy_path: Option<String>,
    /// Length in microseconds.
    pub duration: i64,
    pub width: u32,
    pub height: u32,
    /// Frames per second in millionths.
    pub fps: u64,
    pub thumbnail_path: Option<String>,
    pub file_size: u64,
    pub codec: String,
    pub imported_at: String,
}

/// What is to be made for a file that is being imported.
pub struct ImportPlan {
    pub id: String,
    pub thumbnail_name: String,
    /// Where in the file the thumbnail is taken, in tenths of a
    /// microsecond.
    pub thumbnail_at: i64,
    pub proxy_name: String,
    /// The frame rate of the preview copy in millionths, if it is to differ
    /// from the file's.
    pub proxy_fps: Option<u64>,
}

/// Why nothing could be done with a media file.
#[derive(Clone, Copy, Debug, PartialEq, Eq, Structural)]
pub enum MediaError {
    /// The file's extension is not one of a video format.
    UnsupportedFormat,
    /// The probe could not make sense of the file.
    InvalidVideo,
    /// None of the files could be imported.
    NothingImported,
}

/// Where the thumbnail of a file of `duration` microseconds is taken, in
/// tenths of a microsecond: after a tenth of the file, but no later than
/// one second.
pub open spec fn thumbnail_time_of(duration: int) -> int {
    if duration < 10_000_000 {
        duration
    } else {
        10_000_000
    }
}

/// The frame rate of the preview copy of a file with `fps` millionths of a
/// frame per second: 30 where the file has more than 60, else the file's
/// own.
pub open spec fn proxy_fps_of(fps: u64) -> Option<u64> {
    if fps > 60_000_000 {
        Some(30_000_000u64)
    } else {
        None
    }
}

/// Whether `plan` is the plan for importing a file that the probe describes
/// as `info` under the identifier `id`.
pub open spec fn is_import_plan(plan: ImportPlan, id: Seq<char>, info: VideoInfo) -> bool {
    &&& plan.id@ == id
    &&& plan.thumbnail_name@ == id + ".jpg"@
    &&& plan.thumbnail_at == thumbnail_time_of(info.duration as int)
    &&& plan.proxy_name@ == id + "_proxy.mp4"@
    &&& plan.proxy_fps == proxy_fps_of(info.fps)
}

/// The plan for importing a file under the identifier `id`.
pub fn import_plan_for(id: String, info: &VideoInfo) -> (plan: ImportPlan)
    ensures
        is_import_plan(plan, id@, *info),
{
    let mut thumbnail_name = id.clone();
    thumbnail_name.append(".jpg");
    let mut proxy_name = id.clone();
    proxy_name.append("_proxy.mp4");
    ImportPlan {
        id,
        thumbnail_name,
        thumbnail_at: if info.duration < 10_000_000 {
            info.duration
        } else {
            10_000_000
        },
        proxy_name,
        proxy_fps: if info.fps > 60_000_000 {
            Some(30_000_000)
        } else {
            None
        },
    }
}

/// The plan for importing a file under a fresh random identifier.
pub fn plan_import(info: &VideoInfo) -> (plan: ImportPlan)
    ensures
        is_import_plan(plan, plan.id@, *info),
        plan.id@.len() == 36,
{
    import_plan_for(random_uuid_text(), info)
}

/// Whether `item` records the file at `file_path`, called `name`, that the
/// probe describes as `info`, imported under `id` with the given thumbnail
/// and preview copy.
pub open spec fn is_record_of(
    item: MediaItem,
    file_path: Seq<char>,
    name: Option<Seq<char>>,
    id: Seq<char>,
    info: VideoInfo,
    thumbnail_path: Option<Seq<char>>,
    proxy_path: Option<Seq<char>>,
) -> bool {
    &&& item.id@ == id
    &&& item.name@ == match name {
        Some(n) => n,
        None => "Unknown"@,
    }
    &&& item.file_path@ == file_path
    &&& opt_text(item.proxy_path) == proxy_path
    &&& item.duration == info.duration
    &&& item.width == info.width
    &&& item.height == info.height
    &&& item.fps == info.fps
    &&& opt_text(item.thumbnail_path) == thumbnail_path
    &&& item.file_size == info.file_size
    &&& item.codec@ == info.codec@
}

/// The record of an imported file, imported at the given time. `name` is
/// the file's name without its directories, if it has one.
pub fn media_item_at(
    file_path: &str,
    name: Option<&str>,
    id: String,
    info: &VideoInfo,
    thumbnail_path: Option<String>,
    proxy_path: Option<String>,
    imported_at: String,
) -> (item: MediaItem)
    ensures
        is_record_of(
            item,
            file_path@,
            match name {
                Some(n) => Some(n@),
                None => None,
            },
            id@,
            *info,
            opt_text(thumbnail_path),
            opt_text(proxy_path),
        ),
        item.imported_at@ == imported_at@,
{
    MediaItem {
        id,
        name: match name {
            Some(n) => String::from_str(n),
            None => String::from_str("Unknown"),
        },
        file_path: String::from_str(file_path),
        proxy_path,
        duration: info.duration,
        width: info.width,
        height: info.height,
        fps: info.fps,
        thumbnail_path,
        file_size: info.file_size,
        codec: info.codec.clone(),
        imported_at,
    }
}

/// The record of a file imported now.
pub fn import_video(
    file_path: &str,
    name: Option<&str>,
    id: String,
    info: &VideoInfo,
    thumbnail_path: Option<String>,
    proxy_path: Option<String>,
) -> (item: MediaItem)
    ensures
        is_record_of(
            item,
            file_path@,
            match name {
                Some(n) => Some(n@),
                None => None,
            },
            id@,
            *info,
            opt_text(thumbnail_path),
            opt_text(proxy_path),
        ),
{
    media_item_at(file_path, name, id, info, thumbnail_path, proxy_path, utc_now_rfc3339())
}

/// The imports that succeeded among the first `count` of `results`, in
/// order.
pub open spec fn imported_of(results: Seq<Option<MediaItem>>, count: nat) -> Seq<MediaItem>
    decreases count,
{
    if count == 0 {
        Seq::empty()
    } else {
        let rest = imported_of(results, (count - 1) as nat);
        match results[count - 1] {
            Some(item) => rest.push(item),
            None => rest,
        }
    }
}

/// The records of the files that could be imported, in the order of the
/// attempts; an error where none could.
pub fn import_videos(results: Vec<Option<MediaItem>>) -> (r: Result<Vec<MediaItem>, MediaError>)
    ensures
        match r {
            Ok(items) => items@ == imported_of(results@, results.len() as nat) && items.len() > 0,
            Err(e) => e == MediaError::NothingImported && imported_of(
                results@,
                results.len() as nat,
            ).len() == 0,
        },
{
    let ghost all = results@;
    let mut results = results;
    let mut items: Vec<MediaItem> = Vec::new();
    let mut taken: Vec<MediaItem> = Vec::new();
    let total = results.len();
    // taken from the end, the records come out in reverse; they are turned
    // round below
    while results.len() > 0
        invariant
            results.len() <= total == all.len(),
            results@ == all.take(results.len() as int),
            imported_of(all, total as nat) == imported_of(all, results.len() as nat)
                + taken@.reverse(),
        decreases results.len(),
    {
        let ghost k = results.len() as int;
        let ghost before = taken@;
        let last = results.pop();
        assert(results@ =~= all.take(k - 1));
        match last {
            Some(Some(item)) => {
                taken.push(item);
                assert(all[k - 1] == Some(item));
                assert(taken@.reverse() =~= seq![item] + before.reverse());
                assert(imported_of(all, k as nat) + before.reverse() =~= imported_of(
                    all,
                    (k - 1) as nat,
                ) + taken@.reverse());
            },
            _ => {
                assert(all[k - 1] is None);
            },
        }
    }
    assert(imported_of(all, 0) + taken@.reverse() =~= taken@.reverse());
    while taken.len() > 0
        invariant
            imported_of(all, total as nat) == items@ + taken@.reverse(),
        decreases taken.len(),
    {
        let ghost before = taken@;
        let ghost had = items@;
        match taken.pop() {
            Some(item) => {
                items.push(item);
                assert(before.reverse() =~= seq![item] + taken@.reverse());
                assert(had + before.reverse() =~= items@ + taken@.reverse());
            },
            None => {},
        }
    }
    assert(items@ + taken@.reverse() =~= items@);
    if items.len() == 0 {
        Err(MediaError::NothingImported)
    } else {
        Ok(items)
    }
}

/// The argument list that takes one frame of `video` at `timestamp` tenths
/// of a microsecond and writes it to `output`.
pub open spec fn thumbnail_args_of(video: Seq<char>, output: Seq<char>, timestamp: int) -> Seq<
    Seq<char>,
> {
    seq![
        "-ss"@,
        trimmed_text(timestamp < 0, magnitude_of(timestamp), 7),
        "-i"@,
        video,
        "-vframes"@,
        "1"@,
        "-q:v"@,
        "2"@,
        "-y"@,
        output,
    ]
}

/// The argument list that takes one frame of `video_path` at `timestamp`
/// tenths of a microsecond and writes it to `output_path`.
pub fn generate_thumbnail(video_path: &str, output_path: &str, timestamp: i64) -> (args: Vec<
    String,
>)
    ensures
        texts(args@) == thumbnail_args_of(video_path@, output_path@, timestamp as int),
{
    let mut at = String::new();
    push_trimmed(&mut at, timestamp < 0, magnitude(timestamp as i128), 7);
    assert(at@ =~= trimmed_text(timestamp < 0, magnitude_of(timestamp as int), 7));
    let mut args: Vec<String> = Vec::new();
    push_text(&mut args, "-ss");
    push_owned(&mut args, at);
    push_text(&mut args, "-i");
    push_text(&mut args, video_path);
    push_text(&mut args, "-vframes");
    push_text(&mut args, "1");
    push_text(&mut args, "-q:v");
    push_text(&mut args, "2");
    push_text(&mut args, "-y");
    push_text(&mut args, output_path);
    assert(texts(args@) =~= thumbnail_args_of(video_path@, output_path@, timestamp as int));
    args
}

/// The argument list that makes a light preview copy of `video`, 720 lines
/// high, at `fps` millionths of a frame per second if a rate is given.
pub open spec fn proxy_args_of(video: Seq<char>, output: Seq<char>, fps: Option<u64>) -> Seq<
    Seq<char>,
> {
    let rate = match fps {
        Some(f) => seq!["-r"@, plain_text(f as nat)],
        None => Seq::empty(),
    };
    seq![
        "-i"@,
        video,
        "-vf"@,
        "scale=-2:720"@,
        "-c:v"@,
        "libx264"@,
        "-preset"@,
        "ultrafast"@,
        "-crf"@,
        "28"@,
        "-maxrate"@,
        "3M"@,
        "-bufsize"@,
        "6M"@,
    ] + rate + seq![
        "-c:a"@,
        "aac"@,
        "-b:a"@,
        "128k"@,
        "-ac"@,
        "2"@,
        "-movflags"@,
        "+faststart"@,
        "-y"@,
        output,
    ]
}

/// The argument list that makes a light preview copy of `video_path` at
/// `output_path`.
pub fn create_proxy(video_path: &str, output_path: &str, target_fps: Option<u64>) -> (args: Vec<
    String,
>)
    ensures
        texts(args@) == proxy_args_of(video_path@, output_path@, target_fps),
{
    let mut args: Vec<String> = Vec::new();
    push_text(&mut args, "-i");
    push_text(&mut args, video_path);
    push_text(&mut args, "-vf");
    push_text(&mut args, "scale=-2:720");
    push_text(&mut args, "-c:v");
    push_text(&mut args, "libx264");
    push_text(&mut args, "-preset");
    push_text(&mut args, "ultrafast");
    push_text(&mut args, "-crf");
    push_text(&mut args, "28");
    push_text(&mut args, "-maxrate");
    push_text(&mut args, "3M");
    push_text(&mut args, "-bufsize");
    push_text(&mut args, "6M");
    match target_fps {
        Some(f) => {
            let mut rate = String::new();
            push_plain(&mut rate, f);
            assert(rate@ =~= plain_text(f as nat));
            push_text(&mut args, "-r");
            push_owned(&mut args, rate);
        },
        None => {},
    }
    push_text(&mut args, "-c:a");
    push_text(&mut args, "aac");
    push_text(&mut args, "-b:a");
    push_text(&mut args, "128k");
    push_text(&mut args, "-ac");
    push_text(&mut args, "2");
    push_text(&mut args, "-movflags");
    push_text(&mut args, "+faststart");
    push_text(&mut args, "-y");
    push_text(&mut args, output_path);
    assert(texts(args@) =~= proxy_args_of(video_path@, output_path@, target_fps));
    args
}

/// Whether `lowered` is the extension of a video format.
pub open spec fn is_video_extension(lowered: Seq<char>) -> bool {
    lowered == "mp4"@ || lowered == "mov"@ || lowered == "webm"@ || lowered == "avi"@ || lowered
        == "mkv"@
}

/// Whether a file with this extension can be a video: whether the
/// extension, in lower case, is one of mp4, mov, webm, avi, mkv.
pub open spec fn is_supported(extension: Option<String>) -> bool {
    match extension {
        Some(e) => is_video_extension(lower_case(e@)),
        None => false,
    }
}

/// Whether `lowered`, an extension in lower case, is that of a video
/// format.
pub fn is_known_extension(lowered: &String) -> (r: bool)
    ensures
        r == is_video_extension(lowered@),
{
    is_text(lowered, "mp4") || is_text(lowered, "mov") || is_text(lowered, "webm") || is_text(
        lowered,
        "avi",
    ) || is_text(lowered, "mkv")
}

/// Whether a file with this extension can be a video.
pub fn is_supported_extension(extension: &Option<String>) -> (r: bool)
    ensures
        r == is_supported(*extension),
{
    match extension {
        Some(e) => {
            let lowered = to_lower_case(e.as_str());
            is_known_extension(&lowered)
        },
        None => false,
    }
}

/// Whether the file is a video that can be worked with: its extension must
/// be that of a video format, and the probe must have made sense of it.
pub fn validate_video_file(extension: &Option<String>, probed: bool) -> (r: Result<
    bool,
    MediaError,
>)
    ensures
        r == if !is_supported(*extension) {
            Err::<bool, MediaError>(MediaError::UnsupportedFormat)
        } else if !probed {
            Err::<bool, MediaError>(MediaError::InvalidVideo)
        } else {
            Ok::<bool, MediaError>(true)
        },
{
    if !is_supported_extension(extension) {
        Err(MediaError::UnsupportedFormat)
    } else if !probed {
        Err(MediaError::InvalidVideo)
    } else {
        Ok(true)
    }
}

/// The picture `bytes`, a JPEG file, as a data URL.
pub fn get_thumbnail_base64(bytes: &Vec<u8>) -> (url: String)
    requires
        bytes.len() <= usize::MAX / 2,
    ensures
        url@ == "data:image/jpeg;base64,"@ + base64_standard(bytes@),
{
    let mut url = String::from_str("data:image/jpeg;base64,");
    let encoded = encode_base64(bytes);
    url.append(encoded.as_str());
    url
}

} // verus!
