//! Finding the transcoding and probing programs.
//!
//! A development build runs the programs installed on the system. A release
//! build runs the copies shipped with the application, which may sit in one
//! of several places next to the executable.

use vstd::prelude::*;
use vstd::string::*;
use crate::locations::{Location, LocationView, Platform, location_views, option_view};

verus! {

/// How the application was built.
#[derive(Clone, Copy, Debug, PartialEq, Eq, Structural)]
pub enum BuildProfile {
    Development,
    Release,
}

/// Why a shipped program could not be located.
#[derive(Clone, Copy, Debug, PartialEq, Eq, Structural)]
pub enum ToolError {
    /// The running executable's own path is unknown.
    NoExecutablePath,
    /// The running executable has no directory above it.
    NoExecutableDirectory,
    /// None of the candidate locations holds the program.
    NotFound,
}

/// The file name of a shipped program on `platform`.
pub open spec fn binary_file_name(name: Seq<char>, platform: Platform) -> Seq<char> {
    if platform == Platform::Windows {
        name + ".exe"@
    } else {
        name
    }
}

/// The directory of shipped programs for `platform`.
pub open spec fn arch_dir_name(platform: Platform) -> Seq<char> {
    match platform {
        Platform::MacOsArm => "macos-aarch64"@,
        Platform::MacOsIntel => "macos-x86_64"@,
        Platform::Linux => "linux-x86_64"@,
        Platform::Windows => "windows-x86_64"@,
        Platform::Other => "unknown"@,
    }
}

/// The directory two levels above `dir`, if there is one.
pub open spec fn bundle_root_of(dir: LocationView) -> Option<LocationView> {
    match dir.parent() {
        Some(p) => p.parent(),
        None => None,
    }
}

/// The places where the program `name` may have been shipped, in the order
/// they are tried: beside the executable, in the bundle root, in the
/// bundle's resources, and in the per-platform directory of a source tree.
pub open spec fn sidecar_candidates_of(
    name: Seq<char>,
    exe_dir: LocationView,
    platform: Platform,
) -> Seq<LocationView> {
    let file = binary_file_name(name, platform);
    let beside = seq![exe_dir.child(file)];
    let bundled = match bundle_root_of(exe_dir) {
        Some(root) => seq![root.child(file), root.child("Resources"@).child(file)],
        None => Seq::empty(),
    };
    let source_tree = seq![
        exe_dir.child("binaries"@).child(arch_dir_name(platform)).child(file),
    ];
    beside + bundled + source_tree
}

/// Whether the host reported the candidate at `i` as present. A candidate
/// the host said nothing about counts as absent.
pub open spec fn is_present(present: Seq<bool>, i: int) -> bool {
    0 <= i < present.len() && present[i]
}

/// Whether `i` is the first candidate that is present.
pub open spec fn is_first_present(present: Seq<bool>, count: int, i: int) -> bool {
    &&& 0 <= i < count
    &&& is_present(present, i)
    &&& forall|j: int| 0 <= j < i ==> !is_present(present, j)
}

fn binary_name_for(name: &str, platform: Platform) -> (file: String)
    ensures
        file@ == binary_file_name(name@, platform),
{
    let mut file = String::from_str(name);
    match platform {
        Platform::Windows => {
            file.append(".exe");
        },
        _ => {},
    }
    file
}

fn arch_dir_for(platform: Platform) -> (dir: &'static str)
    ensures
        dir@ == arch_dir_name(platform),
{
    match platform {
        Platform::MacOsArm => "macos-aarch64",
        Platform::MacOsIntel => "macos-x86_64",
        Platform::Linux => "linux-x86_64",
        Platform::Windows => "windows-x86_64",
        Platform::Other => "unknown",
    }
}

fn bundle_root(dir: &Location) -> (r: Option<Location>)
    ensures
        match r {
            Some(root) => bundle_root_of(dir@) == Some(root@),
            None => bundle_root_of(dir@) is None,
        },
{
    match dir.parent() {
        Some(p) => p.parent(),
        None => None,
    }
}

/// The places where the program `name` may have been shipped.
pub fn sidecar_candidates(name: &str, exe_dir: &Location, platform: Platform) -> (list: Vec<
    Location,
>)
    ensures
        location_views(list@) == sidecar_candidates_of(name@, exe_dir@, platform),
{
    let file = binary_name_for(name, platform);
    let mut list: Vec<Location> = Vec::new();
    list.push(exe_dir.child(file.as_str()));
    match bundle_root(exe_dir) {
        Some(root) => {
            list.push(root.child(file.as_str()));
            list.push(root.child("Resources").child(file.as_str()));
        },
        None => {},
    }
    list.push(exe_dir.child("binaries").child(arch_dir_for(platform)).child(file.as_str()));
    assert(location_views(list@) =~= sidecar_candidates_of(name@, exe_dir@, platform));
    list
}

/// What a search among `list` may return: the first candidate present, or
/// the report that none is.
pub open spec fn search_outcome(
    list: Seq<LocationView>,
    present: Seq<bool>,
    r: Result<Location, ToolError>,
) -> bool {
    match r {
        Ok(found) => exists|i: int| #[trigger]
            is_first_present(present, list.len() as int, i) && found@ == list[i],
        Err(e) => e == ToolError::NotFound && forall|i: int|
            0 <= i < list.len() ==> !#[trigger] is_present(present, i),
    }
}

/// What a search for the shipped program `name` may return.
pub open spec fn sidecar_outcome(
    name: Seq<char>,
    executable: Option<LocationView>,
    platform: Platform,
    present: Seq<bool>,
    r: Result<Location, ToolError>,
) -> bool {
    match executable {
        None => r is Err && r->Err_0 == ToolError::NoExecutablePath,
        Some(exe) => match exe.parent() {
            None => r is Err && r->Err_0 == ToolError::NoExecutableDirectory,
            Some(dir) => search_outcome(sidecar_candidates_of(name, dir, platform), present, r),
        },
    }
}

/// The location of the shipped program `name`: the first candidate that the
/// host reports as present. `executable` is the running executable, if the
/// host could tell; `present` says for each candidate, in order, whether a
/// file is there.
#[verifier::loop_isolation(false)]
pub fn get_sidecar_path(
    name: &str,
    executable: &Option<Location>,
    platform: Platform,
    present: &Vec<bool>,
) -> (r: Result<Location, ToolError>)
    ensures
        sidecar_outcome(name@, option_view(*executable), platform, present@, r),
{
    let exe = match executable {
        Some(e) => e,
        None => {
            return Err(ToolError::NoExecutablePath);
        },
    };
    let exe_dir = match exe.parent() {
        Some(d) => d,
        None => {
            return Err(ToolError::NoExecutableDirectory);
        },
    };
    let list = sidecar_candidates(name, &exe_dir, platform);
    let ghost spec_list = sidecar_candidates_of(name@, exe_dir@, platform);
    assert(list.len() == spec_list.len());
    let mut i: usize = 0;
    while i < list.len()
        invariant
            i <= list.len(),
            location_views(list@) == spec_list,
            forall|j: int| 0 <= j < i ==> !is_present(present@, j),
        decreases list.len() - i,
    {
        if i < present.len() && present[i] {
            let found = list[i].duplicate();
            proof {
                assert(found@ == location_views(list@)[i as int]);
                assert(is_first_present(present@, spec_list.len() as int, i as int));
                assert(option_view(*executable) == Some(exe@));
                assert(exe@.parent() == Some(exe_dir@));
            }
            return Ok(found);
        }
        i += 1;
    }
    proof {
        assert(option_view(*executable) == Some(exe@));
        assert(exe@.parent() == Some(exe_dir@));
    }
    Err(ToolError::NotFound)
}

/// The transcoding program: the system's `ffmpeg` in a development build,
/// the shipped one in a release build.
pub fn get_ffmpeg_path(
    profile: BuildProfile,
    executable: &Option<Location>,
    platform: Platform,
    present: &Vec<bool>,
) -> (r: Result<Location, ToolError>)
    ensures
        profile == BuildProfile::Development ==> r is Ok && r->Ok_0@ == (LocationView {
            root: "ffmpeg"@,
            parts: Seq::empty(),
        }),
        profile == BuildProfile::Release ==> sidecar_outcome(
            "ffmpeg"@,
            option_view(*executable),
            platform,
            present@,
            r,
        ),
{
    match profile {
        BuildProfile::Development => Ok(Location::new("ffmpeg")),
        BuildProfile::Release => get_sidecar_path("ffmpeg", executable, platform, present),
    }
}

/// The probing program: the system's `ffprobe` in a development build, the
/// shipped one in a release build.
pub fn get_ffprobe_path(
    profile: BuildProfile,
    executable: &Option<Location>,
    platform: Platform,
    present: &Vec<bool>,
) -> (r: Result<Location, ToolError>)
    ensures
        profile == BuildProfile::Development ==> r is Ok && r->Ok_0@ == (LocationView {
            root: "ffprobe"@,
            parts: Seq::empty(),
        }),
        profile == BuildProfile::Release ==> sidecar_outcome(
            "ffprobe"@,
            option_view(*executable),
            platform,
            present@,
            r,
        ),
{
    match profile {
        BuildProfile::Development => Ok(Location::new("ffprobe")),
        BuildProfile::Release => get_sidecar_path("ffprobe", executable, platform, present),
    }
}

} // verus!
