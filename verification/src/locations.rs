//! Where the application keeps its files.
//!
//! A location is a root and the names below it. Callers turn locations into
//! paths of the host system and do the actual directory work; this module
//! only decides which locations are meant.

use vstd::prelude::*;
use vstd::string::*;
use crate::text::{copy_texts, texts};

verus! {

/// A place in the file system: a root and the names that lead down from it.
pub struct Location {
    pub root: String,
    pub parts: Vec<String>,
}

/// What a [`Location`] stands for.
pub struct LocationView {
    pub root: Seq<char>,
    pub parts: Seq<Seq<char>>,
}

impl View for Location {
    type V = LocationView;

    open spec fn view(&self) -> LocationView {
        LocationView { root: self.root@, parts: texts(self.parts@) }
    }
}

impl LocationView {
    /// The location called `name` directly below this one.
    pub open spec fn child(self, name: Seq<char>) -> LocationView {
        LocationView { root: self.root, parts: self.parts.push(name) }
    }

    /// The location one level up, if this is not a bare root.
    pub open spec fn parent(self) -> Option<LocationView> {
        if self.parts.len() == 0 {
            None
        } else {
            Some(LocationView { root: self.root, parts: self.parts.drop_last() })
        }
    }
}

/// The systems the application is built for.
#[derive(Clone, Copy, Debug, PartialEq, Eq, Structural)]
pub enum Platform {
    MacOsArm,
    MacOsIntel,
    Linux,
    Windows,
    Other,
}

/// Why a location could not be determined.
#[derive(Clone, Copy, Debug, PartialEq, Eq, Structural)]
pub enum LocationError {
    /// The user's home directory is unknown.
    NoHomeDirectory,
    /// The user's documents directory is unknown.
    NoDocumentsDirectory,
    /// The platform has no documents directory convention.
    UnsupportedPlatform,
}

impl Location {
    /// A bare root.
    pub fn new(root: &str) -> (r: Location)
        ensures
            r@ == (LocationView { root: root@, parts: Seq::empty() }),
    {
        let r = Location { root: String::from_str(root), parts: Vec::new() };
        assert(r@.parts =~= Seq::empty());
        r
    }

    /// A copy of this location.
    pub fn duplicate(&self) -> (r: Location)
        ensures
            r@ == self@,
    {
        let parts = copy_texts(&self.parts);
        Location { root: self.root.clone(), parts }
    }

    /// The location called `name` directly below this one.
    pub fn child(&self, name: &str) -> (r: Location)
        ensures
            r@ == self@.child(name@),
    {
        let mut r = self.duplicate();
        let ghost before = r.parts@;
        r.parts.push(String::from_str(name));
        assert(texts(r.parts@) =~= texts(before).push(name@));
        r
    }

    /// The location one level up, if this is not a bare root.
    pub fn parent(&self) -> (r: Option<Location>)
        ensures
            match r {
                Some(p) => self@.parent() == Some(p@),
                None => self@.parent() is None,
            },
    {
        if self.parts.len() == 0 {
            None
        } else {
            let mut p = self.duplicate();
            let ghost before = p.parts@;
            p.parts.pop();
            assert(texts(p.parts@) =~= texts(before).drop_last());
            Some(p)
        }
    }
}

/// The user's documents directory on `platform`, from what the host reports.
pub open spec fn documents_dir_of(
    platform: Platform,
    home: Option<LocationView>,
    documents: Option<LocationView>,
) -> Result<LocationView, LocationError> {
    match platform {
        Platform::Windows => match documents {
            Some(d) => Ok(d),
            None => Err(LocationError::NoDocumentsDirectory),
        },
        Platform::Other => Err(LocationError::UnsupportedPlatform),
        _ => match home {
            Some(h) => Ok(h.child("Documents"@)),
            None => Err(LocationError::NoHomeDirectory),
        },
    }
}

/// The application's own directory below the documents directory.
pub open spec fn app_root_of(documents: LocationView) -> LocationView {
    documents.child("Zapcut"@)
}

/// The directories the application needs, in the order they are made.
pub open spec fn app_directories_of(documents: LocationView) -> Seq<LocationView> {
    let root = app_root_of(documents);
    seq![
        root,
        root.child("recordings"@),
        root.child("exports"@),
        root.child("thumbnails"@),
        root.child("projects"@),
    ]
}

/// The views of a list of locations.
pub open spec fn location_views(v: Seq<Location>) -> Seq<LocationView> {
    Seq::new(v.len(), |i: int| v[i]@)
}

/// The view of an optional location.
pub open spec fn option_view(location: Option<Location>) -> Option<LocationView> {
    match location {
        Some(l) => Some(l@),
        None => None,
    }
}

/// The user's documents directory: below the home directory on macOS and
/// Linux, the system's own documents folder on Windows.
pub fn get_documents_dir(
    platform: Platform,
    home: &Option<Location>,
    documents: &Option<Location>,
) -> (r: Result<Location, LocationError>)
    ensures
        match r {
            Ok(d) => documents_dir_of(platform, option_view(*home), option_view(*documents)) == Ok::<
                LocationView,
                LocationError,
            >(d@),
            Err(e) => documents_dir_of(platform, option_view(*home), option_view(*documents))
                == Err::<LocationView, LocationError>(e),
        },
{
    match platform {
        Platform::Windows => match documents {
            Some(d) => Ok(d.duplicate()),
            None => Err(LocationError::NoDocumentsDirectory),
        },
        Platform::Other => Err(LocationError::UnsupportedPlatform),
        _ => match home {
            Some(h) => Ok(h.child("Documents")),
            None => Err(LocationError::NoHomeDirectory),
        },
    }
}

/// The application's directory and the directories to make below it. The
/// first entry is the application's directory itself.
pub fn initialize_app_directories(documents: &Location) -> (dirs: Vec<Location>)
    ensures
        location_views(dirs@) == app_directories_of(documents@),
{
    let root = documents.child("Zapcut");
    let mut dirs: Vec<Location> = Vec::new();
    dirs.push(root.duplicate());
    dirs.push(root.child("recordings"));
    dirs.push(root.child("exports"));
    dirs.push(root.child("thumbnails"));
    dirs.push(root.child("projects"));
    assert(location_views(dirs@) =~= app_directories_of(documents@));
    dirs
}

/// Where recordings are kept.
pub fn get_recordings_dir(documents: &Location) -> (dir: Location)
    ensures
        dir@ == app_root_of(documents@).child("recordings"@),
{
    documents.child("Zapcut").child("recordings")
}

/// Where finished exports are kept.
pub fn get_exports_dir(documents: &Location) -> (dir: Location)
    ensures
        dir@ == app_root_of(documents@).child("exports"@),
{
    documents.child("Zapcut").child("exports")
}

} // verus!
