//! Plain data types shared with the terminal front end.

use vstd::prelude::*;

verus! {

/// The mascot drawn on the startup screen.
#[derive(Clone, Copy, Debug, PartialEq, Eq, Structural)]
pub enum StartupMascotSkin {
    Ant01,
    Ant03,
    NoMascot,
}

impl Default for StartupMascotSkin {
    fn default() -> (r: Self)
        ensures
            r == StartupMascotSkin::Ant03,
    {
        StartupMascotSkin::Ant03
    }
}

/// An image pasted from the clipboard: a file path, or raw RGBA pixels.
#[derive(Clone, Debug)]
pub enum ImageSource {
    File(String),
    Rgba { width: u32, height: u32, bytes: Vec<u8> },
}

/// A pending device-code login: the page to open and the code to enter
/// there, with what polling for its completion needs.
#[derive(Clone, Debug)]
pub struct DeviceLogin {
    pub verification_url: String,
    pub user_code: String,
    pub device_auth_id: String,
    pub interval_secs: u64,
}

/// A short preview of a stored session.
#[derive(Clone, Debug, PartialEq, Eq)]
pub struct SessionPreview {
    pub id: u128,
    pub text: String,
}

/// One page of a session transcript, newest page first when paging back.
#[derive(Clone, Debug)]
pub struct TranscriptPage {
    pub text: String,
    pub next_cursor: Option<usize>,
}

/// One changed file.
#[derive(Clone, Debug)]
pub enum FileChange {
    Add { content: String },
    Delete { content: String },
    Update { unified_diff: String, move_path: Option<String> },
}

/// The changes of one turn, by path, with the working directory that paths
/// are shown relative to.
#[derive(Clone, Debug)]
pub struct DiffSummary {
    pub changes: Vec<(String, FileChange)>,
    pub cwd: String,
}

impl DiffSummary {
    pub fn new(changes: Vec<(String, FileChange)>, cwd: String) -> (r: DiffSummary)
        ensures
            r.changes@ == changes@,
            r.cwd@ == cwd@,
    {
        DiffSummary { changes, cwd }
    }
}

} // verus!
