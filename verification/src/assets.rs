//! Resolution of the audio asset files.
//!
//! Each cue is bound to one asset file, looked for in three places in
//! order: a subpath of the user's configuration directory, a local
//! `audio` directory, and a system-wide shared path. The first existing
//! match wins; an asset found nowhere is a fatal startup error naming it.

use vstd::prelude::*;
use crate::cues::AudioCue;

verus! {

/// Startup error: an audio asset was found in none of the search paths.
#[derive(Debug)]
pub struct AssetError {
    /// The file name of the missing asset.
    pub asset: String,
}

impl AssetError {
    /// The failure message, naming the missing asset.
    pub fn message(&self) -> (msg: String)
        ensures
            msg@ == "unable to locate audio file: "@ + self.asset@,
    {
        String::from_str("unable to locate audio file: ").concat(self.asset.as_str())
    }
}

/// The fixed asset file bound to each cue.
pub open spec fn spec_cue_asset(cue: AudioCue) -> Seq<char> {
    match cue {
        AudioCue::Click => "click.flac"@,
        AudioCue::Scroll => "scroll.flac"@,
        AudioCue::Key => "key.flac"@,
        AudioCue::ModKey => "modkey.flac"@,
    }
}

/// The asset file name for a cue.
pub fn cue_asset_name(cue: AudioCue) -> (name: &'static str)
    ensures
        name@ == spec_cue_asset(cue),
{
    match cue {
        AudioCue::Click => "click.flac",
        AudioCue::Scroll => "scroll.flac",
        AudioCue::Key => "key.flac",
        AudioCue::ModKey => "modkey.flac",
    }
}

/// The candidate under the user's configuration directory.
pub open spec fn spec_user_candidate(config_base: Seq<char>, asset: Seq<char>) -> Seq<char> {
    config_base + "/eventsfx/"@ + asset
}

/// The candidate in the local audio directory.
pub open spec fn spec_local_candidate(asset: Seq<char>) -> Seq<char> {
    "audio/"@ + asset
}

/// The candidate under the system-wide shared path.
pub open spec fn spec_system_candidate(asset: Seq<char>) -> Seq<char> {
    "/usr/share/eventsfx/audio/"@ + asset
}

/// Relies on dirs::config_dir: the user's configuration directory, if the
/// platform defines one (on Linux, `XDG_CONFIG_HOME` or `~/.config`). The
/// environment decides the value, so nothing is promised of it.
#[verifier::external_body]
fn user_config_dir() -> Option<String> {
    dirs::config_dir().map(|p| p.to_string_lossy().into_owned())
}

/// The candidate paths for an asset, in search order. A platform without a
/// user configuration directory searches the two fixed places alone.
pub fn asset_candidates(asset: &str) -> (paths: Vec<String>)
    ensures
        2 <= paths@.len() <= 3,
        paths@.len() == 3 ==> (exists|base: Seq<char>|
            paths@[0]@ == spec_user_candidate(base, asset@)),
        paths@[paths@.len() - 2]@ == spec_local_candidate(asset@),
        paths@[paths@.len() - 1]@ == spec_system_candidate(asset@),
{
    let mut paths: Vec<String> = Vec::new();
    let base = user_config_dir();
    match base {
        Some(dir) => {
            let user = String::from_str(dir.as_str()).concat("/eventsfx/").concat(asset);
            proof {
                assert(user@ == spec_user_candidate(dir@, asset@));
            }
            paths.push(user);
        },
        None => {},
    }
    paths.push(String::from_str("audio/").concat(asset));
    paths.push(String::from_str("/usr/share/eventsfx/audio/").concat(asset));
    paths
}

/// Pick the first search path where the asset is present, given one
/// presence flag per candidate; when it is present nowhere, fail with an
/// error naming the asset.
pub fn pick_first_present(present: &Vec<bool>, asset: &str) -> (r: Result<usize, AssetError>)
    ensures
        match r {
            Ok(i) => i < present@.len() && present@[i as int] && (forall|j: int|
                0 <= j < i ==> !(#[trigger] present@[j])),
            Err(e) => e.asset@ == asset@ && (forall|j: int|
                0 <= j < present@.len() ==> !(#[trigger] present@[j])),
        },
{
    let mut i: usize = 0;
    while i < present.len()
        invariant
            i <= present@.len(),
            forall|j: int| 0 <= j < i ==> !(#[trigger] present@[j]),
        decreases present@.len() - i,
    {
        if present[i] {
            return Ok(i);
        }
        i = i + 1;
    }
    Err(AssetError { asset: String::from_str(asset) })
}

} // verus!
