use eventsfx::assets::asset_candidates;
use eventsfx::assets::cue_asset_name;
use eventsfx::assets::pick_first_present;
use eventsfx::cues::AudioCue;

#[test]
fn each_cue_has_its_fixed_asset() {
    assert_eq!(cue_asset_name(AudioCue::Click), "click.flac");
    assert_eq!(cue_asset_name(AudioCue::Scroll), "scroll.flac");
    assert_eq!(cue_asset_name(AudioCue::Key), "key.flac");
    assert_eq!(cue_asset_name(AudioCue::ModKey), "modkey.flac");
}

#[test]
fn candidates_come_in_search_order() {
    let paths = asset_candidates("click.flac");
    assert!(paths.len() == 2 || paths.len() == 3);
    let n = paths.len();
    assert_eq!(paths[n - 2], "audio/click.flac");
    assert_eq!(paths[n - 1], "/usr/share/eventsfx/audio/click.flac");
    if n == 3 {
        assert!(paths[0].ends_with("/eventsfx/click.flac"));
    }
}

#[test]
fn first_present_candidate_wins() {
    assert_eq!(pick_first_present(&vec![true, true, true], "key.flac").unwrap(), 0);
    assert_eq!(pick_first_present(&vec![false, true, true], "key.flac").unwrap(), 1);
    assert_eq!(pick_first_present(&vec![false, false, true], "key.flac").unwrap(), 2);
}

#[test]
fn asset_missing_everywhere_fails_naming_it() {
    let err = pick_first_present(&vec![false, false, false], "modkey.flac").unwrap_err();
    assert_eq!(err.asset, "modkey.flac");
    assert_eq!(err.message(), "unable to locate audio file: modkey.flac");
}
