use beanal::identifiers::{
    clean_app_name, clean_bundle_id, display_with, is_generic_component, last_informative_component,
};

#[test]
fn test_clean_bundle_id() {
    assert_eq!(clean_bundle_id("com.spotify.client"), "Spotify");
    assert_eq!(clean_bundle_id("com.apple.Music"), "Apple Music");
    assert_eq!(clean_bundle_id("org.videolan.vlc"), "VLC");
    assert_eq!(clean_bundle_id("com.custom.MyApp"), "MyApp");
}

#[test]
fn test_clean_app_name_exe() {
    assert_eq!(clean_app_name("Spotify.exe"), "Spotify");
    assert_eq!(clean_app_name("chrome.exe"), "chrome");
}

#[test]
fn test_clean_app_name_uwp() {
    let raw = "Microsoft.ZuneMusic_8wekyb3d8bbwe!Microsoft.ZuneMusic";
    assert_eq!(clean_app_name(raw), "Microsoft");
}

#[test]
fn test_clean_app_name_simple() {
    assert_eq!(clean_app_name("Firefox"), "Firefox");
}

#[test]
fn app_name_takes_last_bang_piece() {
    assert_eq!(clean_app_name("SpotifyAB.SpotifyMusic_zpdnekdrzrea0!Spotify"), "Spotify");
    assert_eq!(clean_app_name("a!b!c.d"), "c");
    assert_eq!(clean_app_name(""), "");
    assert_eq!(clean_app_name("x!"), "");
    assert_eq!(clean_app_name(".hidden"), "");
}

#[test]
fn bundle_id_empty_is_unknown() {
    assert_eq!(clean_bundle_id(""), "Unknown");
}

#[test]
fn bundle_id_all_generic_is_kept() {
    assert_eq!(clean_bundle_id("com.app.player"), "com.app.player");
    assert_eq!(clean_bundle_id("io"), "io");
}

#[test]
fn bundle_id_stoplist_ignores_case() {
    assert_eq!(clean_bundle_id("COM.Foobar.CLIENT"), "Foobar");
    assert_eq!(clean_bundle_id("org.mpv.Beta"), "MPV");
}

#[test]
fn bundle_id_title_cases_first_char_only() {
    assert_eq!(clean_bundle_id("com.example.rhythmbox"), "Rhythmbox");
    assert_eq!(clean_bundle_id("net.sonic.iTunesX.app"), "ITunesX");
    assert_eq!(clean_bundle_id("com.ümlaut"), "Ümlaut");
}

#[test]
fn bundle_id_short_by_bytes_is_acronym() {
    assert_eq!(clean_bundle_id("com.foo.mp3"), "MP3");
    // two characters but four bytes: title case, not upper case
    assert_eq!(clean_bundle_id("com.éé"), "Éé");
}

#[test]
fn generic_components() {
    for w in ["com", "org", "net", "io", "client", "player", "app", "beta", "stable"] {
        assert!(is_generic_component(w));
    }
    assert!(!is_generic_component("COM"));
    assert!(!is_generic_component("spotify"));
    assert!(!is_generic_component(""));
}

fn strings(v: &[&str]) -> Vec<String> {
    v.iter().map(|s| s.to_string()).collect()
}

#[test]
fn last_informative_scans_from_end() {
    let v = strings(&["com", "spotify", "client"]);
    assert_eq!(last_informative_component(&v, &v), Some(1));
    let w = strings(&["com", "app"]);
    assert_eq!(last_informative_component(&w, &w), None);
    let x = strings(&["a", "b"]);
    assert_eq!(last_informative_component(&x, &x), Some(1));
    assert_eq!(last_informative_component(&Vec::new(), &Vec::new()), None);
}

#[test]
fn last_informative_skips_empty_and_uses_lowered() {
    let parts = strings(&["com", "spotify", ""]);
    assert_eq!(last_informative_component(&parts, &parts), Some(1));
    let parts = strings(&["COM", "Foo", "CLIENT"]);
    let lowered = strings(&["com", "foo", "client"]);
    assert_eq!(last_informative_component(&parts, &lowered), Some(1));
    assert_eq!(last_informative_component(&parts, &parts), Some(2));
    let empty = strings(&["", ""]);
    assert_eq!(last_informative_component(&empty, &empty), None);
}

#[test]
fn bundle_id_empty_components_are_skipped() {
    assert_eq!(clean_bundle_id("."), ".");
    assert_eq!(clean_bundle_id(".."), "..");
    assert_eq!(clean_bundle_id("com.spotify."), "Spotify");
    assert_eq!(clean_bundle_id("com..vlc"), "VLC");
}

#[test]
fn display_with_chooses_by_byte_length() {
    assert_eq!(display_with("vlc", "VLC", "V"), "VLC");
    assert_eq!(display_with("spotify", "SPOTIFY", "S"), "Spotify");
    assert_eq!(display_with("éé", "ÉÉ", "É"), "Éé");
    assert_eq!(display_with("ßaaa", "SSAAA", "SS"), "SSaaa");
    assert_eq!(display_with("abc", "x", "y"), "x");
    assert_eq!(display_with("abcd", "x", "y"), "ybcd");
}
