use beanal::colors::{Color32, ColorPreset, ColorScheme};

#[test]
fn test_presets_exist() {
    let names = ColorPreset::preset_names();
    assert!(names.contains(&"Classic Winamp".to_string()));
    assert!(names.contains(&"Synthwave".to_string()));
    assert!(!names.contains(&"Non Existent Preset 12345".to_string()));

    let found = ColorPreset::find("Ocean Blue");
    assert!(found.is_some());
    assert_eq!(found.unwrap().name, "Ocean Blue");
}

#[test]
fn catalog_order_and_size() {
    let all = ColorPreset::all_presets();
    assert_eq!(all.len(), 33);
    assert_eq!(all[0].name, "Classic Winamp");
    assert_eq!(all[32].name, "Cotton Candy");
    let names = ColorPreset::preset_names();
    assert_eq!(names.len(), all.len());
    for (n, p) in names.iter().zip(all.iter()) {
        assert_eq!(n, &p.name);
    }
}

#[test]
fn find_returns_colours() {
    let p = ColorPreset::find("Cyberpunk").unwrap();
    assert_eq!(p.low, Color32::from_rgb(255, 0, 255));
    assert_eq!(p.high, Color32::from_rgb(0, 255, 255));
    assert_eq!(p.peak, Color32::from_rgb(255, 255, 0));
    assert!(ColorPreset::find("cyberpunk").is_none());
    assert!(ColorPreset::find("").is_none());
}

#[test]
fn from_rgb_is_opaque() {
    let c = Color32::from_rgb(1, 2, 3);
    assert_eq!(c, Color32 { r: 1, g: 2, b: 3, a: 255 });
}

#[test]
fn preset_new_keeps_fields() {
    let w = Color32::from_rgb(255, 255, 255);
    let k = Color32::from_rgb(0, 0, 0);
    let p = ColorPreset::new("Mine", w, k, w);
    assert_eq!(p.name, "Mine");
    assert_eq!(p.low, w);
    assert_eq!(p.high, k);
    assert_eq!(p, p.clone());
}

#[test]
fn scheme_transitions() {
    let mut scheme = ColorScheme::default();
    assert_eq!(scheme.scheme_name(), "Classic Winamp");
    let (low1, _, _) = scheme.get_colors();
    assert_eq!(low1, Color32::from_rgb(50, 205, 50));

    scheme.apply_preset("Cyberpunk");
    assert_eq!(scheme.scheme_name(), "Cyberpunk");
    let (low2, _, _) = scheme.get_colors();
    assert_ne!(low1, low2);

    let white = Color32::from_rgb(255, 255, 255);
    let black = Color32::from_rgb(0, 0, 0);
    let red = Color32::from_rgb(255, 0, 0);
    scheme = ColorScheme::Custom { low: white, high: black, peak: red };
    assert_eq!(scheme.scheme_name(), "Custom");
    assert_eq!(scheme.get_colors(), (white, black, red));

    scheme.apply_preset("No Such Preset");
    assert_eq!(scheme, ColorScheme::Custom { low: white, high: black, peak: red });

    scheme.apply_preset("Classic Winamp");
    assert_eq!(scheme.scheme_name(), "Classic Winamp");
    assert_eq!(scheme, ColorScheme::default());
}
