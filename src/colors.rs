//! Colours and the built-in colour presets of the visualiser.
use vstd::prelude::*;
use crate::text::{text_eq, text_views};

verus! {

/// Visualisation style.
#[derive(Clone, Copy, PartialEq, Eq, Debug, Structural)]
pub enum VisualMode {
    SolidBars,
    SegmentedBars,
    LineSpectrum,
    Oscilloscope,
}

/// How the now-playing overlay is shown.
#[derive(Clone, Copy, PartialEq, Eq, Debug, Structural)]
pub enum MediaDisplayMode {
    /// Shown for a while after each update, then faded out.
    FadeOnUpdate,
    AlwaysOn,
    Off,
}

/// An RGBA colour.
#[derive(Clone, Copy, PartialEq, Eq, Debug, Structural)]
pub struct Color32 {
    pub r: u8,
    pub g: u8,
    pub b: u8,
    pub a: u8,
}

/// The opaque colour with the given channels.
pub open spec fn rgb(r: u8, g: u8, b: u8) -> Color32 {
    Color32 { r, g, b, a: 255 }
}

impl Color32 {
    /// An opaque colour.
    pub fn from_rgb(r: u8, g: u8, b: u8) -> (c: Color32)
        ensures
            c == rgb(r, g, b),
    {
        Color32 { r, g, b, a: 255 }
    }
}

/// Mathematical model of a [`ColorPreset`].
pub struct PresetView {
    pub name: Seq<char>,
    pub low: Color32,
    pub high: Color32,
    pub peak: Color32,
}

pub open spec fn entry(name: Seq<char>, low: Color32, high: Color32, peak: Color32) -> PresetView {
    PresetView { name, low, high, peak }
}

/// A named set of colours: for quiet bars, loud bars and peaks.
#[derive(Debug)]
pub struct ColorPreset {
    pub name: String,
    pub low: Color32,
    pub high: Color32,
    pub peak: Color32,
}

impl View for ColorPreset {
    type V = PresetView;

    open spec fn view(&self) -> PresetView {
        PresetView { name: self.name@, low: self.low, high: self.high, peak: self.peak }
    }
}

pub open spec fn preset_views(presets: Seq<ColorPreset>) -> Seq<PresetView> {
    presets.map_values(|p: ColorPreset| p@)
}

/// The built-in presets, in the order they are offered.
#[verifier::opaque]
pub open spec fn preset_catalog() -> Seq<PresetView> {
    seq![
        entry("Classic Winamp"@, rgb(50, 205, 50), rgb(255, 255, 0), rgb(255, 0, 0)),
        entry("Ocean Blue"@, rgb(30, 144, 255), rgb(0, 255, 255), rgb(255, 255, 255)),
        entry("Sunset"@, rgb(255, 69, 0), rgb(255, 255, 0), rgb(255, 255, 255)),
        entry("Synthwave"@, rgb(255, 0, 255), rgb(0, 255, 255), rgb(255, 255, 0)),
        entry("Spy Black"@, rgb(0, 0, 0), rgb(47, 79, 79), rgb(220, 20, 60)),
        entry("Forest Canopy"@, rgb(0, 100, 0), rgb(0, 255, 0), rgb(255, 255, 0)),
        entry("Molten Core"@, rgb(139, 0, 0), rgb(255, 165, 0), rgb(255, 255, 255)),
        entry("Arctic Night"@, rgb(75, 0, 130), rgb(173, 216, 230), rgb(255, 255, 255)),
        entry("Matrix"@, rgb(0, 0, 0), rgb(0, 255, 0), rgb(245, 245, 245)),
        entry("Bubblegum"@, rgb(255, 20, 147), rgb(0, 255, 255), rgb(255, 255, 0)),
        entry("Monochrome"@, rgb(105, 105, 105), rgb(211, 211, 211), rgb(255, 255, 255)),
        entry("Vintage VU"@, rgb(184, 134, 11), rgb(255, 215, 0), rgb(205, 92, 92)),
        entry("Deep Space"@, rgb(0, 0, 0), rgb(148, 0, 211), rgb(0, 255, 255)),
        entry("8-Bit Blueberry"@, rgb(0, 0, 128), rgb(65, 105, 225), rgb(255, 255, 255)),
        entry("Desert Heat"@, rgb(128, 0, 0), rgb(255, 69, 0), rgb(240, 230, 140)),
        entry("Super Mario Bros."@, rgb(0, 0, 205), rgb(220, 20, 60), rgb(255, 215, 0)),
        entry("Halo"@, rgb(85, 107, 47), rgb(218, 165, 32), rgb(0, 191, 255)),
        entry("Fallout"@, rgb(75, 0, 130), rgb(0, 255, 255), rgb(240, 248, 255)),
        entry("Sith Lord"@, rgb(20, 20, 20), rgb(220, 20, 60), rgb(255, 255, 255)),
        entry("Neon Genesis Evangelion"@, rgb(106, 13, 173), rgb(57, 255, 20), rgb(255, 140, 0)),
        entry("Neon Tokyo"@, rgb(255, 0, 127), rgb(0, 255, 255), rgb(255, 255, 0)),
        entry("Lava Lamp"@, rgb(128, 0, 128), rgb(255, 140, 0), rgb(255, 255, 100)),
        entry("Northern Lights"@, rgb(0, 100, 0), rgb(0, 255, 127), rgb(138, 43, 226)),
        entry("Cyberpunk"@, rgb(255, 0, 255), rgb(0, 255, 255), rgb(255, 255, 0)),
        entry("Radioactive"@, rgb(50, 50, 0), rgb(173, 255, 47), rgb(255, 0, 0)),
        entry("Ice Fire"@, rgb(0, 191, 255), rgb(255, 165, 0), rgb(255, 0, 0)),
        entry("Retrowave"@, rgb(255, 0, 128), rgb(128, 0, 255), rgb(0, 255, 255)),
        entry("Blood Moon"@, rgb(25, 0, 0), rgb(139, 0, 0), rgb(255, 69, 0)),
        entry("Mint Condition"@, rgb(0, 100, 100), rgb(127, 255, 212), rgb(255, 255, 255)),
        entry("Golden Hour"@, rgb(255, 140, 0), rgb(255, 215, 0), rgb(255, 250, 205)),
        entry("Tequila Sunrise"@, rgb(178, 34, 34), rgb(255, 165, 0), rgb(255, 255, 0)),
        entry("Espresso Martini"@, rgb(28, 20, 13), rgb(160, 82, 45), rgb(255, 248, 220)),
        entry("Cotton Candy"@, rgb(255, 105, 180), rgb(135, 206, 250), rgb(255, 255, 255)),
    ]
}

/// The first preset in `presets` called `name`.
pub open spec fn first_named(presets: Seq<PresetView>, name: Seq<char>) -> Option<PresetView>
    decreases presets.len(),
{
    if presets.len() == 0 {
        None
    } else if presets[0].name == name {
        Some(presets[0])
    } else {
        first_named(presets.drop_first(), name)
    }
}

/// The names of the given presets, in order.
pub open spec fn names_of(presets: Seq<PresetView>) -> Seq<Seq<char>> {
    presets.map_values(|p: PresetView| p.name)
}

pub open spec fn preset_opt_view(p: Option<ColorPreset>) -> Option<PresetView> {
    match p {
        Some(q) => Some(q@),
        None => None,
    }
}

impl ColorPreset {
    pub fn new(name: &str, low: Color32, high: Color32, peak: Color32) -> (r: ColorPreset)
        ensures
            r@ == entry(name@, low, high, peak),
    {
        ColorPreset { name: name.to_owned(), low, high, peak }
    }

    /// An independent copy with the same fields.
    pub fn duplicate(&self) -> (r: ColorPreset)
        ensures
            r@ == self@,
    {
        ColorPreset { name: self.name.clone(), low: self.low, high: self.high, peak: self.peak }
    }

    /// All built-in presets.
    pub fn all_presets() -> (r: Vec<ColorPreset>)
        ensures
            preset_views(r@) == preset_catalog(),
    {
        let r = vec![
            ColorPreset::new(
                "Classic Winamp",
                Color32::from_rgb(50, 205, 50),
                Color32::from_rgb(255, 255, 0),
                Color32::from_rgb(255, 0, 0),
            ),
            ColorPreset::new(
                "Ocean Blue",
                Color32::from_rgb(30, 144, 255),
                Color32::from_rgb(0, 255, 255),
                Color32::from_rgb(255, 255, 255),
            ),
            ColorPreset::new(
                "Sunset",
                Color32::from_rgb(255, 69, 0),
                Color32::from_rgb(255, 255, 0),
                Color32::from_rgb(255, 255, 255),
            ),
            ColorPreset::new(
                "Synthwave",
                Color32::from_rgb(255, 0, 255),
                Color32::from_rgb(0, 255, 255),
                Color32::from_rgb(255, 255, 0),
            ),
            ColorPreset::new(
                "Spy Black",
                Color32::from_rgb(0, 0, 0),
                Color32::from_rgb(47, 79, 79),
                Color32::from_rgb(220, 20, 60),
            ),
            ColorPreset::new(
                "Forest Canopy",
                Color32::from_rgb(0, 100, 0),
                Color32::from_rgb(0, 255, 0),
                Color32::from_rgb(255, 255, 0),
            ),
            ColorPreset::new(
                "Molten Core",
                Color32::from_rgb(139, 0, 0),
                Color32::from_rgb(255, 165, 0),
                Color32::from_rgb(255, 255, 255),
            ),
            ColorPreset::new(
                "Arctic Night",
                Color32::from_rgb(75, 0, 130),
                Color32::from_rgb(173, 216, 230),
                Color32::from_rgb(255, 255, 255),
            ),
            ColorPreset::new(
                "Matrix",
                Color32::from_rgb(0, 0, 0),
                Color32::from_rgb(0, 255, 0),
                Color32::from_rgb(245, 245, 245),
            ),
            ColorPreset::new(
                "Bubblegum",
                Color32::from_rgb(255, 20, 147),
                Color32::from_rgb(0, 255, 255),
                Color32::from_rgb(255, 255, 0),
            ),
            ColorPreset::new(
                "Monochrome",
                Color32::from_rgb(105, 105, 105),
                Color32::from_rgb(211, 211, 211),
                Color32::from_rgb(255, 255, 255),
            ),
            ColorPreset::new(
                "Vintage VU",
                Color32::from_rgb(184, 134, 11),
                Color32::from_rgb(255, 215, 0),
                Color32::from_rgb(205, 92, 92),
            ),
            ColorPreset::new(
                "Deep Space",
                Color32::from_rgb(0, 0, 0),
                Color32::from_rgb(148, 0, 211),
                Color32::from_rgb(0, 255, 255),
            ),
            ColorPreset::new(
                "8-Bit Blueberry",
                Color32::from_rgb(0, 0, 128),
                Color32::from_rgb(65, 105, 225),
                Color32::from_rgb(255, 255, 255),
            ),
            ColorPreset::new(
                "Desert Heat",
                Color32::from_rgb(128, 0, 0),
                Color32::from_rgb(255, 69, 0),
                Color32::from_rgb(240, 230, 140),
            ),
            ColorPreset::new(
                "Super Mario Bros.",
                Color32::from_rgb(0, 0, 205),
                Color32::from_rgb(220, 20, 60),
                Color32::from_rgb(255, 215, 0),
            ),
            ColorPreset::new(
                "Halo",
                Color32::from_rgb(85, 107, 47),
                Color32::from_rgb(218, 165, 32),
                Color32::from_rgb(0, 191, 255),
            ),
            ColorPreset::new(
                "Fallout",
                Color32::from_rgb(75, 0, 130),
                Color32::from_rgb(0, 255, 255),
                Color32::from_rgb(240, 248, 255),
            ),
            ColorPreset::new(
                "Sith Lord",
                Color32::from_rgb(20, 20, 20),
                Color32::from_rgb(220, 20, 60),
                Color32::from_rgb(255, 255, 255),
            ),
            ColorPreset::new(
                "Neon Genesis Evangelion",
                Color32::from_rgb(106, 13, 173),
                Color32::from_rgb(57, 255, 20),
                Color32::from_rgb(255, 140, 0),
            ),
            ColorPreset::new(
                "Neon Tokyo",
                Color32::from_rgb(255, 0, 127),
                Color32::from_rgb(0, 255, 255),
                Color32::from_rgb(255, 255, 0),
            ),
            ColorPreset::new(
                "Lava Lamp",
                Color32::from_rgb(128, 0, 128),
                Color32::from_rgb(255, 140, 0),
                Color32::from_rgb(255, 255, 100),
            ),
            ColorPreset::new(
                "Northern Lights",
                Color32::from_rgb(0, 100, 0),
                Color32::from_rgb(0, 255, 127),
                Color32::from_rgb(138, 43, 226),
            ),
            ColorPreset::new(
                "Cyberpunk",
                Color32::from_rgb(255, 0, 255),
                Color32::from_rgb(0, 255, 255),
                Color32::from_rgb(255, 255, 0),
            ),
            ColorPreset::new(
                "Radioactive",
                Color32::from_rgb(50, 50, 0),
                Color32::from_rgb(173, 255, 47),
                Color32::from_rgb(255, 0, 0),
            ),
            ColorPreset::new(
                "Ice Fire",
                Color32::from_rgb(0, 191, 255),
                Color32::from_rgb(255, 165, 0),
                Color32::from_rgb(255, 0, 0),
            ),
            ColorPreset::new(
                "Retrowave",
                Color32::from_rgb(255, 0, 128),
                Color32::from_rgb(128, 0, 255),
                Color32::from_rgb(0, 255, 255),
            ),
            ColorPreset::new(
                "Blood Moon",
                Color32::from_rgb(25, 0, 0),
                Color32::from_rgb(139, 0, 0),
                Color32::from_rgb(255, 69, 0),
            ),
            ColorPreset::new(
                "Mint Condition",
                Color32::from_rgb(0, 100, 100),
                Color32::from_rgb(127, 255, 212),
                Color32::from_rgb(255, 255, 255),
            ),
            ColorPreset::new(
                "Golden Hour",
                Color32::from_rgb(255, 140, 0),
                Color32::from_rgb(255, 215, 0),
                Color32::from_rgb(255, 250, 205),
            ),
            ColorPreset::new(
                "Tequila Sunrise",
                Color32::from_rgb(178, 34, 34),
                Color32::from_rgb(255, 165, 0),
                Color32::from_rgb(255, 255, 0),
            ),
            ColorPreset::new(
                "Espresso Martini",
                Color32::from_rgb(28, 20, 13),
                Color32::from_rgb(160, 82, 45),
                Color32::from_rgb(255, 248, 220),
            ),
            ColorPreset::new(
                "Cotton Candy",
                Color32::from_rgb(255, 105, 180),
                Color32::from_rgb(135, 206, 250),
                Color32::from_rgb(255, 255, 255),
            ),
        ];
        proof {
            reveal(preset_catalog);
        }
        assert(preset_views(r@) =~= preset_catalog());
        r
    }

    /// The built-in preset called `name`, if there is one.
    pub fn find(name: &str) -> (r: Option<ColorPreset>)
        ensures
            preset_opt_view(r) == first_named(preset_catalog(), name@),
    {
        let mut presets = Self::all_presets();
        let ghost catalog = preset_catalog();
        let mut i: usize = 0;
        assert(catalog.subrange(0, catalog.len() as int) =~= catalog);
        while i < presets.len()
            invariant
                catalog == preset_catalog(),
                preset_views(presets@) == catalog,
                i <= presets@.len(),
                first_named(catalog, name@) == first_named(
                    catalog.subrange(i as int, catalog.len() as int),
                    name@,
                ),
            decreases presets@.len() - i,
        {
            let ghost rest = catalog.subrange(i as int, catalog.len() as int);
            assert(rest[0] == presets@[i as int]@);
            if text_eq(presets[i].name.as_str(), name) {
                let found = presets.remove(i);
                assert(first_named(rest, name@) == Some(found@));
                return Some(found);
            }
            assert(rest.drop_first() =~= catalog.subrange(i + 1, catalog.len() as int));
            i = i + 1;
        }
        None
    }

    /// The names of the built-in presets, in order.
    pub fn preset_names() -> (r: Vec<String>)
        ensures
            text_views(r@) == names_of(preset_catalog()),
    {
        let presets = Self::all_presets();
        let mut names: Vec<String> = Vec::new();
        let mut i: usize = 0;
        while i < presets.len()
            invariant
                preset_views(presets@) == preset_catalog(),
                i <= presets@.len(),
                text_views(names@) == names_of(preset_catalog()).take(
                    i as int,
                ),
            decreases presets@.len() - i,
        {
            assert(preset_views(presets@)[i as int] == presets@[i as int]@);
            assert(names_of(preset_catalog())[i as int] == presets@[i as int].name@);
            let ghost old_names = names@;
            let nm = presets[i].name.clone();
            assert(nm@ == names_of(preset_catalog())[i as int]);
            names.push(nm);
            assert(text_views(names@) =~= text_views(old_names).push(nm@));
            i = i + 1;
            assert(text_views(names@) =~= names_of(preset_catalog()).take(
                i as int,
            ));
        }
        assert(names_of(preset_catalog()).take(presets@.len() as int)
            =~= names_of(preset_catalog()));
        names
    }
}

impl Clone for ColorPreset {
    fn clone(&self) -> Self {
        self.duplicate()
    }
}

impl PartialEq for ColorPreset {
    fn eq(&self, other: &ColorPreset) -> (r: bool) {
        self.name == other.name && self.low == other.low && self.high == other.high && self.peak
            == other.peak
    }
}

impl vstd::std_specs::cmp::PartialEqSpecImpl for ColorPreset {
    open spec fn obeys_eq_spec() -> bool {
        true
    }

    open spec fn eq_spec(&self, other: &ColorPreset) -> bool {
        self@ == other@
    }
}

/// The colours the visualiser draws with.
#[derive(Debug)]
pub enum ColorScheme {
    /// A named preset, its name and colours together.
    Preset { name: String, low: Color32, high: Color32, peak: Color32 },
    /// Colours picked by the user.
    Custom { low: Color32, high: Color32, peak: Color32 },
}

pub enum SchemeView {
    Preset { name: Seq<char>, low: Color32, high: Color32, peak: Color32 },
    Custom { low: Color32, high: Color32, peak: Color32 },
}

impl View for ColorScheme {
    type V = SchemeView;

    open spec fn view(&self) -> SchemeView {
        match self {
            ColorScheme::Preset { name, low, high, peak } => SchemeView::Preset {
                name: name@,
                low: *low,
                high: *high,
                peak: *peak,
            },
            ColorScheme::Custom { low, high, peak } => SchemeView::Custom {
                low: *low,
                high: *high,
                peak: *peak,
            },
        }
    }
}

/// The scheme that shows a preset.
pub open spec fn scheme_of(p: PresetView) -> SchemeView {
    SchemeView::Preset { name: p.name, low: p.low, high: p.high, peak: p.peak }
}

/// The name shown for a scheme: the preset's, or `"Custom"`.
pub open spec fn scheme_name_of(s: SchemeView) -> Seq<char> {
    match s {
        SchemeView::Preset { name, .. } => name,
        SchemeView::Custom { .. } => "Custom"@,
    }
}

/// A scheme's colours: (low, high, peak).
pub open spec fn scheme_colors(s: SchemeView) -> (Color32, Color32, Color32) {
    match s {
        SchemeView::Preset { low, high, peak, .. } => (low, high, peak),
        SchemeView::Custom { low, high, peak } => (low, high, peak),
    }
}

impl ColorScheme {
    /// The scheme that shows `preset`.
    pub fn from_preset(preset: ColorPreset) -> (r: ColorScheme)
        ensures
            r@ == scheme_of(preset@),
    {
        ColorScheme::Preset {
            name: preset.name,
            low: preset.low,
            high: preset.high,
            peak: preset.peak,
        }
    }

    /// Switches to the built-in preset called `preset_name`; an unknown name
    /// leaves the scheme as it is.
    pub fn apply_preset(&mut self, preset_name: &str)
        ensures
            final(self)@ == match first_named(preset_catalog(), preset_name@) {
                Some(p) => scheme_of(p),
                None => old(self)@,
            },
    {
        if let Some(preset) = ColorPreset::find(preset_name) {
            *self = ColorScheme::from_preset(preset);
        }
    }

    /// The preset's name, or `"Custom"`.
    pub fn scheme_name(&self) -> (r: String)
        ensures
            r@ == scheme_name_of(self@),
    {
        match self {
            ColorScheme::Preset { name, .. } => name.clone(),
            ColorScheme::Custom { .. } => "Custom".to_owned(),
        }
    }

    /// The colours (low, high, peak).
    pub fn get_colors(&self) -> (r: (Color32, Color32, Color32))
        ensures
            r == scheme_colors(self@),
    {
        match self {
            ColorScheme::Preset { low, high, peak, .. } => (*low, *high, *peak),
            ColorScheme::Custom { low, high, peak } => (*low, *high, *peak),
        }
    }

    /// An independent copy with the same fields.
    pub fn duplicate(&self) -> (r: ColorScheme)
        ensures
            r@ == self@,
    {
        match self {
            ColorScheme::Preset { name, low, high, peak } => ColorScheme::Preset {
                name: name.clone(),
                low: *low,
                high: *high,
                peak: *peak,
            },
            ColorScheme::Custom { low, high, peak } => ColorScheme::Custom {
                low: *low,
                high: *high,
                peak: *peak,
            },
        }
    }
}

impl Default for ColorScheme {
    /// The "Classic Winamp" preset.
    fn default() -> (r: ColorScheme)
        ensures
            r@ == scheme_of(entry("Classic Winamp"@, rgb(50, 205, 50), rgb(255, 255, 0), rgb(255, 0, 0))),
    {
        ColorScheme::Preset {
            name: "Classic Winamp".to_owned(),
            low: Color32::from_rgb(50, 205, 50),
            high: Color32::from_rgb(255, 255, 0),
            peak: Color32::from_rgb(255, 0, 0),
        }
    }
}

impl Clone for ColorScheme {
    fn clone(&self) -> Self {
        self.duplicate()
    }
}

impl PartialEq for ColorScheme {
    fn eq(&self, other: &ColorScheme) -> (r: bool) {
        match (self, other) {
            (
                ColorScheme::Preset { name: n1, low: l1, high: h1, peak: p1 },
                ColorScheme::Preset { name: n2, low: l2, high: h2, peak: p2 },
            ) => *n1 == *n2 && *l1 == *l2 && *h1 == *h2 && *p1 == *p2,
            (
                ColorScheme::Custom { low: l1, high: h1, peak: p1 },
                ColorScheme::Custom { low: l2, high: h2, peak: p2 },
            ) => *l1 == *l2 && *h1 == *h2 && *p1 == *p2,
            _ => false,
        }
    }
}

impl vstd::std_specs::cmp::PartialEqSpecImpl for ColorScheme {
    open spec fn obeys_eq_spec() -> bool {
        true
    }

    open spec fn eq_spec(&self, other: &ColorScheme) -> bool {
        self@ == other@
    }
}

} // verus!
