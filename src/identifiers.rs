//! Turning raw, platform-native application identifiers into display names.
use vstd::prelude::*;
use vstd::utf8::encode_utf8;
use crate::text::{
    chars_of, lemma_split_on_nonempty, push_char, split_components, split_on, text_eq, text_views,
};

verus! {

/// What `str::to_lowercase` returns for the given characters.
pub uninterp spec fn lower_of(s: Seq<char>) -> Seq<char>;

/// What `str::to_uppercase` returns for the given characters.
pub uninterp spec fn upper_of(s: Seq<char>) -> Seq<char>;

/// The characters that `char::to_uppercase` yields for `c`.
pub uninterp spec fn char_upper_of(c: char) -> Seq<char>;

/// Relies on `str::to_lowercase`: the result depends on the characters alone.
#[verifier::external_body]
fn lowercase(s: &str) -> (r: String)
    ensures
        r@ == lower_of(s@),
{
    s.to_lowercase()
}

/// Relies on `str::to_uppercase`: the result depends on the characters alone,
/// and each character maps to one or more characters.
#[verifier::external_body]
fn uppercase(s: &str) -> (r: String)
    ensures
        r@ == upper_of(s@),
        s@.len() > 0 ==> r@.len() > 0,
{
    s.to_uppercase()
}

/// Relies on `char::to_uppercase`: the characters it yields, collected in
/// order; it yields one or more.
#[verifier::external_body]
fn char_uppercase(c: char) -> (r: String)
    ensures
        r@ == char_upper_of(c),
        r@.len() > 0,
{
    c.to_uppercase().collect()
}

/// Display name of a Windows application id: the piece after the last `!`,
/// then the piece of that before the first `.`.
pub open spec fn app_display_name(raw: Seq<char>) -> Seq<char> {
    split_on(split_on(raw, '!').last(), '.')[0]
}

/// Cleans a Windows application id (`"Spotify.exe"`, `"Pkg_hash!App"`).
pub fn clean_app_name(raw_id: &str) -> (r: String)
    ensures
        r@ == app_display_name(raw_id@),
{
    let stage1 = split_components(raw_id, '!');
    let last = &stage1[stage1.len() - 1];
    proof {
        assert(text_views(stage1@)[stage1@.len() - 1] == last@);
    }
    let stage2 = split_components(last.as_str(), '.');
    proof {
        assert(text_views(stage2@)[0] == stage2@[0]@);
    }
    stage2[0].clone()
}

/// Bundle-id components that carry no product name, compared in lower case.
pub open spec fn is_generic(lowered: Seq<char>) -> bool {
    ||| lowered == "com"@
    ||| lowered == "org"@
    ||| lowered == "net"@
    ||| lowered == "io"@
    ||| lowered == "client"@
    ||| lowered == "player"@
    ||| lowered == "app"@
    ||| lowered == "beta"@
    ||| lowered == "stable"@
}

/// Whether a lower-cased bundle-id component is one of the generic tokens.
pub fn is_generic_component(lowered: &str) -> (r: bool)
    ensures
        r == is_generic(lowered@),
{
    text_eq(lowered, "com") || text_eq(lowered, "org") || text_eq(lowered, "net") || text_eq(
        lowered,
        "io",
    ) || text_eq(lowered, "client") || text_eq(lowered, "player") || text_eq(lowered, "app")
        || text_eq(lowered, "beta") || text_eq(lowered, "stable")
}

/// Whether component `i` can name the product: it is not empty, and its
/// lower-cased form is not a generic token.
pub open spec fn informative_at(parts: Seq<Seq<char>>, lowered: Seq<Seq<char>>, i: int) -> bool {
    0 <= i < parts.len() && 0 <= i < lowered.len() && parts[i].len() > 0 && !is_generic(lowered[i])
}

/// Index of the last informative component below `n`, scanning from the end.
pub open spec fn last_informative(parts: Seq<Seq<char>>, lowered: Seq<Seq<char>>, n: int) -> Option<
    int,
>
    decreases n,
{
    if n <= 0 {
        None
    } else if informative_at(parts, lowered, n - 1) {
        Some(n - 1)
    } else {
        last_informative(parts, lowered, n - 1)
    }
}

pub proof fn lemma_last_informative_range(parts: Seq<Seq<char>>, lowered: Seq<Seq<char>>, n: int)
    ensures
        last_informative(parts, lowered, n) matches Some(i) ==> i < n && informative_at(
            parts,
            lowered,
            i,
        ),
    decreases n,
{
    if n > 0 && !informative_at(parts, lowered, n - 1) {
        lemma_last_informative_range(parts, lowered, n - 1);
    }
}

/// Picks, among a bundle id's components and their lower-cased forms, the
/// last component that is informative.
pub fn last_informative_component(parts: &Vec<String>, lowered: &Vec<String>) -> (r: Option<
    usize,
>)
    ensures
        r is None <==> last_informative(text_views(parts@), text_views(lowered@), lowered@.len() as int) is None,
        r matches Some(i) ==> last_informative(
            text_views(parts@),
            text_views(lowered@),
            lowered@.len() as int,
        ) == Some(i as int),
{
    let ghost pv = text_views(parts@);
    let ghost lv = text_views(lowered@);
    let mut n: usize = lowered.len();
    while n > 0
        invariant
            pv == text_views(parts@),
            lv == text_views(lowered@),
            n <= lowered@.len(),
            last_informative(pv, lv, lowered@.len() as int) == last_informative(pv, lv, n as int),
        decreases n,
    {
        if n - 1 < parts.len() {
            assert(pv[n - 1] == parts@[n - 1]@);
            assert(lv[n - 1] == lowered@[n - 1]@);
            if !parts[n - 1].as_str().is_empty() && !is_generic_component(lowered[n - 1].as_str()) {
                return Some(n - 1);
            }
        }
        n = n - 1;
    }
    None
}

/// How a chosen component is shown, given its upper-cased form and the
/// upper-cased form of its first character: short ones (three bytes or
/// fewer) as an acronym in upper case, longer ones with the first character
/// upper-cased.
pub open spec fn display_choice(part: Seq<char>, upper: Seq<char>, first_upper: Seq<char>) -> Seq<
    char,
> {
    if encode_utf8(part).len() <= 3 {
        upper
    } else {
        first_upper + part.drop_first()
    }
}

/// The display form of a component, from its case-mapped forms.
pub fn display_with(part: &str, upper: &str, first_upper: &str) -> (r: String)
    ensures
        r@ == display_choice(part@, upper@, first_upper@),
{
    if part.as_bytes().len() <= 3 {
        return upper.to_owned();
    }
    let cs = chars_of(part);
    assert(cs@.len() > 0) by {
        if part@.len() == 0 {
            assert(encode_utf8(part@).len() == 0);
        }
    }
    let mut r = first_upper.to_owned();
    let mut i: usize = 1;
    assert(cs@.subrange(1, 1) =~= Seq::<char>::empty());
    while i < cs.len()
        invariant
            cs@ == part@,
            1 <= i <= cs@.len(),
            r@ == first_upper@ + cs@.subrange(1, i as int),
        decreases cs@.len() - i,
    {
        push_char(&mut r, cs[i]);
        i = i + 1;
        assert(r@ =~= first_upper@ + cs@.subrange(1, i as int));
    }
    assert(cs@.subrange(1, cs@.len() as int) =~= part@.drop_first());
    r
}

/// How a chosen component is shown.
pub open spec fn display_component(part: Seq<char>) -> Seq<char> {
    display_choice(part, upper_of(part), char_upper_of(part[0]))
}

fn show_component(part: &str) -> (r: String)
    requires
        part@.len() > 0,
    ensures
        r@ == display_component(part@),
        r@.len() > 0,
{
    let upper = uppercase(part);
    let cs = chars_of(part);
    let first_upper = char_uppercase(cs[0]);
    display_with(part, upper.as_str(), first_upper.as_str())
}

/// Display name of a reverse-DNS bundle id.
pub open spec fn bundle_display_name(id: Seq<char>) -> Seq<char> {
    if id.len() == 0 {
        "Unknown"@
    } else if id == "com.apple.Music"@ {
        "Apple Music"@
    } else {
        let parts = split_on(id, '.');
        match last_informative(
            parts,
            parts.map_values(|p: Seq<char>| lower_of(p)),
            parts.len() as int,
        ) {
            Some(i) => display_component(parts[i]),
            None => id,
        }
    }
}

/// Cleans a macOS bundle id (`"com.spotify.client"` becomes `"Spotify"`).
/// The name is never empty.
pub fn clean_bundle_id(bundle_id: &str) -> (r: String)
    ensures
        r@ == bundle_display_name(bundle_id@),
        r@.len() > 0,
{
    if bundle_id.is_empty() {
        proof {
            reveal_strlit("Unknown");
        }
        return "Unknown".to_owned();
    }
    if text_eq(bundle_id, "com.apple.Music") {
        proof {
            reveal_strlit("Apple Music");
        }
        return "Apple Music".to_owned();
    }
    let parts = split_components(bundle_id, '.');
    let ghost pieces = split_on(bundle_id@, '.');
    let mut lowered: Vec<String> = Vec::new();
    let mut i: usize = 0;
    while i < parts.len()
        invariant
            text_views(parts@) == pieces,
            i <= parts@.len(),
            lowered@.len() == i,
            forall|k: int| 0 <= k < i ==> #[trigger] lowered@[k]@ == lower_of(parts@[k]@),
        decreases parts@.len() - i,
    {
        let l = lowercase(parts[i].as_str());
        lowered.push(l);
        i = i + 1;
    }
    assert(text_views(lowered@) =~= pieces.map_values(|p: Seq<char>| lower_of(p)));
    proof {
        lemma_last_informative_range(pieces, text_views(lowered@), lowered@.len() as int);
    }
    match last_informative_component(&parts, &lowered) {
        Some(k) => {
            assert(text_views(parts@)[k as int] == parts@[k as int]@);
            show_component(parts[k].as_str())
        },
        None => bundle_id.to_owned(),
    }
}

} // verus!
