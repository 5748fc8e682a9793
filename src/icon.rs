//! Choosing the tray icon: the first candidate file that decodes as an
//! image, else the platform's default window icon.
//!
//! The host reads the candidate files (the packaged resource directory
//! first, then the development tree); this module decodes and decides.
use vstd::prelude::*;

verus! {

/// The tray icon, relative to the resource directory.
pub const TRAY_ICON_PATH: &'static str = "icons/32x32.png";

/// The development tree that the icon path is also tried under.
pub const DEV_RESOURCE_ROOT: &'static str = "src-tauri";

/// A decoded image: 8-bit RGBA pixels, row by row.
pub struct Icon {
    pub rgba: Vec<u8>,
    pub width: u32,
    pub height: u32,
}

/// Why the tray could not be set up.
#[derive(Clone, Copy, Debug, PartialEq, Eq, Structural)]
pub enum SetupError {
    NoIcon,
}

/// The pixels and size that the image decoder makes of some bytes, or
/// `None` when they are not an image in a supported format.
pub uninterp spec fn decoded_rgba(bytes: Seq<u8>) -> Option<(Seq<u8>, u32, u32)>;

pub open spec fn icon_view(i: Icon) -> (Seq<u8>, u32, u32) {
    (i.rgba@, i.width, i.height)
}

pub open spec fn option_view(o: Option<Icon>) -> Option<(Seq<u8>, u32, u32)> {
    match o {
        Some(i) => Some(icon_view(i)),
        None => None,
    }
}

/// Relies on `image::load_from_memory` (format guessed from the bytes,
/// then decoded) and `DynamicImage::to_rgba8`: the pixels as 8-bit RGBA with
/// the image's width and height, or nothing when decoding fails. The result
/// depends on the bytes alone.
#[verifier::external_body]
fn decode_rgba(bytes: &[u8]) -> (r: Option<Icon>)
    ensures
        option_view(r) == decoded_rgba(bytes@),
{
    match image::load_from_memory(bytes) {
        Ok(img) => {
            let rgba = img.to_rgba8();
            let (width, height) = rgba.dimensions();
            Some(Icon { rgba: rgba.into_raw(), width, height })
        },
        Err(_) => None,
    }
}

/// The first decoded candidate, else the default icon.
pub open spec fn choice(decoded: Seq<Option<Icon>>, default_icon: Option<Icon>) -> Option<(Seq<u8>, u32, u32)>
    decreases decoded.len(),
{
    if decoded.len() == 0 {
        option_view(default_icon)
    } else if decoded[0] is Some {
        option_view(decoded[0])
    } else {
        choice(decoded.drop_first(), default_icon)
    }
}

pub open spec fn decode_candidate(c: Option<Vec<u8>>) -> Option<(Seq<u8>, u32, u32)> {
    match c {
        Some(b) => decoded_rgba(b@),
        None => None,
    }
}

/// The first candidate that is present and decodes, else the default icon.
pub open spec fn resolution(candidates: Seq<Option<Vec<u8>>>, default_icon: Option<Icon>) -> Option<(Seq<u8>, u32, u32)>
    decreases candidates.len(),
{
    if candidates.len() == 0 {
        option_view(default_icon)
    } else if decode_candidate(candidates[0]) is Some {
        decode_candidate(candidates[0])
    } else {
        resolution(candidates.drop_first(), default_icon)
    }
}

/// `Ok` with the chosen icon, or `NoIcon` when there is none.
pub open spec fn outcome_is(r: Result<Icon, SetupError>, want: Option<(Seq<u8>, u32, u32)>) -> bool {
    match r {
        Ok(i) => want == Some(icon_view(i)),
        Err(e) => want is None && e == SetupError::NoIcon,
    }
}

/// Picks the first candidate that decoded, else the default icon; fails
/// only when there is neither.
pub fn choose_icon(decoded: Vec<Option<Icon>>, default_icon: Option<Icon>) -> (r: Result<Icon, SetupError>)
    ensures
        outcome_is(r, choice(decoded@, default_icon)),
{
    let ghost all = decoded@;
    let n = decoded.len();
    let mut i: usize = 0;
    assert(all.subrange(0, n as int) =~= all);
    while i < n && decoded[i].is_none()
        invariant
            decoded@ == all,
            n == all.len(),
            i <= n,
            choice(all, default_icon) == choice(all.subrange(i as int, n as int), default_icon),
        decreases n - i,
    {
        assert(all.subrange(i as int, n as int).drop_first() =~= all.subrange(i + 1, n as int));
        i += 1;
    }
    if i < n {
        let mut rest = decoded;
        let found = rest.remove(i);
        assert(all.subrange(i as int, n as int)[0] == all[i as int]);
        match found {
            Some(icon) => Ok(icon),
            None => Err(SetupError::NoIcon),
        }
    } else {
        assert(all.subrange(n as int, n as int).len() == 0);
        match default_icon {
            Some(icon) => Ok(icon),
            None => Err(SetupError::NoIcon),
        }
    }
}

proof fn lemma_choice_is_resolution(decoded: Seq<Option<Icon>>, candidates: Seq<Option<Vec<u8>>>, default_icon: Option<Icon>)
    requires
        decoded.len() == candidates.len(),
        forall|k: int| 0 <= k < decoded.len() ==> option_view(#[trigger] decoded[k]) == decode_candidate(candidates[k]),
    ensures
        choice(decoded, default_icon) == resolution(candidates, default_icon),
    decreases decoded.len(),
{
    if decoded.len() > 0 {
        assert(option_view(decoded[0]) == decode_candidate(candidates[0]));
        let d = decoded.drop_first();
        let c = candidates.drop_first();
        assert forall|k: int| 0 <= k < d.len() implies option_view(#[trigger] d[k]) == decode_candidate(c[k]) by {
            assert(option_view(decoded[k + 1]) == decode_candidate(candidates[k + 1]));
        }
        lemma_choice_is_resolution(d, c, default_icon);
    }
}

/// Resolves the tray icon from the candidates' bytes, in order (`None` for
/// a candidate that is missing or unreadable), and the platform's default.
pub fn resolve_icon(candidates: &Vec<Option<Vec<u8>>>, default_icon: Option<Icon>) -> (r: Result<Icon, SetupError>)
    ensures
        outcome_is(r, resolution(candidates@, default_icon)),
{
    let n = candidates.len();
    let mut decoded: Vec<Option<Icon>> = Vec::new();
    let mut i: usize = 0;
    while i < n
        invariant
            n == candidates@.len(),
            i <= n,
            decoded@.len() == i,
            forall|k: int| 0 <= k < i ==> option_view(#[trigger] decoded@[k]) == decode_candidate(candidates@[k]),
        decreases n - i,
    {
        let d = match &candidates[i] {
            Some(bytes) => decode_rgba(bytes.as_slice()),
            None => None,
        };
        decoded.push(d);
        i += 1;
    }
    proof {
        lemma_choice_is_resolution(decoded@, candidates@, default_icon);
    }
    choose_icon(decoded, default_icon)
}

} // verus!
