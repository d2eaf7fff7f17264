//! What is asked of the wallpaper providers and what of their answers is
//! accepted.

use vstd::prelude::*;
use crate::chance::choose_from_iter;
use crate::selection::FetchError;
use crate::text::{decimal, decimal_text, has_prefix, starts_with};

verus! {

/// The width and height of the largest display when none is reported.
pub open spec fn fallback_resolution() -> (u32, u32) {
    (1920, 1080)
}

/// Tuple order on (width, height): by width, then by height.
pub open spec fn resolution_le(a: (u32, u32), b: (u32, u32)) -> bool {
    a.0 < b.0 || (a.0 == b.0 && a.1 <= b.1)
}

/// The largest of the displays' (width, height) pairs in tuple order, or the
/// fallback when there is no display.
pub fn largest_display(displays: &Vec<(u32, u32)>) -> (r: (u32, u32))
    ensures
        displays@.len() == 0 ==> r == fallback_resolution(),
        displays@.len() == 0 ==> r.0 == 1920 && r.1 == 1080,
        displays@.len() > 0 ==> displays@.contains(r),
        forall|i: int| 0 <= i < displays@.len() ==> resolution_le(#[trigger] displays@[i], r),
        forall|i: int|
            0 <= i < displays@.len() ==> (#[trigger] displays@[i]).0 < r.0 || (displays@[i].0
                == r.0 && displays@[i].1 <= r.1),
{
    if displays.len() == 0 {
        return (1920, 1080);
    }
    let mut best = displays[0];
    let mut i: usize = 1;
    while i < displays.len()
        invariant
            1 <= i <= displays@.len(),
            displays@.contains(best),
            forall|j: int| 0 <= j < i ==> resolution_le(#[trigger] displays@[j], best),
        decreases displays.len() - i,
    {
        let d = displays[i];
        if best.0 < d.0 || (best.0 == d.0 && best.1 <= d.1) {
            best = d;
        }
        i = i + 1;
    }
    best
}

/// The Unsplash authorization header: the key as it is when it already
/// begins with `Client-ID`, else `Client-ID ` followed by the key.
pub open spec fn auth_header(key: Seq<char>) -> Seq<char> {
    if starts_with(key, "Client-ID"@) {
        key
    } else {
        "Client-ID "@ + key
    }
}

/// Builds the Unsplash authorization header from the API key.
pub fn unsplash_auth_header(key: &str) -> (header: String)
    ensures
        header@ == auth_header(key@),
        key@.len() >= 9 && key@.subrange(0, 9) == "Client-ID"@ ==> header@ == key@,
        !(key@.len() >= 9 && key@.subrange(0, 9) == "Client-ID"@) ==> header@ == "Client-ID "@
            + key@,
{
    proof {
        reveal_strlit("Client-ID");
    }
    if has_prefix(key, "Client-ID") {
        key.to_string()
    } else {
        let mut header = String::from_str("Client-ID ");
        header.append(key);
        header
    }
}

/// A photo as Unsplash describes it: its size and the address of the original.
#[derive(Clone, Debug)]
pub struct UnsplashPhoto {
    pub width: u32,
    pub height: u32,
    pub raw_url: String,
}

/// Accepts a photo that is at least as wide and as high as the display.
pub fn accept_unsplash_photo(photo: UnsplashPhoto, min_w: u32, min_h: u32) -> (r: Result<
    String,
    FetchError,
>)
    ensures
        r is Ok <==> photo.width >= min_w && photo.height >= min_h,
        r matches Ok(url) ==> url@ == photo.raw_url@,
        r matches Err(e) ==> e is ImageTooSmall,
{
    if photo.width >= min_w && photo.height >= min_h {
        Ok(photo.raw_url)
    } else {
        Err(FetchError::ImageTooSmall)
    }
}

/// The value of Wallhaven's `atleast` parameter: `WIDTHxHEIGHT`.
pub open spec fn atleast_param(min_w: u32, min_h: u32) -> Seq<char> {
    decimal(min_w as nat) + "x"@ + decimal(min_h as nat)
}

/// Renders Wallhaven's `atleast` parameter.
pub fn wallhaven_atleast(min_w: u32, min_h: u32) -> (param: String)
    ensures
        param@ == atleast_param(min_w, min_h),
        param@ == decimal(min_w as nat) + "x"@ + decimal(min_h as nat),
{
    let mut param = decimal_text(min_w);
    param.append("x");
    let height = decimal_text(min_h);
    param.append(height.as_str());
    param
}

/// An image of a Wallhaven search: its address and size.
#[derive(Clone, Debug)]
pub struct WallhavenImage {
    pub path: String,
    pub dimension_x: u32,
    pub dimension_y: u32,
}

/// Whether an image is at least as large as the display.
pub open spec fn large_enough(image: WallhavenImage, min_w: u32, min_h: u32) -> bool {
    image.dimension_x >= min_w && image.dimension_y >= min_h
}

/// The positions, in order, of the images that are large enough.
pub open spec fn candidate_positions(images: Seq<WallhavenImage>, min_w: u32, min_h: u32) -> Seq<
    usize,
>
    decreases images.len(),
{
    if images.len() == 0 {
        Seq::empty()
    } else {
        let rest = candidate_positions(images.drop_last(), min_w, min_h);
        if large_enough(images.last(), min_w, min_h) {
            rest.push((images.len() - 1) as usize)
        } else {
            rest
        }
    }
}

pub(crate) proof fn lemma_candidates(images: Seq<WallhavenImage>, min_w: u32, min_h: u32)
    requires
        images.len() <= usize::MAX,
    ensures
        forall|k: int|
            0 <= k < candidate_positions(images, min_w, min_h).len() ==> {
                let p = #[trigger] candidate_positions(images, min_w, min_h)[k];
                p < images.len() && images[p as int].dimension_x >= min_w
                    && images[p as int].dimension_y >= min_h
            },
        forall|i: int|
            0 <= i < images.len() && (#[trigger] images[i]).dimension_x >= min_w
                && images[i].dimension_y >= min_h ==> candidate_positions(
                images,
                min_w,
                min_h,
            ).contains(i as usize),
        forall|a: int, b: int|
            0 <= a < b < candidate_positions(images, min_w, min_h).len() ==> candidate_positions(
                images,
                min_w,
                min_h,
            )[a] < candidate_positions(images, min_w, min_h)[b],
    decreases images.len(),
{
    if images.len() > 0 {
        let rest = images.drop_last();
        lemma_candidates(rest, min_w, min_h);
        let c = candidate_positions(images, min_w, min_h);
        let cr = candidate_positions(rest, min_w, min_h);
        assert forall|i: int|
            0 <= i < images.len() && (#[trigger] images[i]).dimension_x >= min_w
                && images[i].dimension_y >= min_h implies c.contains(i as usize) by {
            if i < images.len() - 1 {
                assert(rest[i] == images[i]);
                let k = choose|k: int| 0 <= k < cr.len() && cr[k] == i as usize;
                assert(c[k] == i as usize);
            } else {
                assert(c[c.len() - 1] == i as usize);
            }
        }
        assert forall|k: int| 0 <= k < c.len() implies {
            let p = #[trigger] c[k];
            p < images.len() && images[p as int].dimension_x >= min_w
                && images[p as int].dimension_y >= min_h
        } by {
            if k < cr.len() {
                assert(c[k] == cr[k]);
                assert(rest[cr[k] as int] == images[cr[k] as int]);
            }
        }
    }
}

/// The positions of the images that are large enough, in order.
pub fn wallhaven_candidates(images: &Vec<WallhavenImage>, min_w: u32, min_h: u32) -> (r: Vec<
    usize,
>)
    ensures
        r@ == candidate_positions(images@, min_w, min_h),
        images@.len() <= usize::MAX,
        forall|k: int|
            0 <= k < r@.len() ==> (#[trigger] r@[k]) < images@.len() && images@[r@[k] as int].dimension_x
                >= min_w && images@[r@[k] as int].dimension_y >= min_h,
        forall|i: int|
            0 <= i < images@.len() && (#[trigger] images@[i]).dimension_x >= min_w
                && images@[i].dimension_y >= min_h ==> r@.contains(i as usize),
        forall|a: int, b: int| 0 <= a < b < r@.len() ==> r@[a] < r@[b],
{
    let mut r: Vec<usize> = Vec::new();
    let mut i: usize = 0;
    assert(images@.take(0) =~= Seq::<WallhavenImage>::empty());
    while i < images.len()
        invariant
            i <= images@.len(),
            r@ == candidate_positions(images@.take(i as int), min_w, min_h),
        decreases images.len() - i,
    {
        let image = &images[i];
        assert(images@.take(i + 1).drop_last() =~= images@.take(i as int));
        if image.dimension_x >= min_w && image.dimension_y >= min_h {
            r.push(i);
        }
        i = i + 1;
    }
    assert(images@.take(images@.len() as int) =~= images@);
    proof {
        lemma_candidates(images@, min_w, min_h);
    }
    r
}

/// Turns the chosen position into the image's address, or reports that no
/// image was large enough.
pub fn chosen_image_path(images: &Vec<WallhavenImage>, chosen: Option<usize>) -> (r: Result<
    String,
    FetchError,
>)
    requires
        chosen matches Some(i) ==> i < images@.len(),
    ensures
        chosen is None ==> (r matches Err(e) && e is NoImagesFound),
        chosen matches Some(i) ==> (r matches Ok(p) && p@ == images@[i as int].path@),
{
    match chosen {
        Some(i) => Ok(images[i].path.clone()),
        None => Err(FetchError::NoImagesFound),
    }
}

/// Picks at random one of the images that are large enough and gives its
/// address; fails when there is none.
pub fn pick_wallhaven_image(images: &Vec<WallhavenImage>, min_w: u32, min_h: u32) -> (r: Result<
    String,
    FetchError,
>)
    ensures
        r is Ok <==> exists|i: int|
            0 <= i < images@.len() && large_enough(#[trigger] images@[i], min_w, min_h),
        r matches Ok(p) ==> exists|i: int|
            0 <= i < images@.len() && large_enough(#[trigger] images@[i], min_w, min_h)
                && images@[i].path@ == p@,
        r is Ok <==> exists|i: int|
            0 <= i < images@.len() && (#[trigger] images@[i]).dimension_x >= min_w
                && images@[i].dimension_y >= min_h,
        r matches Ok(p) ==> exists|i: int|
            0 <= i < images@.len() && (#[trigger] images@[i]).dimension_x >= min_w
                && images@[i].dimension_y >= min_h && images@[i].path@ == p@,
        r matches Err(e) ==> e is NoImagesFound,
{
    let candidates = wallhaven_candidates(images, min_w, min_h);
    proof {
        lemma_candidates(images@, min_w, min_h);
    }
    let chosen = choose_from_iter(&candidates);
    proof {
        if let Some(p) = chosen {
            let k = choose|k: int| 0 <= k < candidates@.len() && candidates@[k] == p;
            assert(candidates@[k] == p);
        }
        if exists|i: int| 0 <= i < images@.len() && large_enough(#[trigger] images@[i], min_w, min_h) {
            let i = choose|i: int| 0 <= i < images@.len() && large_enough(#[trigger] images@[i], min_w, min_h);
            assert(candidates@.contains(i as usize));
        }
    }
    chosen_image_path(images, chosen)
}

} // verus!
