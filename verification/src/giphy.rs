//! Search results of the GIF service, cut down to what the clients show.

use crate::text::{parse_i32, parse_i32_text};
use vstd::prelude::*;
use vstd::string::*;

verus! {

/// What a client searches for.
#[derive(Debug)]
pub struct SearchGiphyQuery {
    pub q: String,
}

/// One rendition of a GIF, with its size as the service writes it: in
/// text.
#[derive(Debug)]
pub struct GiphyGifImage {
    pub height: String,
    pub width: String,
    pub url: String,
}

/// The renditions of one GIF.
#[derive(Debug)]
pub struct GiphyGifImages {
    pub fixed_height: Option<GiphyGifImage>,
    pub fixed_height_small: Option<GiphyGifImage>,
    pub original: GiphyGifImage,
}

/// One search result.
#[derive(Debug)]
pub struct GiphyGifObject {
    pub id: String,
    pub images: GiphyGifImages,
}

/// One GIF as the clients get it.
#[derive(Debug)]
pub struct GifObject {
    pub width: i32,
    pub height: i32,
    pub url: String,
}

/// The rendition that is shown: the small one of fixed height, else the
/// one of fixed height, else the original.
pub open spec fn preferred(images: GiphyGifImages) -> GiphyGifImage {
    match images.fixed_height_small {
        Some(image) => image,
        None => match images.fixed_height {
            Some(image) => image,
            None => images.original,
        },
    }
}

/// Whether a GIF is a rendition with its size read as numbers.
pub open spec fn shows_image(gif: GifObject, image: GiphyGifImage) -> bool {
    &&& parse_i32_text(image.width@) == Some(gif.width)
    &&& parse_i32_text(image.height@) == Some(gif.height)
    &&& gif.url@ == image.url@
}

/// Whether the size of a rendition can be read.
pub open spec fn has_size(image: GiphyGifImage) -> bool {
    parse_i32_text(image.width@) is Some && parse_i32_text(image.height@) is Some
}

/// The address of a search for `q` with the given key.
pub open spec fn search_url_text(api_key: Seq<char>, q: Seq<char>) -> Seq<char> {
    "https://api.giphy.com/v1/gifs/search?api_key="@ + api_key + "&q="@ + q
        + "&limit=10&bundle=messaging_non_clips"@
}

/// Picks the rendition that is shown.
pub fn preferred_image(images: &GiphyGifImages) -> (image: &GiphyGifImage)
    ensures
        *image == preferred(*images),
{
    match &images.fixed_height_small {
        Some(image) => image,
        None => match &images.fixed_height {
            Some(image) => image,
            None => &images.original,
        },
    }
}

/// Reads a rendition; `None` where its size is no number.
pub fn to_gif(image: &GiphyGifImage) -> (gif: Option<GifObject>)
    ensures
        match gif {
            Some(g) => shows_image(g, *image),
            None => !has_size(*image),
        },
{
    let width = match parse_i32(image.width.as_str()) {
        Some(width) => width,
        None => { return None; },
    };
    let height = match parse_i32(image.height.as_str()) {
        Some(height) => height,
        None => { return None; },
    };
    Some(GifObject { width, height, url: image.url.clone() })
}

/// Turns search results into what the clients get, one GIF per result in
/// the same order; `None` where a size cannot be read.
pub fn gifs_of(results: &Vec<GiphyGifObject>) -> (gifs: Option<Vec<GifObject>>)
    ensures
        match gifs {
            Some(list) => list@.len() == results@.len() && forall|i: int|
                0 <= i < list@.len() ==> shows_image(
                    #[trigger] list@[i],
                    preferred(results@[i].images),
                ),
            None => exists|i: int|
                0 <= i < results@.len() && !has_size(preferred((#[trigger] results@[i]).images)),
        },
{
    let mut gifs: Vec<GifObject> = Vec::new();
    let mut i: usize = 0;
    while i < results.len()
        invariant
            i <= results@.len(),
            gifs@.len() == i,
            forall|k: int|
                0 <= k < i ==> shows_image(#[trigger] gifs@[k], preferred(results@[k].images)),
        decreases results@.len() - i,
    {
        match to_gif(preferred_image(&results[i].images)) {
            Some(gif) => {
                gifs.push(gif);
            },
            None => {
                proof {
                    assert(!has_size(preferred(results@[i as int].images)));
                }
                return None;
            },
        }
        i = i + 1;
    }
    Some(gifs)
}

/// Writes the address of a search.
pub fn search_url(api_key: &str, q: &str) -> (url: String)
    ensures
        url@ == search_url_text(api_key@, q@),
{
    let mut url = "https://api.giphy.com/v1/gifs/search?api_key=".to_owned();
    url.append(api_key);
    url.append("&q=");
    url.append(q);
    url.append("&limit=10&bundle=messaging_non_clips");
    url
}

} // verus!
