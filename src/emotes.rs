use vstd::prelude::*;

verus! {

/// Pixel size of an image.
#[derive(Debug, Clone, Copy, PartialEq, Eq, Structural)]
pub struct Size {
    pub width: u32,
    pub height: u32,
}

/// An image location, with its size when known.
#[derive(Debug)]
pub struct Url {
    pub url: String,
    pub size: Option<Size>,
}

impl Url {
    /// An image location of unknown size.
    pub fn new(url: String) -> (r: Url)
        ensures
            r.url == url,
            r.size is None,
    {
        Url { url, size: None }
    }
}

/// The images of an emote or badge at up to three scales.
#[derive(Debug)]
pub struct Urls {
    pub small: Option<Url>,
    pub medium: Option<Url>,
    pub large: Option<Url>,
}

pub open spec fn scaled(url: Option<String>, width: u32, height: u32, factor: u32) -> Option<(Seq<char>, Size)> {
    match url {
        Some(u) => Some((u@, Size { width: (width * factor) as u32, height: (height * factor) as u32 })),
        None => None,
    }
}

pub open spec fn url_view(u: Option<Url>) -> Option<(Seq<char>, Size)> {
    match u {
        Some(x) => match x.size {
            Some(sz) => Some((x.url@, sz)),
            None => None,
        },
        None => None,
    }
}

fn scale(url: Option<String>, width: u32, height: u32, factor: u32) -> (r: Option<Url>)
    requires
        width * factor <= u32::MAX,
        height * factor <= u32::MAX,
    ensures
        url is Some <==> r is Some,
        url_view(r) == scaled(url, width, height, factor),
{
    match url {
        Some(url) => Some(Url { url, size: Some(Size { width: width * factor, height: height * factor }) }),
        None => None,
    }
}

impl Urls {
    /// No images.
    pub fn empty() -> (r: Urls)
        ensures
            r.small is None && r.medium is None && r.large is None,
    {
        Urls { small: None, medium: None, large: None }
    }

    /// The images of a base size at one, two and four times that size.
    pub fn scaled(width: u32, height: u32, x1: Option<String>, x2: Option<String>, x4: Option<String>) -> (r: Urls)
        requires
            width * 4 <= u32::MAX,
            height * 4 <= u32::MAX,
        ensures
            url_view(r.small) == scaled(x1, width, height, 1),
            url_view(r.medium) == scaled(x2, width, height, 2),
            url_view(r.large) == scaled(x4, width, height, 4),
            r.small is Some <==> x1 is Some,
            r.medium is Some <==> x2 is Some,
            r.large is Some <==> x4 is Some,
    {
        Urls {
            small: scale(x1, width, height, 1),
            medium: scale(x2, width, height, 2),
            large: scale(x4, width, height, 4),
        }
    }
}

/// An emote: its images.
#[derive(Debug)]
pub struct Emote {
    pub urls: Urls,
}

/// A chat badge.
#[derive(Debug)]
pub struct Badge {
    /// Title for badge.
    pub title: String,
    /// Urls to pick for badge.
    pub urls: Urls,
    /// Optional background color.
    pub bg_color: Option<String>,
}

/// Response of the token validation endpoint.
#[derive(Debug)]
pub struct ValidateToken {
    pub client_id: String,
    pub login: String,
    pub scopes: Vec<String>,
    pub user_id: String,
}

} // verus!
