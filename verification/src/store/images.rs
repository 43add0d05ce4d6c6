//! Host-owned images: what is asked for, and what came back.
use crate::protocol::copy_text;
use vstd::prelude::*;

verus! {

/// An image of the host.
#[derive(Debug)]
pub enum ImageRequest {
    File(String),
    Thumbnail(String),
    Project { id: String, override_path: Option<String>, pixels: u32 },
}

/// A question to the host that is answered with bytes.
#[derive(Debug)]
pub enum Query {
    ReadFileBytes { path: String },
    ReadIconImage { path: String },
    ReadProjectIcon { project_id: String, pixels: u32 },
}

/// Where images are loaded from: a link, and the attachment it belongs to.
#[derive(Debug, Clone, Copy, PartialEq, Eq, Structural)]
pub struct HostImages {
    pub attached: bool,
    pub namespace: u64,
}

/// Why an image cannot be shown.
#[derive(Debug, Clone, Copy, PartialEq, Eq, Structural)]
pub enum ImageFailure {
    /// The image belongs to a detached host.
    Detached,
    /// The bytes start like no known image.
    UnknownFormat,
}

/// The question that loads an image.
pub open spec fn question(request: ImageRequest) -> Query {
    match request {
        ImageRequest::File(path) => Query::ReadFileBytes { path },
        ImageRequest::Thumbnail(path) => Query::ReadIconImage { path },
        ImageRequest::Project { id, pixels, .. } => Query::ReadProjectIcon {
            project_id: id,
            pixels,
        },
    }
}

/// The question that loads an image requested of the attachment `namespace`.
pub fn image_query(images: HostImages, namespace: u64, request: ImageRequest) -> (query: Result<
    Query,
    ImageFailure,
>)
    ensures
        query == (if images.attached && images.namespace == namespace {
            Ok(question(request))
        } else {
            Err(ImageFailure::Detached)
        }),
{
    if !images.attached || images.namespace != namespace {
        return Err(ImageFailure::Detached);
    }
    Ok(
        match request {
            ImageRequest::File(path) => Query::ReadFileBytes { path },
            ImageRequest::Thumbnail(path) => Query::ReadIconImage { path },
            ImageRequest::Project { id, override_path: _, pixels } => Query::ReadProjectIcon {
                project_id: id,
                pixels,
            },
        },
    )
}

/// An attachment that ends takes its link away, unless another has taken its
/// place.
pub fn detach_images(images: HostImages, namespace: u64) -> (after: HostImages)
    ensures
        after.namespace == images.namespace,
        after.attached == (images.attached && images.namespace != namespace),
{
    HostImages {
        attached: images.attached && images.namespace != namespace,
        namespace: images.namespace,
    }
}

/// The media type of the format that bytes start like.
pub uninterp spec fn guessed_mime(bytes: Seq<u8>) -> Option<Seq<char>>;

/// Trusted: `image::guess_format` looks at the leading bytes alone and finds a
/// format or none, and `ImageFormat::to_mime_type` gives each format one media
/// type. Which bytes make which format is not stated.
#[verifier::external_body]
fn guess_mime(bytes: &Vec<u8>) -> (mime: Option<String>)
    ensures
        match mime {
            Some(found) => guessed_mime(bytes@) == Some(found@),
            None => guessed_mime(bytes@) is None,
        },
{
    image::guess_format(bytes).ok().map(|format| format.to_mime_type().to_owned())
}

/// What a guess comes to.
pub fn identified(mime: Option<String>) -> (result: Result<String, ImageFailure>)
    ensures
        result == (match mime {
            Some(found) => Ok(found),
            None => Err(ImageFailure::UnknownFormat),
        }),
{
    match mime {
        Some(found) => Ok(found),
        None => Err(ImageFailure::UnknownFormat),
    }
}

/// The media type of an image the host sent.
pub fn image_mime(bytes: &Vec<u8>) -> (mime: Result<String, ImageFailure>)
    ensures
        match mime {
            Ok(found) => guessed_mime(bytes@) == Some(found@),
            Err(failure) => failure == ImageFailure::UnknownFormat && guessed_mime(bytes@) is None,
        },
{
    identified(guess_mime(bytes))
}

/// The largest raster a project icon is asked for in.
pub const MAX_ICON_PIXELS: u32 = 128;

/// The raster of a project icon shown at a size.
pub open spec fn icon_raster(size: i64) -> u32 {
    if size < 1 {
        1
    } else if size > MAX_ICON_PIXELS {
        MAX_ICON_PIXELS
    } else {
        size as u32
    }
}

/// The raster size of a project icon, from its size on screen in whole device
/// pixels.
pub fn icon_pixels(size: i64) -> (pixels: u32)
    ensures
        pixels == icon_raster(size),
{
    if size < 1 {
        1
    } else if size > MAX_ICON_PIXELS as i64 {
        MAX_ICON_PIXELS
    } else {
        size as u32
    }
}

/// The first `n` requests that a project's icon may be cached under.
pub open spec fn rasters(
    project_id: String,
    icon_path: Option<String>,
    n: nat,
) -> Seq<ImageRequest> {
    Seq::new(
        n,
        |i: int|
            ImageRequest::Project {
                id: project_id,
                override_path: icon_path,
                pixels: (i + 1) as u32,
            },
    )
}

/// Every request a project's icon may be cached under: each display scale has
/// its own raster, cached errors among them.
pub fn icon_requests(project_id: &String, icon_path: &Option<String>) -> (requests: Vec<
    ImageRequest,
>)
    ensures
        requests@ == rasters(*project_id, *icon_path, MAX_ICON_PIXELS as nat),
{
    let mut requests: Vec<ImageRequest> = Vec::new();
    let mut pixels: u32 = 0;
    assert(requests@ =~= rasters(*project_id, *icon_path, 0));
    while pixels < MAX_ICON_PIXELS
        invariant
            pixels <= MAX_ICON_PIXELS,
            requests@ == rasters(*project_id, *icon_path, pixels as nat),
        decreases MAX_ICON_PIXELS - pixels,
    {
        pixels += 1;
        requests.push(
            ImageRequest::Project {
                id: project_id.clone(),
                override_path: copy_text(icon_path),
                pixels,
            },
        );
        assert(requests@ =~= rasters(*project_id, *icon_path, pixels as nat));
    }
    requests
}

/// Whatever size an icon is shown at, forgetting a project's icons forgets it.
pub proof fn law_every_icon_size_is_invalidated(
    project_id: String,
    icon_path: Option<String>,
    size: i64,
)
    ensures
        rasters(project_id, icon_path, MAX_ICON_PIXELS as nat).contains(
            ImageRequest::Project {
                id: project_id,
                override_path: icon_path,
                pixels: icon_raster(size),
            },
        ),
{
    let all = rasters(project_id, icon_path, MAX_ICON_PIXELS as nat);
    let i = icon_raster(size) - 1;
    assert(all[i] == ImageRequest::Project {
        id: project_id,
        override_path: icon_path,
        pixels: icon_raster(size),
    });
}

} // verus!
