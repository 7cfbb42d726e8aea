//! The in-memory pixel representation of one image, and decoding into it.
//!
//! Decoding proper is done by the `image` crate; this module states what
//! that decoding yields and builds a well-formed `ImageRepresentation`
//! from it, rejecting anything that would break the buffer invariant.

use vstd::prelude::*;
use vstd::string::StringExecFns;
use crate::text::dec_rep;
use crate::text::dec_string;
use crate::text::file_name_of;
use crate::text::file_name_spec;

verus! {

/// The error type of the `image` crate, carried through opaquely.
#[verifier::external_type_specification]
#[verifier::external_body]
pub struct ExImageError(image::ImageError);

/// What decoding a byte sequence yields: `Some((width, height, rgba))`
/// when the bytes are a readable image, `None` when they are not. The
/// result depends on the bytes alone.
pub uninterp spec fn rgba_decode(bytes: Seq<u8>) -> Option<(u32, u32, Seq<u8>)>;

/// Relies on `image::load_from_memory` and `DynamicImage::into_rgba8`:
/// decoding is a pure function of the input bytes, and a decoded image's
/// RGBA8 buffer holds exactly `width * height * 4` bytes.
#[verifier::external_body]
fn decode_rgba(bytes: &Vec<u8>) -> (r: Result<(u32, u32, Vec<u8>), image::ImageError>)
    ensures
        match r {
            Ok(t) => rgba_decode(bytes@) == Some((t.0, t.1, t.2@)) && t.2@.len() == t.0 * t.1 * 4,
            Err(_) => rgba_decode(bytes@) is None,
        },
{
    match image::load_from_memory(bytes.as_slice()) {
        Ok(im) => {
            let width = im.width();
            let height = im.height();
            Ok((width, height, im.into_rgba8().into_vec()))
        },
        Err(e) => Err(e),
    }
}

/// Why a candidate image could not be turned into a representation.
#[derive(Clone, Copy, Debug, PartialEq, Eq)]
pub enum DecodeError {
    /// The file could not be read at all.
    Unreadable,
    /// The bytes are not a decodable image.
    Undecodable,
    /// The image decoded, but one of its dimensions is zero.
    BadDimensions,
}

/// One decoded image: its dimensions, its RGBA8 pixel buffer (row-major,
/// four bytes per pixel, no padding), where it came from and the name
/// shown for it.
#[derive(Clone, Debug)]
pub struct ImageRepresentation {
    pub width: u32,
    pub height: u32,
    pub pixel_buffer: Vec<u8>,
    pub source_path: String,
    pub display_name: String,
}

impl ImageRepresentation {
    /// The representation invariant: positive dimensions, a buffer of
    /// exactly `width * height * 4` bytes, and a display name that is
    /// the final component of the source path.
    pub open spec fn wf(self) -> bool {
        &&& self.width > 0
        &&& self.height > 0
        &&& self.pixel_buffer@.len() == self.width * self.height * 4
        &&& self.display_name@ == file_name_spec(self.source_path@)
    }

    /// The dimensions readout shown beside an image:
    /// `"<source_path> - <width>x<height> pixels"`.
    pub open spec fn spec_details(self) -> Seq<char> {
        self.source_path@ + " - "@ + dec_rep(self.width as int) + "x"@ + dec_rep(
            self.height as int,
        ) + " pixels"@
    }

    /// Renders the dimensions readout for this image.
    pub fn details(&self) -> (r: String)
        ensures
            r@ == self.spec_details(),
    {
        let mut t = self.source_path.clone();
        t.append(" - ");
        t.append(dec_string(self.width as usize).as_str());
        t.append("x");
        t.append(dec_string(self.height as usize).as_str());
        t.append(" pixels");
        proof {
            assert(t@ =~= self.spec_details());
        }
        t
    }

    /// Decodes `bytes`, read from `path`, into a well-formed
    /// representation; inputs that would violate the invariant fail
    /// instead of producing a malformed value.
    pub fn from_bytes(path: String, bytes: &Vec<u8>) -> (r: Result<
        ImageRepresentation,
        DecodeError,
    >)
        ensures
            match r {
                Ok(img) => {
                    &&& img.wf()
                    &&& rgba_decode(bytes@) == Some((img.width, img.height, img.pixel_buffer@))
                    &&& img.source_path@ == path@
                },
                Err(DecodeError::Undecodable) => rgba_decode(bytes@) is None,
                Err(DecodeError::BadDimensions) => match rgba_decode(bytes@) {
                    Some(t) => t.0 == 0 || t.1 == 0,
                    None => false,
                },
                Err(DecodeError::Unreadable) => false,
            },
    {
        match decode_rgba(bytes) {
            Ok((width, height, pixels)) => {
                if width == 0 || height == 0 {
                    Err(DecodeError::BadDimensions)
                } else {
                    let display_name = file_name_of(path.as_str());
                    Ok(
                        ImageRepresentation {
                            width,
                            height,
                            pixel_buffer: pixels,
                            source_path: path,
                            display_name,
                        },
                    )
                }
            },
            Err(_) => Err(DecodeError::Undecodable),
        }
    }
}

} // verus!
