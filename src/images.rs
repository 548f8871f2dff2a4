use vstd::prelude::*;

use crate::faults::Fault;
use crate::keymap::{opendeck_to_device, spec_logical_to_device, N1_KEY_COUNT};
use crate::mappings::Kind;

verus! {

/// Encoding of a key image.
#[derive(Debug, Clone, Copy, PartialEq, Eq, Structural)]
pub enum ImageMode {
    NoImage,
    BMP,
    JPEG,
}

/// Rotation applied to a key image.
#[derive(Debug, Clone, Copy, PartialEq, Eq, Structural)]
pub enum ImageRotation {
    Rot0,
    Rot90,
    Rot180,
    Rot270,
}

/// Mirroring applied to a key image.
#[derive(Debug, Clone, Copy, PartialEq, Eq, Structural)]
pub enum ImageMirroring {
    NoMirror,
    X,
    Y,
    Both,
}

/// Pixel size, encoding, rotation and mirroring of one key's image.
#[derive(Debug, Clone, Copy, PartialEq, Eq)]
pub struct ImageFormat {
    pub mode: ImageMode,
    pub size: (usize, usize),
    pub rotation: ImageRotation,
    pub mirror: ImageMirroring,
}

/// Image format of logical key `key` on a device of family `kind`.
pub open spec fn spec_image_format(kind: Kind, key: u8) -> ImageFormat {
    if kind == Kind::N1 {
        ImageFormat {
            mode: ImageMode::JPEG,
            size: if key <= 2 { (64, 64) } else { (96, 96) },
            rotation: ImageRotation::Rot0,
            mirror: ImageMirroring::NoMirror,
        }
    } else if kind.spec_protocol_version() == 1 {
        ImageFormat {
            mode: ImageMode::JPEG,
            size: (85, 85),
            rotation: ImageRotation::Rot90,
            mirror: ImageMirroring::Both,
        }
    } else {
        ImageFormat {
            mode: ImageMode::JPEG,
            size: if key == 5 || key == 11 || key == 17 { (82, 82) } else { (95, 95) },
            rotation: ImageRotation::Rot90,
            mirror: ImageMirroring::Both,
        }
    }
}

/// Returns the image format for a key of a device family. On the N1 the top
/// LCDs (keys 0 to 2) are smaller than the main keys and nothing is rotated.
pub fn get_image_format_for_key(kind: &Kind, key: u8) -> (r: ImageFormat)
    ensures
        r == spec_image_format(*kind, key),
{
    if let Kind::N1 = kind {
        let size = if key <= 2 { (64, 64) } else { (96, 96) };
        return ImageFormat {
            mode: ImageMode::JPEG,
            size,
            rotation: ImageRotation::Rot0,
            mirror: ImageMirroring::NoMirror,
        };
    }
    if kind.protocol_version() == 1 {
        return ImageFormat {
            mode: ImageMode::JPEG,
            size: (85, 85),
            rotation: ImageRotation::Rot90,
            mirror: ImageMirroring::Both,
        };
    }
    let size = match key {
        5 | 11 | 17 => (82, 82),
        _ => (95, 95),
    };
    ImageFormat { mode: ImageMode::JPEG, size, rotation: ImageRotation::Rot90, mirror: ImageMirroring::Both }
}

/// What to do with the device for one "set image" request.
#[derive(Debug, Clone, Copy, PartialEq, Eq)]
pub enum ImageCommand {
    /// Write an image into `slot` with `format`, then flush.
    Write { slot: u8, format: ImageFormat },
    /// Clear the image of `slot`, then flush.
    Clear { slot: u8 },
    /// Clear every key, then flush.
    ClearAll,
    /// Nothing to do.
    Skip,
}

/// Slot addressed on the wire for a logical key.
pub open spec fn wire_slot(key: u8) -> u8 {
    if key < N1_KEY_COUNT {
        (spec_logical_to_device(key as int) - 1) as u8
    } else {
        key
    }
}

/// Decides what a "set image" request for `position` (none: the whole
/// device) does, given whether it carries an image.
pub fn plan_set_image(kind: &Kind, position: Option<u8>, has_image: bool) -> (r: ImageCommand)
    ensures
        r == match (position, has_image) {
            (Some(p), true) => ImageCommand::Write {
                slot: wire_slot(p),
                format: spec_image_format(*kind, p),
            },
            (Some(p), false) => ImageCommand::Clear { slot: wire_slot(p) },
            (None, false) => ImageCommand::ClearAll,
            (None, true) => ImageCommand::Skip,
        },
{
    match position {
        Some(p) => {
            let slot = opendeck_to_device(p);
            if has_image {
                ImageCommand::Write { slot, format: get_image_format_for_key(kind, p) }
            } else {
                ImageCommand::Clear { slot }
            }
        },
        None => if has_image {
            ImageCommand::Skip
        } else {
            ImageCommand::ClearAll
        },
    }
}

/// Whether a "set image" request addresses a key rather than an encoder.
pub fn wants_key_image(controller: &Option<String>) -> (r: bool)
    ensures
        r == !(controller matches Some(c) && c@ == "Encoder"@),
{
    match controller {
        Some(c) => {
            let encoder = String::from_str("Encoder");
            !(*c == encoder)
        },
        None => true,
    }
}

/// Media subtype and decoded body of a data URL, when it is one.
pub uninterp spec fn data_url_parts(s: Seq<char>) -> Option<(Seq<char>, Seq<u8>)>;

/// View of a decoded data URL.
pub open spec fn parts_view(d: Option<(String, Vec<u8>)>) -> Option<(Seq<char>, Seq<u8>)> {
    match d {
        Some((sub, body)) => Some((sub@, body@)),
        None => None,
    }
}

/// Relies on data_url's `DataUrl::process` and `decode_to_vec`: the media
/// subtype and the body of a data URL, which depend on the text alone.
#[verifier::external_body]
fn decode_data_url(s: &str) -> (r: Option<(String, Vec<u8>)>)
    ensures
        parts_view(r) == data_url_parts(s@),
{
    let url = data_url::DataUrl::process(s).ok()?;
    let (body, _fragment) = url.decode_to_vec().ok()?;
    Some((url.mime_type().subtype.clone(), body))
}

/// Outcome of looking for a JPEG body in a decoded data URL.
pub open spec fn spec_jpeg_payload(d: Option<(Seq<char>, Seq<u8>)>) -> Result<Option<Seq<u8>>, Fault> {
    match d {
        None => Err(Fault::Image),
        Some((sub, body)) => if sub == "jpeg"@ {
            Ok(Some(body))
        } else {
            Ok(None)
        },
    }
}

pub open spec fn payload_view(r: Result<Option<Vec<u8>>, Fault>) -> Result<Option<Seq<u8>>, Fault> {
    match r {
        Ok(Some(b)) => Ok(Some(b@)),
        Ok(None) => Ok(None),
        Err(f) => Err(f),
    }
}

/// Body of a decoded data URL when it holds a JPEG image. A request that
/// is no data URL is an image fault; one of another type is skipped.
pub fn jpeg_payload(decoded: Option<(String, Vec<u8>)>) -> (r: Result<Option<Vec<u8>>, Fault>)
    ensures
        payload_view(r) == spec_jpeg_payload(parts_view(decoded)),
{
    match decoded {
        Some((sub, body)) => {
            let jpeg = String::from_str("jpeg");
            if sub == jpeg {
                Ok(Some(body))
            } else {
                Ok(None)
            }
        },
        None => Err(Fault::Image),
    }
}

/// JPEG body of the image of a "set image" request, given as a data URL.
/// `Ok(None)` means that the image is not a JPEG and is skipped; text that is
/// no data URL is an image fault. Decoding the JPEG itself is left to the
/// caller.
pub fn prepare_image(url: &str) -> (r: Result<Option<Vec<u8>>, Fault>)
    ensures
        payload_view(r) == spec_jpeg_payload(data_url_parts(url@)),
{
    let decoded = decode_data_url(url);
    jpeg_payload(decoded)
}

} // verus!
