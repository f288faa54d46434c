//! Types shared by the KPS writers, and extraction of images from decoded
//! messages.

use vstd::prelude::*;
use crate::codec::CodecValue;
use crate::bytes::copy_bytes;
use crate::text::str_eq;

verus! {

/// Errors of the KPS writers.
#[derive(Debug, Clone)]
pub enum KpsWriterError {
    /// I/O failed (with the system's message)
    Io(String),
    /// HDF5 library error
    Hdf5(String),
    /// Parquet library error
    Parquet(String),
    /// Encoding error
    Encoding(String),
    /// Invalid message data
    InvalidData(String),
    /// Channel not found
    ChannelNotFound(String),
    /// Feature not mapped
    FeatureNotMapped(String),
}

/// Image data extracted from a message.
#[derive(Debug, Clone)]
pub struct ImageData {
    /// Width in pixels
    pub width: u32,
    /// Height in pixels
    pub height: u32,
    /// Pixel or encoded bytes
    pub data: Vec<u8>,
    /// Original timestamp (set by the caller)
    pub original_timestamp: u64,
    /// Whether the data is encoded (anything but raw `rgb8`)
    pub is_encoded: bool,
}

/// Extracts typed data from decoded messages.
pub struct MessageExtractor;

/// The image fields read from a message so far: width, height, data and
/// whether it is encoded. A later field of the same name overrides an
/// earlier one; a field of an unexpected type is ignored.
pub open spec fn image_fields(msg: Seq<(String, CodecValue)>) -> (u32, u32, Option<Seq<u8>>, bool)
    decreases msg.len(),
{
    if msg.len() == 0 {
        (0, 0, None, false)
    } else {
        let (w, h, d, e) = image_fields(msg.drop_last());
        let (k, v) = msg.last();
        if k@ == "width"@ {
            match v {
                CodecValue::UInt32(x) => (x, h, d, e),
                _ => (w, h, d, e),
            }
        } else if k@ == "height"@ {
            match v {
                CodecValue::UInt32(x) => (w, x, d, e),
                _ => (w, h, d, e),
            }
        } else if k@ == "data"@ {
            match v {
                CodecValue::Bytes(b) => (w, h, Some(b@), e),
                _ => (w, h, d, e),
            }
        } else if k@ == "format"@ {
            match v {
                CodecValue::String(f) => (w, h, d, f@ != "rgb8"@),
                _ => (w, h, d, e),
            }
        } else {
            (w, h, d, e)
        }
    }
}


impl MessageExtractor {
    /// Extract image data from a message: its `width` and `height`
    /// (`UInt32`), `data` (`Bytes`) and `format` (`String`; anything but
    /// `rgb8` is encoded) fields. There is no image without data.
    pub fn extract_image(message: &[(String, CodecValue)]) -> (r: Option<ImageData>)
        ensures
            match image_fields(message@).2 {
                None => r is None,
                Some(d) => r matches Some(img) && img.width == image_fields(message@).0
                    && img.height == image_fields(message@).1 && img.data@ == d
                    && img.original_timestamp == 0 && img.is_encoded == image_fields(message@).3,
            },
    {
        let mut width: u32 = 0;
        let mut height: u32 = 0;
        let mut data: Option<Vec<u8>> = None;
        let mut is_encoded = false;
        let mut i: usize = 0;
        while i < message.len()
            invariant
                0 <= i <= message@.len(),
                image_fields(message@.take(i as int)) == (
                    width,
                    height,
                    match data {
                        Some(b) => Some(b@),
                        None => None::<Seq<u8>>,
                    },
                    is_encoded,
                ),
            decreases message.len() - i,
        {
            proof {
                assert(message@.take(i + 1).drop_last() =~= message@.take(i as int));
                assert(message@.take(i + 1).last() == message@[i as int]);
            }
            let (key, value) = &message[i];
            if str_eq(key.as_str(), "width") {
                if let CodecValue::UInt32(w) = value {
                    width = *w;
                }
            } else if str_eq(key.as_str(), "height") {
                if let CodecValue::UInt32(h) = value {
                    height = *h;
                }
            } else if str_eq(key.as_str(), "data") {
                if let CodecValue::Bytes(b) = value {
                    data = Some(copy_bytes(b));
                }
            } else if str_eq(key.as_str(), "format") {
                if let CodecValue::String(f) = value {
                    is_encoded = !str_eq(f.as_str(), "rgb8");
                }
            }
            i = i + 1;
        }
        proof {
            assert(message@.take(message@.len() as int) =~= message@);
        }
        match data {
            Some(image_data) => Some(
                ImageData { width, height, data: image_data, original_timestamp: 0, is_encoded },
            ),
            None => None,
        }
    }
}

} // verus!
