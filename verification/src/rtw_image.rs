use vstd::prelude::*;

verus! {

/// What clamping `x` to the half-open range `[low, high)` yields: the image
/// sampler keeps pixel coordinates inside the image this way.
pub open spec fn clamp_spec(x: int, low: int, high: int) -> int {
    if x < low {
        low
    } else if x < high {
        x
    } else {
        high - 1
    }
}

/// Clamp `x` to the half-open range `[low, high)`.
pub fn clamp(x: i64, low: i64, high: i64) -> (r: i64)
    requires
        high > i64::MIN,
    ensures
        r == clamp_spec(x as int, low as int, high as int),
{
    if x < low {
        low
    } else if x < high {
        x
    } else {
        high - 1
    }
}

/// Decoded image data: `width * height` pixels in row-major order, three
/// bytes (red, green, blue) per pixel.  The rendering layer decodes an image
/// file and hands the raw bytes over; image-texture lookups then read them
/// here, clamped to the image bounds.
#[derive(Clone, Debug)]
pub struct RtwImage {
    width: usize,
    height: usize,
    data: Vec<u8>,
}

impl RtwImage {
    /// The image is non-degenerate and stores exactly three bytes per pixel.
    pub closed spec fn wf(&self) -> bool {
        &&& self.data@.len() == 3 * self.width * self.height
        &&& self.width > 0
        &&& self.height > 0
    }

    pub closed spec fn spec_width(&self) -> int {
        self.width as int
    }

    pub closed spec fn spec_height(&self) -> int {
        self.height as int
    }

    /// The pixel bytes, row-major, three per pixel.
    pub closed spec fn spec_data(&self) -> Seq<u8> {
        self.data@
    }

    /// Build an image from decoded bytes.  Returns `None` exactly when the
    /// dimensions are degenerate or do not match the byte count.
    pub fn from_bytes(width: usize, height: usize, data: Vec<u8>) -> (r: Option<RtwImage>)
        ensures
            r is Some <==> width > 0 && height > 0 && data@.len() == 3 * width * height,
            r matches Some(img) ==> {
                &&& img.wf()
                &&& img.spec_width() == width
                &&& img.spec_height() == height
                &&& img.spec_data() == data@
            },
    {
        let n = data.len();
        if width == 0 || height == 0 {
            return None;
        }
        match width.checked_mul(height) {
            None => {
                proof {
                    assert(3 * width * height >= width * height) by (nonlinear_arith);
                }
                None
            },
            Some(p) => {
                proof {
                    assert((width * height) * 3 == 3 * width * height) by (nonlinear_arith);
                }
                match p.checked_mul(3) {
                    None => None,
                    Some(expected) => {
                        if n == expected {
                            Some(RtwImage { width, height, data })
                        } else {
                            None
                        }
                    },
                }
            },
        }
    }

    pub fn width(&self) -> (r: usize)
        ensures
            r == self.spec_width(),
    {
        self.width
    }

    pub fn height(&self) -> (r: usize)
        ensures
            r == self.spec_height(),
    {
        self.height
    }

    /// The red, green and blue bytes of the pixel nearest to `(x, y)`: both
    /// coordinates are clamped into the image bounds, so a lookup that falls
    /// outside the image reads its nearest edge pixel.
    pub fn pixel_data(&self, x: usize, y: usize) -> (r: (u8, u8, u8))
        requires
            self.wf(),
        ensures
            ({
                let xi = clamp_spec(x as int, 0, self.spec_width());
                let yi = clamp_spec(y as int, 0, self.spec_height());
                let idx = 3 * (yi * self.spec_width() + xi);
                r == (
                    self.spec_data()[idx],
                    self.spec_data()[idx + 1],
                    self.spec_data()[idx + 2],
                )
            }),
    {
        let xi = if x < self.width {
            x
        } else {
            self.width - 1
        };
        let yi = if y < self.height {
            y
        } else {
            self.height - 1
        };
        let n = self.data.len();
        proof {
            lemma_pixel_index_in_bounds(
                xi as int,
                yi as int,
                self.width as int,
                self.height as int,
            );
            assert(3 * ((yi as int) * (self.width as int) + (xi as int)) + 2 < n as int);
        }
        let idx = 3 * (yi * self.width + xi);
        (self.data[idx], self.data[idx + 1], self.data[idx + 2])
    }
}

/// What the image decoder yields for an encoded byte stream: the pixel
/// dimensions and the row-major 8-bit RGB bytes, or nothing when the stream
/// is not a decodable image.  The decode depends on the bytes alone.
pub uninterp spec fn rgb_of(bytes: Seq<u8>) -> Option<(int, int, Seq<u8>)>;

/// Relies on `image::load_from_memory` and `DynamicImage::into_rgb8`: the
/// decoded buffer holds exactly three bytes per pixel, and decoding depends
/// on the input bytes alone.
#[verifier::external_body]
fn decode_rgb(bytes: &Vec<u8>) -> (r: Option<(usize, usize, Vec<u8>)>)
    ensures
        r matches Some((w, h, data)) ==> rgb_of(bytes@) == Some(
            (w as int, h as int, data@),
        ) && data@.len() == 3 * w * h,
        r is None ==> rgb_of(bytes@) is None,
{
    match image::load_from_memory(bytes.as_slice()) {
        Ok(img) => {
            let rgb = img.into_rgb8();
            let w = rgb.width() as usize;
            let h = rgb.height() as usize;
            Some((w, h, rgb.into_raw()))
        },
        Err(_) => None,
    }
}

impl RtwImage {
    /// Decode an encoded image, as read from its file, into the byte store.
    /// Returns `None` exactly when the bytes do not decode, or decode to an
    /// image without a pixel in some direction.
    pub fn from_encoded(bytes: &Vec<u8>) -> (r: Option<RtwImage>)
        ensures
            r matches Some(img) ==> {
                &&& img.wf()
                &&& rgb_of(bytes@) == Some(
                    (img.spec_width(), img.spec_height(), img.spec_data()),
                )
            },
            r is None ==> {
                ||| rgb_of(bytes@) is None
                ||| (rgb_of(bytes@) matches Some((w, h, _)) && (w <= 0 || h <= 0))
            },
    {
        match decode_rgb(bytes) {
            None => None,
            Some((w, h, data)) => RtwImage::from_bytes(w, h, data),
        }
    }
}

/// Row-major indexing stays inside a `3 * width * height` byte buffer.
proof fn lemma_pixel_index_in_bounds(xi: int, yi: int, width: int, height: int)
    by (nonlinear_arith)
    requires
        0 <= xi < width,
        0 <= yi < height,
    ensures
        0 <= 3 * (yi * width + xi),
        3 * (yi * width + xi) + 2 < 3 * width * height,
        yi * width + xi < width * height,
{
}

} // verus!
