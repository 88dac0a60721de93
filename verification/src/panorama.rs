//! From a panorama to the six faces of a cubemap.
//!
//! The library lays the faces out and walks their pixels; the colour seen in a
//! direction is asked of a sampler that the caller supplies.

use crate::cubemap::{cubemap_direction, direction_spec, FACE_COUNT};
use crate::raster::{byte_len, lemma_pixel_in_bounds, pixel_offset, Raster};
use vstd::prelude::*;

verus! {

/// The height that a panorama `width` pixels wide must have: half its width, and
/// one row at the least.
pub open spec fn target_height_spec(width: u32) -> u32 {
    if width / 2 >= 1 {
        width / 2
    } else {
        1
    }
}

/// The height that a panorama `width` pixels wide must have.
pub fn target_height(width: u32) -> (r: u32)
    ensures
        r == target_height_spec(width),
{
    if width / 2 >= 1 {
        width / 2
    } else {
        1
    }
}

/// How a panorama compares with the aspect of two to one.
#[derive(Debug, Clone, Copy, PartialEq, Eq, Structural)]
pub enum PanoramaFit {
    /// As high as wanted.
    Exact,
    /// Too high: the rows below the wanted height are cut off.
    Cropped,
    /// Too low: kept as it is, and stretched when sampled.
    Short,
}

/// How a panorama of the given size compares with the wanted aspect.
pub open spec fn fit_spec(width: u32, height: u32) -> PanoramaFit {
    if height > target_height_spec(width) {
        PanoramaFit::Cropped
    } else if height < target_height_spec(width) {
        PanoramaFit::Short
    } else {
        PanoramaFit::Exact
    }
}

/// The height of a panorama after it was brought to the wanted aspect: never
/// more than wanted, and never less than it had where it had too little.
pub open spec fn fitted_height(width: u32, height: u32) -> u32 {
    if height > target_height_spec(width) {
        target_height_spec(width)
    } else {
        height
    }
}

/// Compares a panorama of the given size with the wanted aspect.
pub fn fit_panorama(width: u32, height: u32) -> (r: PanoramaFit)
    ensures
        r == fit_spec(width, height),
{
    let wanted = target_height(width);
    if height > wanted {
        PanoramaFit::Cropped
    } else if height < wanted {
        PanoramaFit::Short
    } else {
        PanoramaFit::Exact
    }
}

/// Brings a panorama to the aspect of two to one: one that is too high loses the
/// rows below the wanted height and no others; any other is returned untouched.
pub fn enforce_aspect(image: Raster) -> (r: (Raster, PanoramaFit))
    requires
        image.wf(),
    ensures
        r.1 == fit_spec(image.width, image.height),
        r.0.wf(),
        r.0.width == image.width,
        r.0.height == fitted_height(image.width, image.height),
        r.0.pixels@ == image.pixels@.subrange(
            0,
            byte_len(image.width as nat, r.0.height as nat) as int,
        ),
{
    let fit = fit_panorama(image.width, image.height);
    match fit {
        PanoramaFit::Cropped => {
            let rows = target_height(image.width);
            (image.crop_top(rows), fit)
        },
        _ => {
            assert(image.pixels@ =~= image.pixels@.subrange(
                0,
                byte_len(image.width as nat, image.height as nat) as int,
            ));
            (image, fit)
        },
    }
}

/// The direction through pixel `(x, y)` of face `face`, as it is handed to a sampler.
pub open spec fn lattice(face: u32, x: u32, y: u32, size: u32) -> (i64, i64, i64) {
    let d = direction_spec(face as int, x as int, y as int, size as int);
    (d.0 as i64, d.1 as i64, d.2 as i64)
}

/// Whether `sampler` answers for every direction into every image that has pixels.
pub open spec fn samples_everywhere<F: Fn(&Raster, i64, i64, i64) -> [u8; 4]>(
    sampler: &F,
) -> bool {
    forall|image: &Raster, dx: i64, dy: i64, dz: i64|
        image.wf() && image.width > 0 && image.height > 0 ==> #[trigger] sampler.requires(
            (image, dx, dy, dz),
        )
}

/// The four bytes that a face `size` pixels wide keeps for its pixel `(x, y)`.
pub open spec fn texel(face_bytes: Seq<u8>, size: u32, x: u32, y: u32) -> Seq<u8> {
    face_bytes.subrange(
        pixel_offset(size as nat, x as nat, y as nat) as int,
        pixel_offset(size as nat, x as nat, y as nat) as int + 4,
    )
}

/// Whether the bytes kept for pixel `(x, y)` are a colour that `sampler` gave for
/// the direction through that pixel.
pub open spec fn texel_sampled<F: Fn(&Raster, i64, i64, i64) -> [u8; 4]>(
    sampler: &F,
    image: &Raster,
    face: u32,
    size: u32,
    x: u32,
    y: u32,
    face_bytes: Seq<u8>,
) -> bool {
    exists|colour: [u8; 4]|
        {
            &&& #[trigger] sampler.ensures(
                (image, lattice(face, x, y, size).0, lattice(face, x, y, size).1, lattice(
                    face,
                    x,
                    y,
                    size,
                ).2),
                colour,
            )
            &&& texel(face_bytes, size, x, y) == colour@
        }
}

/// Whether pixel `(x1, y1)` comes before pixel `(x2, y2)` in the order of rows.
pub open spec fn comes_before(x1: u32, y1: u32, x2: u32, y2: u32) -> bool {
    y1 < y2 || (y1 == y2 && x1 < x2)
}

/// A pixel that comes before another keeps its bytes before the other's.
pub proof fn lemma_texels_in_order(size: u32, x1: u32, y1: u32, x2: u32, y2: u32)
    requires
        x1 < size,
        comes_before(x1, y1, x2, y2),
    ensures
        pixel_offset(size as nat, x1 as nat, y1 as nat) + 4 <= pixel_offset(
            size as nat,
            x2 as nat,
            y2 as nat,
        ),
{
    if y1 < y2 {
        assert((y1 + 1) * size <= y2 * size) by (nonlinear_arith)
            requires
                y1 + 1 <= y2,
                0 <= size,
        ;
        assert((y1 + 1) * size == y1 * size + size) by (nonlinear_arith);
    }
}

/// Fills one face of a cubemap: for each pixel of the face, row after row, the
/// colour that `sampler` sees in `image` in the direction through that pixel is
/// written to the pixel's four bytes of `output`. Bytes of `output` beyond the
/// face are left as they were.
pub fn fill_cubemap_face<F: Fn(&Raster, i64, i64, i64) -> [u8; 4]>(
    image: &Raster,
    face: u32,
    size: u32,
    output: &mut Vec<u8>,
    sampler: &F,
)
    requires
        image.wf(),
        image.width > 0,
        image.height > 0,
        samples_everywhere(sampler),
        old(output)@.len() >= byte_len(size as nat, size as nat),
    ensures
        final(output)@.len() == old(output)@.len(),
        forall|x: u32, y: u32|
            x < size && y < size ==> #[trigger] texel_sampled(
                sampler,
                image,
                face,
                size,
                x,
                y,
                final(output)@,
            ),
        forall|i: int|
            byte_len(size as nat, size as nat) <= i < old(output)@.len() ==> final(output)@[i]
                == old(output)@[i],
{
    let total: usize = output.len();
    let ghost before = output@;
    let mut y: u32 = 0;
    while y < size
        invariant
            y <= size,
            image.wf(),
            image.width > 0,
            image.height > 0,
            samples_everywhere(sampler),
            output@.len() == total,
            total == before.len(),
            total >= byte_len(size as nat, size as nat),
            forall|px: u32, py: u32|
                px < size && py < y ==> #[trigger] texel_sampled(
                    sampler,
                    image,
                    face,
                    size,
                    px,
                    py,
                    output@,
                ),
            forall|i: int|
                byte_len(size as nat, size as nat) <= i < total ==> output@[i] == before[i],
        decreases size - y,
    {
        let mut x: u32 = 0;
        while x < size
            invariant
                x <= size,
                y < size,
                image.wf(),
                image.width > 0,
                image.height > 0,
                samples_everywhere(sampler),
                output@.len() == total,
                total == before.len(),
                total >= byte_len(size as nat, size as nat),
                forall|px: u32, py: u32|
                    px < size && comes_before(px, py, x, y) ==> #[trigger] texel_sampled(
                        sampler,
                        image,
                        face,
                        size,
                        px,
                        py,
                        output@,
                    ),
                forall|i: int|
                    byte_len(size as nat, size as nat) <= i < total ==> output@[i] == before[i],
            decreases size - x,
        {
            proof {
                lemma_pixel_in_bounds(size as nat, size as nat, x as nat, y as nat);
                assert(0 <= y * size) by (nonlinear_arith)
                    requires
                        0 <= y,
                        0 <= size,
                ;
                assert(byte_len(size as nat, size as nat) == (size * size) * 4);
            }
            let at: usize = (y as usize * size as usize + x as usize) * 4;
            let d = cubemap_direction(face, x, y, size);
            assert(d == lattice(face, x, y, size));
            let colour = sampler(image, d.0, d.1, d.2);
            let ghost earlier = output@;
            output.set(at, colour[0]);
            output.set(at + 1, colour[1]);
            output.set(at + 2, colour[2]);
            output.set(at + 3, colour[3]);
            proof {
                assert(texel(output@, size, x, y) =~= colour@);
                assert(texel_sampled(sampler, image, face, size, x, y, output@));
                assert forall|px: u32, py: u32|
                    px < size && comes_before(px, py, (x + 1) as u32, y) implies #[trigger] texel_sampled(
                    sampler,
                    image,
                    face,
                    size,
                    px,
                    py,
                    output@,
                ) by {
                    if comes_before(px, py, x, y) {
                        lemma_texels_in_order(size, px, py, x, y);
                        assert(texel_sampled(sampler, image, face, size, px, py, earlier));
                        assert(texel(output@, size, px, py) =~= texel(earlier, size, px, py));
                    } else {
                        assert(px == x && py == y);
                    }
                }
            }
            x += 1;
        }
        proof {
            assert forall|px: u32, py: u32| px < size && py < y + 1 implies #[trigger] texel_sampled(
                sampler,
                image,
                face,
                size,
                px,
                py,
                output@,
            ) by {
                assert(comes_before(px, py, x, y));
            }
        }
        y += 1;
    }
}

/// The six faces of a cubemap, in the order +X, -X, +Y, -Y, +Z, -Z, each a
/// square of RGBA pixels.
#[derive(Debug)]
pub struct Cubemap {
    /// The width and height of every face, in pixels.
    pub face_size: u32,
    pub faces: Vec<Vec<u8>>,
}

impl Cubemap {
    /// Whether the cubemap has its six faces, all of the same size.
    pub open spec fn wf(&self) -> bool {
        &&& self.faces@.len() == FACE_COUNT
        &&& forall|f: int|
            0 <= f < self.faces@.len() ==> (#[trigger] self.faces@[f])@.len() == byte_len(
                self.face_size as nat,
                self.face_size as nat,
            )
    }

    /// Whether every pixel of every face holds a colour that `sampler` gave for
    /// the direction through it into `image`.
    pub open spec fn sampled_from<F: Fn(&Raster, i64, i64, i64) -> [u8; 4]>(
        &self,
        sampler: &F,
        image: &Raster,
    ) -> bool {
        forall|face: u32, x: u32, y: u32|
            face < FACE_COUNT && x < self.face_size && y < self.face_size
                ==> #[trigger] texel_sampled(
                sampler,
                image,
                face,
                self.face_size,
                x,
                y,
                self.faces@[face as int]@,
            )
    }
}

/// Whether the faces of a cubemap can be cut from an image of this size: it has
/// pixels, and is no higher than half its width, or one row.
pub open spec fn is_panorama(width: u32, height: u32) -> bool {
    width > 0 && height > 0 && height <= target_height_spec(width)
}

/// The faces of a panorama take no more bytes than the panorama itself does.
pub proof fn lemma_face_fits(width: u32, height: u32)
    requires
        is_panorama(width, height),
    ensures
        byte_len(height as nat, height as nat) <= byte_len(width as nat, height as nat),
{
    if width >= 2 {
        assert(height * height <= width * height) by (nonlinear_arith)
            requires
                0 < height <= width,
        ;
    } else {
        assert(height == 1 && width == 1);
    }
}

/// Cuts the six faces of a cubemap from a panorama. Every face is as wide and
/// as high as the panorama is high.
pub fn build_cubemap<F: Fn(&Raster, i64, i64, i64) -> [u8; 4]>(image: &Raster, sampler: &F) -> (r:
    Cubemap)
    requires
        image.wf(),
        is_panorama(image.width, image.height),
        samples_everywhere(sampler),
    ensures
        r.wf(),
        r.face_size == image.height,
        r.sampled_from(sampler, image),
{
    let size: u32 = image.height;
    let total: usize = image.pixels.len();
    proof {
        lemma_face_fits(image.width, image.height);
        assert(byte_len(size as nat, size as nat) == (size * size) * 4);
        assert(0 <= size * size) by (nonlinear_arith)
            requires
                0 <= size,
        ;
    }
    let face_len: usize = size as usize * size as usize * 4;
    let mut faces: Vec<Vec<u8>> = Vec::new();
    let mut face: u32 = 0;
    while face < FACE_COUNT
        invariant
            face <= FACE_COUNT,
            size == image.height,
            image.wf(),
            image.width > 0,
            image.height > 0,
            samples_everywhere(sampler),
            face_len == byte_len(size as nat, size as nat),
            faces@.len() == face,
            forall|f: int| 0 <= f < faces@.len() ==> (#[trigger] faces@[f])@.len() == face_len,
            forall|f: u32, x: u32, y: u32|
                f < face && x < size && y < size ==> #[trigger] texel_sampled(
                    sampler,
                    image,
                    f,
                    size,
                    x,
                    y,
                    faces@[f as int]@,
                ),
        decreases FACE_COUNT - face,
    {
        let mut face_pixels: Vec<u8> = vec![0u8; face_len];
        fill_cubemap_face(image, face, size, &mut face_pixels, sampler);
        let ghost earlier = faces@;
        faces.push(face_pixels);
        proof {
            assert forall|f: u32, x: u32, y: u32|
                f < face + 1 && x < size && y < size implies #[trigger] texel_sampled(
                sampler,
                image,
                f,
                size,
                x,
                y,
                faces@[f as int]@,
            ) by {
                if f < face {
                    assert(faces@[f as int] == earlier[f as int]);
                    assert(texel_sampled(sampler, image, f, size, x, y, earlier[f as int]@));
                }
            }
        }
        face += 1;
    }
    Cubemap { face_size: size, faces }
}

/// Why no cubemap could be made of a downloaded image.
#[derive(Debug, Clone, Copy, PartialEq, Eq, Structural)]
pub enum TranscodeError {
    /// The bytes are no image in an encoding that is understood.
    Undecodable,
    /// The image has no pixels.
    Empty,
}

/// What an encoded image decodes to under the decoders built into the `image`
/// crate: its width, its height and its RGBA bytes, row after row from the top;
/// nothing where the bytes cannot be decoded.
pub uninterp spec fn decoded_rgba8(bytes: Seq<u8>) -> Option<(u32, u32, Seq<u8>)>;

/// `image::guess_format` and `image::load_from_memory_with_format`, then
/// `DynamicImage::to_rgba8` and the buffer's `width`, `height` and `into_raw`.
/// The format is told from the first bytes by the crate's built-in signatures
/// and decoded by its built-in decoder for that format, so that the result
/// depends on the bytes alone. The buffer that comes back holds the pixels in its
/// first `width * height * 4` bytes and may be longer than that.
#[verifier::external_body]
pub(crate) fn decode_rgba8(bytes: &[u8]) -> (r: Option<(u32, u32, Vec<u8>)>)
    ensures
        match r {
            Some((width, height, pixels)) => {
                &&& decoded_rgba8(bytes@) == Some((width, height, pixels@))
                &&& byte_len(width as nat, height as nat) <= pixels@.len()
            },
            None => decoded_rgba8(bytes@) is None,
        },
{
    let decoded = match image::guess_format(bytes) {
        Ok(format) => image::load_from_memory_with_format(bytes, format),
        Err(unknown) => Err(unknown),
    };
    match decoded {
        Ok(decoded) => {
            let rgba = decoded.to_rgba8();
            Some((rgba.width(), rgba.height(), rgba.into_raw()))
        },
        Err(_) => None,
    }
}

/// Whether `image` is what `bytes` decode to.
pub open spec fn is_decoding_of(image: Raster, bytes: Seq<u8>) -> bool {
    match decoded_rgba8(bytes) {
        Some((width, height, pixels)) => {
            &&& image.wf()
            &&& image.width == width
            &&& image.height == height
            &&& image.pixels@ == pixels.subrange(0, byte_len(width as nat, height as nat) as int)
        },
        None => false,
    }
}

/// Decodes an image; `None` where the bytes are no image that is understood.
pub fn decode_image(bytes: &[u8]) -> (r: Option<Raster>)
    ensures
        r is Some <==> decoded_rgba8(bytes@) is Some,
        r matches Some(image) ==> is_decoding_of(image, bytes@),
{
    match decode_rgba8(bytes) {
        Some((width, height, pixels)) => Raster::from_rgba(width, height, pixels),
        None => None,
    }
}

/// Whether `cubemap` is cut from `image`, brought to the wanted aspect, with
/// the colours of `sampler`.
pub open spec fn is_cubemap_of<F: Fn(&Raster, i64, i64, i64) -> [u8; 4]>(
    cubemap: Cubemap,
    image: Raster,
    sampler: &F,
) -> bool {
    &&& cubemap.wf()
    &&& cubemap.face_size == fitted_height(image.width, image.height)
    &&& exists|fitted: Raster|
        {
            &&& fitted.wf()
            &&& fitted.width == image.width
            &&& fitted.height == cubemap.face_size
            &&& fitted.pixels@ == image.pixels@.subrange(
                0,
                byte_len(image.width as nat, fitted.height as nat) as int,
            )
            &&& #[trigger] cubemap.sampled_from(sampler, &fitted)
        }
}

/// Makes a cubemap of a decoded panorama: the panorama is brought to the aspect
/// of two to one, and the faces are cut from what is left. The second part of the
/// result says how the panorama compared with that aspect. An image without
/// pixels is refused.
pub fn transcode<F: Fn(&Raster, i64, i64, i64) -> [u8; 4]>(image: Raster, sampler: &F) -> (r:
    Result<(Cubemap, PanoramaFit), TranscodeError>)
    requires
        image.wf(),
        samples_everywhere(sampler),
    ensures
        match r {
            Ok((cubemap, fit)) => {
                &&& image.width > 0 && image.height > 0
                &&& fit == fit_spec(image.width, image.height)
                &&& is_cubemap_of(cubemap, image, sampler)
            },
            Err(e) => e == TranscodeError::Empty && (image.width == 0 || image.height == 0),
        },
{
    if image.width == 0 || image.height == 0 {
        return Err(TranscodeError::Empty);
    }
    let ghost whole = image;
    let (fitted, fit) = enforce_aspect(image);
    let cubemap = build_cubemap(&fitted, sampler);
    proof {
        assert(cubemap.sampled_from(sampler, &fitted));
        assert(is_cubemap_of(cubemap, whole, sampler));
    }
    Ok((cubemap, fit))
}

/// Makes a cubemap of a downloaded panorama.
pub fn convert_to_cubemap<F: Fn(&Raster, i64, i64, i64) -> [u8; 4]>(bytes: &[u8], sampler: &F) -> (r:
    Result<(Cubemap, PanoramaFit), TranscodeError>)
    requires
        samples_everywhere(sampler),
    ensures
        match r {
            Ok((cubemap, fit)) => exists|image: Raster|
                {
                    &&& #[trigger] is_decoding_of(image, bytes@)
                    &&& image.width > 0 && image.height > 0
                    &&& fit == fit_spec(image.width, image.height)
                    &&& is_cubemap_of(cubemap, image, sampler)
                },
            Err(TranscodeError::Undecodable) => decoded_rgba8(bytes@) is None,
            Err(TranscodeError::Empty) => decoded_rgba8(bytes@) matches Some((width, height, _))
                && (width == 0 || height == 0),
        },
{
    match decode_image(bytes) {
        None => Err(TranscodeError::Undecodable),
        Some(image) => {
            let ghost decoded = image;
            let r = transcode(image, sampler);
            proof {
                assert(is_decoding_of(decoded, bytes@));
            }
            r
        },
    }
}

} // verus!
