//! The pixel layout of the 16-bit linear RGB TIFF that is uploaded for
//! remote AI masking, and the defaults of the gateway's mask results.

use vstd::prelude::*;
use vstd::endian::endianness;
use vstd::string::StringExecFns;

use image::ImageEncoder;

verus! {

/// The alignment a gateway mask result reports when it names none.
pub fn default_alignment() -> (r: String)
    ensures
        r@ == "exact"@,
{
    String::from_str("exact")
}

/// An RGB image with 16 bits per channel: `samples` holds the red, green and
/// blue sample of each pixel, row after row.
pub struct Rgb16Image {
    width: u32,
    height: u32,
    samples: Vec<u16>,
}

pub struct Rgb16ImageView {
    pub width: u32,
    pub height: u32,
    pub samples: Seq<u16>,
}

impl View for Rgb16Image {
    type V = Rgb16ImageView;

    closed spec fn view(&self) -> Rgb16ImageView {
        Rgb16ImageView { width: self.width, height: self.height, samples: self.samples@ }
    }
}

/// The number of samples of a `width` x `height` RGB image.
pub open spec fn sample_count(width: u32, height: u32) -> int {
    3 * (width * height)
}

impl Rgb16Image {
    #[verifier::type_invariant]
    spec fn well_formed(self) -> bool {
        self.samples@.len() == sample_count(self.width, self.height)
    }

    /// The image of the given size with the given samples, or `None` where
    /// their number is not three per pixel.
    pub fn from_raw(width: u32, height: u32, samples: Vec<u16>) -> (r: Option<Rgb16Image>)
        ensures
            r is Some <==> samples@.len() == sample_count(width, height),
            r matches Some(img) ==> img@ == (Rgb16ImageView {
                width,
                height,
                samples: samples@,
            }),
    {
        assert(0 <= width * height <= 0xffff_ffff * 0xffff_ffff) by (nonlinear_arith)
            requires
                width <= 0xffff_ffff,
                height <= 0xffff_ffff,
        ;
        let pixels: u64 = width as u64 * height as u64;
        let count: usize = samples.len();
        if pixels > (usize::MAX / 3) as u64 {
            return None;
        }
        if count as u64 != pixels * 3 {
            return None;
        }
        Some(Rgb16Image { width, height, samples })
    }

    pub fn width(&self) -> (r: u32)
        ensures
            r == self@.width,
    {
        self.width
    }

    pub fn height(&self) -> (r: u32)
        ensures
            r == self@.height,
    {
        self.height
    }

    pub fn samples(&self) -> (r: &Vec<u16>)
        ensures
            r@ == self@.samples,
            r@.len() == sample_count(self@.width, self@.height),
    {
        proof {
            use_type_invariant(self);
        }
        &self.samples
    }
}

/// Whether the machine this runs on stores the low byte of an integer first.
pub open spec fn native_is_little() -> bool {
    endianness() is Little
}

/// Byte `k` (0 or 1) of `v` in the machine's native byte order.
pub open spec fn native_byte(v: u16, k: int) -> u8 {
    if (k == 0) == native_is_little() {
        (v % 256) as u8
    } else {
        (v / 256) as u8
    }
}

/// The bytes of `samples`, two per sample, in the machine's native byte order.
pub open spec fn native_bytes(samples: Seq<u16>) -> Seq<u8> {
    Seq::new(2 * samples.len(), |i: int| native_byte(samples[i / 2], i % 2))
}

/// The samples that byte pairs in the machine's native byte order encode.
pub open spec fn native_samples(bytes: Seq<u8>) -> Seq<u16> {
    Seq::new(
        bytes.len() / 2,
        |i: int|
            if native_is_little() {
                (bytes[2 * i] + 256 * bytes[2 * i + 1]) as u16
            } else {
                (256 * bytes[2 * i] + bytes[2 * i + 1]) as u16
            },
    )
}

/// `u16::to_ne_bytes`: the memory representation of `v` in the machine's
/// native byte order, as its first and second byte.
#[verifier::external_body]
fn to_ne_bytes(v: u16) -> (r: (u8, u8))
    ensures
        r.0 == native_byte(v, 0),
        r.1 == native_byte(v, 1),
{
    let b = v.to_ne_bytes();
    (b[0], b[1])
}

/// Lays the samples out as the encoder takes them: two bytes each, in the
/// machine's native byte order.
pub fn rgb16_native_bytes(samples: &Vec<u16>) -> (r: Vec<u8>)
    ensures
        r@ == native_bytes(samples@),
{
    let mut bytes: Vec<u8> = Vec::new();
    let mut i: usize = 0;
    while i < samples.len()
        invariant
            i <= samples.len(),
            bytes@ =~= native_bytes(samples@.take(i as int)),
        decreases samples.len() - i,
    {
        let (first, second) = to_ne_bytes(samples[i]);
        bytes.push(first);
        bytes.push(second);
        assert(bytes@ =~= native_bytes(samples@.take(i + 1)));
        i = i + 1;
    }
    assert(samples@.take(samples.len() as int) =~= samples@);
    bytes
}

/// The native byte layout loses nothing: every sample is read back from its
/// two bytes.
pub proof fn lemma_native_bytes_lossless(samples: Seq<u16>)
    ensures
        native_samples(native_bytes(samples)) == samples,
{
    assert forall|i: int| 0 <= i < samples.len() implies #[trigger] native_samples(
        native_bytes(samples),
    )[i] == samples[i] by {
        assert(native_bytes(samples)[2 * i] == native_byte(samples[i], 0));
        assert(native_bytes(samples)[2 * i + 1] == native_byte(samples[i], 1));
    }
    assert(native_samples(native_bytes(samples)) =~= samples);
}

/// The TIFF file that the `image` crate's encoder writes for a `width` x
/// `height` RGB image with 16-bit samples held by `bytes` in the byte order
/// given by `little_endian`, that of the machine it runs on.
pub uninterp spec fn tiff_rgb16_file(little_endian: bool, bytes: Seq<u8>, width: u32, height: u32) -> Seq<u8>;

/// `TiffEncoder::write_image` of the `image` crate with `ExtendedColorType::Rgb16`,
/// into an in-memory buffer: the TIFF file of a `width` x `height` RGB image
/// whose samples `bytes` holds in the machine's native byte order, or the
/// encoder's error as text. The encoder writes the file in that byte order
/// too, so the file is named with it. It refuses an empty image; an
/// uncompressed file under 4 GiB, whose offsets fit in 32 bits, it always
/// writes. The error text is not stated.
#[verifier::external_body]
fn encode_tiff_rgb16(bytes: &[u8], width: u32, height: u32) -> (r: Result<Vec<u8>, String>)
    requires
        bytes@.len() == 2 * sample_count(width, height),
    ensures
        width == 0 || height == 0 ==> r is Err,
        width > 0 && height > 0 && bytes@.len() < 0x8000_0000 ==> r is Ok,
        r matches Ok(file) ==> file@ == tiff_rgb16_file(native_is_little(), bytes@, width, height),
{
    let mut buf = std::io::Cursor::new(Vec::new());
    image::codecs::tiff::TiffEncoder::new(&mut buf)
        .write_image(bytes, width, height, image::ExtendedColorType::Rgb16)
        .map_err(|e| e.to_string())?;
    Ok(buf.into_inner())
}

/// Encodes an image as a 16-bit linear RGB TIFF for lossless upload to the
/// gateway: the file the encoder writes for exactly the image's samples,
/// handed over in native byte order. An empty image is refused; any image
/// of less than 2 GiB of samples is encoded.
pub fn encode_linear_tiff(img: &Rgb16Image) -> (r: Result<Vec<u8>, String>)
    ensures
        img@.width == 0 || img@.height == 0 ==> r is Err,
        img@.width > 0 && img@.height > 0 && 2 * sample_count(img@.width, img@.height)
            < 0x8000_0000 ==> r is Ok,
        r matches Ok(file) ==> file@ == tiff_rgb16_file(
            native_is_little(),
            native_bytes(img@.samples),
            img@.width,
            img@.height,
        ),
{
    let samples = img.samples();
    let bytes = rgb16_native_bytes(samples);
    encode_tiff_rgb16(bytes.as_slice(), img.width(), img.height())
}

} // verus!
