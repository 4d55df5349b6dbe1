//! Image processing of the capture pipeline: cropping of the selected region,
//! black-frame detection by pixel sampling, capture file naming, the captures
//! directory and PNG encoding.

use vstd::prelude::*;

use crate::capture::CaptureModeName;
use crate::error::opt_view;
use crate::text::{
    contains_string, dec_chars, is_main_separator, join_path, main_separator, path_join, push_decimal,
    push_str,
    string_from_chars, strings_view,
};

verus! {

/// An RGBA image: `width * height` pixels of four bytes each, row by row.
pub struct RawImage {
    width: u32,
    height: u32,
    data: Vec<u8>,
}

impl RawImage {
    #[verifier::type_invariant]
    spec fn wf(&self) -> bool {
        self.data@.len() == self.width as nat * self.height as nat * 4
    }
}

impl View for RawImage {
    /// Width, height and the RGBA bytes.
    type V = (u32, u32, Seq<u8>);

    closed spec fn view(&self) -> (u32, u32, Seq<u8>) {
        (self.width, self.height, self.data@)
    }
}

/// `img` has the right number of bytes for its dimensions.
pub open spec fn image_wf(img: (u32, u32, Seq<u8>)) -> bool {
    img.2.len() == img.0 as nat * img.1 as nat * 4
}

impl RawImage {
    /// An image from its dimensions and RGBA bytes, when the byte count is
    /// exactly `width * height * 4`.
    pub fn from_raw(width: u32, height: u32, data: Vec<u8>) -> (r: Option<Self>)
        ensures
            (data@.len() == width as nat * height as nat * 4) <==> r is Some,
            r matches Some(img) ==> img@ == (width, height, data@),
    {
        assert((width as nat) * (height as nat) <= 0xFFFF_FFFFnat * 0xFFFF_FFFFnat) by (nonlinear_arith);
        let expected: u128 = (width as u128) * (height as u128) * 4;
        if data.len() as u128 == expected {
            Some(RawImage { width, height, data })
        } else {
            None
        }
    }

    /// An image whose pixels all have the RGBA value `pixel`.
    pub fn from_pixel(width: u32, height: u32, pixel: [u8; 4]) -> (r: Self)
        requires
            width as nat * height as nat * 4 <= usize::MAX,
        ensures
            r@.0 == width,
            r@.1 == height,
            r@.2.len() == width as nat * height as nat * 4,
            forall|i: int|
                0 <= i < r@.2.len() ==> #[trigger] r@.2[i] == pixel@[i % 4],
    {
        let total: usize = (width as usize) * (height as usize);
        let mut data: Vec<u8> = Vec::new();
        let mut k: usize = 0;
        while k < total
            invariant
                k <= total,
                total == width as nat * height as nat,
                total * 4 <= usize::MAX,
                data@.len() == 4 * k,
                forall|i: int| 0 <= i < data@.len() ==> #[trigger] data@[i] == pixel@[i % 4],
            decreases total - k,
        {
            let ghost before = data@;
            data.push(pixel[0]);
            data.push(pixel[1]);
            data.push(pixel[2]);
            data.push(pixel[3]);
            assert forall|i: int| 0 <= i < data@.len() implies #[trigger] data@[i] == pixel@[i % 4] by {
                if i >= 4 * k {
                    assert(i % 4 == i - 4 * k);
                } else {
                    assert(data@[i] == before[i]);
                }
            }
            k += 1;
        }
        RawImage { width, height, data }
    }

    pub fn width(&self) -> (r: u32)
        ensures
            r == self@.0,
    {
        self.width
    }

    pub fn height(&self) -> (r: u32)
        ensures
            r == self@.1,
    {
        self.height
    }

    /// The RGBA bytes.
    pub fn as_raw(&self) -> (r: &Vec<u8>)
        ensures
            r@ == self@.2,
    {
        &self.data
    }

    /// The RGBA bytes, consuming the image.
    pub fn into_raw(self) -> (r: Vec<u8>)
        ensures
            r@ == self@.2,
    {
        self.data
    }

    /// Whether the dimensions and bytes of the two images agree.
    pub fn same_as(&self, other: &RawImage) -> (r: bool)
        ensures
            r == (self@ == other@),
    {
        if self.width != other.width || self.height != other.height || self.data.len()
            != other.data.len() {
            assert(self@ != other@);
            return false;
        }
        let mut i: usize = 0;
        while i < self.data.len()
            invariant
                i <= self.data@.len(),
                self.data@.len() == other.data@.len(),
                forall|k: int| 0 <= k < i ==> self.data@[k] == other.data@[k],
            decreases self.data@.len() - i,
        {
            if self.data[i] != other.data[i] {
                assert(self@.2[i as int] != other@.2[i as int]);
                return false;
            }
            i += 1;
        }
        assert(self.data@ =~= other.data@);
        true
    }

    /// A copy of this image.
    pub fn duplicate(&self) -> (r: Self)
        ensures
            r@ == self@,
    {
        proof {
            use_type_invariant(self);
        }
        let mut data: Vec<u8> = Vec::new();
        data.extend_from_slice(self.data.as_slice());
        assert(data@ =~= self.data@);
        RawImage { width: self.width, height: self.height, data }
    }
}

// ------------------------------------------------------------------
// Black-frame detection
// ------------------------------------------------------------------

/// Pixel `i` of the RGBA bytes `data` is black: R + G + B < 30.
pub open spec fn pixel_is_black(data: Seq<u8>, i: int) -> bool {
    data[4 * i] + data[4 * i + 1] + data[4 * i + 2] < 30
}

/// The number of black pixels among the sampled pixel indices.
pub open spec fn black_count(data: Seq<u8>, samples: Seq<usize>) -> nat
    decreases samples.len(),
{
    if samples.len() == 0 {
        0
    } else {
        black_count(data, samples.drop_last()) + if pixel_is_black(
            data,
            samples.last() as int,
        ) {
            1nat
        } else {
            0nat
        }
    }
}

/// A sample with `black` black pixels out of `sampled` classifies the image as
/// black: at least 99% of the sampled pixels are black.
pub open spec fn black_verdict(black: nat, sampled: nat) -> bool {
    sampled > 0 && 100 * black >= 99 * sampled
}

/// Every pixel of a non-empty image is black.
pub open spec fn all_black(img: (u32, u32, Seq<u8>)) -> bool {
    &&& img.0 as nat * img.1 as nat > 0
    &&& forall|p: int| 0 <= p < img.0 as nat * img.1 as nat ==> #[trigger] pixel_is_black(img.2, p)
}

/// No pixel of the image is black.
pub open spec fn none_black(img: (u32, u32, Seq<u8>)) -> bool {
    forall|p: int| 0 <= p < img.0 as nat * img.1 as nat ==> !#[trigger] pixel_is_black(img.2, p)
}

/// The number of pixels a black-frame check samples: all of them, up to 1000.
pub open spec fn sample_size(img: (u32, u32, Seq<u8>)) -> nat {
    if img.0 as nat * img.1 as nat <= 1000 {
        img.0 as nat * img.1 as nat
    } else {
        1000
    }
}

/// `is_black` is a verdict that a black-frame check can reach on `img`: the
/// verdict of some sample of `sample_size(img)` pixels of the image.
pub open spec fn possible_verdict(img: (u32, u32, Seq<u8>), is_black: bool) -> bool {
    exists|s: Seq<usize>|
        {
            &&& s.len() == sample_size(img)
            &&& forall|k: int| 0 <= k < s.len() ==> s[k] < img.0 as nat * img.1 as nat
            &&& #[trigger] black_verdict(black_count(img.2, s), s.len()) == is_black
        }
}

/// The outcome of a black-frame check.
pub struct DetectionResult {
    /// At least 99% of the sampled pixels are black.
    pub is_black: bool,
    /// The number of pixels sampled.
    pub sampled_pixels: usize,
    /// The number of sampled pixels that are black.
    pub black_pixels: usize,
}

proof fn lemma_black_count_bounds(data: Seq<u8>, samples: Seq<usize>)
    ensures
        black_count(data, samples) <= samples.len(),
    decreases samples.len(),
{
    if samples.len() > 0 {
        lemma_black_count_bounds(data, samples.drop_last());
    }
}

proof fn lemma_black_count_all(data: Seq<u8>, samples: Seq<usize>, n: nat)
    requires
        forall|k: int| 0 <= k < samples.len() ==> samples[k] < n,
        forall|p: int| 0 <= p < n ==> #[trigger] pixel_is_black(data, p),
    ensures
        black_count(data, samples) == samples.len(),
    decreases samples.len(),
{
    if samples.len() > 0 {
        lemma_black_count_all(data, samples.drop_last(), n);
        assert(pixel_is_black(data, samples.last() as int));
    }
}

proof fn lemma_black_count_none(data: Seq<u8>, samples: Seq<usize>, n: nat)
    requires
        forall|k: int| 0 <= k < samples.len() ==> samples[k] < n,
        forall|p: int| 0 <= p < n ==> !#[trigger] pixel_is_black(data, p),
    ensures
        black_count(data, samples) == 0,
    decreases samples.len(),
{
    if samples.len() > 0 {
        lemma_black_count_none(data, samples.drop_last(), n);
        assert(!pixel_is_black(data, samples.last() as int));
    }
}

/// A uniformly random pixel index from `rand::Rng::gen_range(0..total)` on
/// the thread-local generator: all that is claimed is that it lies below
/// `total` (the range is non-empty, so `gen_range` does not panic).
#[verifier::external_body]
fn random_pixel_index(total: usize) -> (r: usize)
    requires
        total > 0,
    ensures
        r < total,
{
    rand::Rng::gen_range(&mut rand::thread_rng(), 0..total)
}

/// Detects black images by statistical pixel sampling.
pub struct BlackImageDetector;

impl BlackImageDetector {
    /// Classifies the image from the given sample of pixel indices.
    pub fn check_samples(image: &RawImage, samples: &Vec<usize>) -> (r: DetectionResult)
        requires
            forall|k: int|
                0 <= k < samples@.len() ==> #[trigger] samples@[k] < image@.0 as nat
                    * image@.1 as nat,
        ensures
            r.sampled_pixels == samples@.len(),
            r.black_pixels == black_count(image@.2, samples@),
            r.is_black == black_verdict(r.black_pixels as nat, r.sampled_pixels as nat),
    {
        proof {
            use_type_invariant(image);
        }
        let mut black: usize = 0;
        let mut i: usize = 0;
        while i < samples.len()
            invariant
                i <= samples@.len(),
                image.data@.len() == image.width as nat * image.height as nat * 4,
                forall|k: int|
                    0 <= k < samples@.len() ==> #[trigger] samples@[k] < image@.0 as nat
                        * image@.1 as nat,
                black == black_count(image@.2, samples@.subrange(0, i as int)),
                black <= i,
            decreases samples@.len() - i,
        {
            let idx = samples[i];
            let ghost wh = image.width as nat * image.height as nat;
            assert(idx < wh);
            assert(image.data@.len() == wh * 4);
            let dl = image.data.len();
            assert(4 * idx + 2 < dl);
            let base = 4 * idx;
            let r = image.data[base] as u32;
            let g = image.data[base + 1] as u32;
            let b = image.data[base + 2] as u32;
            let ghost prefix = samples@.subrange(0, i as int);
            assert(samples@.subrange(0, i + 1).drop_last() =~= prefix);
            if r + g + b < 30 {
                black += 1;
            }
            i += 1;
        }
        assert(samples@.subrange(0, samples@.len() as int) =~= samples@);
        let n = samples.len();
        let is_black = n > 0 && (black as u128) * 100 >= (n as u128) * 99;
        DetectionResult { is_black, sampled_pixels: n, black_pixels: black }
    }

    /// Samples up to 1000 random pixels; the image is black when at least 99%
    /// of them are (a pixel is black when R + G + B < 30). An empty image is
    /// never black.
    pub fn check(image: &RawImage) -> (r: DetectionResult)
        ensures
            r.sampled_pixels == if image@.0 as nat * image@.1 as nat <= 1000 {
                image@.0 as nat * image@.1 as nat
            } else {
                1000
            },
            exists|s: Seq<usize>|
                {
                    &&& s.len() == r.sampled_pixels
                    &&& forall|k: int| 0 <= k < s.len() ==> s[k] < image@.0 as nat * image@.1 as nat
                    &&& r.black_pixels == black_count(image@.2, s)
                },
            r.black_pixels <= r.sampled_pixels,
            r.is_black == black_verdict(r.black_pixels as nat, r.sampled_pixels as nat),
            all_black(image@) ==> r.is_black,
            none_black(image@) ==> !r.is_black,
            possible_verdict(image@, r.is_black),
    {
        proof {
            use_type_invariant(image);
        }
        let dl = image.data.len();
        assert(image.width as nat * image.height as nat <= dl);
        let total: usize = (image.width as usize) * (image.height as usize);
        let sample_count: usize = if total < 1000 { total } else { 1000 };
        let mut samples: Vec<usize> = Vec::new();
        while samples.len() < sample_count
            invariant
                samples@.len() <= sample_count,
                sample_count <= total,
                total == image@.0 as nat * image@.1 as nat,
                forall|k: int| 0 <= k < samples@.len() ==> #[trigger] samples@[k] < total,
            decreases sample_count - samples@.len(),
        {
            let idx = random_pixel_index(total);
            samples.push(idx);
        }
        let r = Self::check_samples(image, &samples);
        proof {
            lemma_black_count_bounds(image@.2, samples@);
            if forall|p: int| 0 <= p < total ==> #[trigger] pixel_is_black(image@.2, p) {
                lemma_black_count_all(image@.2, samples@, total as nat);
            }
            if forall|p: int| 0 <= p < total ==> !#[trigger] pixel_is_black(image@.2, p) {
                lemma_black_count_none(image@.2, samples@, total as nat);
            }
        }
        r
    }
}

// ------------------------------------------------------------------
// Cropping
// ------------------------------------------------------------------

/// The crop rectangle `(x, y, width, height)` clamped to an image of
/// `iw` x `ih` pixels.
pub open spec fn crop_bounds(iw: nat, ih: nat, x: nat, y: nat, w: nat, h: nat) -> (nat, nat, nat, nat) {
    let cx = if x <= iw { x } else { iw };
    let cy = if y <= ih { y } else { ih };
    let cw = if w <= iw - cx { w } else { (iw - cx) as nat };
    let ch = if h <= ih - cy { h } else { (ih - cy) as nat };
    (cx, cy, cw, ch)
}

/// The first `rows` rows, each `w` pixels wide, of the rectangle at `(x, y)`
/// in RGBA bytes `data` of an image `iw` pixels wide.
pub open spec fn crop_rows(data: Seq<u8>, iw: nat, x: nat, y: nat, w: nat, rows: nat) -> Seq<u8>
    decreases rows,
{
    if rows == 0 {
        Seq::empty()
    } else {
        let row = (y + rows - 1) as nat;
        crop_rows(data, iw, x, y, w, (rows - 1) as nat) + data.subrange(
            ((row * iw + x) * 4) as int,
            ((row * iw + x + w) * 4) as int,
        )
    }
}

/// The image cut out of `img` by the rectangle `(x, y, w, h)`, clamped to
/// the image's bounds.
pub open spec fn cropped(img: (u32, u32, Seq<u8>), x: u32, y: u32, w: u32, h: u32) -> (u32, u32, Seq<u8>) {
    let b = crop_bounds(img.0 as nat, img.1 as nat, x as nat, y as nat, w as nat, h as nat);
    (b.2 as u32, b.3 as u32, crop_rows(img.2, img.0 as nat, b.0, b.1, b.2, b.3))
}

proof fn lemma_crop_rows_len(data: Seq<u8>, iw: nat, x: nat, y: nat, w: nat, rows: nat)
    requires
        x + w <= iw,
        (y + rows) * iw * 4 <= data.len(),
    ensures
        crop_rows(data, iw, x, y, w, rows).len() == rows * w * 4,
    decreases rows,
{
    if rows > 0 {
        let row = (y + rows - 1) as nat;
        assert((y + (rows - 1) as nat) * iw * 4 <= (y + rows) * iw * 4) by (nonlinear_arith)
            requires
                rows > 0,
        ;
        lemma_crop_rows_len(data, iw, x, y, w, (rows - 1) as nat);
        assert((row * iw + x + w) * 4 <= (y + rows) * iw * 4) by (nonlinear_arith)
            requires
                row + 1 == y + rows,
                x + w <= iw,
        ;
        assert(((rows - 1) as nat) * w * 4 + w * 4 == rows * w * 4) by (nonlinear_arith)
            requires
                rows > 0,
        ;
        let prev = crop_rows(data, iw, x, y, w, (rows - 1) as nat);
        let seg = data.subrange(((row * iw + x) * 4) as int, ((row * iw + x + w) * 4) as int);
        assert(seg.len() == w * 4);
        assert(crop_rows(data, iw, x, y, w, rows) == prev + seg);
    } else {
        assert(rows * w * 4 == 0) by (nonlinear_arith)
            requires
                rows == 0,
        ;
    }
}

/// Pixel `(i, j)` of a crop is pixel `(x + i, y + j)` of the source.
pub proof fn lemma_crop_pixel(data: Seq<u8>, iw: nat, x: nat, y: nat, w: nat, rows: nat, i: nat, j: nat, c: nat)
    requires
        x + w <= iw,
        (y + rows) * iw * 4 <= data.len(),
        i < w,
        j < rows,
        c < 4,
    ensures
        crop_rows(data, iw, x, y, w, rows)[((j * w + i) * 4 + c) as int] == data[(((y + j) * iw + x + i) * 4 + c) as int],
    decreases rows,
{
    let prev = crop_rows(data, iw, x, y, w, (rows - 1) as nat);
    assert((y + (rows - 1) as nat) * iw * 4 <= (y + rows) * iw * 4) by (nonlinear_arith)
            requires
                rows > 0,
        ;
    lemma_crop_rows_len(data, iw, x, y, w, (rows - 1) as nat);
    let row = (y + rows - 1) as nat;
    assert((row * iw + x + w) * 4 <= (y + rows) * iw * 4) by (nonlinear_arith)
        requires
            row + 1 == y + rows,
            x + w <= iw,
    ;
    if j + 1 < rows {
        lemma_crop_pixel(data, iw, x, y, w, (rows - 1) as nat, i, j, c);
        assert((j * w + i) * 4 + c < ((rows - 1) as nat) * w * 4) by (nonlinear_arith)
            requires
                j + 1 < rows,
                i < w,
                c < 4,
        ;
    } else {
        assert(j == rows - 1);
        assert((j * w + i) * 4 + c == ((rows - 1) as nat) * w * 4 + i * 4 + c) by (nonlinear_arith)
            requires
                j == rows - 1,
        ;
        assert(((y + j) * iw + x + i) * 4 + c == (row * iw + x) * 4 + i * 4 + c) by (nonlinear_arith)
            requires
                row == y + j,
        ;
    }
}

/// Cuts the rectangle `(x, y, width, height)` out of `image`, clamping it to
/// the image's bounds.
pub fn crop(image: &RawImage, x: u32, y: u32, width: u32, height: u32) -> (r: RawImage)
    ensures
        r@ == cropped(image@, x, y, width, height),
{
    proof {
        use_type_invariant(image);
    }
    let iw = image.width;
    let ih = image.height;
    let cx = if x <= iw { x } else { iw };
    let cy = if y <= ih { y } else { ih };
    let cw = if width <= iw - cx { width } else { iw - cx };
    let ch = if height <= ih - cy { height } else { ih - cy };
    let dl = image.data.len();
    let ghost data = image.data@;
    proof {
        assert((cy as nat + ch as nat) * iw as nat * 4 <= ih as nat * iw as nat * 4) by (nonlinear_arith)
            requires
                cy as nat + ch as nat <= ih as nat,
        ;
        assert(ih as nat * iw as nat * 4 == iw as nat * ih as nat * 4) by (nonlinear_arith);
    }
    let mut out: Vec<u8> = Vec::new();
    let mut r: u32 = 0;
    while r < ch
        invariant
            r <= ch,
            cx as nat + cw as nat <= iw as nat,
            cy as nat + ch as nat <= ih as nat,
            (cy as nat + ch as nat) * iw as nat * 4 <= data.len(),
            dl == data.len(),
            data == image@.2,
            iw == image@.0,
            out@ == crop_rows(data, iw as nat, cx as nat, cy as nat, cw as nat, r as nat),
        decreases ch - r,
    {
        let ghost row = (cy + r) as nat;
        proof {
            assert((row * iw as nat + cx as nat + cw as nat) * 4 <= (cy as nat + ch as nat) * iw as nat * 4) by (nonlinear_arith)
                requires
                    row + 1 <= cy as nat + ch as nat,
                    cx as nat + cw as nat <= iw as nat,
            ;
        }
        let start: usize = (((cy + r) as usize) * (iw as usize) + (cx as usize)) * 4;
        let end: usize = start + (cw as usize) * 4;
        out.extend_from_slice(vstd::slice::slice_subrange(image.data.as_slice(), start, end));
        r += 1;
        proof {
            assert(out@ =~= crop_rows(data, iw as nat, cx as nat, cy as nat, cw as nat, r as nat));
        }
    }
    proof {
        lemma_crop_rows_len(data, iw as nat, cx as nat, cy as nat, cw as nat, ch as nat);
        assert(ch as nat * cw as nat * 4 == cw as nat * ch as nat * 4) by (nonlinear_arith);
    }
    RawImage { width: cw, height: ch, data: out }
}

// ------------------------------------------------------------------
// Errors
// ------------------------------------------------------------------

/// Errors of image processing.
#[derive(Debug, Clone, PartialEq, Eq)]
pub enum ImageProcessError {
    /// The crop could not be applied (no selection, empty or out of bounds).
    CropFailed(String),
    /// PNG encoding failed.
    EncodeFailed(String),
    /// The captures directory could not be resolved.
    DirResolveFailed(String),
    /// No free file name was found.
    FileNameFailed(String),
}

/// How an image processing error reads.
pub open spec fn image_process_error_text(e: ImageProcessError) -> Seq<char> {
    match e {
        ImageProcessError::CropFailed(m) => "Failed to crop image: "@ + m@,
        ImageProcessError::EncodeFailed(m) => "Failed to encode PNG: "@ + m@,
        ImageProcessError::DirResolveFailed(m) => "Failed to resolve platform directory: "@ + m@,
        ImageProcessError::FileNameFailed(m) => "Failed to generate filename: "@ + m@,
    }
}

impl ImageProcessError {
    /// The human-readable text of this error.
    pub fn to_string(&self) -> (r: String)
        ensures
            r@ == image_process_error_text(*self),
    {
        let mut v: Vec<char> = Vec::new();
        match self {
            ImageProcessError::CropFailed(m) => {
                push_str(&mut v, "Failed to crop image: ");
                push_str(&mut v, m.as_str());
            },
            ImageProcessError::EncodeFailed(m) => {
                push_str(&mut v, "Failed to encode PNG: ");
                push_str(&mut v, m.as_str());
            },
            ImageProcessError::DirResolveFailed(m) => {
                push_str(&mut v, "Failed to resolve platform directory: ");
                push_str(&mut v, m.as_str());
            },
            ImageProcessError::FileNameFailed(m) => {
                push_str(&mut v, "Failed to generate filename: ");
                push_str(&mut v, m.as_str());
            },
        }
        string_from_chars(v.as_slice())
    }
}

/// Errors of resolving the captures directory.
#[derive(Debug)]
pub enum DirResolveError {
    /// The directory could not be created.
    CreateFailed { path: String, reason: String },
    /// Neither a data directory nor a home directory is known.
    NoPlatformDir,
}

/// How a directory resolution error reads.
pub open spec fn dir_resolve_error_text(e: DirResolveError) -> Seq<char> {
    match e {
        DirResolveError::CreateFailed { path, reason } =>
            "Failed to create directory '"@ + path@ + "': "@ + reason@,
        DirResolveError::NoPlatformDir => "No home or data directory available on this platform"@,
    }
}

impl DirResolveError {
    /// The human-readable text of this error.
    pub fn to_string(&self) -> (r: String)
        ensures
            r@ == dir_resolve_error_text(*self),
    {
        let mut v: Vec<char> = Vec::new();
        match self {
            DirResolveError::CreateFailed { path, reason } => {
                push_str(&mut v, "Failed to create directory '");
                push_str(&mut v, path.as_str());
                push_str(&mut v, "': ");
                push_str(&mut v, reason.as_str());
            },
            DirResolveError::NoPlatformDir => {
                push_str(&mut v, "No home or data directory available on this platform");
            },
        }
        assert(v@ =~= dir_resolve_error_text(*self));
        string_from_chars(v.as_slice())
    }
}

// ------------------------------------------------------------------
// File naming
// ------------------------------------------------------------------

/// The label of a mode in file names; the area mode is labelled `region`.
pub open spec fn mode_label_text(mode: CaptureModeName) -> Seq<char> {
    match mode {
        CaptureModeName::Fullscreen => "fullscreen"@,
        CaptureModeName::Area => "region"@,
        CaptureModeName::Window => "window"@,
    }
}

/// `<timestamp>_<label>`.
pub open spec fn capture_base_name(timestamp: Seq<char>, mode: CaptureModeName) -> Seq<char> {
    timestamp + "_"@ + mode_label_text(mode)
}

/// Attempt `k` at a file name: `<base>.<ext>` for the first attempt,
/// `<base>_<k>.<ext>` for the later ones.
pub open spec fn candidate_name(base: Seq<char>, ext: Seq<char>, k: nat) -> Seq<char> {
    if k <= 1 {
        base + "."@ + ext
    } else {
        base + "_"@ + dec_chars(k) + "."@ + ext
    }
}

/// The first attempt from `k` up to 100 whose name is not taken.
pub open spec fn first_free(base: Seq<char>, ext: Seq<char>, names: Seq<Seq<char>>, k: nat) -> Option<nat>
    decreases 101 - k,
{
    if k > 100 {
        None
    } else if !names.contains(candidate_name(base, ext, k)) {
        Some(k)
    } else {
        first_free(base, ext, names, k + 1)
    }
}

/// The file name chosen for a capture at `timestamp` in a directory holding
/// `names`, or the message of the failure after 100 attempts.
pub open spec fn generated_name(timestamp: Seq<char>, mode: CaptureModeName, ext: Seq<char>, names: Seq<Seq<char>>) -> Result<Seq<char>, Seq<char>> {
    let base = capture_base_name(timestamp, mode);
    match first_free(base, ext, names, 1) {
        Some(k) => Ok(candidate_name(base, ext, k)),
        None => Err(
            "Could not find non-colliding filename after 100 attempts for base '"@ + base + "'"@,
        ),
    }
}

/// A name that `first_free` picks is free, and every attempt before it is taken.
pub proof fn lemma_first_free(base: Seq<char>, ext: Seq<char>, names: Seq<Seq<char>>, k: nat)
    ensures
        first_free(base, ext, names, k) matches Some(j) ==> {
            &&& k <= j <= 100
            &&& !names.contains(candidate_name(base, ext, j))
            &&& forall|i: nat| k <= i < j ==> names.contains(#[trigger] candidate_name(base, ext, i))
        },
        first_free(base, ext, names, k) is None ==> forall|i: nat|
            k <= i <= 100 ==> names.contains(#[trigger] candidate_name(base, ext, i)),
    decreases 101 - k,
{
    if k <= 100 && names.contains(candidate_name(base, ext, k)) {
        lemma_first_free(base, ext, names, k + 1);
        assert forall|i: nat| k <= i < k + 1 implies names.contains(#[trigger] candidate_name(base, ext, i)) by {
            assert(i == k);
        }
    }
}

/// `c` is an ASCII decimal digit.
pub open spec fn is_digit(c: char) -> bool {
    '0' <= c && c <= '9'
}

/// `y` is a year as chrono's `%Y` writes it: four digits for the years 0 to
/// 9999, otherwise a sign followed by at least four digits.
pub open spec fn year_text(y: Seq<char>) -> bool {
    ||| y.len() == 4 && forall|i: int| 0 <= i < 4 ==> #[trigger] is_digit(y[i])
    ||| y.len() >= 5 && (y[0] == '+' || y[0] == '-') && forall|i: int|
        1 <= i < y.len() ==> #[trigger] is_digit(y[i])
}

/// `t` is a date and time in the form `YYYY-MM-DD_HH-MM-SS`: a year as
/// `%Y` writes it, then two-digit month, day, hour, minute and second.
pub open spec fn timestamp_text(t: Seq<char>) -> bool {
    let n = t.len();
    &&& n >= 19
    &&& year_text(t.subrange(0, n - 15))
    &&& forall|i: int| 0 <= i < 15 ==> {
        let c = #[trigger] t[n - 15 + i];
        if i == 0 || i == 3 || i == 9 || i == 12 {
            c == '-'
        } else if i == 6 {
            c == '_'
        } else {
            is_digit(c)
        }
    }
}

/// The local date and time from `chrono::Local::now()`, formatted by chrono
/// with `%Y-%m-%d_%H-%M-%S`. Which time it is depends on the clock and the
/// time zone; what is claimed is the shape that chrono writes for every
/// time: the year as `%Y` writes it, then zero-padded two-digit fields.
#[verifier::external_body]
fn local_timestamp() -> (r: String)
    ensures
        timestamp_text(r@),
{
    chrono::Local::now().format("%Y-%m-%d_%H-%M-%S").to_string()
}

/// Generates capture file names following `YYYY-MM-DD_HH-MM-SS_mode.ext`.
pub struct FileNameGenerator;

impl FileNameGenerator {
    /// The label of a mode in file names.
    pub fn mode_label(mode: &CaptureModeName) -> (r: &'static str)
        ensures
            r@ == mode_label_text(*mode),
    {
        match mode {
            CaptureModeName::Fullscreen => "fullscreen",
            CaptureModeName::Area => "region",
            CaptureModeName::Window => "window",
        }
    }

    /// The name for a capture taken at `timestamp` in a directory that holds
    /// the files `existing`: `<timestamp>_<label>.<ext>` when free, else the
    /// first free of `<timestamp>_<label>_2.<ext>` to `..._100.<ext>`.
    pub fn generate_at(
        timestamp: &str,
        mode: &CaptureModeName,
        existing: &Vec<String>,
        extension: &str,
    ) -> (r: Result<String, ImageProcessError>)
        ensures
            match generated_name(timestamp@, *mode, extension@, strings_view(existing@)) {
                Ok(n) => r matches Ok(s) && s@ == n,
                Err(m) => r matches Err(ImageProcessError::FileNameFailed(s)) && s@ == m,
            },
            r matches Ok(s) ==> !strings_view(existing@).contains(s@),
    {
        let ghost names = strings_view(existing@);
        let mut bv: Vec<char> = Vec::new();
        push_str(&mut bv, timestamp);
        push_str(&mut bv, "_");
        push_str(&mut bv, Self::mode_label(mode));
        let base = string_from_chars(bv.as_slice());
        let ghost b = base@;
        assert(b =~= capture_base_name(timestamp@, *mode));
        proof {
            lemma_first_free(b, extension@, names, 1);
        }
        let mut first: Vec<char> = Vec::new();
        push_str(&mut first, base.as_str());
        push_str(&mut first, ".");
        push_str(&mut first, extension);
        let first_name = string_from_chars(first.as_slice());
        assert(first_name@ =~= candidate_name(b, extension@, 1));
        if !contains_string(existing, &first_name) {
            return Ok(first_name);
        }
        let mut i: u64 = 2;
        while i <= 100
            invariant
                2 <= i <= 101,
                b == base@,
                b == capture_base_name(timestamp@, *mode),
                names == strings_view(existing@),
                first_free(b, extension@, names, 1) == first_free(b, extension@, names, i as nat),
            decreases 101 - i,
        {
            let mut cv: Vec<char> = Vec::new();
            push_str(&mut cv, base.as_str());
            push_str(&mut cv, "_");
            push_decimal(&mut cv, i);
            push_str(&mut cv, ".");
            push_str(&mut cv, extension);
            let candidate = string_from_chars(cv.as_slice());
            assert(candidate@ =~= candidate_name(b, extension@, i as nat));
            if !contains_string(existing, &candidate) {
                assert(first_free(b, extension@, names, i as nat) == Some(i as nat));
                return Ok(candidate);
            }
            i += 1;
        }
        let mut mv: Vec<char> = Vec::new();
        push_str(&mut mv, "Could not find non-colliding filename after 100 attempts for base '");
        push_str(&mut mv, base.as_str());
        push_str(&mut mv, "'");
        let msg = string_from_chars(mv.as_slice());
        assert(msg@ =~= "Could not find non-colliding filename after 100 attempts for base '"@ + b + "'"@);
        Err(ImageProcessError::FileNameFailed(msg))
    }

    /// The name for a capture taken now; see [`FileNameGenerator::generate_at`].
    pub fn generate(mode: &CaptureModeName, existing: &Vec<String>, extension: &str) -> (r: Result<String, ImageProcessError>)
        ensures
            exists|timestamp: Seq<char>|
                timestamp_text(timestamp) && match #[trigger] generated_name(timestamp, *mode, extension@, strings_view(existing@)) {
                    Ok(n) => r matches Ok(s) && s@ == n,
                    Err(m) => r matches Err(ImageProcessError::FileNameFailed(s)) && s@ == m,
                },
            r matches Ok(s) ==> !strings_view(existing@).contains(s@),
    {
        let timestamp = local_timestamp();
        Self::generate_at(timestamp.as_str(), mode, existing, extension)
    }
}

// ------------------------------------------------------------------
// Captures directory
// ------------------------------------------------------------------

/// `<base>/screenshot-tool/captures`, joined with the separator `sep`.
pub open spec fn captures_dir_text(base: Seq<char>, sep: char) -> Seq<char> {
    path_join(path_join(base, "screenshot-tool"@, sep), "captures"@, sep)
}

/// The captures directory for a platform data directory `data_dir` and home
/// directory `home_dir`: under the data directory, falling back to the home
/// directory; `None` when neither is known.
pub open spec fn captures_dir_for(
    data_dir: Option<Seq<char>>,
    home_dir: Option<Seq<char>>,
    sep: char,
) -> Option<Seq<char>> {
    match data_dir {
        Some(d) => Some(captures_dir_text(d, sep)),
        None => match home_dir {
            Some(h) => Some(captures_dir_text(h, sep)),
            None => None,
        },
    }
}

/// `r` is how resolving the captures directory turns out for `data_dir`
/// and `home_dir` with the path separator `sep`.
pub open spec fn resolved_as(
    data_dir: Option<Seq<char>>,
    home_dir: Option<Seq<char>>,
    sep: char,
    r: Result<String, DirResolveError>,
) -> bool {
    match captures_dir_for(data_dir, home_dir, sep) {
        Some(dir) => r matches Ok(s) && s@ == dir,
        None => r matches Err(DirResolveError::NoPlatformDir),
    }
}

/// The platform's data directory from `dirs::data_dir()` (on Linux
/// `$XDG_DATA_HOME` or `~/.local/share`), as text. It depends on the
/// environment, so nothing is claimed of it.
#[verifier::external_body]
fn platform_data_dir() -> (r: Option<String>) {
    dirs::data_dir().map(|p| p.to_string_lossy().to_string())
}

/// The user's home directory from `dirs::home_dir()`, as text. It depends on
/// the environment, so nothing is claimed of it.
#[verifier::external_body]
fn platform_home_dir() -> (r: Option<String>) {
    dirs::home_dir().map(|p| p.to_string_lossy().to_string())
}

/// Resolves the directory where captures are saved.
pub struct PlatformDirResolver;

impl PlatformDirResolver {
    /// The captures directory under the platform data directory, falling back
    /// to the home directory, joined with the separator `separator`;
    /// `NoPlatformDir` when neither directory is known.
    pub fn captures_dir_with(
        data_dir: Option<String>,
        home_dir: Option<String>,
        separator: char,
    ) -> (r: Result<String, DirResolveError>)
        ensures
            resolved_as(opt_view(data_dir), opt_view(home_dir), separator, r),
    {
        let base = match data_dir {
            Some(d) => d,
            None => match home_dir {
                Some(h) => h,
                None => {
                    return Err(DirResolveError::NoPlatformDir);
                },
            },
        };
        let app_dir = join_path(base.as_str(), "screenshot-tool", separator);
        Ok(join_path(app_dir.as_str(), "captures", separator))
    }

    /// The captures directory under the platform data directory, falling back
    /// to the home directory, joined with the platform's path separator;
    /// `NoPlatformDir` when neither directory is known.
    pub fn captures_dir(data_dir: Option<String>, home_dir: Option<String>) -> (r: Result<String, DirResolveError>)
        ensures
            exists|sep: char| is_main_separator(sep) && #[trigger] resolved_as(opt_view(data_dir), opt_view(home_dir), sep, r),
    {
        let sep = main_separator();
        Self::captures_dir_with(data_dir, home_dir, sep)
    }

    /// The captures directory of this machine, from the data and home
    /// directories that the platform reports; creating it is the host's part.
    pub fn locate() -> (r: Result<String, DirResolveError>)
        ensures
            exists|data_dir: Option<Seq<char>>, home_dir: Option<Seq<char>>, sep: char|
                is_main_separator(sep) && #[trigger] resolved_as(data_dir, home_dir, sep, r),
    {
        let data_dir = platform_data_dir();
        let home_dir = platform_home_dir();
        let sep = main_separator();
        let r = Self::captures_dir_with(data_dir, home_dir, sep);
        assert(resolved_as(opt_view(data_dir), opt_view(home_dir), sep, r));
        r
    }
}

// ------------------------------------------------------------------
// Processing
// ------------------------------------------------------------------

/// The region selected for an area capture.
#[derive(Debug, Clone, Copy, PartialEq, Eq, Structural)]
pub struct SelectionRegion {
    pub x: u32,
    pub y: u32,
    pub width: u32,
    pub height: u32,
}

/// The input of image processing.
pub struct CaptureInput {
    /// The captured image.
    pub image: RawImage,
    /// The capture mode.
    pub mode: CaptureModeName,
    /// The selected region, required in area mode.
    pub selection: Option<SelectionRegion>,
    /// The black-frame detector flagged the image.
    pub is_potentially_black: bool,
}

/// The result of image processing: PNG bytes and what saving them needs.
#[derive(Debug)]
pub struct ProcessedCapture {
    /// The encoded PNG file.
    pub png_bytes: Vec<u8>,
    /// The RGBA bytes of the (possibly cropped) image, for the clipboard.
    pub rgba_bytes: Vec<u8>,
    /// Directory joined with the file name.
    pub target_path: String,
    /// The generated file name.
    pub filename: String,
    /// Width of the (possibly cropped) image.
    pub width: u32,
    /// Height of the (possibly cropped) image.
    pub height: u32,
    /// The image may be black.
    pub is_black_warning: bool,
}

/// The PNG file that encodes an RGBA image, or `None` when the encoder
/// refuses it.
pub uninterp spec fn png_encoding(width: u32, height: u32, rgba: Seq<u8>) -> Option<Seq<u8>>;

/// Encodes an RGBA image as PNG with `DynamicImage::write_to(.., ImageFormat::Png)`
/// of the `image` crate. The encoder is deterministic, so its output is named
/// by `png_encoding` of the image's dimensions and bytes; the bytes themselves,
/// and the text of an encoder error, are not stated.
#[verifier::external_body]
pub(crate) fn encode_png(image: &RawImage) -> (r: Result<Vec<u8>, String>)
    ensures
        match r {
            Ok(bytes) => png_encoding(image@.0, image@.1, image@.2) == Some(bytes@),
            Err(_) => png_encoding(image@.0, image@.1, image@.2) is None,
        },
{
    let buffer = image::RgbaImage::from_raw(image.width, image.height, image.data.clone()).unwrap();
    let mut bytes: Vec<u8> = Vec::new();
    let written = image::DynamicImage::ImageRgba8(buffer).write_to(
        &mut std::io::Cursor::new(&mut bytes),
        image::ImageFormat::Png,
    );
    match written {
        Ok(()) => Ok(bytes),
        Err(e) => Err(e.to_string()),
    }
}

/// The message of a selection with a zero dimension.
pub open spec fn zero_dims_message(w: u32, h: u32) -> Seq<char> {
    "SelectionRegion dimensions must be > 0, got width="@ + dec_chars(w as nat) + " height="@
        + dec_chars(h as nat)
}

/// The message of a selection that leaves the image.
pub open spec fn out_of_bounds_message(s: SelectionRegion, iw: u32, ih: u32) -> Seq<char> {
    "SelectionRegion (x="@ + dec_chars(s.x as nat) + ", y="@ + dec_chars(s.y as nat) + ", "@
        + dec_chars(s.width as nat) + "x"@ + dec_chars(s.height as nat)
        + ") is out of image bounds ("@ + dec_chars(iw as nat) + "x"@ + dec_chars(ih as nat)
        + ")"@
}

/// The image that processing encodes, or the message of a failed crop: in
/// area mode the selection is required, must have positive dimensions and
/// must lie within the image; the other modes keep the whole image.
pub open spec fn selection_outcome(
    img: (u32, u32, Seq<u8>),
    mode: CaptureModeName,
    selection: Option<SelectionRegion>,
) -> Result<(u32, u32, Seq<u8>), Seq<char>> {
    if mode == CaptureModeName::Area {
        match selection {
            None => Err("SelectionRegion is required for Area mode but was None"@),
            Some(s) => if s.width == 0 || s.height == 0 {
                Err(zero_dims_message(s.width, s.height))
            } else if s.x + s.width > u32::MAX {
                Err("SelectionRegion x + width overflow u32"@)
            } else if s.y + s.height > u32::MAX {
                Err("SelectionRegion y + height overflow u32"@)
            } else if s.x + s.width > img.0 || s.y + s.height > img.1 {
                Err(out_of_bounds_message(s, img.0, img.1))
            } else {
                Ok(cropped(img, s.x, s.y, s.width, s.height))
            },
        }
    } else {
        Ok(img)
    }
}

/// `r` is what processing `input` gives when the captures directory resolved
/// to `target_dir`, the directory holds `names`, the clock reads `timestamp`
/// and paths are joined with the separator `sep`.
pub open spec fn processed_as(
    input: CaptureInput,
    target_dir: Result<String, String>,
    names: Seq<Seq<char>>,
    timestamp: Seq<char>,
    sep: char,
    r: Result<ProcessedCapture, ImageProcessError>,
) -> bool {
    match selection_outcome(input.image@, input.mode, input.selection) {
        Err(m) => r matches Err(ImageProcessError::CropFailed(s)) && s@ == m,
        Ok(img) => match target_dir {
            Err(d) => r matches Err(ImageProcessError::DirResolveFailed(s)) && s@ == d@,
            Ok(dir) => match generated_name(timestamp, input.mode, "png"@, names) {
                Err(m) => r matches Err(ImageProcessError::FileNameFailed(s)) && s@ == m,
                Ok(name) => match png_encoding(img.0, img.1, img.2) {
                    None => r matches Err(ImageProcessError::EncodeFailed(_)),
                    Some(bytes) => r matches Ok(p) && {
                        &&& p.png_bytes@ == bytes
                        &&& p.rgba_bytes@ == img.2
                        &&& p.width == img.0
                        &&& p.height == img.1
                        &&& p.filename@ == name
                        &&& p.target_path@ == path_join(dir@, name, sep)
                        &&& p.is_black_warning == input.is_potentially_black
                    },
                },
            },
        },
    }
}

fn zero_dims_text(w: u32, h: u32) -> (r: String)
    ensures
        r@ == zero_dims_message(w, h),
{
    let mut v: Vec<char> = Vec::new();
    push_str(&mut v, "SelectionRegion dimensions must be > 0, got width=");
    push_decimal(&mut v, w as u64);
    push_str(&mut v, " height=");
    push_decimal(&mut v, h as u64);
    assert(v@ =~= zero_dims_message(w, h));
    string_from_chars(v.as_slice())
}

fn out_of_bounds_text(s: SelectionRegion, iw: u32, ih: u32) -> (r: String)
    ensures
        r@ == out_of_bounds_message(s, iw, ih),
{
    let mut v: Vec<char> = Vec::new();
    push_str(&mut v, "SelectionRegion (x=");
    push_decimal(&mut v, s.x as u64);
    push_str(&mut v, ", y=");
    push_decimal(&mut v, s.y as u64);
    push_str(&mut v, ", ");
    push_decimal(&mut v, s.width as u64);
    push_str(&mut v, "x");
    push_decimal(&mut v, s.height as u64);
    push_str(&mut v, ") is out of image bounds (");
    push_decimal(&mut v, iw as u64);
    push_str(&mut v, "x");
    push_decimal(&mut v, ih as u64);
    push_str(&mut v, ")");
    assert(v@ =~= out_of_bounds_message(s, iw, ih));
    string_from_chars(v.as_slice())
}

/// Processes captured images: conditional crop, naming and PNG encoding.
pub struct ImageProcessor;

impl ImageProcessor {
    /// The image to encode: the selection cut out in area mode, the whole
    /// image otherwise.
    pub fn select(input: &CaptureInput) -> (r: Result<RawImage, ImageProcessError>)
        ensures
            match selection_outcome(input.image@, input.mode, input.selection) {
                Err(m) => r matches Err(ImageProcessError::CropFailed(s)) && s@ == m,
                Ok(img) => r matches Ok(i) && i@ == img,
            },
    {
        match input.mode {
            CaptureModeName::Area => {
                let region = match input.selection {
                    Some(s) => s,
                    None => {
                        let m = "SelectionRegion is required for Area mode but was None".to_owned();
                        return Err(ImageProcessError::CropFailed(m));
                    },
                };
                if region.width == 0 || region.height == 0 {
                    return Err(ImageProcessError::CropFailed(zero_dims_text(region.width, region.height)));
                }
                let right = match region.x.checked_add(region.width) {
                    Some(v) => v,
                    None => {
                        return Err(ImageProcessError::CropFailed("SelectionRegion x + width overflow u32".to_owned()));
                    },
                };
                let bottom = match region.y.checked_add(region.height) {
                    Some(v) => v,
                    None => {
                        return Err(ImageProcessError::CropFailed("SelectionRegion y + height overflow u32".to_owned()));
                    },
                };
                let iw = input.image.width();
                let ih = input.image.height();
                if right > iw || bottom > ih {
                    return Err(ImageProcessError::CropFailed(out_of_bounds_text(region, iw, ih)));
                }
                Ok(crop(&input.image, region.x, region.y, region.width, region.height))
            },
            _ => Ok(input.image.duplicate()),
        }
    }

    /// Processes `input` for a captures directory `target_dir` (or the text of
    /// the error that resolving it gave) holding the files `existing`, at the
    /// time `timestamp`: crop, file name, PNG encoding, target path.
    pub fn process_at(
        input: CaptureInput,
        target_dir: Result<String, String>,
        existing: &Vec<String>,
        timestamp: &str,
        separator: char,
    ) -> (r: Result<ProcessedCapture, ImageProcessError>)
        ensures
            processed_as(input, target_dir, strings_view(existing@), timestamp@, separator, r),
            r matches Ok(p) ==> png_encoding(p.width, p.height, p.rgba_bytes@) == Some(p.png_bytes@),
    {
        let final_image = match Self::select(&input) {
            Ok(i) => i,
            Err(e) => {
                return Err(e);
            },
        };
        let dir = match target_dir {
            Ok(d) => d,
            Err(d) => {
                return Err(ImageProcessError::DirResolveFailed(d));
            },
        };
        let filename = match FileNameGenerator::generate_at(timestamp, &input.mode, existing, "png") {
            Ok(n) => n,
            Err(e) => {
                return Err(e);
            },
        };
        let encoded = encode_png(&final_image);
        Self::package(final_image, dir.as_str(), filename, encoded, input.is_potentially_black, separator)
    }

    /// Assembles the processed capture from the image to save, its captures
    /// directory and file name, and the outcome `encoded` of PNG-encoding it:
    /// an encoder failure is `EncodeFailed` with the encoder's text.
    pub fn package(
        image: RawImage,
        dir: &str,
        filename: String,
        encoded: Result<Vec<u8>, String>,
        is_black_warning: bool,
        separator: char,
    ) -> (r: Result<ProcessedCapture, ImageProcessError>)
        ensures
            match encoded {
                Err(m) => r == Err::<ProcessedCapture, ImageProcessError>(ImageProcessError::EncodeFailed(m)),
                Ok(bytes) => r matches Ok(p) && {
                    &&& p.png_bytes == bytes
                    &&& p.rgba_bytes@ == image@.2
                    &&& p.width == image@.0
                    &&& p.height == image@.1
                    &&& p.filename == filename
                    &&& p.target_path@ == path_join(dir@, filename@, separator)
                    &&& p.is_black_warning == is_black_warning
                },
            },
    {
        let png_bytes = match encoded {
            Ok(b) => b,
            Err(m) => {
                return Err(ImageProcessError::EncodeFailed(m));
            },
        };
        let target_path = join_path(dir, filename.as_str(), separator);
        let width = image.width();
        let height = image.height();
        let rgba_bytes = image.into_raw();
        Ok(ProcessedCapture {
            png_bytes,
            rgba_bytes,
            target_path,
            filename,
            width,
            height,
            is_black_warning,
        })
    }

    /// Processes `input` at the current local time; see
    /// [`ImageProcessor::process_at`].
    pub fn process(
        input: CaptureInput,
        target_dir: Result<String, String>,
        existing: &Vec<String>,
    ) -> (r: Result<ProcessedCapture, ImageProcessError>)
        ensures
            exists|timestamp: Seq<char>, sep: char|
                timestamp_text(timestamp) && is_main_separator(sep) && #[trigger] processed_as(
                    input,
                    target_dir,
                    strings_view(existing@),
                    timestamp,
                    sep,
                    r,
                ),
            r matches Ok(p) ==> png_encoding(p.width, p.height, p.rgba_bytes@) == Some(p.png_bytes@),
    {
        let timestamp = local_timestamp();
        let sep = main_separator();
        Self::process_at(input, target_dir, existing, timestamp.as_str(), sep)
    }
}

/// In area mode a selection with positive dimensions inside the image is cut
/// out with exactly the selection's dimensions, pixel `(i, j)` of the result
/// being pixel `(x + i, y + j)` of the capture; the other modes keep the
/// captured image as it is.
pub proof fn lemma_selection_result(
    img: (u32, u32, Seq<u8>),
    mode: CaptureModeName,
    selection: Option<SelectionRegion>,
    i: nat,
    j: nat,
    c: nat,
)
    requires
        image_wf(img),
    ensures
        mode != CaptureModeName::Area ==> selection_outcome(img, mode, selection) == Ok::<(u32, u32, Seq<u8>), Seq<char>>(img),
        mode == CaptureModeName::Area ==> (selection matches Some(s) ==> (s.width > 0 && s.height > 0
            && s.x + s.width <= img.0 && s.y + s.height <= img.1 ==> (selection_outcome(img, mode, selection) matches Ok(out)
            && out.0 == s.width && out.1 == s.height && out.2.len() == s.width as nat * s.height as nat * 4
            && (i < s.width && j < s.height && c < 4 ==> out.2[((j * s.width + i) * 4 + c) as int]
                == img.2[(((s.y + j) * img.0 + s.x + i) * 4 + c) as int])))),
{
    if mode == CaptureModeName::Area {
        if let Some(s) = selection {
            if s.width > 0 && s.height > 0 && s.x + s.width <= img.0 && s.y + s.height <= img.1 {
                let b = crop_bounds(img.0 as nat, img.1 as nat, s.x as nat, s.y as nat, s.width as nat, s.height as nat);
                assert(b == (s.x as nat, s.y as nat, s.width as nat, s.height as nat));
                assert((s.y as nat + s.height as nat) * img.0 as nat * 4 <= img.1 as nat * img.0 as nat * 4) by (nonlinear_arith)
                    requires
                        s.y as nat + s.height as nat <= img.1 as nat,
                ;
                assert(img.1 as nat * img.0 as nat * 4 == img.0 as nat * img.1 as nat * 4) by (nonlinear_arith);
                lemma_crop_rows_len(img.2, img.0 as nat, s.x as nat, s.y as nat, s.width as nat, s.height as nat);
                assert(s.height as nat * s.width as nat * 4 == s.width as nat * s.height as nat * 4) by (nonlinear_arith);
                if i < s.width && j < s.height && c < 4 {
                    lemma_crop_pixel(img.2, img.0 as nat, s.x as nat, s.y as nat, s.width as nat, s.height as nat, i, j, c);
                }
            }
        }
    }
}

/// The PNG of a processed capture is the encoding of exactly the image it
/// reports: its own width, height and RGBA bytes. In area mode with a
/// selection inside the frame that image is the selection, cut out pixel by
/// pixel; in the other modes it is the whole frame.
pub proof fn lemma_processed_capture_encodes_its_image(
    input: CaptureInput,
    target_dir: Result<String, String>,
    names: Seq<Seq<char>>,
    timestamp: Seq<char>,
    sep: char,
    p: ProcessedCapture,
    i: nat,
    j: nat,
    c: nat,
)
    requires
        image_wf(input.image@),
        processed_as(input, target_dir, names, timestamp, sep, Ok::<ProcessedCapture, ImageProcessError>(p)),
    ensures
        png_encoding(p.width, p.height, p.rgba_bytes@) == Some(p.png_bytes@),
        input.mode != CaptureModeName::Area ==> p.width == input.image@.0 && p.height == input.image@.1
            && p.rgba_bytes@ == input.image@.2,
        input.mode == CaptureModeName::Area ==> (input.selection matches Some(s) ==> (
            p.width == s.width && p.height == s.height
            && p.rgba_bytes@.len() == s.width as nat * s.height as nat * 4
            && (i < s.width && j < s.height && c < 4 ==> p.rgba_bytes@[((j * s.width + i) * 4 + c) as int]
                == input.image@.2[(((s.y + j) * input.image@.0 + s.x + i) * 4 + c) as int]))),
{
    lemma_selection_result(input.image@, input.mode, input.selection, i, j, c);
}

/// A known data directory decides the captures directory, whatever the home
/// directory is; the home directory is used only when no data directory is
/// known.
pub proof fn lemma_data_dir_takes_precedence(
    data_dir: Seq<char>,
    home_dir: Option<Seq<char>>,
    other_home: Option<Seq<char>>,
    sep: char,
)
    ensures
        captures_dir_for(Some(data_dir), home_dir, sep) == Some(captures_dir_text(data_dir, sep)),
        captures_dir_for(Some(data_dir), home_dir, sep) == captures_dir_for(Some(data_dir), other_home, sep),
        home_dir matches Some(h) ==> captures_dir_for(None, home_dir, sep) == Some(captures_dir_text(h, sep)),
{
}

} // verus!
