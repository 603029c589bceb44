//! Operations on encoded images: flipping a fetched image and drawing the
//! outlines of detections into it. Decoding, flipping, drawing and encoding
//! are done by the `image` and `imageproc` crates; in which format a
//! flipped image is encoded, which outlines are drawn, and where, is
//! decided here.

use vstd::prelude::*;
use vstd::slice::slice_to_vec;
use crate::error::ImageError;
use crate::image_fetcher::ImageFetcher;

verus! {

/// The image formats that the monitor re-encodes to.
#[derive(Debug, Clone, Copy, PartialEq, Eq, Structural)]
pub enum ImageKind {
    Png,
    Jpeg,
}

/// A decoded image of the `image` crate.
#[verifier::external_type_specification]
#[verifier::external_body]
pub struct ExDynamicImage(image::DynamicImage);

/// What a decoded image holds: its size in pixels, its colour type, the
/// number of samples that make up a pixel, and the samples row by row from
/// the top, pixel by pixel from the left.
pub struct PictureView {
    pub width: u32,
    pub height: u32,
    /// The colour type, numbered.
    pub color: nat,
    /// Samples per pixel.
    pub channels: nat,
    pub samples: Seq<nat>,
}

/// What the decoded image `picture` holds.
pub uninterp spec fn picture_of(picture: image::DynamicImage) -> PictureView;

/// A rectangle in pixel coordinates: its top-left corner and its size.
#[derive(Debug, Clone, Copy, PartialEq, Eq, Structural)]
pub struct PixelRect {
    pub left: i32,
    pub top: i32,
    pub width: u32,
    pub height: u32,
}

/// A colour, as red, green and blue.
#[derive(Debug, Clone, Copy, PartialEq, Eq, Structural)]
pub struct Color {
    pub red: u8,
    pub green: u8,
    pub blue: u8,
}

/// The colour of the outlines: yellow.
pub open spec fn outline_color() -> Color {
    Color { red: 255, green: 255, blue: 0 }
}

/// The colour of the outlines.
pub fn yellow() -> (c: Color)
    ensures
        c == outline_color(),
{
    Color { red: 255, green: 255, blue: 0 }
}

/// How many outlines are drawn around a detection, each one pixel further
/// out than the one before.
pub const OUTLINE_COUNT: u32 = 3;

/// Whether `data` starts with `signature`.
pub open spec fn starts_with(data: Seq<u8>, signature: Seq<u8>) -> bool {
    data.len() >= signature.len() && data.subrange(0, signature.len() as int) == signature
}

/// The eight bytes that a PNG file starts with.
pub open spec fn png_signature() -> Seq<u8> {
    seq![0x89u8, 0x50u8, 0x4Eu8, 0x47u8, 0x0Du8, 0x0Au8, 0x1Au8, 0x0Au8]
}

/// The three bytes that a JPEG file starts with.
pub open spec fn jpeg_signature() -> Seq<u8> {
    seq![0xFFu8, 0xD8u8, 0xFFu8]
}

/// The format that the start of `data` tells, where that is PNG or JPEG.
pub open spec fn guessed_kind(data: Seq<u8>) -> Option<ImageKind> {
    if starts_with(data, png_signature()) {
        Some(ImageKind::Png)
    } else if starts_with(data, jpeg_signature()) {
        Some(ImageKind::Jpeg)
    } else {
        None
    }
}

/// What `image::load_from_memory` decodes `data` to; `None` where it
/// reports an error.
pub uninterp spec fn loaded(data: Seq<u8>) -> Option<PictureView>;

/// What `DynamicImage::to_rgb8` makes of a picture: the picture in eight
/// bits each of red, green and blue.
pub uninterp spec fn as_rgb(picture: PictureView) -> PictureView;

/// `picture` with the outline of `rect` drawn into it in `color`, as
/// `imageproc` draws it; `None` where the picture is not one in eight bits
/// each of red, green and blue.
pub uninterp spec fn with_outline(picture: PictureView, rect: PixelRect, color: Color) -> Option<
    PictureView,
>;

/// The encoding of `picture` in `kind` as `DynamicImage::write_to`
/// computes it; `None` where it reports an error.
pub uninterp spec fn encoding(picture: PictureView, kind: ImageKind) -> Option<Seq<u8>>;

/// The largest coordinate of an outline. Up to this number every whole
/// number is a single-precision number, which is what the edges of an
/// outline are turned into when it is drawn.
pub const COORDINATE_LIMIT: u32 = 0x100_0000;

/// Whether `rect` can be handed to `imageproc`: it is not empty, it starts
/// neither left of nor above the first pixel, and it does not reach beyond
/// [`COORDINATE_LIMIT`].
pub open spec fn drawable(rect: PixelRect) -> bool {
    &&& rect.width >= 1
    &&& rect.height >= 1
    &&& 0 <= rect.left
    &&& 0 <= rect.top
    &&& rect.left + rect.width <= COORDINATE_LIMIT
    &&& rect.top + rect.height <= COORDINATE_LIMIT
}

/// Whether `rect` lies in an image of the given size.
pub open spec fn lies_within(rect: PixelRect, image_width: u32, image_height: u32) -> bool {
    &&& 0 <= rect.left
    &&& 0 <= rect.top
    &&& rect.left + rect.width <= image_width
    &&& rect.top + rect.height <= image_height
}

/// Guesses the format of an encoded image from its first bytes.
///
/// Calls `image::guess_format`, which goes through its table of
/// signatures and names the format of the first that the data starts
/// with. The signatures of PNG and JPEG are the first two of the table, so
/// the contract states the result in full: PNG where the data starts with
/// the signature of PNG, else JPEG where it starts with that of JPEG, and
/// `None` where the function names another format or none.
#[verifier::external_body]
fn guess_kind(data: &[u8]) -> (r: Option<ImageKind>)
    ensures
        r == guessed_kind(data@),
{
    match image::guess_format(data) {
        Ok(image::ImageFormat::Png) => Some(ImageKind::Png),
        Ok(image::ImageFormat::Jpeg) => Some(ImageKind::Jpeg),
        Ok(_) => None,
        Err(_) => None,
    }
}

/// Decodes an image.
///
/// Calls `image::load_from_memory`, which depends on the data alone. The
/// contract gives what the picture holds the name [`loaded`], with `None`
/// for an error.
#[verifier::external_body]
fn load(data: &[u8]) -> (r: Option<image::DynamicImage>)
    ensures
        r matches Some(picture) ==> loaded(data@) == Some(picture_of(picture)),
        r is None ==> loaded(data@) is None,
{
    image::load_from_memory(data).ok()
}

/// Flips a picture top to bottom.
///
/// Calls `DynamicImage::flipv`, which makes a picture of the same size and
/// colour type and puts each pixel into the row that is as far from the
/// bottom as its own row is from the top. The contract states that in
/// full.
#[verifier::external_body]
fn flip(picture: &image::DynamicImage) -> (r: image::DynamicImage)
    ensures
        picture_of(r) == flipped_picture(picture_of(*picture)),
{
    picture.flipv()
}

/// Converts a picture to eight bits each of red, green and blue.
///
/// Calls `DynamicImage::to_rgb8` and wraps the result as a
/// `DynamicImage` again. The contract gives what it holds the name
/// [`as_rgb`].
#[verifier::external_body]
fn to_rgb(picture: &image::DynamicImage) -> (r: image::DynamicImage)
    ensures
        picture_of(r) == as_rgb(picture_of(*picture)),
{
    image::DynamicImage::ImageRgb8(picture.to_rgb8())
}

/// The size of a picture.
///
/// Calls `DynamicImage::width` and `DynamicImage::height`.
#[verifier::external_body]
fn size_of(picture: &image::DynamicImage) -> (r: (u32, u32))
    ensures
        r.0 == picture_of(*picture).width,
        r.1 == picture_of(*picture).height,
{
    (picture.width(), picture.height())
}

/// Draws the outline of `rect` into `picture`.
///
/// Calls `imageproc::drawing::draw_hollow_rect_mut` with a `Rect` made
/// with `Rect::at` and `of_size`, on the RGB image that
/// `DynamicImage::as_mut_rgb8` hands out; that is `None` where the picture
/// is of another colour type. `of_size` panics on an empty rectangle. The
/// right and bottom edges are computed in `i32` as corner plus size minus
/// one, turned into single-precision numbers and walked pixel by pixel up
/// to the far edge: the `requires` keeps every coordinate between 0 and
/// [`COORDINATE_LIMIT`], where none of this overflows, rounds or runs on.
/// The contract gives what the picture then holds the name
/// [`with_outline`].
#[verifier::external_body]
fn draw_outline(picture: image::DynamicImage, rect: PixelRect, color: Color) -> (r: Option<
    image::DynamicImage,
>)
    requires
        drawable(rect),
    ensures
        r matches Some(drawn) ==> with_outline(picture_of(picture), rect, color) == Some(
            picture_of(drawn),
        ),
        r is None ==> with_outline(picture_of(picture), rect, color) is None,
{
    let mut picture = picture;
    let canvas = picture.as_mut_rgb8()?;
    let shape = imageproc::rect::Rect::at(rect.left, rect.top).of_size(rect.width, rect.height);
    let paint = image::Rgb([color.red, color.green, color.blue]);
    imageproc::drawing::draw_hollow_rect_mut(canvas, shape, paint);
    Some(picture)
}

/// Encodes `picture` in `kind`.
///
/// Calls `DynamicImage::write_to` with a buffer in memory and the format
/// that `kind` names. The bytes written depend on the picture and the
/// format alone. The contract gives them the name [`encoding`]; `None`
/// stands for an error.
#[verifier::external_body]
fn encode(picture: &image::DynamicImage, kind: ImageKind) -> (r: Option<Vec<u8>>)
    ensures
        r matches Some(bytes) ==> encoding(picture_of(*picture), kind) == Some(bytes@),
        r is None ==> encoding(picture_of(*picture), kind) is None,
{
    let format = match kind {
        ImageKind::Png => image::ImageFormat::Png,
        ImageKind::Jpeg => image::ImageFormat::Jpeg,
    };
    let mut bytes = Vec::new();
    picture.write_to(&mut std::io::Cursor::new(&mut bytes), format).ok()?;
    Some(bytes)
}

/// The smaller of two integers.
pub open spec fn least(a: int, b: int) -> int {
    if a <= b {
        a
    } else {
        b
    }
}

/// The outline `t` pixels outside of `area`, cut off at the right and
/// bottom edges of an image of the given size. There is none where it
/// would start left of or above the image, where nothing of it is left
/// after the cut, or where it would reach beyond [`COORDINATE_LIMIT`].
pub open spec fn outline(area: PixelRect, t: int, image_width: u32, image_height: u32) -> Option<
    PixelRect,
> {
    let left = area.left - t;
    let top = area.top - t;
    let width = least(area.width + 2 * t, image_width - left);
    let height = least(area.height + 2 * t, image_height - top);
    if left < 0 || top < 0 || width < 1 || height < 1 || left + width > COORDINATE_LIMIT || top
        + height > COORDINATE_LIMIT {
        None
    } else {
        Some(
            PixelRect {
                left: left as i32,
                top: top as i32,
                width: width as u32,
                height: height as u32,
            },
        )
    }
}

/// The sequence of what an option holds.
pub open spec fn listed(item: Option<PixelRect>) -> Seq<PixelRect> {
    match item {
        Some(rect) => seq![rect],
        None => Seq::empty(),
    }
}

/// The outlines of one area, from the innermost out.
pub open spec fn area_outlines(area: PixelRect, image_width: u32, image_height: u32) -> Seq<
    PixelRect,
> {
    listed(outline(area, 0, image_width, image_height)) + listed(
        outline(area, 1, image_width, image_height),
    ) + listed(outline(area, 2, image_width, image_height))
}

/// The outlines of all areas, area by area.
pub open spec fn all_outlines(areas: Seq<PixelRect>, image_width: u32, image_height: u32) -> Seq<
    PixelRect,
>
    decreases areas.len(),
{
    if areas.len() == 0 {
        Seq::empty()
    } else {
        all_outlines(areas.drop_last(), image_width, image_height) + area_outlines(
            areas.last(),
            image_width,
            image_height,
        )
    }
}

/// `frame` with the outlines of `rects` drawn into it one after the other.
pub open spec fn outlined(frame: PictureView, rects: Seq<PixelRect>) -> Option<PictureView>
    decreases rects.len(),
{
    if rects.len() == 0 {
        Some(frame)
    } else {
        match outlined(frame, rects.drop_last()) {
            Some(earlier) => with_outline(earlier, rects.last(), outline_color()),
            None => None,
        }
    }
}

/// The smaller of two sizes.
pub open spec fn smaller(a: u32, b: u32) -> u32 {
    if a <= b {
        a
    } else {
        b
    }
}

/// The JPEG encoding of the image in `data` with the outlines of `areas`
/// drawn into it, cut off at the given size and at the size of the image
/// itself; `None` where decoding, drawing or encoding fails.
pub open spec fn annotated(
    data: Seq<u8>,
    areas: Seq<PixelRect>,
    image_width: u32,
    image_height: u32,
) -> Option<Seq<u8>> {
    match loaded(data) {
        Some(picture) => {
            let frame = as_rgb(picture);
            match outlined(
                frame,
                all_outlines(
                    areas,
                    smaller(image_width, frame.width),
                    smaller(image_height, frame.height),
                ),
            ) {
                Some(drawn) => encoding(drawn, ImageKind::Jpeg),
                None => None,
            }
        },
        None => None,
    }
}

/// The number of samples in a row of `picture`.
pub open spec fn row_length(picture: PictureView) -> int {
    picture.width * picture.channels
}

/// Whether `picture` holds as many samples as its size and the number of
/// samples in a pixel come to.
pub open spec fn is_filled(picture: PictureView) -> bool {
    picture.samples.len() == picture.height * row_length(picture)
}

/// Where the sample at `i` of a picture with rows of `stride` samples
/// comes from when the picture is flipped top to bottom: the same place in
/// the row that is as far from the bottom as the row of `i` is from the
/// top.
pub open spec fn flip_source(height: int, stride: int, i: int) -> int {
    (height - 1 - i / stride) * stride + i % stride
}

/// `picture` flipped top to bottom: its rows in reverse order.
pub open spec fn flipped_picture(picture: PictureView) -> PictureView {
    PictureView {
        samples: Seq::new(
            picture.samples.len(),
            |i: int| picture.samples[flip_source(picture.height as int, row_length(picture), i)],
        ),
        ..picture
    }
}

/// The format in which a flipped image is encoded: that of `data`, or JPEG
/// where the format of `data` is not recognised.
pub open spec fn kind_of(data: Seq<u8>) -> ImageKind {
    match guessed_kind(data) {
        Some(kind) => kind,
        None => ImageKind::Jpeg,
    }
}

/// What flipping the image in `data` comes to: the image decoded, flipped
/// top to bottom and encoded again; `None` where decoding or encoding
/// fails.
pub open spec fn flipped(data: Seq<u8>) -> Option<Seq<u8>> {
    match loaded(data) {
        Some(picture) => encoding(flipped_picture(picture), kind_of(data)),
        None => None,
    }
}

/// The error for image data that cannot be processed.
pub open spec fn is_invalid_image(e: ImageError) -> bool {
    e matches ImageError::InvalidFormat { path } && path@ == "image data in memory"@
}

fn invalid_image() -> (e: ImageError)
    ensures
        is_invalid_image(e),
{
    ImageError::InvalidFormat { path: String::from_str("image data in memory") }
}

/// The outline `t` pixels outside of `area`, if there is one.
pub fn outline_of(area: PixelRect, t: u32, image_width: u32, image_height: u32) -> (r: Option<
    PixelRect,
>)
    ensures
        r == outline(area, t as int, image_width, image_height),
        r matches Some(rect) ==> drawable(rect) && lies_within(rect, image_width, image_height),
{
    let left: i64 = area.left as i64 - t as i64;
    let top: i64 = area.top as i64 - t as i64;
    if left < 0 || top < 0 {
        return None;
    }
    let wide: i64 = area.width as i64 + 2 * (t as i64);
    let high: i64 = area.height as i64 + 2 * (t as i64);
    let room_right: i64 = image_width as i64 - left;
    let room_below: i64 = image_height as i64 - top;
    let width: i64 = if wide <= room_right {
        wide
    } else {
        room_right
    };
    let height: i64 = if high <= room_below {
        high
    } else {
        room_below
    };
    if width < 1 || height < 1 || left + width > COORDINATE_LIMIT as i64 || top + height
        > COORDINATE_LIMIT as i64 {
        return None;
    }
    Some(
        PixelRect {
            left: left as i32,
            top: top as i32,
            width: width as u32,
            height: height as u32,
        },
    )
}

/// The outlines to draw for `areas` in an image of the given size: three
/// around each area, as far as they lie in the image.
pub fn outline_rects(areas: &Vec<PixelRect>, image_width: u32, image_height: u32) -> (r: Vec<
    PixelRect,
>)
    ensures
        r@ == all_outlines(areas@, image_width, image_height),
        forall|i: int|
            0 <= i < r.len() ==> drawable(#[trigger] r[i]) && lies_within(
                r[i],
                image_width,
                image_height,
            ),
{
    let mut out: Vec<PixelRect> = Vec::new();
    let mut i: usize = 0;
    assert(areas@.take(0) =~= Seq::empty());
    while i < areas.len()
        invariant
            i <= areas.len(),
            out@ == all_outlines(areas@.take(i as int), image_width, image_height),
            forall|j: int|
                0 <= j < out.len() ==> drawable(#[trigger] out[j]) && lies_within(
                    out[j],
                    image_width,
                    image_height,
                ),
        decreases areas.len() - i,
    {
        proof {
            assert(areas@.take(i + 1).drop_last() =~= areas@.take(i as int));
            assert(areas@.take(i + 1).last() == areas[i as int]);
        }
        let ghost before = out@;
        let area = areas[i];
        let mut t: u32 = 0;
        while t < OUTLINE_COUNT
            invariant
                t <= OUTLINE_COUNT,
                area == areas[i as int],
                out@ == before + (if t >= 1 {
                    listed(outline(area, 0, image_width, image_height))
                } else {
                    Seq::empty()
                }) + (if t >= 2 {
                    listed(outline(area, 1, image_width, image_height))
                } else {
                    Seq::empty()
                }) + (if t >= 3 {
                    listed(outline(area, 2, image_width, image_height))
                } else {
                    Seq::empty()
                }),
                forall|j: int|
                    0 <= j < out.len() ==> drawable(#[trigger] out[j]) && lies_within(
                        out[j],
                        image_width,
                        image_height,
                    ),
            decreases OUTLINE_COUNT - t,
        {
            if let Some(rect) = outline_of(area, t, image_width, image_height) {
                out.push(rect);
            }
            t = t + 1;
        }
        assert(out@ =~= before + area_outlines(area, image_width, image_height));
        i = i + 1;
    }
    assert(areas@.take(areas.len() as int) =~= areas@);
    out
}

/// Draws the outlines of `rects` into `frame`, one after the other.
fn draw_outlines(frame: image::DynamicImage, rects: &Vec<PixelRect>) -> (r: Option<
    image::DynamicImage,
>)
    requires
        forall|i: int| 0 <= i < rects.len() ==> drawable(#[trigger] rects[i]),
    ensures
        r matches Some(drawn) ==> outlined(picture_of(frame), rects@) == Some(picture_of(drawn)),
        r is None ==> outlined(picture_of(frame), rects@) is None,
{
    let ghost start = picture_of(frame);
    let mut current = frame;
    let mut i: usize = 0;
    assert(rects@.take(0) =~= Seq::empty());
    while i < rects.len()
        invariant
            i <= rects.len(),
            start == picture_of(frame),
            outlined(start, rects@.take(i as int)) == Some(picture_of(current)),
            forall|j: int| 0 <= j < rects.len() ==> drawable(#[trigger] rects[j]),
        decreases rects.len() - i,
    {
        proof {
            assert(rects@.take(i + 1).drop_last() =~= rects@.take(i as int));
            assert(rects@.take(i + 1).last() == rects[i as int]);
        }
        match draw_outline(current, rects[i], yellow()) {
            Some(next) => {
                current = next;
            },
            None => {
                proof {
                    assert(outlined(start, rects@.take(i + 1)) is None);
                    lemma_outlined_stays_none(start, rects@, i + 1);
                }
                return None;
            },
        }
        i = i + 1;
    }
    assert(rects@.take(rects.len() as int) =~= rects@);
    Some(current)
}

/// Once drawing has failed it stays failed: if the first `n` outlines
/// cannot be drawn, neither can all of them.
pub proof fn lemma_outlined_stays_none(frame: PictureView, rects: Seq<PixelRect>, n: int)
    requires
        0 <= n <= rects.len(),
        outlined(frame, rects.take(n)) is None,
    ensures
        outlined(frame, rects) is None,
    decreases rects.len() - n,
{
    if n < rects.len() {
        assert(rects.take(n + 1).drop_last() =~= rects.take(n));
        lemma_outlined_stays_none(frame, rects, n + 1);
    } else {
        assert(rects.take(n) =~= rects);
    }
}

/// A sample of a picture lies in the row and at the place in the row that its
/// index divided by the length of a row gives.
proof fn lemma_row_and_place(stride: int, row: int, place: int)
    requires
        0 <= place < stride,
        0 <= row,
    ensures
        (row * stride + place) / stride == row,
        (row * stride + place) % stride == place,
{
    vstd::arithmetic::div_mod::lemma_fundamental_div_mod_converse(
        row * stride + place,
        stride,
        row,
        place,
    );
}

/// The index of a sample is below the number of samples of the picture.
proof fn lemma_index_in_frame(height: int, stride: int, row: int, place: int)
    requires
        0 <= place < stride,
        0 <= row < height,
    ensures
        0 <= row * stride + place < height * stride,
{
    assert(row * stride + stride == (row + 1) * stride) by (nonlinear_arith);
    assert((row + 1) * stride <= height * stride) by (nonlinear_arith)
        requires
            row + 1 <= height,
            0 <= stride,
    ;
    assert(0 <= row * stride) by (nonlinear_arith)
        requires
            0 <= row,
            0 <= stride,
    ;
}

/// Flip law. Flipping is its own inverse: a picture that holds as many
/// samples as its size comes to, flipped top to bottom twice, is the
/// picture itself.
pub proof fn lemma_flip_twice(picture: PictureView)
    requires
        is_filled(picture),
    ensures
        is_filled(flipped_picture(picture)),
        flipped_picture(flipped_picture(picture)) == picture,
{
    let once = flipped_picture(picture);
    let twice = flipped_picture(once);
    let height = picture.height as int;
    let stride = row_length(picture);
    assert(stride >= 0) by (nonlinear_arith)
        requires
            stride == picture.width * picture.channels,
    ;
    assert forall|i: int| 0 <= i < picture.samples.len() implies twice.samples[i]
        == picture.samples[i] by {
        assert(stride > 0) by (nonlinear_arith)
            requires
                0 <= i < height * stride,
                0 <= stride,
                0 <= height,
        ;
        let row = i / stride;
        let place = i % stride;
        vstd::arithmetic::div_mod::lemma_fundamental_div_mod(i, stride);
        vstd::arithmetic::div_mod::lemma_mod_bound(i, stride);
        assert(i == stride * row + place);
        assert(stride * row == row * stride) by (nonlinear_arith);
        assert(0 <= row < height) by (nonlinear_arith)
            requires
                0 <= i < height * stride,
                i == row * stride + place,
                0 <= place < stride,
        ;
        let mirrored = flip_source(height, stride, i);
        assert(mirrored == (height - 1 - row) * stride + place);
        lemma_row_and_place(stride, height - 1 - row, place);
        lemma_index_in_frame(height, stride, height - 1 - row, place);
        assert(flip_source(height, stride, mirrored) == row * stride + place);
        assert(once.samples[mirrored] == picture.samples[flip_source(height, stride, mirrored)]);
    }
    assert(twice.samples =~= picture.samples);
}

impl ImageFetcher {
    /// Applies the configured transformations to a fetched image. Without
    /// `flip_vertical` the data comes back as it is. With it the image is
    /// decoded, flipped top to bottom and encoded again, in its own format
    /// where that is PNG or JPEG and in JPEG where not.
    pub fn apply_image_transformations(image_data: &[u8], flip_vertical: bool) -> (r: Result<
        Vec<u8>,
        ImageError,
    >)
        ensures
            !flip_vertical ==> (r matches Ok(bytes) && bytes@ == image_data@),
            flip_vertical ==> match flipped(image_data@) {
                Some(expected) => r matches Ok(bytes) && bytes@ == expected,
                None => r matches Err(e) && is_invalid_image(e),
            },
    {
        if !flip_vertical {
            return Ok(slice_to_vec(image_data));
        }
        let kind = match guess_kind(image_data) {
            Some(kind) => kind,
            None => ImageKind::Jpeg,
        };
        let picture = match load(image_data) {
            Some(picture) => picture,
            None => {
                return Err(invalid_image());
            },
        };
        let turned = flip(&picture);
        match encode(&turned, kind) {
            Some(bytes) => Ok(bytes),
            None => Err(invalid_image()),
        }
    }

    /// The frame to classify, made from a fetched image: the image with the
    /// transformations applied, or the image as it was fetched where they
    /// cannot be applied.
    pub fn prepare_frame(image_data: Vec<u8>, flip_vertical: bool) -> (r: Vec<u8>)
        ensures
            r@ == (if flip_vertical {
                match flipped(image_data@) {
                    Some(turned) => turned,
                    None => image_data@,
                }
            } else {
                image_data@
            }),
    {
        if !flip_vertical {
            return image_data;
        }
        match Self::apply_image_transformations(image_data.as_slice(), true) {
            Ok(turned) => turned,
            Err(_) => image_data,
        }
    }

    /// Draws the places of detections into an image: three outlines around
    /// each of `areas`, cut off at the right and bottom edges of the image
    /// and at `image_width` and `image_height` where these are smaller.
    /// The result is encoded as JPEG.
    pub fn annotate_image_with_detections(
        image_data: &[u8],
        areas: &Vec<PixelRect>,
        image_width: u32,
        image_height: u32,
    ) -> (r: Result<Vec<u8>, ImageError>)
        ensures
            match annotated(image_data@, areas@, image_width, image_height) {
                Some(expected) => r matches Ok(bytes) && bytes@ == expected,
                None => r matches Err(e) && is_invalid_image(e),
            },
    {
        let picture = match load(image_data) {
            Some(picture) => picture,
            None => {
                return Err(invalid_image());
            },
        };
        let frame = to_rgb(&picture);
        let (frame_width, frame_height) = size_of(&frame);
        let width = if image_width <= frame_width {
            image_width
        } else {
            frame_width
        };
        let height = if image_height <= frame_height {
            image_height
        } else {
            frame_height
        };
        let rects = outline_rects(areas, width, height);
        let drawn = match draw_outlines(frame, &rects) {
            Some(drawn) => drawn,
            None => {
                return Err(invalid_image());
            },
        };
        match encode(&drawn, ImageKind::Jpeg) {
            Some(bytes) => Ok(bytes),
            None => Err(invalid_image()),
        }
    }
}

} // verus!
