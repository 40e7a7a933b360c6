//! Sizing, placing and blending a watermark onto an image held as raw
//! red, green, blue and alpha bytes.

use vstd::prelude::*;

verus! {

/// A scale factor as a fraction of two whole numbers.
#[derive(Debug, Clone, Copy, PartialEq, Eq, Structural)]
pub struct Scale {
    pub numerator: u32,
    pub denominator: u32,
}

/// An image of `width` by `height` pixels, four bytes per pixel, row by row.
#[derive(Debug, PartialEq, Eq)]
pub struct Raster {
    pub width: u32,
    pub height: u32,
    pub pixels: Vec<u8>,
}

/// Why a watermark could not be stamped.
#[derive(Debug, Clone, Copy, PartialEq, Eq, Structural)]
pub enum StampError {
    /// The scale has a zero denominator.
    BadScale,
    /// The watermark has no pixels.
    EmptyWatermark,
    /// The scaled watermark would not fit into memory.
    TooLarge,
}

/// `value`, cut off at `limit`.
pub open spec fn capped(value: int, limit: int) -> int {
    if value > limit {
        limit
    } else {
        value
    }
}

/// The width of the scaled watermark: the source's width times the scale,
/// rounded down, and no more than a `u32` holds.
pub open spec fn spec_overlay_width(source_width: u32, scale: Scale) -> int
    recommends
        scale.denominator > 0,
{
    capped((source_width * scale.numerator) / (scale.denominator as int), u32::MAX as int)
}

/// The height that keeps the watermark's proportions at `overlay_width`,
/// rounded down, and no more than a `u32` holds.
pub open spec fn spec_overlay_height(overlay_width: int, mark_width: u32, mark_height: u32) -> int
    recommends
        mark_width > 0,
{
    capped((overlay_width * mark_height) / (mark_width as int), u32::MAX as int)
}

/// The size of the scaled watermark, where there is one.
pub open spec fn spec_overlay_size(
    source_width: u32,
    mark_width: u32,
    mark_height: u32,
    scale: Scale,
) -> Option<(u32, u32)> {
    if scale.denominator == 0 || mark_width == 0 {
        None
    } else {
        let width = spec_overlay_width(source_width, scale);
        Some((width as u32, spec_overlay_height(width, mark_width, mark_height) as u32))
    }
}

/// Where the top-left corner of an overlay of `overlay_height` rows goes on a
/// source of `source_height` rows: one pixel from the left edge and one pixel
/// above the bottom edge.
pub open spec fn spec_overlay_offset(source_height: u32, overlay_height: u32) -> (int, int) {
    (1, source_height - overlay_height - 1)
}

fn scaled_down(value: u32, numerator: u32, denominator: u32) -> (out: u32)
    requires
        denominator > 0,
    ensures
        out == capped((value * numerator) / (denominator as int), u32::MAX as int),
{
    assert(value * numerator <= 0xffff_ffff * 0xffff_ffff) by (nonlinear_arith)
        requires
            value <= 0xffff_ffff,
            numerator <= 0xffff_ffff,
    ;
    let product: u64 = (value as u64) * (numerator as u64);
    let quotient: u64 = product / (denominator as u64);
    if quotient > 0xffff_ffff {
        u32::MAX
    } else {
        quotient as u32
    }
}

/// The size to which the watermark is scaled: its width is the source's width
/// times `scale`, its height follows from the watermark's own proportions.
pub fn overlay_size(source_width: u32, mark_width: u32, mark_height: u32, scale: Scale) -> (size:
    Option<(u32, u32)>)
    ensures
        size == spec_overlay_size(source_width, mark_width, mark_height, scale),
{
    if scale.denominator == 0 || mark_width == 0 {
        return None;
    }
    let width = scaled_down(source_width, scale.numerator, scale.denominator);
    let height = scaled_down(width, mark_height, mark_width);
    Some((width, height))
}

/// The offset at which the overlay is blended onto the source.
pub fn overlay_offset(source_height: u32, overlay_height: u32) -> (offset: (i64, i64))
    ensures
        offset.0 == spec_overlay_offset(source_height, overlay_height).0,
        offset.1 == spec_overlay_offset(source_height, overlay_height).1,
{
    (1, source_height as i64 - overlay_height as i64 - 1)
}

/// The pixels that `image::imageops::resize` with the nearest-neighbour filter
/// makes of an image of `width` by `height` pixels for the size `new_width` by
/// `new_height`.
pub uninterp spec fn nearest_resized(
    width: u32,
    height: u32,
    pixels: Seq<u8>,
    new_width: u32,
    new_height: u32,
) -> Seq<u8>;

/// The pixels that `image::imageops::overlay` leaves in the bottom image when
/// it blends the top image onto it with the top's corner at `(x, y)`.
pub uninterp spec fn blended(
    bottom_width: u32,
    bottom_height: u32,
    bottom: Seq<u8>,
    top_width: u32,
    top_height: u32,
    top: Seq<u8>,
    x: i64,
    y: i64,
) -> Seq<u8>;

/// Whether `count` bytes are exactly the pixels of `width` by `height`.
pub open spec fn fills(count: nat, width: u32, height: u32) -> bool {
    count == 4 * width * height
}

/// Whether an image of `width` by `height` pixels can be allocated with
/// sixteen bytes per pixel, four floats, within half of the address space,
/// the most that one allocation may take.
pub open spec fn fits_memory(width: u32, height: u32) -> bool {
    32 * width * height <= usize::MAX
}

/// Whether the bytes of one row of `width` pixels can be counted in a `usize`.
pub open spec fn row_fits(width: u32) -> bool {
    4 * width <= usize::MAX
}

/// Whether the byte at `index` of an image of the given width belongs to a
/// pixel under a rectangle of `top_width` by `top_height` pixels whose top-left
/// corner lies at `(x, y)`.
pub open spec fn covered(
    index: int,
    width: u32,
    top_width: u32,
    top_height: u32,
    x: int,
    y: int,
) -> bool
    recommends
        width > 0,
{
    let column = (index / 4) % (width as int);
    let row = (index / 4) / (width as int);
    x <= column < x + top_width && y <= row < y + top_height
}

/// Whether `after` has the bytes of `before` wherever the rectangle of
/// `top_width` by `top_height` pixels at `(x, y)` does not cover them.
pub open spec fn keeps_frame(
    before: Seq<u8>,
    after: Seq<u8>,
    width: u32,
    top_width: u32,
    top_height: u32,
    x: int,
    y: int,
) -> bool {
    &&& after.len() == before.len()
    &&& forall|index: int|
        0 <= index < before.len() && !covered(index, width, top_width, top_height, x, y)
            ==> #[trigger] after[index] == before[index]
}

/// `image::imageops::resize` with `FilterType::Nearest` on an image of four
/// bytes per pixel. The crate counts the bytes of a row before it counts the
/// rows, for the source, for an image of floats with the source's width and
/// the new height, and for the result: the rows of both widths must fit, both
/// sizes must fit into memory, and the source must have pixels, of which the
/// crate reads one for each pixel it writes. The result has the size asked
/// for; its pixels are named, not described.
#[verifier::external_body]
fn resize_nearest(source: &Raster, width: u32, height: u32) -> (out: Raster)
    requires
        source.wf(),
        source.width > 0,
        source.height > 0,
        row_fits(source.width),
        row_fits(width),
        fits_memory(source.width, height),
        fits_memory(width, height),
    ensures
        out.wf(),
        out.width == width,
        out.height == height,
        out.pixels@ == nearest_resized(
            source.width,
            source.height,
            source.pixels@,
            width,
            height,
        ),
{
    let input = image::ImageBuffer::<image::Rgba<u8>, &[u8]>::from_raw(
        source.width,
        source.height,
        source.pixels.as_slice(),
    ).unwrap();
    let output = image::imageops::resize(
        &input,
        width,
        height,
        image::imageops::FilterType::Nearest,
    );
    Raster { width, height, pixels: output.into_raw() }
}

/// `image::imageops::overlay` on two images of four bytes per pixel. The
/// crate counts the bytes of a row of each image before it counts the rows, so
/// both rows must fit. It clips the top image to the bottom one and blends
/// pixel by pixel, writing only pixels of the bottom image that the top image
/// covers: the bottom image keeps its size and every byte outside the covered
/// rectangle. The bytes inside are named, not described.
#[verifier::external_body]
fn overlay_onto(bottom: &mut Raster, top: &Raster, x: i64, y: i64)
    requires
        old(bottom).wf(),
        top.wf(),
        row_fits(old(bottom).width),
        row_fits(top.width),
    ensures
        final(bottom).wf(),
        final(bottom).width == old(bottom).width,
        final(bottom).height == old(bottom).height,
        keeps_frame(
            old(bottom).pixels@,
            final(bottom).pixels@,
            old(bottom).width,
            top.width,
            top.height,
            x as int,
            y as int,
        ),
        final(bottom).pixels@ == blended(
            old(bottom).width,
            old(bottom).height,
            old(bottom).pixels@,
            top.width,
            top.height,
            top.pixels@,
            x,
            y,
        ),
{
    let (width, height) = (bottom.width, bottom.height);
    let mut target = image::ImageBuffer::<image::Rgba<u8>, &mut [u8]>::from_raw(
        width,
        height,
        bottom.pixels.as_mut_slice(),
    ).unwrap();
    let layer = image::ImageBuffer::<image::Rgba<u8>, &[u8]>::from_raw(
        top.width,
        top.height,
        top.pixels.as_slice(),
    ).unwrap();
    image::imageops::overlay(&mut target, &layer, x, y);
}

impl Raster {
    /// Whether the bytes are exactly the pixels of the stated size.
    pub open spec fn wf(&self) -> bool {
        fills(self.pixels@.len(), self.width, self.height)
    }

    /// An image of the given size, if `pixels` holds exactly its pixels.
    pub fn new(width: u32, height: u32, pixels: Vec<u8>) -> (made: Option<Raster>)
        ensures
            made is Some <==> fills(pixels@.len(), width, height),
            made matches Some(raster) ==> raster.width == width && raster.height == height
                && raster.pixels == pixels && raster.wf(),
    {
        if has_size(pixels.len(), width, height) {
            Some(Raster { width, height, pixels })
        } else {
            None
        }
    }
}

fn has_size(count: usize, width: u32, height: u32) -> (exact: bool)
    ensures
        exact == fills(count as nat, width, height),
{
    assert(4 * (width * height) <= 4 * (0xffff_ffff * 0xffff_ffff)) by (nonlinear_arith)
        requires
            width <= 0xffff_ffff,
            height <= 0xffff_ffff,
    ;
    assert(4 * width * height == 4 * (width * height)) by (nonlinear_arith);
    let area: u128 = 4 * ((width as u128) * (height as u128));
    count as u128 == area
}

fn fits(width: u32, height: u32) -> (fit: bool)
    ensures
        fit == fits_memory(width, height),
{
    assert(32 * (width * height) <= 32 * (0xffff_ffff * 0xffff_ffff)) by (nonlinear_arith)
        requires
            width <= 0xffff_ffff,
            height <= 0xffff_ffff,
    ;
    assert(32 * width * height == 32 * (width * height)) by (nonlinear_arith);
    let area: u128 = 32 * ((width as u128) * (height as u128));
    area <= usize::MAX as u128
}

/// Whether an image of `width` by `height` has no pixels.
pub open spec fn is_blank(width: u32, height: u32) -> bool {
    width == 0 || height == 0
}

/// The pixels of a source of the given size after an overlay was blended onto
/// its lower left corner. Where the source or the overlay has no pixels there
/// is nothing to blend, and the source's pixels stay.
pub open spec fn spec_placed(
    width: u32,
    height: u32,
    pixels: Seq<u8>,
    overlay_width: u32,
    overlay_height: u32,
    overlay: Seq<u8>,
) -> Seq<u8> {
    if is_blank(width, height) || is_blank(overlay_width, overlay_height) {
        pixels
    } else {
        blended(
            width,
            height,
            pixels,
            overlay_width,
            overlay_height,
            overlay,
            spec_overlay_offset(height, overlay_height).0 as i64,
            spec_overlay_offset(height, overlay_height).1 as i64,
        )
    }
}

/// A row of an image that has pixels fits wherever all its bytes do.
proof fn lemma_row_of_image_fits(count: nat, width: u32, height: u32)
    requires
        fills(count, width, height),
        height > 0,
        count <= usize::MAX,
    ensures
        row_fits(width),
{
    assert(4 * width <= 4 * width * height) by (nonlinear_arith)
        requires
            height >= 1,
            width >= 0,
    ;
}

/// Blends `overlay` onto the lower left corner of `base`, one pixel away from
/// both edges. An overlay taller than `base` is clipped at the top. Every byte
/// of `base` that the overlay does not cover stays as it is.
pub fn place(base: &mut Raster, overlay: &Raster)
    requires
        old(base).wf(),
        overlay.wf(),
    ensures
        final(base).wf(),
        final(base).width == old(base).width,
        final(base).height == old(base).height,
        final(base).pixels@ == spec_placed(
            old(base).width,
            old(base).height,
            old(base).pixels@,
            overlay.width,
            overlay.height,
            overlay.pixels@,
        ),
        keeps_frame(
            old(base).pixels@,
            final(base).pixels@,
            old(base).width,
            overlay.width,
            overlay.height,
            spec_overlay_offset(old(base).height, overlay.height).0,
            spec_overlay_offset(old(base).height, overlay.height).1,
        ),
{
    if base.width == 0 || base.height == 0 || overlay.width == 0 || overlay.height == 0 {
        return ;
    }
    let count = base.pixels.len();
    let overlay_count = overlay.pixels.len();
    proof {
        lemma_row_of_image_fits(count as nat, base.width, base.height);
        lemma_row_of_image_fits(overlay_count as nat, overlay.width, overlay.height);
    }
    let (x, y) = overlay_offset(base.height, overlay.height);
    overlay_onto(base, overlay, x, y);
}

/// The size to which `watermark_image` scales the watermark, or the reason for which it
/// leaves the source alone.
pub open spec fn spec_stamp_size(source_width: u32, mark: Raster, scale: Scale) -> Result<
    (u32, u32),
    StampError,
> {
    if scale.denominator == 0 {
        Err(StampError::BadScale)
    } else if mark.width == 0 || mark.height == 0 {
        Err(StampError::EmptyWatermark)
    } else {
        let size = spec_overlay_size(source_width, mark.width, mark.height, scale).unwrap();
        if fits_memory(mark.width, size.1) && fits_memory(size.0, size.1) {
            Ok(size)
        } else {
            Err(StampError::TooLarge)
        }
    }
}

/// Scales `mark` to `scale` times the width of `base`, keeping its
/// proportions, and blends it onto the lower left corner of `base`. Every byte
/// of `base` that the scaled watermark does not cover stays as it is.
pub fn watermark_image(base: &mut Raster, mark: &Raster, scale: Scale) -> (done: Result<(), StampError>)
    requires
        old(base).wf(),
        mark.wf(),
    ensures
        final(base).wf(),
        final(base).width == old(base).width,
        final(base).height == old(base).height,
        match spec_stamp_size(old(base).width, *mark, scale) {
            Ok(size) => done is Ok && final(base).pixels@ == spec_placed(
                old(base).width,
                old(base).height,
                old(base).pixels@,
                size.0,
                size.1,
                nearest_resized(mark.width, mark.height, mark.pixels@, size.0, size.1),
            ) && keeps_frame(
                old(base).pixels@,
                final(base).pixels@,
                old(base).width,
                size.0,
                size.1,
                spec_overlay_offset(old(base).height, size.1).0,
                spec_overlay_offset(old(base).height, size.1).1,
            ),
            Err(reason) => done == Err::<(), StampError>(reason) && final(base).pixels@ == old(
                base,
            ).pixels@,
        },
{
    if scale.denominator == 0 {
        return Err(StampError::BadScale);
    }
    if mark.width == 0 || mark.height == 0 {
        return Err(StampError::EmptyWatermark);
    }
    let (width, height) = match overlay_size(base.width, mark.width, mark.height, scale) {
        Some(size) => size,
        None => { return Err(StampError::EmptyWatermark); },
    };
    if !fits(mark.width, height) || !fits(width, height) {
        return Err(StampError::TooLarge);
    }
    if width == 0 || height == 0 {
        return Ok(());
    }
    let mark_count = mark.pixels.len();
    proof {
        lemma_row_of_image_fits(mark_count as nat, mark.width, mark.height);
        assert(4 * width <= 32 * width * height) by (nonlinear_arith)
            requires
                height >= 1,
                width >= 0,
        ;
    }
    let overlay = resize_nearest(mark, width, height);
    place(base, &overlay);
    Ok(())
}

/// The last component of a path, as `std::path::Path::file_name` gives it. It
/// is a function of the path on one target; a Windows target and a Unix target
/// split a path at different separators and may give different components.
pub uninterp spec fn path_file_name(path: Seq<char>) -> Option<Seq<char>>;

/// The path that `std::path::Path::join` makes of a directory and a name. It
/// is a function of the two on one target; a Windows target and a Unix target
/// join with different separators.
pub uninterp spec fn path_joined(directory: Seq<char>, name: Seq<char>) -> Seq<char>;

/// `std::path::Path::file_name`: the final component of the path, if it has
/// one. The result is named, not described.
#[verifier::external_body]
fn file_name_of(path: &str) -> (name: Option<String>)
    ensures
        match name {
            Some(text) => path_file_name(path@) == Some(text@),
            None => path_file_name(path@) is None,
        },
{
    match std::path::Path::new(path).file_name() {
        Some(name) => Some(name.to_string_lossy().into_owned()),
        None => None,
    }
}

/// `std::path::Path::join`: `name` adjoined to `directory`. The result is
/// named, not described.
#[verifier::external_body]
fn join_path(directory: &str, name: &str) -> (joined: String)
    ensures
        joined@ == path_joined(directory@, name@),
{
    std::path::Path::new(directory).join(name).to_string_lossy().into_owned()
}

/// Where the stamped copy of `source` is written: under the source's own file
/// name, inside `destination_dir`.
pub open spec fn spec_output_path(source: Seq<char>, destination_dir: Seq<char>) -> Option<
    Seq<char>,
> {
    match path_file_name(source) {
        Some(name) => Some(path_joined(destination_dir, name)),
        None => None,
    }
}

/// The path of the stamped copy of `source`; `None` where `source` has no file
/// name.
pub fn output_path(source: &str, destination_dir: &str) -> (target: Option<String>)
    ensures
        match target {
            Some(path) => spec_output_path(source@, destination_dir@) == Some(path@),
            None => spec_output_path(source@, destination_dir@) is None,
        },
{
    match file_name_of(source) {
        Some(name) => Some(join_path(destination_dir, name.as_str())),
        None => None,
    }
}

/// Two sources with the same file name are written to the same path of a
/// destination, so the later copy takes the place of the earlier one.
pub proof fn lemma_same_name_same_target(
    first: Seq<char>,
    second: Seq<char>,
    destination_dir: Seq<char>,
)
    requires
        path_file_name(first) == path_file_name(second),
    ensures
        spec_output_path(first, destination_dir) == spec_output_path(second, destination_dir),
{
}

/// The overlay is as wide as the source times the scale, rounded down, and as
/// high as its own proportions make it at that width, rounded down, wherever
/// both fit a `u32`.
pub proof fn lemma_overlay_size_formula(
    source_width: u32,
    mark_width: u32,
    mark_height: u32,
    scale: Scale,
)
    requires
        scale.denominator > 0,
        mark_width > 0,
        (source_width * scale.numerator) / (scale.denominator as int) <= u32::MAX,
        ((source_width * scale.numerator) / (scale.denominator as int) * mark_height) / (
        mark_width as int) <= u32::MAX,
    ensures
        spec_overlay_size(source_width, mark_width, mark_height, scale) matches Some(size)
            && size.0 == (source_width * scale.numerator) / (scale.denominator as int)
            && size.1 == (size.0 * mark_height) / (mark_width as int),
{
    assert((source_width * scale.numerator) / (scale.denominator as int) >= 0) by (nonlinear_arith)
        requires
            scale.denominator > 0,
            source_width * scale.numerator >= 0,
    ;
    let width = (source_width * scale.numerator) / (scale.denominator as int);
    assert((width * mark_height) / (mark_width as int) >= 0) by (nonlinear_arith)
        requires
            mark_width > 0,
            width >= 0,
            mark_height >= 0,
    ;
}

} // verus!
