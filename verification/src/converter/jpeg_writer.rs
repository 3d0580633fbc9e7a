//! The JPEG compressor (MozJPEG) as this crate uses it.
//!
//! A compressor is followed through names for what it holds: the settings
//! calls made on it before it starts (each an operation code followed by its
//! arguments), and once started, those settings, the APP1 segments written
//! into it and the scanlines written into it. The file it produces is named as
//! a function of those three.

use vstd::prelude::*;

use mozjpeg::compress::CompressStarted;
use mozjpeg::Compress;

verus! {

#[verifier::external_type_specification]
#[verifier::external_body]
pub struct ExCompress(Compress);

#[verifier::external_type_specification]
#[verifier::external_body]
#[verifier::reject_recursive_types(W)]
pub struct ExCompressStarted<W>(CompressStarted<W>);

/// Operation code of `set_scan_optimization_mode(AllComponentsTogether)`.
pub const OP_SCAN_ALL_COMPONENTS: u8 = 0;

/// Operation code of `set_size(width, height)`.
pub const OP_SIZE: u8 = 1;

/// Operation code of `set_fastest_defaults()`.
pub const OP_FASTEST_DEFAULTS: u8 = 2;

/// Operation code of `set_optimize_coding(flag)`.
pub const OP_OPTIMIZE_CODING: u8 = 3;

/// Operation code of `set_quality(quality)`.
pub const OP_QUALITY: u8 = 4;

/// The settings calls made on a compressor that has not started, in order.
pub uninterp spec fn jpeg_setup(c: Compress) -> Seq<Seq<int>>;

/// The settings calls a started compressor was started with, in order.
pub uninterp spec fn jpeg_settings(c: CompressStarted<Vec<u8>>) -> Seq<Seq<int>>;

/// The APP1 segment bodies written into a started compressor, in order.
pub uninterp spec fn jpeg_app1_segments(c: CompressStarted<Vec<u8>>) -> Seq<Seq<u8>>;

/// The scanlines written into a started compressor, in order.
pub uninterp spec fn jpeg_scanlines(c: CompressStarted<Vec<u8>>) -> Seq<Seq<u8>>;

/// The JPEG file that MozJPEG produces from a YCbCr compressor with the given
/// settings calls, APP1 segments and scanlines.
pub uninterp spec fn jpeg_file(
    settings: Seq<Seq<int>>,
    app1_segments: Seq<Seq<u8>>,
    scanlines: Seq<Seq<u8>>,
) -> Seq<u8>;

/// The image size that a sequence of settings calls sets: the arguments of the
/// last `set_size` call, `(0, 0)` when there is none.
pub open spec fn setup_size(setup: Seq<Seq<int>>) -> (int, int)
    decreases setup.len(),
{
    if setup.len() == 0 {
        (0, 0)
    } else if setup.last().len() == 3 && setup.last()[0] == OP_SIZE {
        (setup.last()[1], setup.last()[2])
    } else {
        setup_size(setup.drop_last())
    }
}

/// A settings call is one of the five that this module makes.
pub open spec fn known_setting_call(call: Seq<int>) -> bool {
    &&& call.len() >= 1
    &&& (call[0] == OP_SCAN_ALL_COMPONENTS || call[0] == OP_SIZE || call[0]
        == OP_FASTEST_DEFAULTS || call[0] == OP_OPTIMIZE_CODING || call[0] == OP_QUALITY)
}

/// Every settings call made is one of the five that this module makes. None
/// of them sets the chroma sampling or raw-data input: the sampling is the one
/// `jpeg_set_defaults` chooses, which always samples some component 1x1.
pub open spec fn only_known_settings(setup: Seq<Seq<int>>) -> bool {
    forall|i: int| 0 <= i < setup.len() ==> #[trigger] known_setting_call(setup[i])
}

/// Largest width or height that libjpeg accepts.
pub const JPEG_MAX_DIMENSION: usize = 65500;

/// Largest body of a marker segment that libjpeg accepts.
pub const JPEG_MAX_MARKER_LEN: usize = 65533;

/// The size set up is one libjpeg accepts.
pub open spec fn size_accepted(setup: Seq<Seq<int>>) -> bool {
    &&& 1 <= setup_size(setup).0 <= JPEG_MAX_DIMENSION
    &&& 1 <= setup_size(setup).1 <= JPEG_MAX_DIMENSION
}

/// `Compress::new(ColorSpace::JCS_YCbCr)`: a compressor for three-component
/// YCbCr input. Claims: no settings calls are recorded on it yet.
#[verifier::external_body]
pub(crate) fn new_ycbcr_compressor() -> (c: Compress)
    ensures
        jpeg_setup(c) == Seq::<Seq<int>>::empty(),
{
    Compress::new(mozjpeg::ColorSpace::JCS_YCbCr)
}

/// `Compress::set_scan_optimization_mode(ScanMode::AllComponentsTogether)`.
/// Claims: the call is recorded.
#[verifier::external_body]
pub(crate) fn set_scan_all_components(c: &mut Compress)
    ensures
        jpeg_setup(*final(c)) == jpeg_setup(*old(c)).push(seq![OP_SCAN_ALL_COMPONENTS as int]),
{
    c.set_scan_optimization_mode(mozjpeg::ScanMode::AllComponentsTogether)
}

/// `Compress::set_size`. Claims: the call is recorded with its arguments.
#[verifier::external_body]
pub(crate) fn set_size(c: &mut Compress, width: usize, height: usize)
    ensures
        jpeg_setup(*final(c)) == jpeg_setup(*old(c)).push(
            seq![OP_SIZE as int, width as int, height as int],
        ),
{
    c.set_size(width, height)
}

/// `Compress::set_fastest_defaults`. Claims: the call is recorded.
#[verifier::external_body]
pub(crate) fn set_fastest_defaults(c: &mut Compress)
    ensures
        jpeg_setup(*final(c)) == jpeg_setup(*old(c)).push(seq![OP_FASTEST_DEFAULTS as int]),
{
    c.set_fastest_defaults()
}

/// `Compress::set_optimize_coding`. Claims: the call is recorded with its
/// argument (1 for `true`).
#[verifier::external_body]
pub(crate) fn set_optimize_coding(c: &mut Compress, optimize: bool)
    ensures
        jpeg_setup(*final(c)) == jpeg_setup(*old(c)).push(
            seq![OP_OPTIMIZE_CODING as int, if optimize { 1int } else { 0int }],
        ),
{
    c.set_optimize_coding(optimize)
}

/// `Compress::set_quality`, with the integer quality converted to the float
/// the crate takes (exactly, as it is at most 2^24).
/// Claims: the call is recorded with its argument.
#[verifier::external_body]
pub(crate) fn set_quality(c: &mut Compress, quality: u32)
    requires
        quality <= 16777216,
    ensures
        jpeg_setup(*final(c)) == jpeg_setup(*old(c)).push(seq![OP_QUALITY as int, quality as int]),
{
    c.set_quality(quality as _)
}

/// `Compress::start_compress` into a new vector.
/// Claims: when it starts, the started compressor holds the settings calls
/// made so far and nothing written; and it starts when only the calls of this
/// module were made, since the crate reports an error only when no component
/// is sampled 1 horizontally, or none 1 vertically, and `jpeg_set_defaults`
/// (run by `Compress::new`, the scan-mode call and the fastest-defaults call)
/// samples the second and third YCbCr components 1x1. libjpeg aborts (which
/// the crate's error manager turns into a panic) on an empty image or one over
/// 65500 pixels wide or high; those sizes are held out.
#[verifier::external_body]
pub(crate) fn start_compress(c: Compress) -> (r: Option<CompressStarted<Vec<u8>>>)
    requires
        size_accepted(jpeg_setup(c)),
    ensures
        only_known_settings(jpeg_setup(c)) ==> r is Some,
        r matches Some(s) ==> {
            &&& jpeg_settings(s) == jpeg_setup(c)
            &&& jpeg_app1_segments(s) == Seq::<Seq<u8>>::empty()
            &&& jpeg_scanlines(s) == Seq::<Seq<u8>>::empty()
        },
{
    c.start_compress(Vec::new()).ok()
}

/// `CompressStarted::write_marker` with `Marker::APP(1)`.
/// Claims: the segment is appended to the APP1 segments and nothing else
/// changes. libjpeg aborts on a body over 65533 bytes and on a marker written
/// after the first scanline; both are held out.
#[verifier::external_body]
pub(crate) fn write_app1_segment(c: &mut CompressStarted<Vec<u8>>, data: &[u8])
    requires
        data@.len() <= JPEG_MAX_MARKER_LEN,
        jpeg_scanlines(*old(c)).len() == 0,
    ensures
        jpeg_settings(*final(c)) == jpeg_settings(*old(c)),
        jpeg_scanlines(*final(c)) == jpeg_scanlines(*old(c)),
        jpeg_app1_segments(*final(c)) == jpeg_app1_segments(*old(c)).push(data@),
{
    c.write_marker(mozjpeg::Marker::APP(1), data)
}

/// `CompressStarted::write_scanlines` with exactly one row.
/// Claims: on success the row is appended to the scanlines; on failure
/// (libjpeg accepted no row) nothing changes. It succeeds when only the calls
/// of this module were made and the width is one libjpeg accepts: the crate
/// then fails only when `jpeg_write_scanlines` takes no row, which libjpeg
/// does only when its destination suspends, and the crate's vector
/// destination never suspends. The row must be exactly `3 * width` bytes (the
/// crate drops a shorter one) and there must be room for it (libjpeg ignores
/// rows past the height).
#[verifier::external_body]
pub(crate) fn write_scanline(c: &mut CompressStarted<Vec<u8>>, row: &[u8]) -> (ok: bool)
    requires
        row@.len() == 3 * setup_size(jpeg_settings(*old(c))).0,
        jpeg_scanlines(*old(c)).len() < setup_size(jpeg_settings(*old(c))).1,
    ensures
        only_known_settings(jpeg_settings(*old(c))) && size_accepted(jpeg_settings(*old(c)))
            ==> ok,
        jpeg_settings(*final(c)) == jpeg_settings(*old(c)),
        jpeg_app1_segments(*final(c)) == jpeg_app1_segments(*old(c)),
        ok ==> jpeg_scanlines(*final(c)) == jpeg_scanlines(*old(c)).push(row@),
        !ok ==> jpeg_scanlines(*final(c)) == jpeg_scanlines(*old(c)),
{
    c.write_scanlines(row).is_ok()
}

/// `CompressStarted::finish`.
/// Claims: it hands out the vector, and the bytes are the file named by
/// `jpeg_file` over what was written. The crate's `finish` always returns `Ok`
/// with the writer, and `jpeg_finish_compress` does not stop early, since the
/// crate's vector destination never suspends. libjpeg aborts when fewer
/// scanlines than the height were written; that is held out.
#[verifier::external_body]
pub(crate) fn finish_compressor(c: CompressStarted<Vec<u8>>) -> (r: Option<Vec<u8>>)
    requires
        jpeg_scanlines(c).len() == setup_size(jpeg_settings(c)).1,
    ensures
        r is Some,
        r matches Some(bytes) ==> bytes@ == jpeg_file(
            jpeg_settings(c),
            jpeg_app1_segments(c),
            jpeg_scanlines(c),
        ),
{
    c.finish().ok()
}

} // verus!
