//! Video pixel operations: YUV 4:2:0 to RGB conversion, bilinear scaling,
//! CPU feature detection and aligned scratch buffers.

use crate::streaming::compiler_optimization::{host_architecture, HostArch};
use vstd::prelude::*;

verus! {

/// Features of the CPU that select the pixel code paths.
#[derive(Debug, Clone, Copy, PartialEq, Eq)]
pub struct CPUCapabilities {
    pub has_avx2: bool,
    pub has_avx512: bool,
    pub has_fma: bool,
    pub has_neon: bool,
    pub cache_line_size: usize,
}

/// Errors of the pixel operations.
#[derive(Debug, Clone, Copy, PartialEq, Eq)]
pub enum SIMDError {
    InvalidInputSize,
    InvalidOutputSize,
    UnsupportedFormat,
    AlignmentError,
    BufferOverflow,
}

/// Whether the CPU reports AVX2 (`raw_cpuid`, extended feature leaf). It
/// depends on the machine: nothing is claimed of it.
#[verifier::external_body]
fn cpu_reports_avx2() -> (b: bool) {
    match raw_cpuid::CpuId::new().get_extended_feature_info() {
        Some(f) => f.has_avx2(),
        None => false,
    }
}

/// Whether the CPU reports AVX-512F (`raw_cpuid`, extended feature leaf). It
/// depends on the machine: nothing is claimed of it.
#[verifier::external_body]
fn cpu_reports_avx512f() -> (b: bool) {
    match raw_cpuid::CpuId::new().get_extended_feature_info() {
        Some(f) => f.has_avx512f(),
        None => false,
    }
}

/// Whether the CPU reports FMA (`raw_cpuid`, feature leaf). It depends on
/// the machine: nothing is claimed of it.
#[verifier::external_body]
fn cpu_reports_fma() -> (b: bool) {
    match raw_cpuid::CpuId::new().get_feature_info() {
        Some(f) => f.has_fma(),
        None => false,
    }
}

/// Whether the operating system has enabled the XSAVE state that AVX needs
/// (`raw_cpuid`, feature leaf, OSXSAVE). It depends on the machine: nothing
/// is claimed of it.
#[verifier::external_body]
fn os_enables_xsave() -> (b: bool) {
    match raw_cpuid::CpuId::new().get_feature_info() {
        Some(f) => f.has_oxsave(),
        None => false,
    }
}

/// The capabilities of a CPU of architecture `arch`: on x86-64 the AVX2,
/// AVX-512F and FMA that the CPU reports, each only where the operating
/// system has enabled XSAVE; on AArch64 NEON, which belongs to the baseline
/// of the AArch64 targets; elsewhere none. Cache lines are 64 bytes.
pub open spec fn capabilities_of(arch: HostArch, avx2: bool, avx512f: bool, fma: bool, xsave: bool) -> CPUCapabilities {
    match arch {
        HostArch::X86_64 => CPUCapabilities {
            has_avx2: avx2 && xsave,
            has_avx512: avx512f && xsave,
            has_fma: fma && xsave,
            has_neon: false,
            cache_line_size: 64,
        },
        HostArch::Aarch64 => CPUCapabilities {
            has_avx2: false,
            has_avx512: false,
            has_fma: false,
            has_neon: true,
            cache_line_size: 64,
        },
        HostArch::Other => CPUCapabilities {
            has_avx2: false,
            has_avx512: false,
            has_fma: false,
            has_neon: false,
            cache_line_size: 64,
        },
    }
}

/// The capabilities of a CPU of architecture `arch`, as `capabilities_of`
/// states them.
pub fn capabilities_for(arch: HostArch, avx2: bool, avx512f: bool, fma: bool, xsave: bool) -> (c: CPUCapabilities)
    ensures
        c == capabilities_of(arch, avx2, avx512f, fma, xsave),
{
    match arch {
        HostArch::X86_64 => CPUCapabilities {
            has_avx2: avx2 && xsave,
            has_avx512: avx512f && xsave,
            has_fma: fma && xsave,
            has_neon: false,
            cache_line_size: 64,
        },
        HostArch::Aarch64 => CPUCapabilities {
            has_avx2: false,
            has_avx512: false,
            has_fma: false,
            has_neon: true,
            cache_line_size: 64,
        },
        HostArch::Other => CPUCapabilities {
            has_avx2: false,
            has_avx512: false,
            has_fma: false,
            has_neon: false,
            cache_line_size: 64,
        },
    }
}

/// `num_cpus::get`: the number of processors of the machine, at least one.
/// It depends on the machine: nothing else is claimed.
#[verifier::external_body]
pub(crate) fn processor_count() -> (n: usize)
    ensures
        n >= 1,
{
    num_cpus::get()
}

/// Pixel operations with the code path chosen by the CPU's features.
pub struct SIMDVideoProcessor {
    capabilities: CPUCapabilities,
    temp_buffers: Vec<AlignedBuffer>,
}

/// A value limited to the byte range.
pub open spec fn clamp_byte(v: int) -> int {
    if v < 0 {
        0
    } else if v > 255 {
        255
    } else {
        v
    }
}

/// Red, green and blue of a pixel from its luma and its centred chroma
/// (`u`, `v` already less 128), in the fixed-point BT.601 form: each sum is
/// divided by 256 rounding down and limited to 0..=255.
pub open spec fn rgb_of(y: int, u: int, v: int, channel: int) -> int {
    if channel == 0 {
        clamp_byte((298 * y + 409 * v + 128) / 256)
    } else if channel == 1 {
        clamp_byte((298 * y - 100 * u - 208 * v + 128) / 256)
    } else {
        clamp_byte((298 * y + 516 * u + 128) / 256)
    }
}

/// The index of the chroma sample shared by the pixel at `row`, `col`.
pub open spec fn chroma_index(width: int, row: int, col: int) -> int {
    (row / 2) * (width / 2) + col / 2
}

/// The chroma index of the last pixel, the largest one a frame uses.
pub open spec fn last_chroma_index(width: int, height: int) -> int {
    chroma_index(width, height - 1, width - 1)
}

/// Every pixel's chroma sample lies within a quarter plane of
/// `width * height / 4` samples.
pub open spec fn chroma_fits(width: int, height: int) -> bool {
    width == 0 || height == 0 || last_chroma_index(width, height) < (width * height) / 4
}

/// Whether every chroma sample the conversion reads lies within `len`
/// input bytes: the V sample of the last pixel is the one furthest in.
pub open spec fn chroma_reads_fit(width: int, height: int, len: int) -> bool {
    width == 0 || height == 0 || width * height + (width * height) / 4 + last_chroma_index(width, height) < len
}

/// A frame whose chroma samples fit in its quarter planes can be read
/// whenever its input holds the whole frame.
pub proof fn lemma_fitting_chroma_reads(width: int, height: int, len: int)
    requires
        width >= 0,
        height >= 0,
        chroma_fits(width, height),
        len >= width * height * 3 / 2,
    ensures
        chroma_reads_fit(width, height, len),
{
    let l = width * height;
    assert(l * 3 / 2 - l - l / 4 >= l / 4);
}

/// Byte `i` of the RGB24 image converted from the planar YUV 4:2:0 frame
/// `yuv` (luma plane, then the U and the V quarter planes).
pub open spec fn rgb_byte(yuv: Seq<u8>, width: int, height: int, i: int) -> int {
    let p = i / 3;
    let row = p / width;
    let col = p % width;
    let luma = width * height;
    let quarter = luma / 4;
    let c = chroma_index(width, row, col);
    rgb_of(
        yuv[p] as int,
        yuv[luma + c] as int - 128,
        yuv[luma + quarter + c] as int - 128,
        i % 3,
    )
}

/// Where pixel `p` of a `width`-wide frame sits: row `p / width`, column
/// `p % width`.
proof fn lemma_pixel_at(row: int, col: int, width: int, channel: int)
    requires
        width > 0,
        row >= 0,
        0 <= col < width,
        0 <= channel < 3,
    ensures
        ((row * width + col) * 3 + channel) / 3 == row * width + col,
        ((row * width + col) * 3 + channel) % 3 == channel,
        (row * width + col) / width == row,
        (row * width + col) % width == col,
{
    let p = row * width + col;
    assert(p >= 0) by (nonlinear_arith)
        requires
            row >= 0,
            width > 0,
            col >= 0,
            p == row * width + col,
    ;
    assert(p / width == row && p % width == col) by (nonlinear_arith)
        requires
            width > 0,
            row >= 0,
            0 <= col < width,
            p == row * width + col,
    ;
}

/// The colour of the pixel at `row`, `col` depends on its own luma sample
/// and on the U and V samples at `(row / 2) * (width / 2) + col / 2` of the
/// quarter planes, and on nothing else: two frames that agree on those
/// three samples give the pixel the same red, green and blue. So the pixels
/// of rows `2k` and `2k + 1` read chroma row `k`.
pub proof fn lemma_pixel_reads_its_chroma_block(
    a: Seq<u8>,
    b: Seq<u8>,
    width: int,
    height: int,
    row: int,
    col: int,
    channel: int,
)
    requires
        width > 0,
        height > 0,
        0 <= row < height,
        0 <= col < width,
        0 <= channel < 3,
        a[row * width + col] == b[row * width + col],
        a[width * height + (row / 2) * (width / 2) + col / 2] == b[width * height + (row / 2) * (width / 2)
            + col / 2],
        a[width * height + (width * height) / 4 + (row / 2) * (width / 2) + col / 2] == b[width * height
            + (width * height) / 4 + (row / 2) * (width / 2) + col / 2],
    ensures
        rgb_byte(a, width, height, (row * width + col) * 3 + channel) == rgb_byte(
            b,
            width,
            height,
            (row * width + col) * 3 + channel,
        ),
{
    lemma_pixel_at(row, col, width, channel);
}

/// Red is read from the luma and V samples alone, blue from the luma and U
/// samples alone: two frames that agree on the pixel's luma and V sample
/// give it the same red, and two that agree on its luma and U sample give
/// it the same blue.
pub proof fn lemma_red_from_v_blue_from_u(a: Seq<u8>, b: Seq<u8>, width: int, height: int, row: int, col: int)
    requires
        width > 0,
        height > 0,
        0 <= row < height,
        0 <= col < width,
        a[row * width + col] == b[row * width + col],
    ensures
        a[width * height + (width * height) / 4 + (row / 2) * (width / 2) + col / 2] == b[width * height
            + (width * height) / 4 + (row / 2) * (width / 2) + col / 2] ==> rgb_byte(
            a,
            width,
            height,
            (row * width + col) * 3,
        ) == rgb_byte(b, width, height, (row * width + col) * 3),
        a[width * height + (row / 2) * (width / 2) + col / 2] == b[width * height + (row / 2) * (width / 2)
            + col / 2] ==> rgb_byte(a, width, height, (row * width + col) * 3 + 2) == rgb_byte(
            b,
            width,
            height,
            (row * width + col) * 3 + 2,
        ),
{
    lemma_pixel_at(row, col, width, 0);
    lemma_pixel_at(row, col, width, 2);
}

/// A pixel whose U and V samples are both 128 (no colour) is grey: its
/// red, green and blue bytes are equal.
pub proof fn lemma_neutral_chroma_is_grey(yuv: Seq<u8>, width: int, height: int, row: int, col: int)
    requires
        width > 0,
        height > 0,
        0 <= row < height,
        0 <= col < width,
        yuv[width * height + (row / 2) * (width / 2) + col / 2] == 128,
        yuv[width * height + (width * height) / 4 + (row / 2) * (width / 2) + col / 2] == 128,
    ensures
        rgb_byte(yuv, width, height, (row * width + col) * 3) == rgb_byte(
            yuv,
            width,
            height,
            (row * width + col) * 3 + 1,
        ),
        rgb_byte(yuv, width, height, (row * width + col) * 3 + 1) == rgb_byte(
            yuv,
            width,
            height,
            (row * width + col) * 3 + 2,
        ),
{
    lemma_pixel_at(row, col, width, 0);
    lemma_pixel_at(row, col, width, 1);
    lemma_pixel_at(row, col, width, 2);
}

/// Scaling a one-sample-wide column gives what scaling the same samples as
/// a one-sample-high row gives: the vertical weights are the horizontal
/// ones, taken from the destination row as those are from the destination
/// column.
pub proof fn lemma_column_scales_like_row(src: Seq<u8>, src_len: int, dst_len: int, i: int)
    requires
        src_len > 0,
        dst_len > 0,
        0 <= i < dst_len,
    ensures
        scaled_byte(src, 1, src_len, 1, dst_len, i) == scaled_byte(src, src_len, 1, dst_len, 1, i),
{
    assert(scale_ratio(1, 1) == 65537);
    assert(i % dst_len == i && i / dst_len == 0) by (nonlinear_arith)
        requires
            0 <= i < dst_len,
    ;
    let r = scale_ratio(src_len, dst_len);
    let c = source_coord(i, r);
    let f = source_frac(i, r);
    let a = src[c] as int;
    let d = src[next_coord(c, src_len)] as int;
    assert(bilinear(a, a, d, d, 0, f) == bilinear(a, d, a, d, f, 0)) by (nonlinear_arith);
}

/// `x` divided by 256, rounded down, as an arithmetic shift by eight does.
fn floor_div256(x: i32) -> (r: i32)
    requires
        -1_000_000 <= x <= 1_000_000,
    ensures
        r == x as int / 256,
{
    if x >= 0 {
        x / 256
    } else {
        let m: i32 = -x;
        let q: i32 = (m + 255) / 256;
        assert(-q == x as int / 256) by (nonlinear_arith)
            requires
                m == -x,
                x < 0,
                q == (m + 255) / 256,
        ;
        -q
    }
}

/// A value limited to the byte range.
fn clamp_to_byte(v: i32) -> (r: u8)
    ensures
        r == clamp_byte(v as int),
{
    if v < 0 {
        0
    } else if v > 255 {
        255
    } else {
        v as u8
    }
}

/// Facts about the position of pixel `p` of a `width`-wide image.
proof fn lemma_pixel_position(width: int, height: int, p: int)
    requires
        width > 0,
        height > 0,
        0 <= p < width * height,
    ensures
        0 <= p / width < height,
        0 <= p % width < width,
        p == (p / width) * width + p % width,
{
    assert(0 <= p / width < height) by (nonlinear_arith)
        requires
            width > 0,
            height > 0,
            0 <= p < width * height,
    ;
    assert(p == (p / width) * width + p % width) by (nonlinear_arith)
        requires
            width > 0,
    ;
}

/// The chroma index grows with the row and the column.
proof fn lemma_chroma_index_monotone(width: int, height: int, row: int, col: int)
    requires
        width > 0,
        height > 0,
        0 <= row < height,
        0 <= col < width,
    ensures
        0 <= chroma_index(width, row, col) <= last_chroma_index(width, height),
{
    assert(0 <= (row / 2) * (width / 2) <= ((height - 1) / 2) * (width / 2)) by (nonlinear_arith)
        requires
            width > 0,
            0 <= row <= height - 1,
    ;
}

/// The byte at `p * 3 + k` belongs to pixel `p`, channel `k`.
proof fn lemma_channel_index(p: int, k: int)
    requires
        0 <= p,
        0 <= k < 3,
    ensures
        (p * 3 + k) / 3 == p,
        (p * 3 + k) % 3 == k,
{
}


/// The 16.16 fixed-point step between source samples for one destination
/// sample.
pub open spec fn scale_ratio(src: int, dst: int) -> int {
    (src * 65536) / dst + 1
}

/// The source coordinate of destination coordinate `d`.
pub open spec fn source_coord(d: int, ratio: int) -> int {
    (d * ratio) / 65536
}

/// The fraction, in 256ths, between a source coordinate and the next.
pub open spec fn source_frac(d: int, ratio: int) -> int {
    ((d * ratio) / 256) % 256
}

/// The next source coordinate, kept at the last one.
pub open spec fn next_coord(c: int, size: int) -> int {
    if c + 1 < size - 1 {
        c + 1
    } else {
        size - 1
    }
}

/// The weighted sum of four neighbours with weights in 256ths, divided by
/// 65536.
pub open spec fn bilinear(a: int, b: int, c: int, d: int, xd: int, yd: int) -> int {
    (a * (256 - xd) * (256 - yd) + b * xd * (256 - yd) + c * yd * (256 - xd) + d * xd * yd)
        / 65536
}

/// Byte `i` of a `dst_width` by `dst_height` image scaled from a
/// `src_width` by `src_height` one by bilinear interpolation.
pub open spec fn scaled_byte(
    src: Seq<u8>,
    src_width: int,
    src_height: int,
    dst_width: int,
    dst_height: int,
    i: int,
) -> int {
    let x = i % dst_width;
    let y = i / dst_width;
    let xr = scale_ratio(src_width, dst_width);
    let yr = scale_ratio(src_height, dst_height);
    let x2 = source_coord(x, xr);
    let y2 = source_coord(y, yr);
    let x2_1 = next_coord(x2, src_width);
    let y2_1 = next_coord(y2, src_height);
    bilinear(
        src[y2 * src_width + x2] as int,
        src[y2 * src_width + x2_1] as int,
        src[y2_1 * src_width + x2] as int,
        src[y2_1 * src_width + x2_1] as int,
        source_frac(x, xr),
        source_frac(y, yr),
    )
}

/// The scaling stays inside the source along one axis: the last destination
/// coordinate maps to a source coordinate below `src`, without overflow.
pub open spec fn axis_fits(src: int, dst: int) -> bool {
    &&& src > 0
    &&& dst > 0
    &&& src * 65536 <= usize::MAX
    &&& (dst - 1) * scale_ratio(src, dst) <= usize::MAX
    &&& source_coord(dst - 1, scale_ratio(src, dst)) < src
}

/// One step of the same-size ratio moves one source sample, with no
/// fraction, below 256.
proof fn lemma_unit_step(x: int)
    requires
        0 <= x < 256,
    ensures
        source_coord(x, 65537) == x,
        source_frac(x, 65537) == 0,
{
}

/// Scaling an image of at most 256 by 256 samples to its own size gives it
/// back sample for sample, and such a scaling is one `scale_image` accepts.
pub proof fn lemma_same_size_scaling_is_identity(src: Seq<u8>, w: int, h: int)
    requires
        0 < w <= 256,
        0 < h <= 256,
        src.len() >= w * h,
    ensures
        axis_fits(w, w),
        axis_fits(h, h),
        forall|i: int| 0 <= i < w * h ==> #[trigger] scaled_byte(src, w, h, w, h, i) == src[i] as int,
{
    assert(scale_ratio(w, w) == 65537) by (nonlinear_arith)
        requires
            0 < w,
    {
        assert((w * 65536) / w == 65536);
    }
    assert(scale_ratio(h, h) == 65537) by (nonlinear_arith)
        requires
            0 < h,
    {
        assert((h * 65536) / h == 65536);
    }
    lemma_unit_step(w - 1);
    lemma_unit_step(h - 1);
    assert forall|i: int| 0 <= i < w * h implies #[trigger] scaled_byte(src, w, h, w, h, i) == src[i] as int by {
        let x = i % w;
        let y = i / w;
        assert(0 <= x < w && 0 <= y < h && y * w + x == i) by (nonlinear_arith)
            requires
                0 < w,
                0 < h,
                0 <= i < w * h,
                x == i % w,
                y == i / w,
        ;
        lemma_unit_step(x);
        lemma_unit_step(y);
    }
}

/// A weighted mean of bytes is a byte.
proof fn lemma_bilinear_bound(a: int, b: int, c: int, d: int, xd: int, yd: int)
    requires
        0 <= a <= 255,
        0 <= b <= 255,
        0 <= c <= 255,
        0 <= d <= 255,
        0 <= xd < 256,
        0 <= yd < 256,
    ensures
        0 <= a * (256 - xd) * (256 - yd) + b * xd * (256 - yd) + c * yd * (256 - xd) + d * xd
            * yd <= 255 * 65536,
        0 <= bilinear(a, b, c, d, xd, yd) <= 255,
{
    let s = a * (256 - xd) * (256 - yd) + b * xd * (256 - yd) + c * yd * (256 - xd) + d * xd * yd;
    assert(0 <= s <= 255 * ((256 - xd) * (256 - yd) + xd * (256 - yd) + yd * (256 - xd) + xd
        * yd)) by (nonlinear_arith)
        requires
            0 <= a <= 255,
            0 <= b <= 255,
            0 <= c <= 255,
            0 <= d <= 255,
            0 <= xd < 256,
            0 <= yd < 256,
            s == a * (256 - xd) * (256 - yd) + b * xd * (256 - yd) + c * yd * (256 - xd) + d * xd
                * yd,
    ;
    assert((256 - xd) * (256 - yd) + xd * (256 - yd) + yd * (256 - xd) + xd * yd == 65536)
        by (nonlinear_arith);
}

/// Source coordinates grow with destination coordinates.
proof fn lemma_source_coord_monotone(d: int, last: int, ratio: int)
    requires
        0 <= d <= last,
        ratio >= 0,
    ensures
        0 <= d * ratio <= last * ratio,
        source_coord(d, ratio) <= source_coord(last, ratio),
{
    assert(0 <= d * ratio <= last * ratio) by (nonlinear_arith)
        requires
            0 <= d <= last,
            ratio >= 0,
    ;
}

/// The flat index of a sample inside an image.
proof fn lemma_flat_index(width: int, height: int, row: int, col: int)
    requires
        0 <= row < height,
        0 <= col < width,
    ensures
        0 <= row * width + col < width * height,
{
    assert(0 <= row * width + col < width * height) by (nonlinear_arith)
        requires
            0 <= row < height,
            0 <= col < width,
    ;
}

impl SIMDVideoProcessor {
    /// A processor for the CPU this runs on.
    pub fn new() -> (p: Self)
        ensures
            exists|arch: HostArch, avx2: bool, avx512f: bool, fma: bool, xsave: bool|
                p.spec_capabilities() == #[trigger] capabilities_of(arch, avx2, avx512f, fma, xsave),
    {
        let capabilities = Self::detect_cpu_capabilities();
        let temp_buffers: Vec<AlignedBuffer> = Vec::with_capacity(4);
        SIMDVideoProcessor { capabilities, temp_buffers }
    }

    /// The capabilities found at creation.
    pub closed spec fn spec_capabilities(&self) -> CPUCapabilities {
        self.capabilities
    }

    /// The SIMD features of the CPU this runs on, as `capabilities_for`
    /// gives them for the build's architecture, with 64-byte cache lines.
    pub fn detect_cpu_capabilities() -> (c: CPUCapabilities)
        ensures
            exists|arch: HostArch, avx2: bool, avx512f: bool, fma: bool, xsave: bool|
                c == #[trigger] capabilities_of(arch, avx2, avx512f, fma, xsave),
    {
        let arch = host_architecture();
        match arch {
            HostArch::X86_64 => capabilities_for(
                arch,
                cpu_reports_avx2(),
                cpu_reports_avx512f(),
                cpu_reports_fma(),
                os_enables_xsave(),
            ),
            _ => capabilities_for(arch, false, false, false, false),
        }
    }

    /// The capabilities found at creation.
    pub fn get_capabilities(&self) -> (c: CPUCapabilities)
        ensures
            c == self.spec_capabilities(),
    {
        self.capabilities
    }

    /// Converts a planar YUV 4:2:0 frame to packed RGB24, or reports which
    /// buffer is too small: the input needs `width * height * 3 / 2` bytes,
    /// the output `width * height * 3`.
    pub fn yuv420_to_rgb24(
        &mut self,
        yuv_data: &[u8],
        rgb_data: &mut [u8],
        width: usize,
        height: usize,
    ) -> (r: Result<(), SIMDError>)
        requires
            width * height * 3 <= usize::MAX,
            yuv_data@.len() >= width * height * 3 / 2 && old(rgb_data)@.len() >= width * height
                * 3 ==> chroma_reads_fit(width as int, height as int, yuv_data@.len() as int),
        ensures
            yuv_data@.len() < width * height * 3 / 2 ==> r == Err::<(), SIMDError>(
                SIMDError::InvalidInputSize,
            ) && final(rgb_data)@ == old(rgb_data)@,
            yuv_data@.len() >= width * height * 3 / 2 && old(rgb_data)@.len() < width * height
                * 3 ==> r == Err::<(), SIMDError>(SIMDError::InvalidOutputSize) && final(rgb_data)@
                == old(rgb_data)@,
            yuv_data@.len() >= width * height * 3 / 2 && old(rgb_data)@.len() >= width * height
                * 3 ==> {
                &&& r == Ok::<(), SIMDError>(())
                &&& final(rgb_data)@.len() == old(rgb_data)@.len()
                &&& forall|i: int|
                    0 <= i < width * height * 3 ==> #[trigger] final(rgb_data)@[i] == rgb_byte(
                        yuv_data@,
                        width as int,
                        height as int,
                        i,
                    )
                &&& forall|i: int|
                    width * height * 3 <= i < old(rgb_data)@.len() ==> #[trigger] final(rgb_data)@[i]
                        == old(rgb_data)@[i]
            },
            final(self).spec_capabilities() == old(self).spec_capabilities(),
    {
        let luma = width * height;
        if yuv_data.len() < luma * 3 / 2 {
            return Err(SIMDError::InvalidInputSize);
        }
        if rgb_data.len() < luma * 3 {
            return Err(SIMDError::InvalidOutputSize);
        }
        self.yuv420_to_rgb24_scalar(yuv_data, rgb_data, width, height)
    }

    /// Scales a one-byte-per-sample image by bilinear interpolation in 16.16
    /// fixed point.
    pub fn scale_image(
        &mut self,
        src: &[u8],
        dst: &mut [u8],
        src_width: usize,
        src_height: usize,
        dst_width: usize,
        dst_height: usize,
    ) -> (r: Result<(), SIMDError>)
        requires
            axis_fits(src_width as int, dst_width as int),
            axis_fits(src_height as int, dst_height as int),
            src@.len() >= src_width * src_height,
            old(dst)@.len() >= dst_width * dst_height,
        ensures
            r == Ok::<(), SIMDError>(()),
            final(dst)@.len() == old(dst)@.len(),
            forall|i: int|
                0 <= i < dst_width * dst_height ==> #[trigger] final(dst)@[i] == scaled_byte(
                    src@,
                    src_width as int,
                    src_height as int,
                    dst_width as int,
                    dst_height as int,
                    i,
                ),
            forall|i: int|
                dst_width * dst_height <= i < old(dst)@.len() ==> #[trigger] final(dst)@[i] == old(
                    dst,
                )@[i],
            final(self).spec_capabilities() == old(self).spec_capabilities(),
    {
        let src_len = src.len();
        let dst_len = dst.len();
        let x_ratio = (src_width * 65536) / dst_width + 1;
        let y_ratio = (src_height * 65536) / dst_height + 1;
        let total = dst_width * dst_height;
        let mut p: usize = 0;
        while p < total
            invariant
                total == dst_width * dst_height,
                p <= total,
                x_ratio == scale_ratio(src_width as int, dst_width as int),
                y_ratio == scale_ratio(src_height as int, dst_height as int),
                axis_fits(src_width as int, dst_width as int),
                axis_fits(src_height as int, dst_height as int),
                src@.len() >= src_width * src_height,
                src@.len() == src_len,
                dst@.len() == old(dst)@.len(),
                old(dst)@.len() >= total,
                forall|i: int|
                    0 <= i < p ==> #[trigger] dst@[i] == scaled_byte(
                        src@,
                        src_width as int,
                        src_height as int,
                        dst_width as int,
                        dst_height as int,
                        i,
                    ),
                forall|i: int| p <= i < old(dst)@.len() ==> #[trigger] dst@[i] == old(dst)@[i],
            decreases total - p,
        {
            proof {
                lemma_pixel_position(dst_width as int, dst_height as int, p as int);
            }
            let x = p % dst_width;
            let y = p / dst_width;
            proof {
                lemma_source_coord_monotone(x as int, dst_width - 1, x_ratio as int);
                lemma_source_coord_monotone(y as int, dst_height - 1, y_ratio as int);
            }
            let xs = x * x_ratio;
            let ys = y * y_ratio;
            let x2 = xs / 65536;
            let y2 = ys / 65536;
            let x_diff = ((xs / 256) % 256) as u32;
            let y_diff = ((ys / 256) % 256) as u32;
            let x2_1 = if x2 + 1 < src_width - 1 {
                x2 + 1
            } else {
                src_width - 1
            };
            let y2_1 = if y2 + 1 < src_height - 1 {
                y2 + 1
            } else {
                src_height - 1
            };
            proof {
                lemma_flat_index(src_width as int, src_height as int, y2 as int, x2 as int);
                lemma_flat_index(src_width as int, src_height as int, y2 as int, x2_1 as int);
                lemma_flat_index(src_width as int, src_height as int, y2_1 as int, x2 as int);
                lemma_flat_index(src_width as int, src_height as int, y2_1 as int, x2_1 as int);
            }
            let a = src[y2 * src_width + x2] as u32;
            let b = src[y2 * src_width + x2_1] as u32;
            let c = src[y2_1 * src_width + x2] as u32;
            let d = src[y2_1 * src_width + x2_1] as u32;
            proof {
                lemma_bilinear_bound(
                    a as int,
                    b as int,
                    c as int,
                    d as int,
                    x_diff as int,
                    y_diff as int,
                );
                assert(0 <= a * (256 - x_diff) <= 255 * 256) by (nonlinear_arith)
                    requires
                        a <= 255,
                        x_diff < 256,
                        y_diff < 256,
                ;
                assert(0 <= a * (256 - x_diff) * (256 - y_diff) <= 255 * 65536) by (nonlinear_arith)
                    requires
                        a <= 255,
                        x_diff < 256,
                        y_diff < 256,
                ;
                assert(0 <= b * x_diff <= 255 * 256) by (nonlinear_arith)
                    requires
                        b <= 255,
                        x_diff < 256,
                        y_diff < 256,
                ;
                assert(0 <= b * x_diff * (256 - y_diff) <= 255 * 65536) by (nonlinear_arith)
                    requires
                        b <= 255,
                        x_diff < 256,
                        y_diff < 256,
                ;
                assert(0 <= c * y_diff <= 255 * 256) by (nonlinear_arith)
                    requires
                        c <= 255,
                        x_diff < 256,
                        y_diff < 256,
                ;
                assert(0 <= c * y_diff * (256 - x_diff) <= 255 * 65536) by (nonlinear_arith)
                    requires
                        c <= 255,
                        x_diff < 256,
                        y_diff < 256,
                ;
                assert(0 <= d * x_diff <= 255 * 256) by (nonlinear_arith)
                    requires
                        d <= 255,
                        x_diff < 256,
                        y_diff < 256,
                ;
                assert(0 <= d * x_diff * y_diff <= 255 * 65536) by (nonlinear_arith)
                    requires
                        d <= 255,
                        x_diff < 256,
                        y_diff < 256,
                ;
            }
            let pixel = (a * (256 - x_diff) * (256 - y_diff) + b * x_diff * (256 - y_diff) + c
                * y_diff * (256 - x_diff) + d * x_diff * y_diff) / 65536;
            dst[p] = pixel as u8;
            p = p + 1;
        }
        Ok(())
    }

    /// The conversion, pixel by pixel.
    pub fn yuv420_to_rgb24_scalar(
        &self,
        yuv_data: &[u8],
        rgb_data: &mut [u8],
        width: usize,
        height: usize,
    ) -> (r: Result<(), SIMDError>)
        requires
            width * height * 3 <= usize::MAX,
            width * height + (width * height) / 4 <= yuv_data@.len(),
            chroma_reads_fit(width as int, height as int, yuv_data@.len() as int),
            old(rgb_data)@.len() >= width * height * 3,
        ensures
            r == Ok::<(), SIMDError>(()),
            final(rgb_data)@.len() == old(rgb_data)@.len(),
            forall|i: int|
                0 <= i < width * height * 3 ==> #[trigger] final(rgb_data)@[i] == rgb_byte(
                    yuv_data@,
                    width as int,
                    height as int,
                    i,
                ),
            forall|i: int|
                width * height * 3 <= i < old(rgb_data)@.len() ==> #[trigger] final(rgb_data)@[i]
                    == old(rgb_data)@[i],
    {
        let luma = width * height;
        let quarter = luma / 4;
        let yuv_len = yuv_data.len();
        let mut p: usize = 0;
        while p < luma
            invariant
                yuv_len == yuv_data@.len(),
                luma == width * height,
                quarter == luma / 4,
                luma * 3 <= usize::MAX,
                p <= luma,
                luma + quarter <= yuv_data@.len(),
                width == 0 || height == 0 || luma + quarter + last_chroma_index(
                    width as int,
                    height as int,
                ) < yuv_data@.len(),
                rgb_data@.len() == old(rgb_data)@.len(),
                old(rgb_data)@.len() >= luma * 3,
                forall|i: int|
                    0 <= i < p * 3 ==> #[trigger] rgb_data@[i] == rgb_byte(
                        yuv_data@,
                        width as int,
                        height as int,
                        i,
                    ),
                forall|i: int|
                    p * 3 <= i < old(rgb_data)@.len() ==> #[trigger] rgb_data@[i] == old(
                        rgb_data,
                    )@[i],
            decreases luma - p,
        {
            proof {
                lemma_pixel_position(width as int, height as int, p as int);
            }
            let row = p / width;
            let col = p % width;
            proof {
                lemma_chroma_index_monotone(width as int, height as int, row as int, col as int);
            }
            proof {
                let r2 = (row / 2) as int;
                let w2 = (width / 2) as int;
                assert(0 <= r2 * w2) by (nonlinear_arith)
                    requires
                        r2 >= 0,
                        w2 >= 0,
                ;
                assert(r2 * w2 + col / 2 == chroma_index(width as int, row as int, col as int));
            }
            let c = (row / 2) * (width / 2) + col / 2;
            let y_val = yuv_data[p] as i32;
            let u_val = yuv_data[luma + c] as i32 - 128;
            let v_val = yuv_data[luma + quarter + c] as i32 - 128;
            let r = clamp_to_byte(floor_div256(298 * y_val + 409 * v_val + 128));
            let g = clamp_to_byte(floor_div256(298 * y_val - 100 * u_val - 208 * v_val + 128));
            let b = clamp_to_byte(floor_div256(298 * y_val + 516 * u_val + 128));
            let rgb_idx = p * 3;
            rgb_data[rgb_idx] = r;
            rgb_data[rgb_idx + 1] = g;
            rgb_data[rgb_idx + 2] = b;
            proof {
                lemma_channel_index(p as int, 0);
                lemma_channel_index(p as int, 1);
                lemma_channel_index(p as int, 2);
                assert forall|i: int| 0 <= i < (p + 1) * 3 implies #[trigger] rgb_data@[i]
                    == rgb_byte(yuv_data@, width as int, height as int, i) by {
                    if i >= p * 3 {
                        let k = i - p * 3;
                        lemma_channel_index(p as int, k);
                        assert(i == p * 3 + k);
                    }
                }
            }
            p = p + 1;
        }
        Ok(())
    }
}

/// A buffer with a slice of `size` bytes at an address that is a multiple of
/// `alignment`.
pub struct AlignedBuffer {
    data: Vec<u8>,
    alignment: usize,
    offset: usize,
}

/// The address of the first byte of `data` (`as_ptr` as an integer). It
/// depends on the allocator: nothing is claimed of it.
#[verifier::external_body]
fn address_of(data: &Vec<u8>) -> (a: usize) {
    data.as_ptr() as usize
}

/// How far past `addr` the next multiple of `alignment` lies.
pub open spec fn align_offset(addr: nat, alignment: nat) -> nat {
    ((alignment - addr % alignment) % alignment as int) as nat
}

impl AlignedBuffer {
    /// The slot count and the alignment are consistent.
    pub closed spec fn wf(&self) -> bool {
        &&& self.alignment > 0
        &&& self.data@.len() >= self.alignment
        &&& self.offset < self.alignment
    }

    /// Where the usable bytes start in the buffer: the first byte whose
    /// address is a multiple of the alignment, found at creation.
    pub closed spec fn spec_offset(&self) -> nat {
        self.offset as nat
    }

    /// Usable bytes.
    pub closed spec fn size(&self) -> nat {
        (self.data@.len() - self.alignment) as nat
    }

    /// The alignment.
    pub closed spec fn spec_alignment(&self) -> nat {
        self.alignment as nat
    }

    /// All bytes of the buffer, including the padding used for alignment.
    pub closed spec fn bytes(&self) -> Seq<u8> {
        self.data@
    }

    /// A well-formed buffer holds its usable bytes and the alignment's
    /// worth of padding, and a nonzero alignment.
    pub proof fn lemma_layout(&self)
        requires
            self.wf(),
        ensures
            self.bytes().len() == self.size() + self.spec_alignment(),
            self.spec_alignment() > 0,
            self.spec_offset() < self.spec_alignment(),
    {
    }

    /// What was written through `as_mut_slice` is what `as_slice` reads
    /// afterwards: `after` is `before` once `written` went in through the
    /// slice, as `as_mut_slice` states it.
    pub proof fn lemma_read_after_write(before: AlignedBuffer, after: AlignedBuffer, written: Seq<u8>)
        requires
            before.wf(),
            written.len() == before.size(),
            after.spec_alignment() == before.spec_alignment(),
            after.spec_offset() == before.spec_offset(),
            after.bytes() == before.bytes().subrange(0, before.spec_offset() as int) + written
                + before.bytes().subrange((before.spec_offset() + before.size()) as int, before.bytes().len() as int),
        ensures
            after.wf(),
            after.size() == before.size(),
            after.bytes().subrange(after.spec_offset() as int, (after.spec_offset() + after.size()) as int) == written,
    {
        assert(after.bytes().subrange(after.spec_offset() as int, (after.spec_offset() + after.size()) as int) =~= written);
    }

    /// A zeroed buffer of `size` usable bytes aligned to `alignment`, a power
    /// of two.
    pub fn new(size: usize, alignment: usize) -> (b: Self)
        requires
            crate::streaming::lock_free::is_pow2(alignment as nat),
            size + alignment <= usize::MAX,
        ensures
            b.wf(),
            b.size() == size,
            b.spec_alignment() == alignment,
            b.bytes().len() == size + alignment,
            b.spec_offset() < alignment,
            forall|i: int| 0 <= i < b.bytes().len() ==> b.bytes()[i] == 0,
    {
        let total = size + alignment;
        let mut data: Vec<u8> = Vec::with_capacity(total);
        while data.len() < total
            invariant
                data.len() <= total,
                forall|i: int| 0 <= i < data.len() ==> data@[i] == 0,
            decreases total - data.len(),
        {
            data.push(0);
        }
        let rem = address_of(&data) % alignment;
        let offset = if rem == 0 {
            0
        } else {
            alignment - rem
        };
        AlignedBuffer { data, alignment, offset }
    }

    /// The `size` usable bytes, starting at the first aligned address.
    pub fn as_slice(&self) -> (r: &[u8])
        requires
            self.wf(),
        ensures
            r@ == self.bytes().subrange(self.spec_offset() as int, (self.spec_offset() + self.size()) as int),
    {
        let o = self.offset;
        let len = self.data.len() - self.alignment;
        let s = self.data.as_slice();
        let (_, tail) = s.split_at(o);
        let (r, _) = tail.split_at(len);
        assert(r@ =~= self.bytes().subrange(o as int, o + self.size()));
        r
    }

    /// The `size` usable bytes for writing, starting at the first aligned
    /// address.
    pub fn as_mut_slice(&mut self) -> (r: &mut [u8])
        requires
            old(self).wf(),
        ensures
            r@ == old(self).bytes().subrange(
                old(self).spec_offset() as int,
                (old(self).spec_offset() + old(self).size()) as int,
            ),
            final(self).wf(),
            final(self).spec_alignment() == old(self).spec_alignment(),
            final(self).spec_offset() == old(self).spec_offset(),
            final(self).size() == final(r)@.len(),
            final(self).bytes() == old(self).bytes().subrange(0, old(self).spec_offset() as int) + final(r)@
                + old(self).bytes().subrange(
                (old(self).spec_offset() + old(self).size()) as int,
                old(self).bytes().len() as int,
            ),
    {
        let o = self.offset;
        let len = self.data.len() - self.alignment;
        let s = self.data.as_mut_slice();
        let (head, tail) = s.split_at_mut(o);
        let (r, rest) = tail.split_at_mut(len);
        let ghost head_view = head@;
        let ghost rest_view = rest@;
        proof {
            assert(has_resolved(head));
            assert(has_resolved(rest));
            assert(head_view =~= old(self).bytes().subrange(0, o as int));
            assert(rest_view =~= old(self).bytes().subrange(
                o + old(self).size(),
                old(self).bytes().len() as int,
            ));
            assert(r@ =~= old(self).bytes().subrange(o as int, o + old(self).size()));
        }
        r
    }
}

} // verus!
