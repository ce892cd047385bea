//! Input frame formats and their memory layout.
use vstd::prelude::*;
use vstd::slice::slice_subrange;

use crate::sys;

verus! {

/// Format of the input frames.
#[derive(Debug, Clone, Copy, PartialEq, Eq, Structural)]
pub enum FrameFormat {
    /// Semi-planar YUV 4:2:0, 8 bit: a Y plane and an interleaved UV plane.
    Nv12,
    /// Packed YUV 4:2:2, 8 bit: YUYV interleaved.
    Yuy2,
    /// Packed BGRA, 8 bit.
    Bgra,
}

/// `plane` with `row` written at position `at`.
pub open spec fn overlay(plane: Seq<u8>, at: int, row: Seq<u8>) -> Seq<u8> {
    Seq::new(
        plane.len(),
        |i: int|
            if at <= i < at + row.len() {
                row[i - at]
            } else {
                plane[i]
            },
    )
}

/// Row `r` of tightly packed rows of `row_bytes` bytes.
pub open spec fn packed_row(src: Seq<u8>, row_bytes: nat, r: int) -> Seq<u8> {
    src.subrange(r * row_bytes, r * row_bytes + row_bytes)
}

/// The first `row_bytes` bytes of row `r` of a plane whose rows start `pitch` bytes apart.
pub open spec fn pitched_row(plane: Seq<u8>, pitch: nat, row_bytes: nat, r: int) -> Seq<u8> {
    plane.subrange(r * pitch, r * pitch + row_bytes)
}

/// `plane` after the first `rows` packed rows of `src` have been copied to it, one row every
/// `pitch` bytes, in order.
pub open spec fn rows_copied(
    plane: Seq<u8>,
    src: Seq<u8>,
    pitch: nat,
    row_bytes: nat,
    rows: nat,
) -> Seq<u8>
    decreases rows,
{
    if rows == 0 {
        plane
    } else {
        let r = rows - 1;
        overlay(
            rows_copied(plane, src, pitch, row_bytes, r as nat),
            r * pitch,
            packed_row(src, row_bytes, r),
        )
    }
}

/// A plane of `len` bytes can take `rows` rows of `row_bytes` bytes that start `pitch` bytes
/// apart.
pub open spec fn rows_fit(len: nat, pitch: nat, row_bytes: nat, rows: nat) -> bool {
    rows > 0 ==> (rows - 1) * pitch + row_bytes <= len
}

/// Byte `i` of a plane belongs to the first `row_bytes` bytes of row `r`.
pub open spec fn row_covers(pitch: nat, row_bytes: nat, r: int, i: int) -> bool {
    r * pitch <= i < r * pitch + row_bytes
}

proof fn lemma_rows_copied_len(
    plane: Seq<u8>,
    src: Seq<u8>,
    pitch: nat,
    row_bytes: nat,
    rows: nat,
)
    ensures
        rows_copied(plane, src, pitch, row_bytes, rows).len() == plane.len(),
    decreases rows,
{
    if rows > 0 {
        lemma_rows_copied_len(plane, src, pitch, row_bytes, (rows - 1) as nat);
    }
}

/// Copies `rows` packed rows of `src` to `plane`, one row every `pitch` bytes.
fn copy_rows(src: &[u8], plane: &mut [u8], pitch: usize, row_bytes: usize, rows: usize)
    requires
        rows * row_bytes <= src@.len(),
        rows_fit(old(plane)@.len(), pitch as nat, row_bytes as nat, rows as nat),
    ensures
        final(plane)@ == rows_copied(
            old(plane)@,
            src@,
            pitch as nat,
            row_bytes as nat,
            rows as nat,
        ),
{
    let src_len: usize = src.len();
    let plane_len: usize = plane.len();
    let mut row: usize = 0;
    while row < rows
        invariant
            row <= rows,
            src_len == src@.len(),
            plane_len == plane@.len(),
            rows * row_bytes <= src@.len(),
            plane@.len() == old(plane)@.len(),
            rows_fit(plane@.len(), pitch as nat, row_bytes as nat, rows as nat),
            plane@ == rows_copied(
                old(plane)@,
                src@,
                pitch as nat,
                row_bytes as nat,
                row as nat,
            ),
        decreases rows - row,
    {
        assert(row * row_bytes + row_bytes <= rows * row_bytes && row * pitch <= (rows - 1) * pitch)
            by (nonlinear_arith)
            requires
                row < rows,
        ;
        assert(0 <= row * row_bytes && 0 <= row * pitch) by (nonlinear_arith);
        let from: usize = row * row_bytes;
        let to: usize = row * pitch;
        let ghost before = plane@;
        let mut col: usize = 0;
        while col < row_bytes
            invariant
                col <= row_bytes,
                src_len == src@.len(),
                plane_len == plane@.len(),
                from + row_bytes <= src_len,
                to + row_bytes <= plane_len,
                plane@.len() == before.len(),
                plane@ == overlay(before, to as int, src@.subrange(from as int, from + col)),
            decreases row_bytes - col,
        {
            plane[to + col] = src[from + col];
            col = col + 1;
            assert(plane@ =~= overlay(before, to as int, src@.subrange(from as int, from + col)));
        }
        row = row + 1;
    }
}

/// How the packed rows of a frame add up.
proof fn lemma_packed_sizes(format: FrameFormat, w: nat, h: nat)
    ensures
        h * (w * format.spec_bytes_per_row_pixel()) <= format.frame_bytes(w, h),
        format == FrameFormat::Nv12 ==> w * h + (h / 2) * w <= format.frame_bytes(w, h),
        h > 0 ==> w * format.spec_bytes_per_row_pixel() <= format.frame_bytes_peak(w, h),
{
    assert(h * (w * 1) == w * h && h * (w * 2) == w * h * 2 && h * (w * 4) == w * h * 4)
        by (nonlinear_arith);
    assert((h / 2) * w * 2 <= w * h) by (nonlinear_arith);
    assert(h > 0 ==> w <= w * h) by (nonlinear_arith);
}

impl FrameFormat {
    pub open spec fn spec_fourcc(self) -> u32 {
        match self {
            FrameFormat::Nv12 => sys::MFX_FOURCC_NV12,
            FrameFormat::Yuy2 => sys::MFX_FOURCC_YUY2,
            FrameFormat::Bgra => sys::MFX_FOURCC_RGB4,
        }
    }

    /// The value of `mfxFrameInfo.FourCC`.
    #[verifier::when_used_as_spec(spec_fourcc)]
    pub fn fourcc(self) -> (r: u32)
        ensures
            r == self.spec_fourcc(),
    {
        match self {
            FrameFormat::Nv12 => sys::MFX_FOURCC_NV12,
            FrameFormat::Yuy2 => sys::MFX_FOURCC_YUY2,
            FrameFormat::Bgra => sys::MFX_FOURCC_RGB4,
        }
    }

    pub open spec fn spec_chroma_format(self) -> u16 {
        match self {
            FrameFormat::Nv12 => sys::MFX_CHROMAFORMAT_YUV420,
            FrameFormat::Yuy2 => sys::MFX_CHROMAFORMAT_YUV422,
            FrameFormat::Bgra => sys::MFX_CHROMAFORMAT_YUV444,
        }
    }

    /// The value of `mfxFrameInfo.ChromaFormat`.
    #[verifier::when_used_as_spec(spec_chroma_format)]
    pub fn chroma_format(self) -> (r: u16)
        ensures
            r == self.spec_chroma_format(),
    {
        match self {
            FrameFormat::Nv12 => sys::MFX_CHROMAFORMAT_YUV420,
            FrameFormat::Yuy2 => sys::MFX_CHROMAFORMAT_YUV422,
            FrameFormat::Bgra => sys::MFX_CHROMAFORMAT_YUV444,
        }
    }

    /// Bits per sample.
    pub fn bit_depth(self) -> (r: u16)
        ensures
            r == 8,
    {
        8
    }

    pub open spec fn spec_bytes_per_row_pixel(self) -> nat {
        match self {
            FrameFormat::Nv12 => 1,
            FrameFormat::Yuy2 => 2,
            FrameFormat::Bgra => 4,
        }
    }

    /// Bytes that one pixel takes in a row of the first plane.
    pub fn bytes_per_row_pixel(self) -> (r: usize)
        ensures
            r == self.spec_bytes_per_row_pixel(),
    {
        match self {
            FrameFormat::Nv12 => 1,
            FrameFormat::Yuy2 => 2,
            FrameFormat::Bgra => 4,
        }
    }

    /// The format's name.
    pub open spec fn name_text(self) -> Seq<char> {
        match self {
            FrameFormat::Nv12 => "Nv12"@,
            FrameFormat::Yuy2 => "Yuy2"@,
            FrameFormat::Bgra => "Bgra"@,
        }
    }

    /// The format's name, for messages.
    pub fn name(self) -> (r: &'static str)
        ensures
            r@ == self.name_text(),
    {
        match self {
            FrameFormat::Nv12 => "Nv12",
            FrameFormat::Yuy2 => "Yuy2",
            FrameFormat::Bgra => "Bgra",
        }
    }

    /// The bytes that a frame of `width` by `height` pixels takes: 3/2, 2 or 4 bytes per pixel.
    pub open spec fn frame_bytes(self, width: nat, height: nat) -> nat {
        match self {
            FrameFormat::Nv12 => width * height * 3 / 2,
            FrameFormat::Yuy2 => width * height * 2,
            FrameFormat::Bgra => width * height * 4,
        }
    }

    /// The largest number that the computation of [`FrameFormat::frame_bytes`] goes through.
    pub open spec fn frame_bytes_peak(self, width: nat, height: nat) -> nat {
        match self {
            FrameFormat::Nv12 => width * height * 3,
            FrameFormat::Yuy2 => width * height * 2,
            FrameFormat::Bgra => width * height * 4,
        }
    }

    /// The size of a frame in bytes; `None` if its computation overflows.
    pub fn frame_size(self, width: usize, height: usize) -> (r: Option<usize>)
        ensures
            match r {
                Some(size) => size == self.frame_bytes(width as nat, height as nat)
                    && self.frame_bytes_peak(width as nat, height as nat) <= usize::MAX,
                None => self.frame_bytes_peak(width as nat, height as nat) > usize::MAX,
            },
    {
        let pixels = match width.checked_mul(height) {
            Some(pixels) => pixels,
            None => {
                return None;
            },
        };
        match self {
            FrameFormat::Nv12 => match pixels.checked_mul(3) {
                Some(v) => Some(v / 2),
                None => None,
            },
            FrameFormat::Yuy2 => pixels.checked_mul(2),
            FrameFormat::Bgra => pixels.checked_mul(4),
        }
    }

    /// The planes can take a frame of `width` by `height` pixels with the given pitch.
    pub open spec fn planes_fit(
        self,
        primary_len: nat,
        chroma_len: nat,
        pitch: nat,
        width: nat,
        height: nat,
    ) -> bool {
        &&& rows_fit(primary_len, pitch, width * self.spec_bytes_per_row_pixel(), height)
        &&& self == FrameFormat::Nv12 ==> rows_fit(chroma_len, pitch, width, height / 2)
    }

    /// The first plane (Y, or the packed pixels) after a frame has been copied to it.
    pub open spec fn primary_after(
        self,
        primary: Seq<u8>,
        src: Seq<u8>,
        pitch: nat,
        width: nat,
        height: nat,
    ) -> Seq<u8> {
        rows_copied(primary, src, pitch, width * self.spec_bytes_per_row_pixel(), height)
    }

    /// The UV plane after a frame has been copied: the NV12 frame's chroma rows follow its luma
    /// rows; the packed formats have none.
    pub open spec fn chroma_after(
        self,
        chroma: Seq<u8>,
        src: Seq<u8>,
        pitch: nat,
        width: nat,
        height: nat,
    ) -> Seq<u8> {
        if self == FrameFormat::Nv12 {
            rows_copied(chroma, src.skip((width * height) as int), pitch, width, height / 2)
        } else {
            chroma
        }
    }

    /// Copies a packed frame to the planes of a surface whose rows start `pitch` bytes apart.
    ///
    /// `primary` is the Y plane of NV12 and the only plane of the packed formats; `chroma` is the
    /// UV plane of NV12 and is left alone otherwise.
    pub fn copy_to_surface_planes(
        self,
        src: &[u8],
        primary: &mut [u8],
        chroma: &mut [u8],
        pitch: usize,
        coded_width: usize,
        coded_height: usize,
    )
        requires
            self.frame_bytes_peak(coded_width as nat, coded_height as nat) <= usize::MAX,
            self.frame_bytes(coded_width as nat, coded_height as nat) <= src@.len(),
            self.planes_fit(
                old(primary)@.len(),
                old(chroma)@.len(),
                pitch as nat,
                coded_width as nat,
                coded_height as nat,
            ),
        ensures
            final(primary)@ == self.primary_after(
                old(primary)@,
                src@,
                pitch as nat,
                coded_width as nat,
                coded_height as nat,
            ),
            final(chroma)@ == self.chroma_after(
                old(chroma)@,
                src@,
                pitch as nat,
                coded_width as nat,
                coded_height as nat,
            ),
    {
        let ghost w = coded_width as nat;
        let ghost h = coded_height as nat;
        proof {
            lemma_packed_sizes(self, w, h);
        }
        if coded_height == 0 {
            return;
        }
        let src_len: usize = src.len();
        match self {
            FrameFormat::Nv12 => {
                let luma_size: usize = coded_width * coded_height;
                copy_rows(src, primary, pitch, coded_width, coded_height);
                let uv_src = slice_subrange(src, luma_size, src_len);
                copy_rows(uv_src, chroma, pitch, coded_width, coded_height / 2);
                assert(uv_src@ =~= src@.skip(luma_size as int));
            },
            FrameFormat::Yuy2 => {
                copy_rows(src, primary, pitch, coded_width * 2, coded_height);
            },
            FrameFormat::Bgra => {
                copy_rows(src, primary, pitch, coded_width * 4, coded_height);
            },
        }
    }
}

/// Rows that do not overlap read back from the plane exactly as they were in the frame.
pub proof fn law_copied_rows_read_back(
    plane: Seq<u8>,
    src: Seq<u8>,
    pitch: nat,
    row_bytes: nat,
    rows: nat,
    r: int,
)
    requires
        row_bytes <= pitch,
        rows * row_bytes <= src.len(),
        rows_fit(plane.len(), pitch, row_bytes, rows),
        0 <= r < rows,
    ensures
        pitched_row(rows_copied(plane, src, pitch, row_bytes, rows), pitch, row_bytes, r)
            == packed_row(src, row_bytes, r),
    decreases rows,
{
    let after = rows_copied(plane, src, pitch, row_bytes, rows);
    lemma_rows_copied_len(plane, src, pitch, row_bytes, rows);
    lemma_rows_copied_len(plane, src, pitch, row_bytes, (rows - 1) as nat);
    assert(r * row_bytes + row_bytes <= rows * row_bytes) by (nonlinear_arith)
        requires
            r < rows,
    ;
    assert((rows - 1) * row_bytes + row_bytes == rows * row_bytes) by (nonlinear_arith);
    assert(r * pitch <= (rows - 1) * pitch) by (nonlinear_arith)
        requires
            r <= rows - 1,
    ;
    assert(0 <= r * row_bytes && 0 <= r * pitch) by (nonlinear_arith)
        requires
            0 <= r,
    ;
    if r == rows - 1 {
        assert(pitched_row(after, pitch, row_bytes, r) =~= packed_row(src, row_bytes, r));
    } else {
        assert(r * pitch + pitch <= (rows - 1) * pitch) by (nonlinear_arith)
            requires
                r < rows - 1,
        ;
        assert((rows - 2) * pitch <= (rows - 1) * pitch) by (nonlinear_arith);
        assert((rows - 1) * row_bytes <= rows * row_bytes) by (nonlinear_arith);
        law_copied_rows_read_back(plane, src, pitch, row_bytes, (rows - 1) as nat, r);
        let before = rows_copied(plane, src, pitch, row_bytes, (rows - 1) as nat);
        assert(pitched_row(after, pitch, row_bytes, r) =~= pitched_row(
            before,
            pitch,
            row_bytes,
            r,
        ));
    }
}

/// Copying touches no byte outside the copied rows: the padding behind each row and everything
/// after the last row stay as they were.
pub proof fn law_padding_is_left_alone(
    plane: Seq<u8>,
    src: Seq<u8>,
    pitch: nat,
    row_bytes: nat,
    rows: nat,
    i: int,
)
    requires
        rows * row_bytes <= src.len(),
        0 <= i < plane.len(),
        forall|r: int| 0 <= r < rows ==> !row_covers(pitch, row_bytes, r, i),
    ensures
        rows_copied(plane, src, pitch, row_bytes, rows).len() == plane.len(),
        rows_copied(plane, src, pitch, row_bytes, rows)[i] == plane[i],
    decreases rows,
{
    lemma_rows_copied_len(plane, src, pitch, row_bytes, rows);
    if rows > 0 {
        lemma_rows_copied_len(plane, src, pitch, row_bytes, (rows - 1) as nat);
        assert((rows - 1) * row_bytes + row_bytes == rows * row_bytes) by (nonlinear_arith);
        assert(0 <= (rows - 1) * row_bytes) by (nonlinear_arith)
            requires
                rows > 0,
        ;
        law_padding_is_left_alone(plane, src, pitch, row_bytes, (rows - 1) as nat, i);
        assert(!row_covers(pitch, row_bytes, rows - 1, i));
    }
}

/// A frame copied to a surface is found there: every row of the first plane, and every chroma row
/// of an NV12 frame, holds the bytes of the frame's row.
pub proof fn law_frame_is_found_in_the_surface(
    format: FrameFormat,
    src: Seq<u8>,
    primary: Seq<u8>,
    chroma: Seq<u8>,
    pitch: nat,
    width: nat,
    height: nat,
)
    requires
        format.frame_bytes(width, height) <= src.len(),
        format.planes_fit(primary.len(), chroma.len(), pitch, width, height),
        width * format.spec_bytes_per_row_pixel() <= pitch,
    ensures
        forall|r: int|
            0 <= r < height ==> #[trigger] pitched_row(
                format.primary_after(primary, src, pitch, width, height),
                pitch,
                width * format.spec_bytes_per_row_pixel(),
                r,
            ) == packed_row(src, width * format.spec_bytes_per_row_pixel(), r),
        format == FrameFormat::Nv12 ==> forall|r: int|
            0 <= r < height / 2 ==> #[trigger] pitched_row(
                format.chroma_after(chroma, src, pitch, width, height),
                pitch,
                width,
                r,
            ) == packed_row(src.skip((width * height) as int), width, r),
{
    lemma_packed_sizes(format, width, height);
    let row_bytes = width * format.spec_bytes_per_row_pixel();
    assert forall|r: int| 0 <= r < height implies #[trigger] pitched_row(
        format.primary_after(primary, src, pitch, width, height),
        pitch,
        row_bytes,
        r,
    ) == packed_row(src, row_bytes, r) by {
        law_copied_rows_read_back(primary, src, pitch, row_bytes, height, r);
    }
    if format == FrameFormat::Nv12 {
        let uv = src.skip((width * height) as int);
        assert forall|r: int| 0 <= r < height / 2 implies #[trigger] pitched_row(
            format.chroma_after(chroma, src, pitch, width, height),
            pitch,
            width,
            r,
        ) == packed_row(uv, width, r) by {
            law_copied_rows_read_back(chroma, uv, pitch, width, height / 2, r);
        }
    }
}

/// A format is named by its four-character code and by the subsampling of its chroma.
pub proof fn law_formats_are_named(format: FrameFormat)
    ensures
        format == FrameFormat::Nv12 ==> {
            &&& format.fourcc() == sys::four_characters('N', 'V', '1', '2')
            &&& format.chroma_format() == 1
            &&& format.name_text() == "Nv12"@
        },
        format == FrameFormat::Yuy2 ==> {
            &&& format.fourcc() == sys::four_characters('Y', 'U', 'Y', '2')
            &&& format.chroma_format() == 2
            &&& format.name_text() == "Yuy2"@
        },
        format == FrameFormat::Bgra ==> {
            &&& format.fourcc() == sys::four_characters('R', 'G', 'B', '4')
            &&& format.chroma_format() == 3
            &&& format.name_text() == "Bgra"@
        },
{
}

/// A frame has as many bytes as its rows: an NV12 frame one byte for each pixel and half as many for
/// chroma, a YUY2 frame two and a BGRA frame four bytes for each pixel. Its size can be computed as
/// long as the pixels times three, two or four fit.
pub proof fn law_frame_is_as_large_as_its_rows(width: nat, height: nat)
    ensures
        FrameFormat::Nv12.frame_bytes(width, height) == width * height + width * height / 2,
        FrameFormat::Yuy2.frame_bytes(width, height) == height * (2 * width),
        FrameFormat::Bgra.frame_bytes(width, height) == height * (4 * width),
        FrameFormat::Nv12.frame_bytes_peak(width, height) == 3 * (width * height),
        FrameFormat::Yuy2.frame_bytes_peak(width, height) == 2 * (width * height),
        FrameFormat::Bgra.frame_bytes_peak(width, height) == 4 * (width * height),
        FrameFormat::Nv12.spec_bytes_per_row_pixel() == 1,
        FrameFormat::Yuy2.spec_bytes_per_row_pixel() == 2,
        FrameFormat::Bgra.spec_bytes_per_row_pixel() == 4,
{
    let n = width * height;
    assert(n * 2 == height * (2 * width) && n * 4 == height * (4 * width)) by (nonlinear_arith)
        requires
            n == width * height,
    ;
}

proof fn lemma_row_byte(
    plane: Seq<u8>,
    src: Seq<u8>,
    pitch: nat,
    row_bytes: nat,
    rows: nat,
    r: int,
    c: int,
)
    requires
        row_bytes <= pitch,
        rows * row_bytes <= src.len(),
        rows > 0 ==> (rows - 1) * pitch + row_bytes <= plane.len(),
        0 <= r < rows,
        0 <= c < row_bytes,
    ensures
        rows_copied(plane, src, pitch, row_bytes, rows)[r * pitch + c] == src[r * row_bytes + c],
{
    law_copied_rows_read_back(plane, src, pitch, row_bytes, rows, r);
    lemma_rows_copied_len(plane, src, pitch, row_bytes, rows);
    let after = rows_copied(plane, src, pitch, row_bytes, rows);
    assert(r * pitch <= (rows - 1) * pitch && r * row_bytes + row_bytes <= rows * row_bytes
        && 0 <= r * pitch && 0 <= r * row_bytes) by (nonlinear_arith)
        requires
            0 <= r < rows,
    ;
    assert(pitched_row(after, pitch, row_bytes, r)[c] == after[r * pitch + c]);
    assert(packed_row(src, row_bytes, r)[c] == src[r * row_bytes + c]);
}

/// Byte `c` of row `r` of an NV12 frame's luma is byte `c` of row `r` of the first plane, and byte `c`
/// of row `r` of its chroma, which follows the luma, that of the second plane.
pub proof fn law_nv12_bytes_are_found(
    src: Seq<u8>,
    primary: Seq<u8>,
    chroma: Seq<u8>,
    pitch: nat,
    width: nat,
    height: nat,
    r: int,
    c: int,
)
    requires
        width <= pitch,
        width * height + width * height / 2 <= src.len(),
        height > 0 ==> (height - 1) * pitch + width <= primary.len(),
        height > 1 ==> (height / 2 - 1) * pitch + width <= chroma.len(),
        0 <= c < width,
    ensures
        0 <= r < height ==> FrameFormat::Nv12.primary_after(
            primary,
            src,
            pitch,
            width,
            height,
        )[r * pitch + c] == src[r * width + c],
        0 <= r < height / 2 ==> FrameFormat::Nv12.chroma_after(
            chroma,
            src,
            pitch,
            width,
            height,
        )[r * pitch + c] == src[width * height + r * width + c],
{
    let uv = src.skip((width * height) as int);
    assert(height * width == width * height && (height / 2) * width * 2 <= width * height && width * 1
        == width) by (nonlinear_arith);
    if 0 <= r < height {
        lemma_row_byte(primary, src, pitch, width, height, r, c);
    }
    if 0 <= r < height / 2 {
        lemma_row_byte(chroma, uv, pitch, width, height / 2, r, c);
        assert(r * width + width <= (height / 2) * width && 0 <= r * width) by (nonlinear_arith)
            requires
                0 <= r < height / 2,
        ;
    }
}

/// Byte `c` of row `r` of a packed frame is byte `c` of row `r` of the first plane; the second plane
/// is left alone.
pub proof fn law_packed_bytes_are_found(
    format: FrameFormat,
    pixel: nat,
    src: Seq<u8>,
    primary: Seq<u8>,
    chroma: Seq<u8>,
    pitch: nat,
    width: nat,
    height: nat,
    r: int,
    c: int,
)
    requires
        (format == FrameFormat::Yuy2 && pixel == 2) || (format == FrameFormat::Bgra && pixel == 4),
        pixel * width <= pitch,
        height * (pixel * width) <= src.len(),
        height > 0 ==> (height - 1) * pitch + pixel * width <= primary.len(),
        0 <= r < height,
        0 <= c < pixel * width,
    ensures
        format.primary_after(primary, src, pitch, width, height)[r * pitch + c] == src[r * (pixel
            * width) + c],
        format.chroma_after(chroma, src, pitch, width, height) == chroma,
{
    assert(width * pixel == pixel * width) by (nonlinear_arith);
    lemma_row_byte(primary, src, pitch, pixel * width, height, r, c);
}

/// Copying keeps the lengths of the planes, and every byte behind the picture in its row.
pub proof fn law_copying_keeps_the_padding(
    format: FrameFormat,
    pixel: nat,
    src: Seq<u8>,
    primary: Seq<u8>,
    chroma: Seq<u8>,
    pitch: nat,
    width: nat,
    height: nat,
    r: int,
    c: int,
)
    requires
        pixel == (match format {
            FrameFormat::Nv12 => 1nat,
            FrameFormat::Yuy2 => 2nat,
            FrameFormat::Bgra => 4nat,
        }),
        match format {
            FrameFormat::Nv12 => width * height + width * height / 2 <= src.len(),
            _ => height * (pixel * width) <= src.len(),
        },
        pixel * width <= c < pitch,
        0 <= r,
    ensures
        format.primary_after(primary, src, pitch, width, height).len() == primary.len(),
        format.chroma_after(chroma, src, pitch, width, height).len() == chroma.len(),
        r * pitch + c < primary.len() ==> format.primary_after(
            primary,
            src,
            pitch,
            width,
            height,
        )[r * pitch + c] == primary[r * pitch + c],
        r * pitch + c < chroma.len() ==> format.chroma_after(
            chroma,
            src,
            pitch,
            width,
            height,
        )[r * pitch + c] == chroma[r * pitch + c],
{
    let row_bytes = width * pixel;
    let at = r * pitch + c;
    assert(width * pixel == pixel * width && height * (width * 1) == width * height && (height / 2)
        * width * 2 <= width * height && 0 <= r * pitch) by (nonlinear_arith)
        requires
            0 <= r,
    ;
    lemma_rows_copied_len(primary, src, pitch, row_bytes, height);
    let uv = src.skip((width * height) as int);
    lemma_rows_copied_len(chroma, uv, pitch, width, height / 2);
    assert forall|q: int| 0 <= q < height implies !row_covers(pitch, row_bytes, q, at) by {
        lemma_padding(pitch, row_bytes, q, r, c);
    }
    if at < primary.len() {
        law_padding_is_left_alone(primary, src, pitch, row_bytes, height, at);
    }
    if format == FrameFormat::Nv12 && at < chroma.len() {
        assert forall|q: int| 0 <= q < height / 2 implies !row_covers(pitch, width, q, at) by {
            lemma_padding(pitch, width, q, r, c);
        }
        law_padding_is_left_alone(chroma, uv, pitch, width, height / 2, at);
    }
}

proof fn lemma_padding(pitch: nat, row_bytes: nat, q: int, r: int, c: int)
    requires
        row_bytes <= c < pitch,
    ensures
        !row_covers(pitch, row_bytes, q, r * pitch + c),
{
    if q > r {
        assert(q * pitch >= r * pitch + pitch) by (nonlinear_arith)
            requires
                q >= r + 1,
        ;
    } else if q < r {
        assert(q * pitch + pitch <= r * pitch) by (nonlinear_arith)
            requires
                q + 1 <= r,
        ;
    }
}

/// Planes can take a frame exactly if its last row ends inside them; the packed formats need no second
/// plane.
pub proof fn law_planes_fit_if_the_last_row_ends_inside(
    format: FrameFormat,
    primary_len: nat,
    chroma_len: nat,
    pitch: nat,
    width: nat,
    height: nat,
)
    ensures
        ({
            let pixel: nat = match format {
                FrameFormat::Nv12 => 1,
                FrameFormat::Yuy2 => 2,
                FrameFormat::Bgra => 4,
            };
            format.planes_fit(primary_len, chroma_len, pitch, width, height) <==> {
                &&& height > 0 ==> (height - 1) * pitch + width * pixel <= primary_len
                &&& format == FrameFormat::Nv12 && height > 1 ==> (height / 2 - 1) * pitch + width
                    <= chroma_len
            }
        }),
{
}

} // verus!
