//! NDI frames: repacking a received video frame into tight BGRA rows,
//! validating a frame before upload, sampling one pixel, choosing the source
//! to receive, and the de-duplicated list of runtime library candidates.

use vstd::prelude::*;

use crate::text::{
    ascii_lower_seq, contains_ci, eq_ignore_ascii_case, find_first_containing,
    is_first_containing, names_view,
};

verus! {

/// A video frame of packed BGRA pixels, `width * 4` bytes per row.
#[derive(Clone, Debug)]
pub struct NdiFrame {
    pub width: u32,
    pub height: u32,
    pub data: Vec<u8>,
}

/// The geometry of a received frame: its size in pixels, the byte distance
/// between rows in the receiver's buffer, and the bytes of one packed row.
#[derive(Clone, Copy, Debug)]
pub struct VideoLayout {
    pub width: usize,
    pub height: usize,
    pub stride: usize,
    pub row_bytes: usize,
}

impl VideoLayout {
    /// The sizes agree: a packed row is four bytes per pixel and fits in the
    /// receiver's row, and the receiver's buffer and the packed frame are
    /// addressable.
    pub open spec fn wf(&self) -> bool {
        &&& 0 < self.width <= i32::MAX
        &&& 0 < self.height <= i32::MAX
        &&& self.row_bytes == self.width * 4
        &&& self.row_bytes <= self.stride
        &&& self.stride * self.height <= usize::MAX
    }

    /// The number of bytes of the receiver's buffer (`stride * height`).
    pub fn source_len(&self) -> (r: usize)
        requires
            self.wf(),
        ensures
            r == self.stride * self.height,
    {
        self.stride * self.height
    }
}

/// A received frame can be repacked: positive sizes, a row stride at least as
/// long as a packed row, and sizes that the address space can hold.
pub open spec fn frame_is_usable(xres: i32, yres: i32, line_stride: i32) -> bool {
    &&& xres > 0
    &&& yres > 0
    &&& line_stride > 0
    &&& xres * 4 <= usize::MAX
    &&& line_stride >= xres * 4
    &&& line_stride * yres <= usize::MAX
    &&& xres * 4 * yres <= usize::MAX
}

/// The layout of a received frame, or `None` when its sizes do not describe
/// a usable BGRA frame.
pub fn video_frame_layout(xres: i32, yres: i32, line_stride: i32) -> (r: Option<VideoLayout>)
    ensures
        r.is_some() == frame_is_usable(xres, yres, line_stride),
        r matches Some(l) ==> {
            &&& l.wf()
            &&& l.width == xres
            &&& l.height == yres
            &&& l.stride == line_stride
            &&& l.row_bytes == xres * 4
        },
{
    if xres <= 0 || yres <= 0 || line_stride <= 0 {
        return None;
    }
    let width = xres as usize;
    let height = yres as usize;
    let stride = line_stride as usize;
    let row_bytes = match width.checked_mul(4) {
        Some(b) => b,
        None => return None,
    };
    if stride < row_bytes {
        return None;
    }
    let source_len = match stride.checked_mul(height) {
        Some(n) => n,
        None => return None,
    };
    let packed_len = match row_bytes.checked_mul(height) {
        Some(n) => n,
        None => return None,
    };
    Some(VideoLayout { width, height, stride, row_bytes })
}

proof fn lemma_row_offsets(row: int, rows: int, width: int, c: int)
    requires
        0 <= row < rows,
        0 <= c < width,
    ensures
        row * width + c < rows * width,
        0 <= row * width,
        row * width + width <= rows * width,
        rows * width == width * rows,
        row * width == width * row,
{
    assert(rows * width == width * rows) by (nonlinear_arith);
    assert(row * width == width * row) by (nonlinear_arith);
    assert(row * width + width == (row + 1) * width) by (nonlinear_arith);
    assert((row + 1) * width <= rows * width) by (nonlinear_arith)
        requires
            row + 1 <= rows,
            0 <= width,
    ;
    assert(0 <= row * width) by (nonlinear_arith)
        requires
            0 <= row,
            0 <= width,
    ;
}

/// Repacks a received frame: row `r` of the result is the first
/// `row_bytes` bytes of the receiver's row `r`, without the padding up to the
/// stride.
pub fn copy_video_frame(layout: &VideoLayout, source: &[u8]) -> (r: NdiFrame)
    requires
        layout.wf(),
        source@.len() >= layout.stride * layout.height,
    ensures
        r.width == layout.width,
        r.height == layout.height,
        r.data@.len() == layout.row_bytes * layout.height,
        forall|row: int, c: int|
            0 <= row < layout.height && 0 <= c < layout.row_bytes ==> #[trigger] r.data@[row
                * layout.row_bytes + c] == source@[row * layout.stride + c],
{
    let width = layout.width;
    let height = layout.height;
    let stride = layout.stride;
    let row_bytes = layout.row_bytes;
    proof {
        assert(row_bytes * height <= stride * height) by (nonlinear_arith)
            requires
                row_bytes <= stride,
        ;
    }
    let mut data: Vec<u8> = Vec::new();
    let mut row: usize = 0;
    while row < height
        invariant
            layout.wf(),
            width == layout.width,
            height == layout.height,
            stride == layout.stride,
            row_bytes == layout.row_bytes,
            row_bytes * height <= stride * height,
            source@.len() >= stride * height,
            row <= height,
            data@.len() == row * row_bytes,
            forall|r: int, c: int|
                0 <= r < row && 0 <= c < row_bytes ==> #[trigger] data@[r * row_bytes + c]
                    == source@[r * stride + c],
        decreases height - row,
    {
        proof {
            lemma_row_offsets(row as int, height as int, stride as int, 0);
            lemma_row_offsets(row as int, height as int, row_bytes as int, 0);
        }
        let source_offset = row * stride;
        let mut c: usize = 0;
        while c < row_bytes
            invariant
                layout.wf(),
                width == layout.width,
                height == layout.height,
                stride == layout.stride,
                row_bytes == layout.row_bytes,
                row_bytes * height <= stride * height,
                source@.len() >= stride * height,
                row < height,
                source_offset == row * stride,
                source_offset + stride <= stride * height,
                row * row_bytes + row_bytes <= row_bytes * height,
                c <= row_bytes,
                data@.len() == row * row_bytes + c,
                forall|r: int, k: int|
                    0 <= r < row && 0 <= k < row_bytes ==> #[trigger] data@[r * row_bytes + k]
                        == source@[r * stride + k],
                forall|k: int|
                    0 <= k < c ==> #[trigger] data@[row * row_bytes + k] == source@[row * stride
                        + k],
            decreases row_bytes - c,
        {
            let ghost before = data@;
            data.push(source[source_offset + c]);
            proof {
                assert forall|r: int, k: int|
                    0 <= r < row && 0 <= k < row_bytes implies #[trigger] data@[r * row_bytes + k]
                    == source@[r * stride + k] by {
                    lemma_row_offsets(r, row as int, row_bytes as int, k);
                    assert(data@[r * row_bytes + k] == before[r * row_bytes + k]);
                }
            }
            c = c + 1;
        }
        proof {
            assert forall|r: int, k: int|
                0 <= r < row + 1 && 0 <= k < row_bytes implies #[trigger] data@[r * row_bytes + k]
                == source@[r * stride + k] by {
                if r == row as int {
                    assert(data@[row * row_bytes + k] == source@[row * stride + k]);
                }
            }
            assert((row + 1) * row_bytes == row * row_bytes + row_bytes) by (nonlinear_arith);
        }
        row = row + 1;
    }
    proof {
        assert(height * row_bytes == row_bytes * height) by (nonlinear_arith);
    }
    NdiFrame { width: width as u32, height: height as u32, data }
}

impl NdiFrame {
    /// The number of bytes to upload for this frame (`width * height * 4`),
    /// or `None` when the frame is empty or holds fewer bytes than that.
    pub fn upload_len(&self) -> (r: Option<usize>)
        ensures
            r.is_some() == (self.width > 0 && self.height > 0 && self.data@.len() > 0
                && self.width * self.height * 4 <= self.data@.len()),
            r matches Some(n) ==> n == self.width * self.height * 4,
    {
        if self.width == 0 || self.height == 0 || self.data.len() == 0 {
            return None;
        }
        proof {
            assert((self.width as u64) * (self.height as u64) <= u64::MAX) by (nonlinear_arith)
                requires
                    self.width <= u32::MAX,
                    self.height <= u32::MAX,
            ;
        }
        let pixels: u64 = (self.width as u64) * (self.height as u64);
        let bytes = match pixels.checked_mul(4) {
            Some(b) => b,
            None => return None,
        };
        if (self.data.len() as u64) < bytes {
            return None;
        }
        Some(bytes as usize)
    }

    /// The red, green and blue bytes of the BGRA pixel at column `x` and row
    /// `y`, or `None` when the frame's data does not reach that pixel.
    pub fn pixel_rgb(&self, x: usize, y: usize) -> (r: Option<[u8; 3]>)
        ensures
            ({
                let offset = (y * self.width + x) * 4;
                &&& r.is_some() == (offset + 4 <= self.data@.len())
                &&& r matches Some(rgb) ==> rgb@ == seq![
                    self.data@[offset + 2],
                    self.data@[offset + 1],
                    self.data@[offset],
                ]
            }),
    {
        let ghost offset_spec = (y * self.width + x) * 4;
        proof {
            assert(offset_spec >= y * self.width + x) by (nonlinear_arith)
                requires
                    offset_spec == (y * self.width + x) * 4,
                    y >= 0,
                    self.width >= 0,
                    x >= 0,
            ;
            assert(y * self.width >= 0) by (nonlinear_arith)
                requires
                    y >= 0,
                    self.width >= 0,
            ;
        }
        let data_len = self.data.len();
        let row = match y.checked_mul(self.width as usize) {
            Some(v) => v,
            None => return None,
        };
        let index = match row.checked_add(x) {
            Some(v) => v,
            None => return None,
        };
        let offset = match index.checked_mul(4) {
            Some(v) => v,
            None => return None,
        };
        let end = match offset.checked_add(4) {
            Some(v) => v,
            None => return None,
        };
        if end > data_len {
            return None;
        }
        let rgb: [u8; 3] = [self.data[offset + 2], self.data[offset + 1], self.data[offset]];
        proof {
            assert(rgb@ =~= seq![
                self.data@[offset + 2],
                self.data@[offset + 1],
                self.data@[offset as int],
            ]);
        }
        Some(rgb)
    }
}

/// The pixels of the 2x2 placeholder video texture: sixteen zero bytes.
pub fn initial_video_pixels() -> (r: [u8; 16])
    ensures
        forall|i: int| 0 <= i < 16 ==> #[trigger] r@[i] == 0,
{
    [0u8; 16]
}

/// The NDI source to receive: with a preferred name, the first source whose
/// name contains it (ASCII case-insensitively), and none while no such
/// source is visible; without one, the first visible source.
pub fn select_source_index(names: &Vec<String>, preferred: Option<&str>) -> (r: Option<usize>)
    ensures
        preferred.is_none() ==> r == (if names.len() > 0 { Some(0usize) } else { None::<usize> }),
        preferred.is_some() ==> match r {
            Some(i) => is_first_containing(names_view(names@), preferred->0@, i as int),
            None => forall|i: int|
                0 <= i < names.len() ==> !#[trigger] contains_ci(names@[i]@, preferred->0@),
        },
{
    match preferred {
        Some(p) => find_first_containing(names, p),
        None => if names.len() > 0 {
            Some(0)
        } else {
            None
        },
    }
}

/// `NDIlib_recv_capture_v2` found nothing within the timeout.
pub const NDI_FRAME_TYPE_NONE: i32 = 0;

/// `NDIlib_recv_capture_v2` returned a video frame.
pub const NDI_FRAME_TYPE_VIDEO: i32 = 1;

/// `NDIlib_recv_capture_v2` reports that the connection failed.
pub const NDI_FRAME_TYPE_ERROR: i32 = 4;

/// `NDIlib_recv_capture_v2` reports a change of the source's status.
pub const NDI_FRAME_TYPE_STATUS_CHANGE: i32 = 100;

/// What the receiver does with the result of one capture call.
#[derive(Clone, Copy, Debug, PartialEq, Eq, Structural)]
pub enum ReceiveStep {
    /// Repack the video frame, make it the latest frame, and free it.
    StoreFrame,
    /// Report that the source's status changed, and go on.
    StatusChanged,
    /// Report the receiver error and stop receiving.
    Stop,
    /// Nothing arrived (or something else did): go on.
    Continue,
}

/// The receiver's reaction to a capture result.
pub fn receive_step(frame_type: i32) -> (r: ReceiveStep)
    ensures
        r == (if frame_type == NDI_FRAME_TYPE_VIDEO {
            ReceiveStep::StoreFrame
        } else if frame_type == NDI_FRAME_TYPE_STATUS_CHANGE {
            ReceiveStep::StatusChanged
        } else if frame_type == NDI_FRAME_TYPE_ERROR {
            ReceiveStep::Stop
        } else {
            ReceiveStep::Continue
        }),
{
    if frame_type == NDI_FRAME_TYPE_VIDEO {
        ReceiveStep::StoreFrame
    } else if frame_type == NDI_FRAME_TYPE_STATUS_CHANGE {
        ReceiveStep::StatusChanged
    } else if frame_type == NDI_FRAME_TYPE_ERROR {
        ReceiveStep::Stop
    } else {
        ReceiveStep::Continue
    }
}

/// A place to look for the NDI runtime library, with the text shown for it.
#[derive(Clone, Debug)]
pub struct LibraryCandidate<P> {
    pub path: P,
    pub label: String,
}

/// No two candidates have labels that are equal ignoring ASCII case.
pub open spec fn labels_distinct<P>(candidates: Seq<LibraryCandidate<P>>) -> bool {
    forall|i: int, j: int|
        0 <= i < j < candidates.len() ==> ascii_lower_seq(#[trigger] candidates[i].label@)
            != ascii_lower_seq(#[trigger] candidates[j].label@)
}

/// Some candidate has this label, ignoring ASCII case.
pub open spec fn has_label<P>(candidates: Seq<LibraryCandidate<P>>, label: Seq<char>) -> bool {
    exists|j: int|
        0 <= j < candidates.len() && ascii_lower_seq(#[trigger] candidates[j].label@)
            == ascii_lower_seq(label)
}

/// Adds a candidate unless one with the same label (ignoring ASCII case) is
/// already listed.
pub fn push_candidate<P>(candidates: &mut Vec<LibraryCandidate<P>>, path: P, label: String)
    ensures
        has_label(old(candidates)@, label@) ==> final(candidates)@ == old(candidates)@,
        !has_label(old(candidates)@, label@) ==> final(candidates)@ == old(candidates)@.push(
            LibraryCandidate { path, label },
        ),
        labels_distinct(old(candidates)@) ==> labels_distinct(final(candidates)@),
{
    let mut i: usize = 0;
    while i < candidates.len()
        invariant
            i <= candidates.len(),
            forall|j: int|
                0 <= j < i ==> ascii_lower_seq(#[trigger] candidates@[j].label@) != ascii_lower_seq(
                    label@,
                ),
        decreases candidates.len() - i,
    {
        if eq_ignore_ascii_case(candidates[i].label.as_str(), label.as_str()) {
            return;
        }
        i = i + 1;
    }
    candidates.push(LibraryCandidate { path, label });
}

} // verus!
