//! The buffer/image pipeline: validate the required pixel format against
//! the device, allocate a write-only 2D image, dispatch a kernel over it,
//! fill a sub-rectangle conditioned on the kernel's completion token, and
//! read the image back conditioned on the fill's token.

use vstd::prelude::*;

use crate::device::ImageFormat;
use crate::device::format_supported;
use crate::device::validate_image_format;
use crate::error::HostError;
use crate::sequence::KernelArg;
use crate::sequence::OpKind;
use crate::sequence::Sequencer;

verus! {

/// A constant 4-channel fill color, in channel order.
#[derive(Clone, Copy, Debug, PartialEq, Eq, Structural)]
pub struct FillColor {
    pub r: u8,
    pub g: u8,
    pub b: u8,
    pub a: u8,
}

impl FillColor {
    /// Channel `c` of the color, channels numbered in order.
    pub open spec fn channel(self, c: int) -> u8 {
        if c == 0 {
            self.r
        } else if c == 1 {
            self.g
        } else if c == 2 {
            self.b
        } else {
            self.a
        }
    }
}

/// The byte index of channel `c` of pixel `(x, y)` in a row-major,
/// 4-channel image of the given width.
pub open spec fn byte_index(width: int, x: int, y: int, c: int) -> int {
    4 * (y * width + x) + c
}

/// Whether pixel `(x, y)` lies in the rectangle with origin `(fx, fy)`,
/// width `fw` and height `fh`.
pub open spec fn in_fill_region(x: int, y: int, fx: int, fy: int, fw: int, fh: int) -> bool {
    fx <= x < fx + fw && fy <= y < fy + fh
}

proof fn lemma_byte_index_bound(width: int, height: int, x: int, y: int, c: int)
    requires
        0 <= x < width,
        0 <= y < height,
        0 <= c < 4,
    ensures
        0 <= byte_index(width, x, y, c) < 4 * width * height,
{
    assert(0 <= y * width + x && y * width + x < width * height) by (nonlinear_arith)
        requires
            0 <= x < width,
            0 <= y < height,
    ;
    assert(4 * (width * height) == 4 * width * height) by (nonlinear_arith);
}

proof fn lemma_byte_index_injective(width: int, x1: int, y1: int, c1: int, x2: int, y2: int, c2: int)
    requires
        0 <= x1 < width,
        0 <= x2 < width,
        0 <= y1,
        0 <= y2,
        0 <= c1 < 4,
        0 <= c2 < 4,
        byte_index(width, x1, y1, c1) == byte_index(width, x2, y2, c2),
    ensures
        x1 == x2,
        y1 == y2,
        c1 == c2,
{
    assert(c1 == c2 && y1 * width + x1 == y2 * width + x2) by (nonlinear_arith)
        requires
            0 <= c1 < 4,
            0 <= c2 < 4,
            4 * (y1 * width + x1) + c1 == 4 * (y2 * width + x2) + c2,
    ;
    assert(x1 == x2 && y1 == y2) by (nonlinear_arith)
        requires
            0 <= x1 < width,
            0 <= x2 < width,
            0 <= y1,
            0 <= y2,
            y1 * width + x1 == y2 * width + x2,
    ;
}

/// The device-side region fill, modelled on the host: returns `pixels`
/// with every channel of every pixel of the rectangle set to the constant
/// color, and every other byte unchanged.
pub fn fill_region(
    pixels: &Vec<u8>,
    width: usize,
    height: usize,
    fx: usize,
    fy: usize,
    fw: usize,
    fh: usize,
    color: FillColor,
) -> (out: Vec<u8>)
    requires
        pixels@.len() == 4 * width * height,
        fx + fw <= width,
        fy + fh <= height,
    ensures
        out@.len() == pixels@.len(),
        forall|x: int, y: int, c: int|
            #![trigger byte_index(width as int, x, y, c)]
            0 <= x < width && 0 <= y < height && 0 <= c < 4 ==> out@[byte_index(
                width as int,
                x,
                y,
                c,
            )] == (if in_fill_region(x, y, fx as int, fy as int, fw as int, fh as int) {
                color.channel(c)
            } else {
                pixels@[byte_index(width as int, x, y, c)]
            }),
{
    let len = pixels.len();
    let mut out: Vec<u8> = Vec::new();
    let mut i: usize = 0;
    while i < len
        invariant
            len == pixels@.len(),
            i <= len,
            out@.len() == i,
            forall|j: int| 0 <= j < i ==> out@[j] == pixels@[j],
        decreases len - i,
    {
        out.push(pixels[i]);
        i = i + 1;
    }
    proof {
        assert forall|x2: int, y2: int, c2: int|
            0 <= x2 < width && 0 <= y2 < height && 0 <= c2 < 4 implies 0 <= #[trigger] byte_index(
            width as int,
            x2,
            y2,
            c2,
        ) < pixels@.len() by {
            lemma_byte_index_bound(width as int, height as int, x2, y2, c2);
        }
    }
    let mut y = fy;
    while y < fy + fh
        invariant
            len == pixels@.len(),
            pixels@.len() == 4 * width * height,
            fx + fw <= width,
            fy + fh <= height,
            fy <= y <= fy + fh,
            out@.len() == len,
            forall|x2: int, y2: int, c2: int|
                #![trigger byte_index(width as int, x2, y2, c2)]
                0 <= x2 < width && 0 <= y2 < height && 0 <= c2 < 4 ==> out@[byte_index(
                    width as int,
                    x2,
                    y2,
                    c2,
                )] == (if in_fill_region(x2, y2, fx as int, fy as int, fw as int, fh as int) && y2
                    < y {
                    color.channel(c2)
                } else {
                    pixels@[byte_index(width as int, x2, y2, c2)]
                }),
        decreases fy + fh - y,
    {
        let mut x = fx;
        while x < fx + fw
            invariant
                len == pixels@.len(),
                pixels@.len() == 4 * width * height,
                fx + fw <= width,
                fy + fh <= height,
                fy <= y < fy + fh,
                fx <= x <= fx + fw,
                out@.len() == len,
                forall|x2: int, y2: int, c2: int|
                    #![trigger byte_index(width as int, x2, y2, c2)]
                    0 <= x2 < width && 0 <= y2 < height && 0 <= c2 < 4 ==> out@[byte_index(
                        width as int,
                        x2,
                        y2,
                        c2,
                    )] == (if in_fill_region(x2, y2, fx as int, fy as int, fw as int, fh as int)
                        && (y2 < y || (y2 == y && x2 < x)) {
                        color.channel(c2)
                    } else {
                        pixels@[byte_index(width as int, x2, y2, c2)]
                    }),
            decreases fx + fw - x,
        {
            proof {
                lemma_byte_index_bound(width as int, height as int, x as int, y as int, 3);
            }
            let row: usize = y * width;
            let idx: usize = 4 * (row + x);
            let ghost pre = out@;
            out[idx] = color.r;
            out[idx + 1] = color.g;
            out[idx + 2] = color.b;
            out[idx + 3] = color.a;
            proof {
                assert forall|x2: int, y2: int, c2: int|
                    0 <= x2 < width && 0 <= y2 < height && 0 <= c2 < 4 implies out@[#[trigger]
                byte_index(width as int, x2, y2, c2)] == (if in_fill_region(
                    x2,
                    y2,
                    fx as int,
                    fy as int,
                    fw as int,
                    fh as int,
                ) && (y2 < y || (y2 == y && x2 < x + 1)) {
                    color.channel(c2)
                } else {
                    pixels@[byte_index(width as int, x2, y2, c2)]
                }) by {
                    lemma_byte_index_bound(width as int, height as int, x2, y2, c2);
                    let bi2 = byte_index(width as int, x2, y2, c2);
                    let base = byte_index(width as int, x as int, y as int, 0);
                    if base <= bi2 < base + 4 {
                        lemma_byte_index_injective(
                            width as int,
                            x2,
                            y2,
                            c2,
                            x as int,
                            y as int,
                            bi2 - base,
                        );
                    } else {
                        assert(out@[bi2] == pre[bi2]);
                    }
                }
            }
            x = x + 1;
        }
        y = y + 1;
    }
    out
}

/// Runs the buffer/image pipeline against one device outcome. The caller
/// supplies the device's supported-format set, whether the image
/// allocation succeeded, and the image contents as written by the
/// dispatched kernel; the pipeline validates the format, records the
/// kernel dispatch — over global work sizes equal to the image
/// dimensions, with the image as its sole bound argument — then the
/// region fill conditioned on the kernel's token and the readback
/// conditioned on the fill's token, blocks on the readback's token, and
/// only then returns the host buffer.
///
/// Fails with `UnsupportedImageFormat` before anything is allocated or
/// submitted exactly when the required format is absent; with
/// `ImageAllocationFailed` when the device refused the image; with
/// `InvalidWorkSize` when the image dimensions are not an acceptable
/// global work size.
pub fn run_image_pipeline(
    seq: &mut Sequencer,
    supported: &Vec<ImageFormat>,
    required: ImageFormat,
    width: usize,
    height: usize,
    max_work_size: usize,
    image_alloc_ok: bool,
    kernel_output: &Vec<u8>,
    fx: usize,
    fy: usize,
    fw: usize,
    fh: usize,
    color: FillColor,
) -> (r: Result<Vec<u8>, HostError>)
    requires
        old(seq).wf(),
        kernel_output@.len() == 4 * width * height,
        fx + fw <= width,
        fy + fh <= height,
    ensures
        final(seq).wf(),
        r is Ok <==> format_supported(supported@, required) && image_alloc_ok
            && Sequencer::work_sizes_ok(seq![width, height], max_work_size),
        !format_supported(supported@, required) ==> (r matches Err(
            HostError::UnsupportedImageFormat,
        )) && *final(seq) == *old(seq),
        format_supported(supported@, required) && !image_alloc_ok ==> (r matches Err(
            HostError::ImageAllocationFailed,
        )) && *final(seq) == *old(seq),
        format_supported(supported@, required) && image_alloc_ok && !Sequencer::work_sizes_ok(
            seq![width, height],
            max_work_size,
        ) ==> (r matches Err(HostError::InvalidWorkSize)) && *final(seq) == *old(seq),
        r is Ok ==> final(seq).ops@.len() == old(seq).ops@.len() + 3
            && final(seq).ops@.subrange(0, old(seq).ops@.len() as int) == old(seq).ops@,
        r is Ok ==> (final(seq).ops@[old(seq).ops@.len() as int].kind matches OpKind::KernelDispatch {
            work_sizes,
            args,
        } && work_sizes@ == seq![width, height] && args@ == seq![KernelArg::ImageObject])
            && final(seq).ops@[old(seq).ops@.len() as int].wait_on@ == Seq::<usize>::empty(),
        r is Ok ==> final(seq).ops@[old(seq).ops@.len() + 1int].kind == OpKind::FillImage
            && final(seq).ops@[old(seq).ops@.len() + 1int].wait_on@ == seq![old(seq).ops@.len() as usize],
        r is Ok ==> final(seq).ops@[old(seq).ops@.len() + 2int].kind == OpKind::ReadImage
            && final(seq).ops@[old(seq).ops@.len() + 2int].wait_on@ == seq![(old(seq).ops@.len() + 1) as usize],
        r is Ok ==> final(seq).waited@ == old(seq).waited@.push(
            (old(seq).ops@.len() + 2) as usize,
        ),
        r matches Ok(buf) ==> buf@.len() == 4 * width * height,
        r matches Ok(buf) ==> forall|x: int, y: int, c: int|
            #![trigger byte_index(width as int, x, y, c)]
            0 <= x < width && 0 <= y < height && 0 <= c < 4 ==> buf@[byte_index(
                width as int,
                x,
                y,
                c,
            )] == (if in_fill_region(x, y, fx as int, fy as int, fw as int, fh as int) {
                color.channel(c)
            } else {
                kernel_output@[byte_index(width as int, x, y, c)]
            }),
{
    match validate_image_format(supported, required) {
        Ok(()) => (),
        Err(e) => {
            return Err(e);
        },
    }
    if !image_alloc_ok {
        return Err(HostError::ImageAllocationFailed);
    }
    let mut sizes: Vec<usize> = Vec::new();
    sizes.push(width);
    sizes.push(height);
    let mut args: Vec<KernelArg> = Vec::new();
    args.push(KernelArg::ImageObject);
    proof {
        assert(sizes@ =~= seq![width, height]);
        assert(args@ =~= seq![KernelArg::ImageObject]);
    }
    let t1 = match seq.dispatch_kernel(sizes, args, max_work_size, Vec::new()) {
        Ok(t) => t,
        Err(e) => {
            return Err(e);
        },
    };
    let mut fill_wait: Vec<usize> = Vec::new();
    fill_wait.push(t1);
    let t2 = seq.submit(OpKind::FillImage, fill_wait);
    let mut read_wait: Vec<usize> = Vec::new();
    read_wait.push(t2);
    let t3 = seq.submit(OpKind::ReadImage, read_wait);
    seq.wait(t3);
    let buf = fill_region(kernel_output, width, height, fx, fy, fw, fh, color);
    Ok(buf)
}

} // verus!
