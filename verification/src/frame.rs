//! Converted frames: packed RGB, eight bits per channel, rows from top to
//! bottom.
use vstd::prelude::*;

verus! {

/// Bytes that a `width` x `height` frame needs: three per pixel.
pub open spec fn rgb_len(width: nat, height: nat) -> nat {
    3 * width * height
}

/// Whether a buffer of `len` bytes makes a `width` x `height` frame: the
/// bytes of one row of height one can be counted in a `usize`, and the
/// buffer holds three bytes for every pixel.
pub open spec fn fits(width: nat, height: nat, len: nat) -> bool {
    &&& 3 * width <= usize::MAX
    &&& rgb_len(width, height) <= len
}

/// Whether a plane of `len` bytes, with lines `stride` bytes apart, holds a
/// `width` x `height` picture: each line has room for its pixels, and the
/// plane holds `height` lines.
pub open spec fn holds_lines(width: nat, height: nat, stride: nat, len: nat) -> bool {
    &&& 3 * width <= stride
    &&& stride * height <= len
}

/// The pixels of line `y` of a plane: the first `3 * width` bytes of the
/// line, without the padding behind them.
pub open spec fn line(width: nat, stride: nat, plane: Seq<u8>, y: nat) -> Seq<u8> {
    plane.subrange((y * stride) as int, (y * stride + 3 * width) as int)
}

/// The pixels of the first `height` lines of a plane, one line after the
/// other with nothing between them.
pub open spec fn packed(width: nat, height: nat, stride: nat, plane: Seq<u8>) -> Seq<u8>
    decreases height,
{
    if height == 0 {
        Seq::empty()
    } else {
        packed(width, (height - 1) as nat, stride, plane) + line(
            width,
            stride,
            plane,
            (height - 1) as nat,
        )
    }
}

/// What a [`Frame`] holds.
pub struct FrameView {
    pub width: nat,
    pub height: nat,
    pub data: Seq<u8>,
}

impl FrameView {
    /// The buffer is large enough for every pixel.
    pub open spec fn wf(self) -> bool {
        rgb_len(self.width, self.height) <= self.data.len()
    }

    /// Where channel `c` of the pixel in column `x` of row `y` lies.
    pub open spec fn offset(self, x: nat, y: nat, c: nat) -> nat {
        3 * (y * self.width + x) + c
    }

    /// Channel `c` (red, green, blue) of the pixel in column `x` of row `y`.
    pub open spec fn channel(self, x: nat, y: nat, c: nat) -> u8
        recommends
            self.wf(),
            x < self.width,
            y < self.height,
            c < 3,
    {
        self.data[self.offset(x, y, c) as int]
    }
}

/// One converted frame.
pub struct Frame {
    width: u32,
    height: u32,
    data: Vec<u8>,
}

impl View for Frame {
    type V = FrameView;

    closed spec fn view(&self) -> FrameView {
        FrameView { width: self.width as nat, height: self.height as nat, data: self.data@ }
    }
}

/// Every pixel of a frame lies inside its buffer.
pub proof fn lemma_offset_in_bounds(f: FrameView, x: nat, y: nat, c: nat)
    requires
        f.wf(),
        x < f.width,
        y < f.height,
        c < 3,
    ensures
        f.offset(x, y, c) < rgb_len(f.width, f.height),
        f.offset(x, y, c) < f.data.len(),
{
    assert(y * f.width + x < f.width * f.height) by (nonlinear_arith)
        requires
            x < f.width,
            y < f.height,
    ;
    assert(3 * f.width * f.height == 3 * (f.width * f.height)) by (nonlinear_arith);
}

/// Line `y` of a plane that holds `height` lines lies inside the plane.
proof fn lemma_line_in_plane(width: nat, height: nat, stride: nat, len: nat, y: nat)
    requires
        holds_lines(width, height, stride, len),
        y < height,
    ensures
        y * stride + stride <= len,
        y * stride + 3 * width <= len,
{
    assert(y * stride + stride <= stride * height) by (nonlinear_arith)
        requires
            y < height,
    ;
}

/// Packing the lines of a plane leaves exactly three bytes for each pixel.
pub proof fn lemma_packed_len(width: nat, height: nat, stride: nat, plane: Seq<u8>)
    requires
        holds_lines(width, height, stride, plane.len()),
    ensures
        packed(width, height, stride, plane).len() == rgb_len(width, height),
    decreases height,
{
    if height > 0 {
        let above = (height - 1) as nat;
        assert(stride * above <= stride * height) by (nonlinear_arith)
            requires
                above <= height,
        ;
        lemma_packed_len(width, above, stride, plane);
        lemma_line_in_plane(width, height, stride, plane.len(), above);
        assert(3 * width * above + 3 * width == 3 * width * height) by (nonlinear_arith)
            requires
                above + 1 == height,
        ;
    }
}

/// Packing moves each channel of each pixel from its place in the plane to
/// its place in a frame: channel `c` of the pixel in column `x` of line `y`
/// goes from `y * stride + 3 * x + c` to `3 * (y * width + x) + c`.
pub proof fn lemma_packed_pixel(
    width: nat,
    height: nat,
    stride: nat,
    plane: Seq<u8>,
    x: nat,
    y: nat,
    c: nat,
)
    requires
        holds_lines(width, height, stride, plane.len()),
        x < width,
        y < height,
        c < 3,
    ensures
        3 * (y * width + x) + c < packed(width, height, stride, plane).len(),
        y * stride + 3 * x + c < plane.len(),
        packed(width, height, stride, plane)[(3 * (y * width + x) + c) as int] == plane[(y
            * stride + 3 * x + c) as int],
    decreases height,
{
    let above = (height - 1) as nat;
    assert(stride * above <= stride * height) by (nonlinear_arith)
        requires
            above <= height,
    ;
    lemma_packed_len(width, height, stride, plane);
    lemma_packed_len(width, above, stride, plane);
    lemma_line_in_plane(width, height, stride, plane.len(), y);
    lemma_line_in_plane(width, height, stride, plane.len(), above);
    assert(3 * (y * width + x) + c == 3 * width * y + (3 * x + c)) by (nonlinear_arith);
    if y == above {
        assert(3 * width * above + 3 * width == 3 * width * height) by (nonlinear_arith)
            requires
                above + 1 == height,
        ;
    } else {
        lemma_packed_pixel(width, above, stride, plane, x, y, c);
    }
}

/// Hands `data` to `image::RgbImage::from_vec` and gives back the buffer of
/// the image that was built.
///
/// The image is built exactly when three times the width can be counted in
/// a `usize` and the buffer holds at least three bytes for each of the
/// `width * height` pixels; the image owns the buffer it was given,
/// unchanged.
#[verifier::external_body]
fn rgb_image_buffer(width: u32, height: u32, data: Vec<u8>) -> (raw: Option<Vec<u8>>)
    ensures
        raw.is_some() <==> (3 * (width as nat) <= usize::MAX
            && rgb_len(width as nat, height as nat) <= data@.len()),
        raw matches Some(buffer) ==> buffer@ == data@,
{
    match image::RgbImage::from_vec(width, height, data) {
        Some(img) => Some(img.into_raw()),
        None => None,
    }
}

impl Frame {
    #[verifier::type_invariant]
    spec fn inv(self) -> bool {
        self@.wf()
    }

    /// Builds a frame from packed RGB bytes.
    ///
    /// Fails when `data` is too short for `width * height` pixels, or when
    /// three times the width is more than a `usize` can count; a longer
    /// buffer is kept whole.
    pub fn from_rgb(width: u32, height: u32, data: Vec<u8>) -> (frame: Option<Frame>)
        ensures
            frame.is_some() <==> fits(width as nat, height as nat, data@.len()),
            frame matches Some(f) ==> f@ == (FrameView {
                width: width as nat,
                height: height as nat,
                data: data@,
            }),
    {
        match rgb_image_buffer(width, height, data) {
            Some(buffer) => Some(Frame { width, height, data: buffer }),
            None => None,
        }
    }

    /// Builds a frame from a plane of packed RGB lines that lie `stride` bytes
    /// apart, leaving out the padding at the end of each line.
    ///
    /// Fails when a line has no room for `width` pixels or the plane holds
    /// fewer than `height` lines.
    pub fn from_plane(width: u32, height: u32, stride: usize, plane: &Vec<u8>) -> (frame: Option<
        Frame,
    >)
        ensures
            frame.is_some() <==> holds_lines(
                width as nat,
                height as nat,
                stride as nat,
                plane@.len(),
            ),
            frame matches Some(f) ==> f@ == (FrameView {
                width: width as nat,
                height: height as nat,
                data: packed(width as nat, height as nat, stride as nat, plane@),
            }),
    {
        let wide: u64 = 3 * (width as u64);
        if wide > stride as u64 {
            return None;
        }
        assert(stride * height <= u128::MAX) by (nonlinear_arith)
            requires
                stride <= u64::MAX,
                height <= u32::MAX,
        ;
        let tall: u128 = (stride as u128) * (height as u128);
        if tall > plane.len() as u128 {
            return None;
        }
        let row: usize = wide as usize;
        let mut data: Vec<u8> = Vec::new();
        let mut y: u32 = 0;
        while y < height
            invariant
                y <= height,
                row == 3 * width,
                holds_lines(width as nat, height as nat, stride as nat, plane@.len()),
                data@ == packed(width as nat, y as nat, stride as nat, plane@),
            decreases height - y,
        {
            proof {
                lemma_line_in_plane(
                    width as nat,
                    height as nat,
                    stride as nat,
                    plane@.len(),
                    y as nat,
                );
                assert(plane@.len() == plane.len());
                assert(y * stride <= y * stride + stride) by (nonlinear_arith);
            }
            let start: usize = (y as usize) * stride;
            let ghost before = data@;
            let mut k: usize = 0;
            while k < row
                invariant
                    k <= row,
                    start + row <= plane.len(),
                    data@ == before + plane@.subrange(start as int, start + k),
                decreases row - k,
            {
                data.push(plane[start + k]);
                assert(plane@.subrange(start as int, start + k + 1) =~= plane@.subrange(
                    start as int,
                    start + k,
                ).push(plane@[start + k]));
                k += 1;
            }
            y += 1;
        }
        proof {
            lemma_packed_len(width as nat, height as nat, stride as nat, plane@);
        }
        Frame::from_rgb(width, height, data)
    }

    /// Width in pixels.
    pub fn width(&self) -> (w: u32)
        ensures
            w == self@.width,
    {
        self.width
    }

    /// Height in pixels.
    pub fn height(&self) -> (h: u32)
        ensures
            h == self@.height,
    {
        self.height
    }

    /// The packed RGB bytes.
    pub fn data(&self) -> (bytes: &Vec<u8>)
        ensures
            bytes@ == self@.data,
            self@.wf(),
    {
        proof {
            use_type_invariant(self);
        }
        &self.data
    }

    /// The red, green and blue channels of the pixel in column `x` of row `y`.
    pub fn pixel(&self, x: u32, y: u32) -> (rgb: (u8, u8, u8))
        requires
            x < self@.width,
            y < self@.height,
        ensures
            rgb.0 == self@.channel(x as nat, y as nat, 0),
            rgb.1 == self@.channel(x as nat, y as nat, 1),
            rgb.2 == self@.channel(x as nat, y as nat, 2),
    {
        proof {
            use_type_invariant(self);
            lemma_offset_in_bounds(self@, x as nat, y as nat, 2);
            assert(self.data@.len() == self.data.len());
            assert(y * self.width <= y * self.width + x) by (nonlinear_arith);
        }
        let base: usize = 3 * (y as usize * self.width as usize + x as usize);
        (self.data[base], self.data[base + 1], self.data[base + 2])
    }
}

} // verus!
