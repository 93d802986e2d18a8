//! The image that a render fills: one byte per channel, three channels per
//! pixel, row by row from the top.
use vstd::prelude::*;

verus! {

/// glam's pair of unsigned lanes, in which the canvas keeps its size.
#[verifier::external_type_specification]
#[verifier::external_body]
pub struct ExUVec2(glam::UVec2);

/// The two lanes of a `glam::UVec2`: `x`, then `y`.
pub uninterp spec fn lanes(v: glam::UVec2) -> Seq<u32>;

/// `glam::UVec2::new`: the pair whose first lane is `x` and whose second is
/// `y`.
#[verifier::external_body]
fn pair(x: u32, y: u32) -> (v: glam::UVec2)
    ensures
        lanes(v) == seq![x, y],
{
    glam::UVec2::new(x, y)
}

/// The field `x` of a `glam::UVec2`: the pair has two lanes, and `x` is the
/// first.
#[verifier::external_body]
fn first(v: &glam::UVec2) -> (x: u32)
    ensures
        lanes(*v) == seq![x, lanes(*v)[1]],
{
    v.x
}

/// The field `y` of a `glam::UVec2`: the pair has two lanes, and `y` is the
/// second.
#[verifier::external_body]
fn second(v: &glam::UVec2) -> (y: u32)
    ensures
        lanes(*v) == seq![lanes(*v)[0], y],
{
    v.y
}

/// An image of `width` by `height` pixels.
pub struct Canvas {
    size: glam::UVec2,
    data: Vec<u8>,
}

/// What a canvas holds.
pub struct CanvasView {
    pub width: nat,
    pub height: nat,
    /// The channels of all pixels: red, green and blue of the top left
    /// pixel first, then those of its right neighbour, row after row.
    pub data: Seq<u8>,
}

impl CanvasView {
    /// Where the red channel of the pixel in column `x` of row `y` lies.
    pub open spec fn offset(self, x: nat, y: nat) -> nat {
        (y * self.width + x) * 3
    }

    /// The view after the pixel at `(x, y)` was given the channels `rgb`.
    pub open spec fn drawn(self, x: nat, y: nat, rgb: Seq<u8>) -> CanvasView {
        let at = self.offset(x, y) as int;
        CanvasView {
            width: self.width,
            height: self.height,
            data: self.data.update(at, rgb[0]).update(at + 1, rgb[1]).update(at + 2, rgb[2]),
        }
    }
}

impl View for Canvas {
    type V = CanvasView;

    closed spec fn view(&self) -> CanvasView {
        CanvasView { width: lanes(self.size)[0] as nat, height: lanes(self.size)[1] as nat, data: self.data@ }
    }
}

impl Canvas {
    /// The canvas holds three channels for each of its pixels.
    pub closed spec fn wf(&self) -> bool {
        self.data@.len() == self@.width * self@.height * 3
    }

    /// A black canvas. The number of its channels must fit the machine's
    /// addresses.
    pub fn new(width: u32, height: u32) -> (canvas: Canvas)
        requires
            width * height * 3 <= usize::MAX,
        ensures
            canvas.wf(),
            canvas@.width == width,
            canvas@.height == height,
            canvas@.data == Seq::new((width * height * 3) as nat, |i: int| 0u8),
    {
        assert(width * height <= width * height * 3) by (nonlinear_arith);
        let pixels: usize = width as usize * height as usize;
        let data: Vec<u8> = vec![0u8; pixels * 3];
        assert(data@ =~= Seq::new((width * height * 3) as nat, |i: int| 0u8));
        Canvas { size: pair(width, height), data }
    }

    /// The number of columns.
    pub fn width(&self) -> (w: u32)
        ensures
            w == self@.width,
    {
        first(&self.size)
    }

    /// The number of rows.
    pub fn height(&self) -> (h: u32)
        ensures
            h == self@.height,
    {
        second(&self.size)
    }

    /// The channels of all pixels, as they are written to an image file.
    pub fn data(&self) -> (bytes: &Vec<u8>)
        ensures
            bytes@ == self@.data,
    {
        &self.data
    }

    /// Gives the pixel in column `x` of row `y` the channels `rgb`. The pixel
    /// must be one of the canvas, counted along the rows.
    pub fn draw(&mut self, x: u32, y: u32, rgb: [u8; 3])
        requires
            old(self).wf(),
            y * old(self)@.width + x < old(self)@.width * old(self)@.height,
        ensures
            final(self).wf(),
            final(self)@ == old(self)@.drawn(x as nat, y as nat, rgb@),
    {
        let width = first(&self.size);
        let ghost height = self@.height;
        let channels: usize = self.data.len();
        assert(channels == width * height * 3);
        assert(0 <= y * width) by (nonlinear_arith);
        assert(0 <= width * height <= width * height * 3) by (nonlinear_arith);
        assert(y as usize * width as usize == y * width);
        assert((y * width + x) * 3 + 2 < width * height * 3) by (nonlinear_arith)
            requires
                y * width + x < width * height,
        ;
        let idx: usize = (y as usize * width as usize + x as usize) * 3;
        self.data.set(idx, rgb[0]);
        self.data.set(idx + 1, rgb[1]);
        self.data.set(idx + 2, rgb[2]);
    }
}

} // verus!
