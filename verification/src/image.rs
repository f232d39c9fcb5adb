//! The image view: row geometry and bounds-checked pixel access.

use core::marker::PhantomData;

use vstd::prelude::*;
use vstd::arithmetic::mul::lemma_mul_nonnegative;
use vstd::layout::size_of;
use vstd::slice::slice_subrange;

verus! {

/// Total length of one image row in bytes: the pixel data of the row
/// followed by the driver's trailing padding.
pub open spec fn stride_of(width: nat, pixel_size: nat, padding_x: nat) -> nat {
    width * pixel_size + padding_x
}

/// Byte offset of pixel `(x, y)` from the start of the buffer: `y` full
/// rows, then `x` pixels into row `y`.
pub open spec fn offset_of(width: nat, pixel_size: nat, padding_x: nat, x: int, y: int) -> int {
    (stride_of(width, pixel_size, padding_x) as int) * y + x * (pixel_size as int)
}

/// Byte offset of pixel `(x, y)` for an image of the given geometry, with
/// the bounds check the driver convention calls for: the coordinates must
/// lie strictly inside `width` x `height`, and the offset arithmetic must
/// fit in `usize`.  Out-of-bounds coordinates yield absence, not an error.
pub fn pixel_offset(
    width: u32,
    height: u32,
    padding_x: u32,
    pixel_size: usize,
    x: usize,
    y: usize,
) -> (r: Option<usize>)
    ensures
        r is Some <==> ((x as int) < width as int && (y as int) < height as int
            && stride_of(width as nat, pixel_size as nat, padding_x as nat) <= usize::MAX
            && offset_of(width as nat, pixel_size as nat, padding_x as nat, x as int, y as int)
                <= usize::MAX),
        (r matches Some(off) ==> off as int == offset_of(
            width as nat,
            pixel_size as nat,
            padding_x as nat,
            x as int,
            y as int,
        )),
{
    if x >= width as usize || y >= height as usize {
        return None;
    }
    proof {
        lemma_mul_nonnegative(
            stride_of(width as nat, pixel_size as nat, padding_x as nat) as int,
            y as int,
        );
        lemma_mul_nonnegative(x as int, pixel_size as int);
    }
    let row_bytes = match (width as usize).checked_mul(pixel_size) {
        Some(v) => v,
        None => {
            return None;
        },
    };
    let stride = match row_bytes.checked_add(padding_x as usize) {
        Some(v) => v,
        None => {
            return None;
        },
    };
    let within_row = match x.checked_mul(pixel_size) {
        Some(v) => v,
        None => {
            return None;
        },
    };
    let rows = match stride.checked_mul(y) {
        Some(v) => v,
        None => {
            return None;
        },
    };
    rows.checked_add(within_row)
}

/// An image as it is captured by the camera: raw dimensions, the driver's
/// per-row byte padding, and the pixel data as a flat byte buffer.
///
/// The type parameter `T` records, at the type level, the pixel element
/// type the buffer is to be interpreted as; each pixel occupies
/// `size_of::<T>()` consecutive bytes.  Whether that element type matches
/// what the driver actually wrote per pixel cannot be checked here and
/// remains the caller's obligation: with a mismatched `T` the accessor
/// yields geometrically valid but misinterpreted bytes.
///
/// An image is either *unpopulated* (no buffer, zero dimensions — the
/// well-defined state before an acquisition) or *populated* (a buffer of
/// at least `stride * height` bytes, as the driver guarantees on a
/// successful acquisition).
pub struct Image<T> {
    width: u32,
    height: u32,
    padding_x: u32,
    data: Option<Vec<u8>>,
    pix_type: PhantomData<T>,
}

impl<T> Image<T> {
    /// The image width in pixels, as recorded in the descriptor.
    pub closed spec fn spec_width(self) -> u32 {
        self.width
    }

    /// The image height in pixels, as recorded in the descriptor.
    pub closed spec fn spec_height(self) -> u32 {
        self.height
    }

    /// The number of padding bytes the driver appends to each row.
    pub closed spec fn spec_padding_x(self) -> u32 {
        self.padding_x
    }

    /// The pixel buffer as a byte sequence; absent while unpopulated.
    pub closed spec fn spec_data(self) -> Option<Seq<u8>> {
        match self.data {
            Some(d) => Some(d@),
            None => None,
        }
    }

    /// Whether the image holds a buffer.  The buffer's presence doubles as
    /// the discriminant between the unpopulated and the populated state.
    pub open spec fn is_populated(self) -> bool {
        self.spec_data() is Some
    }

    /// Row stride of this image in bytes.
    pub open spec fn spec_stride(self) -> nat {
        stride_of(self.spec_width() as nat, size_of::<T>(), self.spec_padding_x() as nat)
    }

    /// Whether `(x, y)` lies strictly inside the image dimensions.
    pub open spec fn in_bounds(self, x: int, y: int) -> bool {
        0 <= x < self.spec_width() && 0 <= y < self.spec_height()
    }

    /// Byte offset of pixel `(x, y)` in this image's buffer.
    pub open spec fn spec_offset(self, x: int, y: int) -> int {
        offset_of(self.spec_width() as nat, size_of::<T>(), self.spec_padding_x() as nat, x, y)
    }

    /// The `size_of::<T>()` bytes of pixel `(x, y)`.
    pub open spec fn spec_pixel_bytes(self, x: int, y: int) -> Seq<u8> {
        match self.spec_data() {
            Some(d) => d.subrange(self.spec_offset(x, y), self.spec_offset(x, y) + size_of::<T>()),
            None => Seq::empty(),
        }
    }

    /// What a pixel lookup at `(x, y)` observes: the pixel's bytes when the
    /// image is populated and the coordinates are in bounds, absence
    /// otherwise.
    pub open spec fn spec_pixel(self, x: int, y: int) -> Option<Seq<u8>> {
        if self.is_populated() && self.in_bounds(x, y) {
            Some(self.spec_pixel_bytes(x, y))
        } else {
            None
        }
    }

    /// Well-formedness: an unpopulated image reports all-zero geometry, and
    /// a populated one holds a buffer long enough for `height` full rows —
    /// exactly what the driver guarantees on a successful acquisition.
    #[verifier::type_invariant]
    pub open spec fn wf(self) -> bool {
        match self.spec_data() {
            None => self.spec_width() == 0 && self.spec_height() == 0 && self.spec_padding_x()
                == 0,
            Some(d) => self.spec_stride() * self.spec_height() <= d.len(),
        }
    }

    /// The one unpopulated image value: zero geometry and no buffer.
    pub closed spec fn spec_empty() -> Self {
        Image { width: 0, height: 0, padding_x: 0, data: None, pix_type: PhantomData }
    }

    /// Creates a new, unpopulated image.
    ///
    /// The returned image does not contain any data and image metadata are
    /// all empty or zero.  It is the value handed to the acquisition layer
    /// to be filled in.
    pub fn new() -> (img: Self)
        ensures
            img == Self::spec_empty(),
            !img.is_populated(),
            img.spec_width() == 0,
            img.spec_height() == 0,
            img.spec_padding_x() == 0,
    {
        Image { width: 0, height: 0, padding_x: 0, data: None, pix_type: PhantomData }
    }

    /// Builds a populated image from the values a successful acquisition
    /// reported: dimensions, row padding and the raw pixel bytes.
    ///
    /// Succeeds exactly when the buffer is long enough for `height` rows of
    /// `width * size_of::<T>() + padding_x` bytes each; a shorter buffer
    /// yields absence, so no populated image with an undersized buffer can
    /// exist.
    pub fn from_buffer(width: u32, height: u32, padding_x: u32, data: Vec<u8>) -> (r: Option<
        Self,
    >)
        ensures
            (r is Some <==> stride_of(width as nat, size_of::<T>(), padding_x as nat) * height
                <= data.len()),
            (r matches Some(img) ==> {
                &&& img.spec_width() == width
                &&& img.spec_height() == height
                &&& img.spec_padding_x() == padding_x
                &&& img.spec_data() == Some(data@)
            }),
    {
        let ps: usize = core::mem::size_of::<T>();
        if height == 0 {
            proof {
                assert((stride_of(width as nat, size_of::<T>(), padding_x as nat) as int) * (
                height as int) == 0) by (nonlinear_arith)
                    requires
                        height as int == 0,
                ;
            }
            return Some(
                Image { width, height, padding_x, data: Some(data), pix_type: PhantomData },
            );
        }
        let ghost sp = stride_of(width as nat, size_of::<T>(), padding_x as nat) as int;
        proof {
            assert(sp <= sp * (height as int)) by (nonlinear_arith)
                requires
                    0 <= sp,
                    1 <= height as int,
            ;
        }
        let row_bytes = match (width as usize).checked_mul(ps) {
            Some(v) => v,
            None => {
                return None;
            },
        };
        let stride = match row_bytes.checked_add(padding_x as usize) {
            Some(v) => v,
            None => {
                return None;
            },
        };
        let total = match stride.checked_mul(height as usize) {
            Some(v) => v,
            None => {
                return None;
            },
        };
        if total <= data.len() {
            Some(Image { width, height, padding_x, data: Some(data), pix_type: PhantomData })
        } else {
            None
        }
    }

    /// Get a pixel from the image.
    ///
    /// # Arguments
    ///
    /// * `x`: Horizontal coordinate of the requested pixel.
    /// * `y`: Vertical coordinate of the requested pixel.
    ///
    /// Returns the `size_of::<T>()` bytes of that pixel, or absence when
    /// the image is unpopulated or a coordinate is out of bounds.  Absence
    /// is a normal outcome, never an error.  The call reads through `&self`
    /// and mutates nothing.
    pub fn pixel(&self, x: usize, y: usize) -> (r: Option<&[u8]>)
        ensures
            (r is Some <==> self.is_populated() && self.in_bounds(x as int, y as int)),
            (r matches Some(p) ==> Some(p@) == self.spec_pixel(x as int, y as int)),
            (r is None ==> self.spec_pixel(x as int, y as int) is None),
            (r matches Some(p) ==> p@.len() == size_of::<T>()),
    {
        proof {
            use_type_invariant(&*self);
        }
        let ps: usize = core::mem::size_of::<T>();
        match &self.data {
            None => None,
            Some(d) => {
                if x >= self.width as usize || y >= self.height as usize {
                    None
                } else {
                    // The length is read only so the solver learns that the
                    // buffer, and with it every offset used below, fits in
                    // usize.
                    let _buffer_len: usize = d.len();
                    proof {
                        let psn = size_of::<T>() as int;
                        let w = self.spec_width() as int;
                        let h = self.spec_height() as int;
                        let pad = self.spec_padding_x() as int;
                        let sp = self.spec_stride() as int;
                        let xi = x as int;
                        let yi = y as int;
                        assert(0 <= sp * yi && 0 <= xi * psn && sp <= sp * h && sp * yi + xi
                            * psn + psn <= sp * h) by (nonlinear_arith)
                            requires
                                sp == w * psn + pad,
                                0 <= xi < w,
                                0 <= yi < h,
                                0 <= psn,
                                0 <= pad,
                        ;
                    }
                    let stride: usize = self.width as usize * ps + self.padding_x as usize;
                    let off: usize = stride * y + x * ps;
                    Some(slice_subrange(d.as_slice(), off, off + ps))
                }
            },
        }
    }

    /// Get the width of this image in pixels (0 while unpopulated).
    pub fn width(&self) -> (w: u32)
        ensures
            w == self.spec_width(),
    {
        self.width
    }

    /// Get the height of this image in pixels (0 while unpopulated).
    pub fn height(&self) -> (h: u32)
        ensures
            h == self.spec_height(),
    {
        self.height
    }
}

/// An unpopulated view reports zero width and zero height, and a pixel
/// lookup on it yields absence for every coordinate pair, `(0, 0)`
/// included.
pub proof fn lemma_unpopulated_absent<T>(img: Image<T>)
    requires
        img.wf(),
        !img.is_populated(),
    ensures
        img.spec_width() == 0,
        img.spec_height() == 0,
        forall|x: int, y: int| #[trigger] img.spec_pixel(x, y) is None,
{
}

/// For a populated view, a pixel value is present exactly when both
/// coordinates lie strictly inside the image dimensions, and absent for
/// any coordinate at or beyond `width` or `height`.
pub proof fn lemma_populated_presence<T>(img: Image<T>, x: int, y: int)
    requires
        img.is_populated(),
    ensures
        img.spec_pixel(x, y) is Some <==> (0 <= x < img.spec_width() && 0 <= y
            < img.spec_height()),
{
}

/// With no row padding, the stride is exactly the length of one row's
/// pixel data: there is no gap between consecutive rows.
pub proof fn lemma_stride_without_padding(width: nat, pixel_size: nat)
    ensures
        stride_of(width, pixel_size, 0) == width * pixel_size,
{
}

/// The bytes of a valid pixel lie wholly inside the pixel-data region of
/// row `y`: at or after the row's start `stride * y`, and wholly before
/// the row's padding region, which begins at `stride * y + width *
/// pixel_size`.  So no in-bounds coordinate pair ever addresses a padding
/// byte.
pub proof fn lemma_padding_never_addressed(
    width: nat,
    pixel_size: nat,
    padding_x: nat,
    x: int,
    y: int,
)
    requires
        0 <= x < width,
        0 <= y,
    ensures
        (stride_of(width, pixel_size, padding_x) as int) * y <= offset_of(
            width,
            pixel_size,
            padding_x,
            x,
            y,
        ),
        offset_of(width, pixel_size, padding_x, x, y) + pixel_size <= (stride_of(
            width,
            pixel_size,
            padding_x,
        ) as int) * y + width * pixel_size,
{
    assert(0 <= x * (pixel_size as int) && x * (pixel_size as int) + pixel_size <= (width as int)
        * (pixel_size as int)) by (nonlinear_arith)
        requires
            0 <= x < width as int,
            0 <= pixel_size as int,
    ;
}

/// Any two well-formed unpopulated views — the default-constructed one
/// and the empty-constructed one in particular — are observably
/// identical: same width, same height, and pixel absence at every
/// coordinate pair.
pub proof fn lemma_unpopulated_indistinguishable<T, U>(a: Image<T>, b: Image<U>)
    requires
        a.wf(),
        b.wf(),
        !a.is_populated(),
        !b.is_populated(),
    ensures
        a.spec_width() == b.spec_width(),
        a.spec_height() == b.spec_height(),
        forall|x: int, y: int| #[trigger] a.spec_pixel(x, y) == #[trigger] b.spec_pixel(x, y),
{
}

impl<T> Default for Image<T> {
    /// The default image is the unpopulated one, exactly as `new` builds it.
    fn default() -> (img: Self)
        ensures
            img == Image::<T>::spec_empty(),
    {
        Image::new()
    }
}

} // verus!
