//! A fixed-size image buffer for the brain's display.

use vstd::prelude::*;

verus! {

/// Pixels of a `WIDTH` by `HEIGHT` image, filled by the platform's PNG decoder.
pub struct Image<const WIDTH: u32, const HEIGHT: u32> {
    buf: Vec<u32>,
}

impl<const WIDTH: u32, const HEIGHT: u32> Image<WIDTH, HEIGHT> {
    /// The number of words the decoder writes: four per pixel.
    pub open spec fn buffer_len() -> nat {
        (WIDTH as nat) * (HEIGHT as nat) * 4
    }

    /// The buffer always has the decoder's length.
    #[verifier::type_invariant]
    spec fn inv(self) -> bool {
        self.buf@.len() == Self::buffer_len()
    }

    /// The image's words.
    pub closed spec fn view(&self) -> Seq<u32> {
        self.buf@
    }

    /// An image holding `buf`, if `buf` has the decoder's length.
    pub fn from_buffer(buf: Vec<u32>) -> (r: Option<Self>)
        ensures
            r is Some <==> buf@.len() == Self::buffer_len(),
            r matches Some(img) ==> img.view() == buf@,
    {
        let w = WIDTH as u128;
        let h = HEIGHT as u128;
        assert(w * h <= 0xffff_ffffu128 * 0xffff_ffffu128) by (nonlinear_arith)
            requires
                w <= 0xffff_ffff,
                h <= 0xffff_ffff,
        ;
        let wanted: u128 = w * h * 4;
        if buf.len() as u128 == wanted {
            Some(Image { buf })
        } else {
            None
        }
    }

    /// The image's words, four per pixel.
    pub fn buffer(&self) -> (r: &Vec<u32>)
        ensures
            r@ == self.view(),
            r@.len() == Self::buffer_len(),
    {
        proof {
            use_type_invariant(self);
        }
        &self.buf
    }
}

} // verus!
