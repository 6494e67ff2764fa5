//! Pixels and the flat, row-major buffer that holds them.

use vstd::prelude::*;

verus! {

/// One pixel: four unsigned bytes, in the order red, green, blue, alpha.
#[derive(Debug, Clone, Copy, PartialEq, Eq, Structural)]
pub struct Pixel {
    pub r: u8,
    pub g: u8,
    pub b: u8,
    pub a: u8,
}

impl Pixel {
    /// Opaque black, the value of a cleared pixel.
    pub open spec fn opaque_black() -> Pixel {
        Pixel { r: 0, g: 0, b: 0, a: 255 }
    }

    /// Channel `k` of the pixel in memory order: 0 is red, 1 green, 2 blue
    /// and 3 alpha.
    pub open spec fn channel(self, k: int) -> u8 {
        if k == 0 {
            self.r
        } else if k == 1 {
            self.g
        } else if k == 2 {
            self.b
        } else {
            self.a
        }
    }

    /// Opaque black, the value of a cleared pixel.
    #[verifier::when_used_as_spec(opaque_black)]
    pub fn black() -> (p: Pixel)
        ensures
            p == Pixel::opaque_black(),
    {
        Pixel { r: 0, g: 0, b: 0, a: 255 }
    }
}

/// The bytes of a pixel sequence as a texture upload reads them: four bytes
/// per pixel, pixel after pixel, with nothing in between.
pub open spec fn byte_view(pixels: Seq<Pixel>) -> Seq<u8> {
    Seq::new((4 * pixels.len()) as nat, |i: int| pixels[i / 4].channel(i % 4))
}

/// A sequence of pixels whose length is fixed when it is made. Pixel `(x, y)`
/// of a canvas that is `width` pixels wide sits at index `y * width + x`.
pub struct PixelBuffer {
    inner: Vec<Pixel>,
}

impl View for PixelBuffer {
    type V = Seq<Pixel>;

    closed spec fn view(&self) -> Seq<Pixel> {
        self.inner@
    }
}

impl PixelBuffer {
    /// A buffer of `cap` pixels, each of them opaque black.
    pub fn with_capacity(cap: usize) -> (buf: Self)
        ensures
            buf@.len() == cap,
            forall|i: int| 0 <= i < cap ==> buf@[i] == Pixel::opaque_black(),
    {
        let mut inner: Vec<Pixel> = Vec::new();
        let mut i: usize = 0;
        while i < cap
            invariant
                i <= cap,
                inner@.len() == i,
                forall|j: int| 0 <= j < i ==> inner@[j] == Pixel::opaque_black(),
            decreases cap - i,
        {
            inner.push(Pixel::black());
            i += 1;
        }
        PixelBuffer { inner }
    }

    /// The number of pixels fits in a `usize`.
    pub proof fn lemma_len_fits(&self)
        ensures
            self@.len() <= usize::MAX,
    {
        assert(self.inner@.len() == self.inner.len());
    }

    /// The number of pixels, which never changes.
    pub fn len(&self) -> (n: usize)
        ensures
            n == self@.len(),
    {
        self.inner.len()
    }

    /// Mutable access to the pixel at `index`. Whatever is written through
    /// the reference replaces that pixel and no other; the length stays.
    pub fn flap(&mut self, index: usize) -> (pixel: &mut Pixel)
        requires
            index < old(self)@.len(),
        ensures
            *pixel == old(self)@[index as int],
            final(self)@ == old(self)@.update(index as int, *final(pixel)),
            final(self)@.len() == old(self)@.len(),
    {
        &mut self.inner[index]
    }

    /// The buffer as the flat byte sequence that a texture upload takes.
    pub fn as_bytes(&self) -> (bytes: Vec<u8>)
        ensures
            bytes@ == byte_view(self@),
    {
        let n: usize = self.inner.len();
        let mut bytes: Vec<u8> = Vec::new();
        let mut i: usize = 0;
        while i < n
            invariant
                n == self.inner@.len(),
                i <= n,
                bytes@ == byte_view(self.inner@.take(i as int)),
            decreases n - i,
        {
            let p: Pixel = self.inner[i];
            bytes.push(p.r);
            bytes.push(p.g);
            bytes.push(p.b);
            bytes.push(p.a);
            i += 1;
            assert(bytes@ =~= byte_view(self.inner@.take(i as int)));
        }
        assert(self.inner@.take(n as int) =~= self.inner@);
        bytes
    }
}

/// Writing pixel `p` at index `i` puts its red, green, blue and alpha bytes
/// at byte offsets `4 * i` to `4 * i + 3` of the byte view, in that order,
/// and leaves every other byte, and the length, as they were.
pub proof fn lemma_write_shows_in_bytes(pixels: Seq<Pixel>, i: int, p: Pixel)
    requires
        0 <= i < pixels.len(),
    ensures
        byte_view(pixels.update(i, p)).len() == byte_view(pixels).len(),
        byte_view(pixels.update(i, p))[4 * i] == p.r,
        byte_view(pixels.update(i, p))[4 * i + 1] == p.g,
        byte_view(pixels.update(i, p))[4 * i + 2] == p.b,
        byte_view(pixels.update(i, p))[4 * i + 3] == p.a,
        forall|j: int|
            0 <= j < 4 * pixels.len() && !(4 * i <= j < 4 * i + 4) ==> byte_view(
                pixels.update(i, p),
            )[j] == byte_view(pixels)[j],
{
}

} // verus!
