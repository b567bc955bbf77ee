//! Sets of hash images: the digests whose pre-images a spend has to reveal.

use vstd::prelude::*;

verus! {

/// The byte strings of a sequence of images.
pub open spec fn image_views<const N: usize>(images: Seq<[u8; N]>) -> Seq<Seq<u8>> {
    images.map_values(|image: [u8; N]| image@)
}

/// Whether two images hold the same bytes.
pub fn same_image<const N: usize>(a: &[u8; N], b: &[u8; N]) -> (r: bool)
    ensures
        r == (a@ == b@),
{
    let mut i: usize = 0;
    while i < N
        invariant
            i <= N,
            forall|j: int| 0 <= j < i ==> a@[j] == b@[j],
        decreases N - i,
    {
        if a[i] != b[i] {
            return false;
        }
        i += 1;
    }
    assert(a@ =~= b@);
    true
}

/// A set of `N`-byte hash images. No image is held twice, and no order of the
/// images is part of the value.
#[derive(Debug)]
pub struct ImageSet<const N: usize> {
    images: Vec<[u8; N]>,
}

impl<const N: usize> View for ImageSet<N> {
    type V = Set<Seq<u8>>;

    closed spec fn view(&self) -> Set<Seq<u8>> {
        image_views(self.images@).to_set()
    }
}

impl<const N: usize> Clone for ImageSet<N> {
    fn clone(&self) -> (r: Self)
        ensures
            r@ == self@,
    {
        proof {
            use_type_invariant(self);
        }
        let mut images: Vec<[u8; N]> = Vec::new();
        let mut i: usize = 0;
        while i < self.images.len()
            invariant
                i <= self.images.len(),
                images@ == self.images@.take(i as int),
            decreases self.images.len() - i,
        {
            images.push(self.images[i]);
            proof {
                assert(images@ =~= self.images@.take(i + 1));
            }
            i += 1;
        }
        proof {
            assert(images@ =~= self.images@);
        }
        ImageSet { images }
    }
}

impl<const N: usize> ImageSet<N> {
    #[verifier::type_invariant]
    pub closed spec fn well_formed(self) -> bool {
        image_views(self.images@).no_duplicates()
    }

    /// The empty set.
    pub fn new() -> (r: Self)
        ensures
            r@ == Set::<Seq<u8>>::empty(),
    {
        let r = ImageSet { images: Vec::new() };
        assert(image_views(r.images@) =~= Seq::<Seq<u8>>::empty());
        assert(r@ =~= Set::<Seq<u8>>::empty());
        r
    }

    /// Whether the set holds the image.
    pub fn contains(&self, image: &[u8; N]) -> (r: bool)
        ensures
            r == self@.contains(image@),
    {
        let mut i: usize = 0;
        while i < self.images.len()
            invariant
                i <= self.images.len(),
                forall|j: int| 0 <= j < i ==> image_views(self.images@)[j] != image@,
            decreases self.images.len() - i,
        {
            if same_image(&self.images[i], image) {
                assert(image_views(self.images@)[i as int] == image@);
                return true;
            }
            i += 1;
        }
        false
    }

    /// How many images the set holds.
    pub fn len(&self) -> (r: usize)
        ensures
            r == self@.len(),
            self@.finite(),
    {
        proof {
            use_type_invariant(self);
            image_views(self.images@).unique_seq_to_set();
        }
        self.images.len()
    }

    /// Whether the set holds no image.
    pub fn is_empty(&self) -> (r: bool)
        ensures
            r == self@.is_empty(),
    {
        proof {
            use_type_invariant(self);
            image_views(self.images@).unique_seq_to_set();
            if self.images@.len() > 0 {
                assert(image_views(self.images@)[0] == self.images@[0]@);
                assert(self@.contains(self.images@[0]@));
            } else {
                assert(self@ =~= Set::<Seq<u8>>::empty());
            }
        }
        self.images.len() == 0
    }

    /// Adds an image. Returns whether the image was new; adding one that the
    /// set holds already changes nothing.
    pub fn insert(&mut self, image: [u8; N]) -> (r: bool)
        ensures
            final(self)@ == old(self)@.insert(image@),
            r == !old(self)@.contains(image@),
            !r ==> final(self)@ == old(self)@,
    {
        if self.contains(&image) {
            assert(old(self)@.insert(image@) =~= old(self)@);
            false
        } else {
            proof {
                use_type_invariant(&*self);
                let before = image_views(self.images@);
                assert(image_views(self.images@.push(image)) =~= before.push(image@));
                assert(before.push(image@).to_set() =~= before.to_set().insert(image@)) by {
                    assert forall|x: Seq<u8>| before.push(image@).contains(x) <==> (before.contains(
                        x,
                    ) || x == image@) by {
                        if before.contains(x) {
                            let j = choose|j: int| 0 <= j < before.len() && before[j] == x;
                            assert(before.push(image@)[j] == x);
                        }
                        if x == image@ {
                            assert(before.push(image@)[before.len() as int] == x);
                        }
                    }
                }
                assert(before.push(image@).no_duplicates());
            }
            let mut images: Vec<[u8; N]> = Vec::new();
            proof {
                assert(image_views(images@) =~= Seq::<Seq<u8>>::empty());
            }
            core::mem::swap(&mut self.images, &mut images);
            images.push(image);
            core::mem::swap(&mut self.images, &mut images);
            true
        }
    }
}

} // verus!
