use vstd::prelude::*;

verus! {

/// Bits in one word of a reference bitmap.
pub const WORD_BITS: usize = 64;

/// Bit `k` of the word `w`.
pub open spec fn word_bit(w: u64, k: u64) -> bool {
    (w >> k) & 1 == 1
}

/// Whether the packed words `words` flag object word `i` as a reference.
pub open spec fn packed_bit(words: Seq<u64>, i: int) -> bool {
    word_bit(words[i / 64], (i % 64) as u64)
}

proof fn lemma_zero_word_bits(k: u64)
    requires
        k < 64,
    ensures
        !word_bit(0, k),
{
    assert((0u64 >> k) & 1 != 1) by (bit_vector)
        requires
            k < 64,
    ;
}

proof fn lemma_set_word_bit(w: u64, b: u64, k: u64)
    requires
        b < 64,
        k < 64,
    ensures
        word_bit(w | (1u64 << b), k) == (k == b || word_bit(w, k)),
{
    assert((((w | (1u64 << b)) >> k) & 1 == 1) == (k == b || (w >> k) & 1 == 1)) by (bit_vector)
        requires
            b < 64,
            k < 64,
    ;
}

/// A reference-location bitmap: one bit per machine word of an object, set
/// where that word may hold a reference. Bits are packed into words from the
/// least significant bit up, the layout the collector's descriptor
/// constructor reads.
#[derive(Debug)]
pub struct RefBitmap {
    words: Vec<u64>,
    len: usize,
}

impl RefBitmap {
    /// One flag per object word.
    pub closed spec fn view(&self) -> Seq<bool> {
        Seq::new(self.len as nat, |i: int| packed_bit(self.words@, i))
    }

    /// The packed words hold exactly `len` flags, with every bit past the
    /// last flag clear.
    pub closed spec fn wf(&self) -> bool {
        &&& self.words@.len() == (self.len as int + 63) / 64
        &&& forall|i: int|
            self.len <= i < self.words@.len() * 64 ==> !#[trigger] packed_bit(self.words@, i)
    }

    /// Packs one flag per object word into a bitmap.
    pub fn from_flags(flags: &Vec<bool>) -> (r: RefBitmap)
        ensures
            r.wf(),
            r@ == flags@,
    {
        let n = flags.len();
        let mut words: Vec<u64> = Vec::new();
        let mut i: usize = 0;
        while i < n
            invariant
                i <= n,
                n == flags@.len(),
                words@.len() == (i as int + 63) / 64,
                forall|j: int| 0 <= j < i ==> #[trigger] packed_bit(words@, j) == flags@[j],
                forall|j: int| i <= j < words@.len() * 64 ==> !#[trigger] packed_bit(words@, j),
            decreases n - i,
        {
            if i % 64 == 0 {
                let before = Ghost(words@);
                words.push(0);
                proof {
                    assert forall|j: int| 0 <= j < i implies #[trigger] packed_bit(words@, j) == packed_bit(before@, j) by {
                        assert(j / 64 < before@.len());
                    }
                    assert forall|j: int| i <= j < words@.len() * 64 implies !#[trigger] packed_bit(words@, j) by {
                        if j / 64 == i / 64 {
                            lemma_zero_word_bits((j % 64) as u64);
                        } else {
                            assert(j < (words@.len() - 1) * 64);
                        }
                    }
                }
            }
            assert(i < words@.len() * 64);
            assert(!packed_bit(words@, i as int));
            let w: usize = i / 64;
            let b: u64 = (i % 64) as u64;
            if flags[i] {
                let old_words = Ghost(words@);
                let nw = words[w] | (1u64 << b);
                words.set(w, nw);
                proof {
                    assert forall|j: int| 0 <= j < words@.len() * 64 implies #[trigger] packed_bit(words@, j) == (j == i || packed_bit(old_words@, j)) by {
                        if j / 64 == w {
                            lemma_set_word_bit(old_words@[w as int], b, (j % 64) as u64);
                        }
                    }
                }
            }
            i += 1;
        }
        let r = RefBitmap { words, len: n };
        assert(r@ =~= flags@);
        r
    }

    /// Number of object words the bitmap describes.
    pub fn len(&self) -> (r: usize)
        ensures
            r == self@.len(),
    {
        self.len
    }

    /// Whether object word `i` is flagged as a reference.
    pub fn is_reference(&self, i: usize) -> (r: bool)
        requires
            self.wf(),
            i < self@.len(),
        ensures
            r == self@[i as int],
    {
        (self.words[i / 64] >> ((i % 64) as u64)) & 1 == 1
    }

    /// The packed words, least significant bit first.
    pub fn words(&self) -> (r: &Vec<u64>)
        requires
            self.wf(),
        ensures
            r@.len() == (self@.len() + 63) / 64,
            forall|i: int| 0 <= i < self@.len() ==> #[trigger] packed_bit(r@, i) == self@[i],
            forall|i: int| self@.len() <= i < r@.len() * 64 ==> !#[trigger] packed_bit(r@, i),
    {
        &self.words
    }
}

} // verus!
