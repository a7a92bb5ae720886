use vstd::prelude::*;

verus! {

/// Whether bit `j` of `word` is set.
pub open spec fn word_bit(word: u64, j: u64) -> bool {
    (word >> j) & 1u64 == 1u64
}

/// The number of `true` entries in `s`.
pub open spec fn count_true(s: Seq<bool>) -> nat
    decreases s.len(),
{
    if s.len() == 0 {
        0
    } else {
        count_true(s.drop_last()) + if s.last() { 1nat } else { 0nat }
    }
}

/// The number of machine words that a set of `num_cpus` CPUs occupies.
pub open spec fn spec_words_for(num_cpus: u32) -> nat {
    ((num_cpus as nat + 63) / 64) as nat
}

/// The bits of a sequence of words, word by word, least significant bit first.
pub open spec fn bits_of(words: Seq<u64>) -> Seq<bool> {
    Seq::new(words.len() * 64, |i: int| word_bit(words[i / 64], (i % 64) as u64))
}

proof fn lemma_set_bit(x: u64, b: u64, j: u64)
    requires
        b < 64,
        j < 64,
    ensures
        word_bit(x | (1u64 << b), j) == (j == b || word_bit(x, j)),
{
    assert(((x | (1u64 << b)) >> j) & 1u64 == 1u64 <==> (j == b || (x >> j) & 1u64 == 1u64))
        by (bit_vector)
        requires
            b < 64,
            j < 64,
    ;
}

proof fn lemma_clear_bit(x: u64, b: u64, j: u64)
    requires
        b < 64,
        j < 64,
    ensures
        word_bit(x & !(1u64 << b), j) == (j != b && word_bit(x, j)),
{
    assert(((x & !(1u64 << b)) >> j) & 1u64 == 1u64 <==> (j != b && (x >> j) & 1u64 == 1u64))
        by (bit_vector)
        requires
            b < 64,
            j < 64,
    ;
}

proof fn lemma_zero_bit(j: u64)
    requires
        j < 64,
    ensures
        !word_bit(0u64, j),
{
    assert((0u64 >> j) & 1u64 != 1u64) by (bit_vector);
}

proof fn lemma_word_index(i: int, f: int)
    requires
        0 <= i,
        0 <= f,
        i / 64 == f / 64,
        i % 64 == f % 64,
    ensures
        i == f,
{
}

/// A set of CPUs, held as a bit mask over machine words in the layout of the
/// kernel's `cpu_set_t`: CPU `i` is bit `i % 64` of word `i / 64`.
pub struct CpuSet {
    words: Vec<u64>,
}

impl View for CpuSet {
    type V = Seq<bool>;

    /// Entry `i` tells whether CPU `i` is in the set; the length is the
    /// capacity of the set in CPUs.
    closed spec fn view(&self) -> Seq<bool> {
        bits_of(self.words@)
    }
}

impl CpuSet {
    #[verifier::type_invariant]
    closed spec fn inv(self) -> bool {
        self.words@.len() <= 0x200_0000
    }

    /// The words of the mask, as the kernel reads and writes them.
    pub closed spec fn spec_words(&self) -> Seq<u64> {
        self.words@
    }

    pub proof fn lemma_view_is_bits(&self)
        ensures
            self@ == bits_of(self.spec_words()),
    {
    }

    /// Allocates an empty set with room for `num_cpus` CPUs, rounded up to
    /// whole words. The count is a C `int` to the allocator, so it is at
    /// most `i32::MAX`.
    pub fn new(num_cpus: u32) -> (r: CpuSet)
        requires
            num_cpus <= i32::MAX,
        ensures
            r.spec_words().len() == spec_words_for(num_cpus),
            r@.len() == spec_words_for(num_cpus) * 64,
            num_cpus <= r@.len() < num_cpus + 64,
            forall|i: int| 0 <= i < r@.len() ==> !r@[i],
    {
        proof {
            lemma_capacity_holds(num_cpus);
        }
        let n: u64 = (num_cpus as u64 + 63) / 64;
        let mut words: Vec<u64> = Vec::new();
        let mut k: u64 = 0;
        while k < n
            invariant
                n == spec_words_for(num_cpus),
                n <= 0x200_0000,
                k <= n,
                words@.len() == k,
                forall|j: int| 0 <= j < k ==> words@[j] == 0u64,
            decreases n - k,
        {
            words.push(0u64);
            k = k + 1;
        }
        let r = CpuSet { words };
        assert forall|i: int| 0 <= i < r@.len() implies !r@[i] by {
            lemma_zero_bit((i % 64) as u64);
        }
        r
    }

    /// Builds a set from the words of a kernel CPU mask.
    pub fn from_words(words: Vec<u64>) -> (r: CpuSet)
        requires
            words@.len() <= 0x200_0000,
        ensures
            r.spec_words() == words@,
            r@ == bits_of(words@),
    {
        CpuSet { words }
    }

    /// The words of the mask.
    pub fn as_words(&self) -> (r: &[u64])
        ensures
            r@ == self.spec_words(),
    {
        self.words.as_slice()
    }

    /// The number of CPUs that the set can hold.
    pub fn capacity(&self) -> (r: usize)
        ensures
            r == self@.len(),
    {
        proof {
            use_type_invariant(self);
        }
        self.words.len() * 64
    }

    /// Whether CPU `field` is in the set; `false` beyond the capacity.
    pub fn is_set(&self, field: u32) -> (r: bool)
        ensures
            r == (field < self@.len() && self@[field as int]),
    {
        proof {
            use_type_invariant(self);
        }
        let w: usize = (field / 64) as usize;
        if w < self.words.len() {
            let b: u64 = (field % 64) as u64;
            (self.words[w] >> b) & 1u64 == 1u64
        } else {
            false
        }
    }

    /// Adds CPU `field` to the set; beyond the capacity nothing changes.
    pub fn set(&mut self, field: u32)
        ensures
            final(self)@ == if field < old(self)@.len() {
                old(self)@.update(field as int, true)
            } else {
                old(self)@
            },
    {
        proof {
            use_type_invariant(&*self);
        }
        let w: usize = (field / 64) as usize;
        if w < self.words.len() {
            let b: u64 = (field % 64) as u64;
            let ghost old_words = self.words@;
            let mut words: Vec<u64> = Vec::new();
            std::mem::swap(&mut words, &mut self.words);
            let updated = words[w] | (1u64 << b);
            words.set(w, updated);
            self.words = words;
            proof {
                assert forall|i: int| 0 <= i < self@.len() implies self@[i] == old(self)@.update(
                    field as int,
                    true,
                )[i] by {
                    if i / 64 == w as int {
                        lemma_set_bit(old_words[w as int], b, (i % 64) as u64);
                        if i != field as int {
                            if i % 64 == b as int {
                                lemma_word_index(i, field as int);
                            }
                        }
                    }
                }
                assert(self@ =~= old(self)@.update(field as int, true));
            }
        }
    }

    /// Removes CPU `field` from the set; beyond the capacity nothing changes.
    pub fn unset(&mut self, field: u32)
        ensures
            final(self)@ == if field < old(self)@.len() {
                old(self)@.update(field as int, false)
            } else {
                old(self)@
            },
    {
        proof {
            use_type_invariant(&*self);
        }
        let w: usize = (field / 64) as usize;
        if w < self.words.len() {
            let b: u64 = (field % 64) as u64;
            let ghost old_words = self.words@;
            let mut words: Vec<u64> = Vec::new();
            std::mem::swap(&mut words, &mut self.words);
            let updated = words[w] & !(1u64 << b);
            words.set(w, updated);
            self.words = words;
            proof {
                assert forall|i: int| 0 <= i < self@.len() implies self@[i] == old(self)@.update(
                    field as int,
                    false,
                )[i] by {
                    if i / 64 == w as int {
                        lemma_clear_bit(old_words[w as int], b, (i % 64) as u64);
                        if i != field as int {
                            if i % 64 == b as int {
                                lemma_word_index(i, field as int);
                            }
                        }
                    }
                }
                assert(self@ =~= old(self)@.update(field as int, false));
            }
        }
    }

    /// The number of CPUs in the set.
    pub fn count(&self) -> (r: usize)
        ensures
            r == count_true(self@),
    {
        proof {
            use_type_invariant(self);
        }
        let total: usize = self.words.len() * 64;
        let mut n: usize = 0;
        let mut i: usize = 0;
        while i < total
            invariant
                total == self@.len(),
                total <= 0x8000_0000,
                i <= total,
                n <= i,
                n == count_true(self@.take(i as int)),
            decreases total - i,
        {
            let w: usize = i / 64;
            let b: u64 = (i % 64) as u64;
            let hit = (self.words[w] >> b) & 1u64 == 1u64;
            assert(self@.take(i + 1).drop_last() =~= self@.take(i as int));
            if hit {
                n = n + 1;
            }
            i = i + 1;
        }
        assert(self@.take(total as int) =~= self@);
        n
    }
}

/// A set made for `n` CPUs holds every CPU below `n`, in as few whole
/// words as that takes: its capacity is at least `n` and below `n + 64`.
pub proof fn lemma_capacity_holds(n: u32)
    ensures
        n <= spec_words_for(n) * 64 < n + 64,
        spec_words_for(n) * 64 % 64 == 0,
{
    let k = n as int + 63;
    assert(k == (k / 64) * 64 + k % 64);
    assert(0 <= k % 64 < 64);
}

/// In a set of capacity at least `n`, adding any CPU `i` below `n` puts it
/// in the set and leaves every other CPU as it was.
pub proof fn lemma_set_below_capacity(s: Seq<bool>, n: int, i: int)
    requires
        n <= s.len(),
        0 <= i < n,
    ensures
        s.update(i, true)[i],
        forall|j: int| 0 <= j < s.len() && j != i ==> s.update(i, true)[j] == s[j],
{
}

/// Adding a CPU that is not in a set raises the count by one; adding one
/// that is already in changes nothing.
pub proof fn lemma_count_after_set(s: Seq<bool>, f: int)
    requires
        0 <= f < s.len(),
    ensures
        count_true(s.update(f, true)) == count_true(s) + if s[f] { 0int } else { 1int },
    decreases s.len(),
{
    lemma_count_update(s, f, true);
}

/// Removing a CPU that is in a set lowers the count by one; removing one
/// that is not in changes nothing.
pub proof fn lemma_count_after_unset(s: Seq<bool>, f: int)
    requires
        0 <= f < s.len(),
    ensures
        count_true(s.update(f, false)) == count_true(s) - if s[f] { 1int } else { 0int },
{
    lemma_count_update(s, f, false);
}

proof fn lemma_count_update(s: Seq<bool>, f: int, v: bool)
    requires
        0 <= f < s.len(),
    ensures
        count_true(s.update(f, v)) + (if s[f] { 1int } else { 0int }) == count_true(s) + (if v {
            1int
        } else {
            0int
        }),
    decreases s.len(),
{
    let t = s.update(f, v);
    if f == s.len() - 1 {
        assert(t.drop_last() =~= s.drop_last());
    } else {
        assert(t.drop_last() =~= s.drop_last().update(f, v));
        lemma_count_update(s.drop_last(), f, v);
    }
}

/// A set fresh from `new` holds no CPU.
pub proof fn lemma_count_empty(s: Seq<bool>)
    requires
        forall|i: int| 0 <= i < s.len() ==> !s[i],
    ensures
        count_true(s) == 0,
    decreases s.len(),
{
    if s.len() > 0 {
        lemma_count_empty(s.drop_last());
    }
}

impl Default for CpuSet {
    fn default() -> (r: CpuSet)
        ensures
            r@.len() == 2048,
            forall|i: int| 0 <= i < r@.len() ==> !r@[i],
    {
        CpuSet::new(2048)
    }
}

} // verus!
