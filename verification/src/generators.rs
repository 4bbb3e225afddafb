use vstd::prelude::*;

use crate::errors::Error;
use crate::inputs::BytesInput;
use crate::rands::Rand;

verus! {

/// The greatest length a dummy input may have.
pub const DUMMY_BYTES_MAX: usize = 64;

/// The consecutive byte values from `lo` (inclusive) to `hi` (exclusive),
/// in increasing order.
pub open spec fn byte_range(lo: int, hi: int) -> Seq<u8> {
    Seq::new(if hi >= lo { (hi - lo) as nat } else { 0 }, |i: int| (lo + i) as u8)
}

/// The printable alphabet, in its fixed order: digits, upper-case letters,
/// lower-case letters, space, tab, newline, and the four runs of standard
/// ASCII punctuation.
pub open spec fn printables() -> Seq<u8> {
    byte_range(48, 58) + byte_range(65, 91) + byte_range(97, 123) + seq![32u8, 9u8, 10u8]
        + byte_range(33, 48) + byte_range(58, 65) + byte_range(91, 97) + byte_range(123, 127)
}

/// The bytes of the deterministic dummy input under the bound `max_size`:
/// `min(max_size, 64)` zero bytes.
pub open spec fn dummy_bytes(max_size: nat) -> Seq<u8> {
    Seq::new(
        if max_size < DUMMY_BYTES_MAX { max_size } else { DUMMY_BYTES_MAX as nat },
        |i: int| 0u8,
    )
}

/// The greatest length a random draw under the bound `max_size` can yield:
/// `max_size - 1`, except that a bound of one still yields length one,
/// because a drawn size of zero is forced up to one.
pub open spec fn max_generated_len(max_size: nat) -> nat
    recommends
        max_size >= 1,
{
    if max_size >= 2 {
        (max_size - 1) as nat
    } else {
        1
    }
}

/// Generators produce owned byte-sequence inputs: randomly, from a supplied
/// randomness capability, or deterministically as a dummy placeholder.
pub trait Generator<R: Rand>: Sized {
    /// The configured upper bound (exclusive) on random length draws.
    spec fn max_size_of(&self) -> usize;

    /// Whether this variant may place the byte `b` in a random input.
    spec fn allows_byte(&self, b: u8) -> bool;

    /// Generates a new input: draws a length below the configured bound,
    /// forces a drawn zero up to one, and fills that many bytes with
    /// variant-specific content from `rand`. Fails exactly when the
    /// configured bound is zero, which leaves the length draw no range.
    fn generate(&mut self, rand: &mut R) -> (res: Result<BytesInput, Error>)
        ensures
            *final(self) == *old(self),
            res is Ok <==> old(self).max_size_of() >= 1,
            res matches Err(e) ==> e == Error::Configuration,
            res matches Ok(input) ==> 1 <= input@.len() <= max_generated_len(
                old(self).max_size_of() as nat,
            ),
            res matches Ok(input) ==> (old(self).max_size_of() >= 2 ==> input@.len()
                < old(self).max_size_of()),
            res matches Ok(input) ==> (old(self).max_size_of() == 1 ==> input@.len() == 1),
            res matches Ok(input) ==> forall|i: int|
                0 <= i < input@.len() ==> old(self).allows_byte(#[trigger] input@[i]),
    ;

    /// Generates a new dummy input without consulting any randomness
    /// source: `min(max_size, 64)` zero bytes, the same on every call.
    fn generate_dummy(&self) -> (input: BytesInput)
        ensures
            input@ == dummy_bytes(self.max_size_of() as nat),
            input@.len() == dummy_len(self.max_size_of() as nat),
            forall|i: int| 0 <= i < input@.len() ==> input@[i] == 0,
    ;
}

/// The length of the dummy input under the bound `max_size`:
/// `min(max_size, 64)`.
pub open spec fn dummy_len(max_size: nat) -> nat {
    if max_size < DUMMY_BYTES_MAX {
        max_size
    } else {
        DUMMY_BYTES_MAX as nat
    }
}

/// Dummy generation is deterministic: the dummy bytes are a function of the
/// configured size bound alone, so two generators that share a bound — of
/// either variant — share their dummy output, and no randomness capability
/// can influence it.
pub proof fn lemma_dummy_deterministic<R: Rand, G1: Generator<R>, G2: Generator<R>>(
    g1: &G1,
    g2: &G2,
)
    requires
        g1.max_size_of() == g2.max_size_of(),
    ensures
        dummy_bytes(g1.max_size_of() as nat) == dummy_bytes(g2.max_size_of() as nat),
{
}

/// Builds the dummy input under the bound `max_size`.
fn dummy_input(max_size: usize) -> (input: BytesInput)
    ensures
        input@ == dummy_bytes(max_size as nat),
{
    let size = if max_size < DUMMY_BYTES_MAX {
        max_size
    } else {
        DUMMY_BYTES_MAX
    };
    let mut bytes: Vec<u8> = Vec::new();
    let mut i: usize = 0;
    while i < size
        invariant
            i <= size,
            bytes@.len() == i,
            forall|j: int| 0 <= j < bytes@.len() ==> bytes@[j] == 0,
        decreases size - i,
    {
        bytes.push(0);
        i = i + 1;
    }
    proof {
        assert(bytes@ =~= dummy_bytes(max_size as nat));
    }
    BytesInput::new(bytes)
}

/// Appends the byte values from `lo` (inclusive) to `hi` (exclusive) to `v`,
/// in increasing order.
fn push_byte_range(v: &mut Vec<u8>, lo: u8, hi: u8)
    requires
        lo <= hi,
    ensures
        final(v)@ == old(v)@ + byte_range(lo as int, hi as int),
{
    let mut b: u8 = lo;
    while b < hi
        invariant
            lo <= b <= hi,
            v@ == old(v)@ + byte_range(lo as int, b as int),
        decreases hi - b,
    {
        v.push(b);
        proof {
            assert(v@ =~= old(v)@ + byte_range(lo as int, b as int + 1));
        }
        b = b + 1;
    }
}

/// Builds the printable alphabet in its fixed order.
fn printable_alphabet() -> (v: Vec<u8>)
    ensures
        v@ == printables(),
{
    let mut v: Vec<u8> = Vec::new();
    push_byte_range(&mut v, 48, 58);
    push_byte_range(&mut v, 65, 91);
    push_byte_range(&mut v, 97, 123);
    v.push(32);
    v.push(9);
    v.push(10);
    push_byte_range(&mut v, 33, 48);
    push_byte_range(&mut v, 58, 65);
    push_byte_range(&mut v, 91, 97);
    push_byte_range(&mut v, 123, 127);
    proof {
        assert(v@ =~= printables());
    }
    v
}

/// Generates inputs of uniformly random bytes, up to a configured size.
#[derive(Debug)]
pub struct RandBytesGenerator<R: Rand> {
    max_size: usize,
    phantom: core::marker::PhantomData<R>,
}

impl<R: Rand> RandBytesGenerator<R> {
    /// Returns a new generator producing up to `max_size` random bytes.
    pub fn new(max_size: usize) -> (g: Self)
        ensures
            g.max_size_of() == max_size,
    {
        RandBytesGenerator { max_size, phantom: core::marker::PhantomData }
    }
}

impl<R: Rand> Clone for RandBytesGenerator<R> {
    /// Duplicates the generator's configuration.
    fn clone(&self) -> (g: Self)
        ensures
            g.max_size_of() == self.max_size_of(),
    {
        RandBytesGenerator { max_size: self.max_size, phantom: core::marker::PhantomData }
    }
}

impl<R: Rand> Generator<R> for RandBytesGenerator<R> {
    closed spec fn max_size_of(&self) -> usize {
        self.max_size
    }

    open spec fn allows_byte(&self, b: u8) -> bool {
        true
    }

    fn generate(&mut self, rand: &mut R) -> (res: Result<BytesInput, Error>) {
        if self.max_size == 0 {
            return Err(Error::Configuration);
        }
        let mut size = rand.below(self.max_size as u64);
        if size == 0 {
            size = 1;
        }
        let mut bytes: Vec<u8> = Vec::new();
        let mut i: u64 = 0;
        while i < size
            invariant
                i <= size,
                1 <= size <= max_generated_len(self.max_size as nat),
                bytes@.len() == i,
            decreases size - i,
        {
            let b = rand.below(256);
            bytes.push(b as u8);
            i = i + 1;
        }
        Ok(BytesInput::new(bytes))
    }

    fn generate_dummy(&self) -> (input: BytesInput) {
        dummy_input(self.max_size)
    }
}

/// Generates inputs of random printable characters, up to a configured size.
#[derive(Debug)]
pub struct RandPrintablesGenerator<R: Rand> {
    max_size: usize,
    phantom: core::marker::PhantomData<R>,
}

impl<R: Rand> RandPrintablesGenerator<R> {
    /// Returns a new generator producing up to `max_size` random printable
    /// characters.
    pub fn new(max_size: usize) -> (g: Self)
        ensures
            g.max_size_of() == max_size,
    {
        RandPrintablesGenerator { max_size, phantom: core::marker::PhantomData }
    }
}

impl<R: Rand> Clone for RandPrintablesGenerator<R> {
    /// Duplicates the generator's configuration.
    fn clone(&self) -> (g: Self)
        ensures
            g.max_size_of() == self.max_size_of(),
    {
        RandPrintablesGenerator { max_size: self.max_size, phantom: core::marker::PhantomData }
    }
}

impl<R: Rand> Generator<R> for RandPrintablesGenerator<R> {
    closed spec fn max_size_of(&self) -> usize {
        self.max_size
    }

    open spec fn allows_byte(&self, b: u8) -> bool {
        printables().contains(b)
    }

    fn generate(&mut self, rand: &mut R) -> (res: Result<BytesInput, Error>) {
        if self.max_size == 0 {
            return Err(Error::Configuration);
        }
        let mut size = rand.below(self.max_size as u64);
        if size == 0 {
            size = 1;
        }
        let alphabet = printable_alphabet();
        let mut bytes: Vec<u8> = Vec::new();
        let mut i: u64 = 0;
        while i < size
            invariant
                i <= size,
                1 <= size <= max_generated_len(self.max_size as nat),
                bytes@.len() == i,
                alphabet@ == printables(),
                forall|j: int| 0 <= j < bytes@.len() ==> printables().contains(#[trigger] bytes@[j]),
            decreases size - i,
        {
            let b = rand.pick(&alphabet);
            bytes.push(b);
            i = i + 1;
        }
        Ok(BytesInput::new(bytes))
    }

    fn generate_dummy(&self) -> (input: BytesInput) {
        dummy_input(self.max_size)
    }
}

} // verus!

