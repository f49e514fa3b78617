//! Compositions and the fixed-capacity buffers of the native interface.
use vstd::prelude::*;
use vstd::string::StringExecFns;

use crate::errors::RefpropError;

verus! {

/// The number of composition slots of every native entry point.
pub const COMPOSITION_SLOTS: usize = 20;

/// The number of slots of the bulk property buffers.
pub const PROPERTY_SLOTS: usize = 200;

/// An ordered sequence of mole or mass fractions, one per component.
///
/// Each fraction is a double held as its bit pattern. Whether the fractions,
/// summed in order as doubles, lie within `1e-6` of one is floating-point work
/// that the caller does once, when it builds the value; `sum_is_one` records it.
#[derive(Debug, Clone)]
pub struct Composition {
    pub fractions: Vec<u64>,
    pub sum_is_one: bool,
}

impl Composition {
    pub open spec fn len(&self) -> nat {
        self.fractions@.len()
    }

    /// The composition may be handed to an operation that needs normalised fractions.
    pub open spec fn is_valid(&self) -> bool {
        self.len() <= COMPOSITION_SLOTS && self.sum_is_one
    }

    /// The composition fits the native buffers, whatever its sum.
    pub open spec fn fits(&self) -> bool {
        self.len() <= COMPOSITION_SLOTS
    }

    pub fn new(fractions: Vec<u64>, sum_is_one: bool) -> (r: Composition)
        ensures
            r.fractions@ == fractions@,
            r.sum_is_one == sum_is_one,
    {
        Composition { fractions, sum_is_one }
    }

    pub fn count(&self) -> (r: usize)
        ensures
            r == self.len(),
    {
        self.fractions.len()
    }
}

pub open spec fn is_invalid_input<T>(r: Result<T, RefpropError>) -> bool {
    r matches Err(RefpropError::InvalidInput(_))
}

/// Fails with `InvalidInput` exactly when the composition has more than
/// twenty fractions or does not sum to one.
pub fn validate_composition(z: &Composition) -> (r: Result<(), RefpropError>)
    ensures
        r is Ok <==> z.is_valid(),
        !z.fits() ==> (r matches Err(RefpropError::InvalidInput(m)) && m@
            == "Composition slice 'z' length exceeds 20."@),
        z.fits() && !z.sum_is_one ==> (r matches Err(RefpropError::InvalidInput(m)) && m@
            == "Sum of mole fractions in 'z' does not equal 1 within tolerance."@),
{
    if z.fractions.len() > COMPOSITION_SLOTS {
        return Err(
            RefpropError::InvalidInput(String::from_str("Composition slice 'z' length exceeds 20.")),
        );
    }
    if !z.sum_is_one {
        return Err(
            RefpropError::InvalidInput(
                String::from_str("Sum of mole fractions in 'z' does not equal 1 within tolerance."),
            ),
        );
    }
    Ok(())
}

/// Fails with `InvalidInput` exactly when the composition has more than twenty fractions.
pub fn validate_length(z: &Composition) -> (r: Result<(), RefpropError>)
    ensures
        r is Ok <==> z.fits(),
        r is Err ==> is_invalid_input(r),
{
    if z.fractions.len() > COMPOSITION_SLOTS {
        return Err(RefpropError::InvalidInput("z slice length exceeds 20".to_string()));
    }
    Ok(())
}

/// `seq` left-aligned in `n` slots, the rest holding `fill`.
pub open spec fn padded<T>(seq: Seq<T>, n: nat, fill: T) -> Seq<T> {
    seq + Seq::new((n - seq.len()) as nat, |i: int| fill)
}

/// Copies `seq` into a buffer of `N` slots, left-aligned, the others set to
/// `fill`. Fails when `seq` does not fit.
pub fn pack<T: Copy, const N: usize>(seq: &Vec<T>, fill: T) -> (r: Result<[T; N], RefpropError>)
    ensures
        r is Ok <==> seq@.len() <= N,
        r is Err ==> is_invalid_input(r),
        r matches Ok(buf) ==> buf@ == padded(seq@, N as nat, fill),
{
    if seq.len() > N {
        return Err(RefpropError::InvalidInput("sequence exceeds the buffer capacity".to_string()));
    }
    let mut buf: [T; N] = vstd::array::array_fill_for_copy_types(fill);
    let mut i: usize = 0;
    while i < seq.len()
        invariant
            seq@.len() <= N,
            i <= seq@.len(),
            buf@.len() == N,
            forall|k: int| 0 <= k < i ==> buf@[k] == seq@[k],
            forall|k: int| i <= k < N ==> buf@[k] == fill,
        decreases seq@.len() - i,
    {
        buf[i] = seq[i];
        i = i + 1;
    }
    assert(buf@ =~= padded(seq@, N as nat, fill));
    Ok(buf)
}

/// The first `len` slots of a buffer.
pub fn unpack<T: Copy, const N: usize>(buf: &[T; N], len: usize) -> (r: Vec<T>)
    requires
        len <= N,
    ensures
        r@ == buf@.subrange(0, len as int),
{
    let mut out: Vec<T> = Vec::new();
    let mut i: usize = 0;
    while i < len
        invariant
            i <= len,
            len <= N,
            buf@.len() == N,
            out@ == buf@.subrange(0, i as int),
        decreases len - i,
    {
        out.push(buf[i]);
        i = i + 1;
        assert(out@ =~= buf@.subrange(0, i as int));
    }
    out
}

/// Packing a sequence into a buffer it fits, then taking back as many slots
/// as it had, gives the sequence back.
pub proof fn lemma_pack_unpack<T>(seq: Seq<T>, n: nat, fill: T)
    requires
        seq.len() <= n,
    ensures
        padded(seq, n, fill).len() == n,
        padded(seq, n, fill).subrange(0, seq.len() as int) == seq,
{
    assert(padded(seq, n, fill).subrange(0, seq.len() as int) =~= seq);
}

} // verus!
