//! A safe calling layer over a non-reentrant native library of thermodynamic
//! property routines.
//!
//! Every call into the native library goes through one gate, with its inputs
//! checked and packed into the fixed-size buffers the library expects, and its
//! outputs unpacked, its error codes turned into typed failures and its reserved values
//! made absent fields.
use vstd::prelude::*;

pub mod composition;
pub mod diagnostics;
pub mod errors;
pub mod flags;
pub mod flash;
pub mod float_bits;
pub mod gate;
pub mod misc;
pub mod native;
pub mod sentinel;
pub mod setup;
pub mod text;

pub use composition::Composition;
pub use errors::RefpropError;
pub use flash::FlashOutput;
pub use misc::GetEnumFlag;
pub use native::NativeInterface;

use composition::COMPOSITION_SLOTS;
use gate::CallGate;
use text::MESSAGE_WIDTH;
use libc::c_char;
use std::sync::MutexGuard;

verus! {

/// The basis of inputs and outputs.
#[derive(Debug, Clone, Copy, PartialEq, Eq)]
pub enum Basis {
    /// All inputs and outputs are given on a mole basis.
    Molar,
    /// All inputs and outputs are given on a mass basis.
    Mass,
    /// All inputs and outputs are given on a mass basis except composition.
    MassExceptComposition,
}

impl Basis {
    pub open spec fn spec_code(&self) -> i32 {
        match self {
            Basis::Molar => 0,
            Basis::Mass => 1,
            Basis::MassExceptComposition => 2,
        }
    }

    pub fn code(&self) -> (r: i32)
        ensures
            r == self.spec_code(),
    {
        match self {
            Basis::Molar => 0,
            Basis::Mass => 1,
            Basis::MassExceptComposition => 2,
        }
    }
}

/// A hint on the phase of the state point.
#[derive(Debug, Clone, Copy, PartialEq, Eq)]
pub enum Phase {
    /// Unknown phase; saturation routines will determine the phase.
    Unknown,
    /// State point is in the liquid phase.
    Liquid,
    /// State point is in the vapor phase.
    Vapor,
    /// State point is in the two-phase region.
    TwoPhase,
}

impl Phase {
    pub open spec fn spec_code(&self) -> i32 {
        match self {
            Phase::Unknown => 0,
            Phase::Liquid => 1,
            Phase::Vapor => 2,
            Phase::TwoPhase => 3,
        }
    }

    pub fn code(&self) -> (r: i32)
        ensures
            r == self.spec_code(),
    {
        match self {
            Phase::Unknown => 0,
            Phase::Liquid => 1,
            Phase::Vapor => 2,
            Phase::TwoPhase => 3,
        }
    }
}

/// The quality basis or density root of the general flash.
#[derive(Debug, Clone, Copy, PartialEq, Eq)]
pub enum KrKqFlag {
    /// Default flag.
    Default,
    /// Quality on a molar basis (moles vapor/total moles).
    QualityMolar,
    /// Quality on a mass basis (mass vapor/total mass).
    QualityMass,
    /// Return lower density root.
    LowerDensity,
    /// Return higher density root.
    HigherDensity,
}

impl KrKqFlag {
    pub open spec fn spec_code(&self) -> i32 {
        match self {
            KrKqFlag::Default => 0,
            KrKqFlag::QualityMolar => 1,
            KrKqFlag::QualityMass => 2,
            KrKqFlag::LowerDensity => 3,
            KrKqFlag::HigherDensity => 4,
        }
    }

    pub fn code(&self) -> (r: i32)
        ensures
            r == self.spec_code(),
    {
        match self {
            KrKqFlag::Default => 0,
            KrKqFlag::QualityMolar => 1,
            KrKqFlag::QualityMass => 2,
            KrKqFlag::LowerDensity => 3,
            KrKqFlag::HigherDensity => 4,
        }
    }
}

/// The unit systems of inputs and outputs.
#[derive(Debug, Clone)]
pub enum Units {
    /// Default units: Temperature in Kelvin (K) and Density in mol/dm³.
    Default,
    /// Molar SI units.
    MolarSI,
    /// Mass SI units.
    MassSI,
    /// SI units with Celsius temperature.
    SIWithC,
    /// Molar Base SI units.
    MolarBaseSI,
    /// Mass Base SI units.
    MassBaseSI,
    /// English units.
    English,
    /// Molar English units.
    MolarEnglish,
    /// MKS units.
    MKS,
    /// CGS units.
    CGS,
    /// Mixed units.
    Mixed,
    /// MEUNITS.
    MEUnits,
    /// User-defined units; the native library gives them no name.
    User,
    /// Custom unit systems; the native library gives them no name.
    Custom(String),
}

/// The composite flag of basis, phase hint and quality basis.
pub open spec fn composite_flag_spec(imass: Basis, kph: Phase, krkq: KrKqFlag) -> int {
    flags::flag_value(imass.spec_code() as int, kph.spec_code() as int, krkq.spec_code() as int)
}

pub fn composite_flag(imass: Basis, kph: Phase, krkq: KrKqFlag) -> (r: i32)
    ensures
        r == composite_flag_spec(imass, kph, krkq),
{
    flags::encode_flag(imass.code(), kph.code(), krkq.code())
}

/// The native library behind its call gate.
///
/// One value of this type stands for the process-wide native session: every
/// operation holds its gate from packing the inputs until the outputs and any
/// error text have been read back.
pub struct RefpropFunctionLibrary<N> {
    pub native: N,
    pub gate: CallGate,
}

impl<N: NativeInterface> RefpropFunctionLibrary<N> {
    pub fn new(native: N) -> (r: Self)
        ensures
            r.native == native,
    {
        RefpropFunctionLibrary { native, gate: CallGate::new() }
    }

    /// Waits for the call gate.
    pub(crate) fn lock(&self) -> (r: Result<MutexGuard<'_, ()>, RefpropError>)
        ensures
            r matches Err(e) ==> e is MutexPoisoned,
    {
        gate::acquire_lock(&self.gate)
    }
}

/// A composition in the zero-padded buffer of the native interface.
pub(crate) fn composition_buffer(z: &Composition) -> (r: [u64; COMPOSITION_SLOTS])
    requires
        z.fits(),
    ensures
        r@ == composition::padded(z.fractions@, composition::COMPOSITION_SLOTS as nat, 0u64),
{
    composition::pack::<u64, COMPOSITION_SLOTS>(&z.fractions, 0u64).unwrap()
}

/// An empty diagnostic buffer.
pub(crate) fn message_buffer() -> (r: [c_char; MESSAGE_WIDTH])
    ensures
        r@ == Seq::new(MESSAGE_WIDTH as nat, |i: int| 0 as c_char),
{
    let r: [c_char; MESSAGE_WIDTH] = vstd::array::array_fill_for_copy_types(0 as c_char);
    assert(r@ =~= Seq::new(MESSAGE_WIDTH as nat, |i: int| 0 as c_char));
    r
}

} // verus!
