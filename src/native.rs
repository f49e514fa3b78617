//! The binary interface of the native library.
use libc::c_char;
use vstd::prelude::*;

use crate::composition::{COMPOSITION_SLOTS, PROPERTY_SLOTS};
use crate::text::MESSAGE_WIDTH;

verus! {

/// The intensive properties that a flash entry point takes as inputs.
#[derive(Debug, Clone, Copy, PartialEq, Eq)]
pub enum Property {
    /// Temperature
    T,
    /// Pressure
    P,
    /// Density
    D,
    /// Internal energy
    E,
    /// Enthalpy
    H,
    /// Entropy
    S,
    /// Quality
    Q,
}

/// The flash entry points, by the two properties they take.
#[derive(Debug, Clone, Copy, PartialEq, Eq)]
pub enum FlashEntry {
    /// The general flash: the two properties are named by a code.
    Ab,
    Tp,
    Td,
    Th,
    Ts,
    Te,
    Tq,
    Pd,
    Ph,
    Ps,
    Pe,
    Pq,
    Hs,
    Dh,
    Ds,
    De,
}

impl FlashEntry {
    /// The two input properties, in the order the entry point takes them;
    /// none for the general flash, whose inputs are named by its code.
    pub open spec fn inputs(self) -> Option<(Property, Property)> {
        match self {
            FlashEntry::Ab => None,
            FlashEntry::Tp => Some((Property::T, Property::P)),
            FlashEntry::Td => Some((Property::T, Property::D)),
            FlashEntry::Th => Some((Property::T, Property::H)),
            FlashEntry::Ts => Some((Property::T, Property::S)),
            FlashEntry::Te => Some((Property::T, Property::E)),
            FlashEntry::Tq => Some((Property::T, Property::Q)),
            FlashEntry::Pd => Some((Property::P, Property::D)),
            FlashEntry::Ph => Some((Property::P, Property::H)),
            FlashEntry::Ps => Some((Property::P, Property::S)),
            FlashEntry::Pe => Some((Property::P, Property::E)),
            FlashEntry::Pq => Some((Property::P, Property::Q)),
            FlashEntry::Hs => Some((Property::H, Property::S)),
            FlashEntry::Dh => Some((Property::D, Property::H)),
            FlashEntry::Ds => Some((Property::D, Property::S)),
            FlashEntry::De => Some((Property::D, Property::E)),
        }
    }
}

/// The inputs of a flash entry point that the library never reads back.
pub struct FlashCall {
    /// The two-letter property code of the general flash, NUL-terminated.
    pub code: [c_char; 3],
    /// The first and second input properties.
    pub a: u64,
    pub b: u64,
    /// The composition, padded with zeros.
    pub z: [u64; COMPOSITION_SLOTS],
    /// The composite flag, the root selector, or zero.
    pub flag: i32,
}

/// The in/out slots of a flash entry point, doubles as bit patterns.
#[derive(Clone, Copy)]
pub struct FlashSlots {
    pub t: u64,
    pub p: u64,
    pub d: u64,
    pub dl: u64,
    pub dv: u64,
    pub x: [u64; COMPOSITION_SLOTS],
    pub y: [u64; COMPOSITION_SLOTS],
    pub q: u64,
    pub e: u64,
    pub h: u64,
    pub s: u64,
    pub cv: u64,
    pub cp: u64,
    pub w: u64,
}

/// The outputs of the quality conversions.
#[derive(Clone, Copy)]
pub struct QualitySlots {
    pub quality: u64,
    pub liquid: [u64; COMPOSITION_SLOTS],
    pub vapor: [u64; COMPOSITION_SLOTS],
    pub liquid_molar_mass: u64,
    pub vapor_molar_mass: u64,
}

/// The entry points of the native library, one method each, in the
/// positional layout that the library expects.
///
/// An implementation makes the foreign call and nothing else. Nothing is
/// assumed of what it returns or writes: every operation of the library is
/// correct whatever comes back. The library calls these methods only while
/// it holds the call gate.
pub trait NativeInterface {
    /// Writes the text of the last error into the diagnostic buffer.
    fn error_message(&self, herr: &mut [c_char; MESSAGE_WIDTH]);

    /// One flash entry point; returns its error code.
    fn flash(
        &self,
        entry: FlashEntry,
        call: &FlashCall,
        slots: &mut FlashSlots,
        herr: &mut [c_char; MESSAGE_WIDTH],
    ) -> i32;

    /// Translates a string into an enumerated value; returns the value and the error code.
    fn get_enum(
        &self,
        flag: i32,
        henum: &[c_char; MESSAGE_WIDTH],
        herr: &mut [c_char; MESSAGE_WIDTH],
    ) -> (i32, i32);

    /// The short name, long name and CAS number of a component.
    fn name(
        &self,
        icomp: i32,
        hnam: &mut [c_char; 12],
        hn80: &mut [c_char; 80],
        hcasn: &mut [c_char; 12],
    );

    /// Loads the fluids of a fluid list; returns the error code.
    fn set_fluids(&self, hfld: &[c_char; 10000]) -> i32;

    /// Sets the directory of the fluid files.
    fn set_path(&self, hpath: &[c_char; MESSAGE_WIDTH]);

    /// Loads a predefined mixture and writes its composition; returns the error code.
    fn set_mixture(&self, hmix: &[c_char; MESSAGE_WIDTH], z: &mut [u64; COMPOSITION_SLOTS]) -> i32;

    /// Makes one component of the loaded mixture act as a pure fluid.
    fn pure_fld(&self, icomp: i32);

    /// Builds the saturation splines of a composition; returns the error code.
    fn satspln(&self, z: &[u64; COMPOSITION_SLOTS], herr: &mut [c_char; MESSAGE_WIDTH]) -> i32;

    /// Critical temperature, pressure and density of a composition, and the error code.
    fn critp(
        &self,
        z: &[u64; COMPOSITION_SLOTS],
        herr: &mut [c_char; MESSAGE_WIDTH],
    ) -> (u64, u64, u64, i32);

    /// The molar mass of a composition.
    fn wmol(&self, z: &[u64; COMPOSITION_SLOTS]) -> u64;

    /// Mole fractions to mass fractions; returns the molar mass.
    fn xmass(&self, xmol: &[u64; COMPOSITION_SLOTS], xkg: &mut [u64; COMPOSITION_SLOTS]) -> u64;

    /// Mass fractions to mole fractions; returns the molar mass.
    fn xmole(&self, xkg: &[u64; COMPOSITION_SLOTS], xmol: &mut [u64; COMPOSITION_SLOTS]) -> u64;

    /// Molar quality and phase compositions to a mass basis; returns the error code.
    fn qmass(
        &self,
        qmol: u64,
        xl: &[u64; COMPOSITION_SLOTS],
        xv: &[u64; COMPOSITION_SLOTS],
        out: &mut QualitySlots,
        herr: &mut [c_char; MESSAGE_WIDTH],
    ) -> i32;

    /// Mass quality and phase compositions to a molar basis; returns the error code.
    fn qmole(
        &self,
        qkg: u64,
        xlkg: &[u64; COMPOSITION_SLOTS],
        xvkg: &[u64; COMPOSITION_SLOTS],
        out: &mut QualitySlots,
        herr: &mut [c_char; MESSAGE_WIDTH],
    ) -> i32;

    /// Viscosity and thermal conductivity, and the error code.
    fn trnprp(
        &self,
        t: u64,
        d: u64,
        z: &[u64; COMPOSITION_SLOTS],
        herr: &mut [c_char; MESSAGE_WIDTH],
    ) -> (u64, u64, i32);

    /// Properties selected by enumerated codes; returns the error code.
    fn allprops0(
        &self,
        count: i32,
        iout: &[i32; PROPERTY_SLOTS],
        iflag: i32,
        t: u64,
        d: u64,
        z: &[u64; COMPOSITION_SLOTS],
        output: &mut [u64; PROPERTY_SLOTS],
        herr: &mut [c_char; MESSAGE_WIDTH],
    ) -> i32;

    /// Properties selected by a string of codes; returns the error code.
    fn allprops1(
        &self,
        hout: &[c_char; MESSAGE_WIDTH],
        iunits: i32,
        t: u64,
        d: u64,
        z: &[u64; COMPOSITION_SLOTS],
        output: &mut [u64; PROPERTY_SLOTS],
        herr: &mut [c_char; MESSAGE_WIDTH],
    ) -> i32;
}

} // verus!
