//! Conversions, transport properties, enumerations and component names.
use libc::c_char;
use vstd::prelude::*;
use vstd::string::StringSliceAdditionalSpecFns;
use vstd::utf8::{decode_utf8, valid_utf8};

use crate::composition::{
    is_invalid_input, unpack, validate_composition, validate_length, Composition,
    COMPOSITION_SLOTS,
};
use crate::diagnostics::{check_refprop_error, is_native_failure};
use crate::errors::RefpropError;
use crate::float_bits::{
    exceeds_one, greater_than_one, greater_than_zero, is_nan, is_negative, is_positive,
    less_than_zero, nan,
};
use crate::native::{NativeInterface, QualitySlots};
use crate::text::{lemma_printable_no_nul, decode_field, field_text, has_nul, pack_text_truncated, MESSAGE_WIDTH};
use crate::{composition_buffer, message_buffer, RefpropFunctionLibrary, Units};

verus! {

/// The output of the quality conversions.
#[derive(Debug)]
pub struct QualityOutput {
    /// Quality on the target basis.
    pub quality: u64,
    /// Composition of the liquid phase on the target basis.
    pub liq_composition: Vec<u64>,
    /// Composition of the vapor phase on the target basis.
    pub vap_composition: Vec<u64>,
    /// Molar mass of the liquid phase [g/mol].
    pub liq_molar_mass: u64,
    /// Molar mass of the vapor phase [g/mol].
    pub vap_molar_mass: u64,
}

/// Viscosity and thermal conductivity.
#[derive(Debug)]
pub struct TransportOutput {
    /// Dynamic viscosity [uPa-s].
    pub eta: u64,
    /// Thermal conductivity [W/(m-K)].
    pub tcx: u64,
}

/// What the strings of `get_enum` are checked against.
#[derive(Debug, Clone, Copy, PartialEq, Eq)]
pub enum GetEnumFlag {
    /// Check all strings possible.
    AllStrings,
    /// Check strings for property units only (e.g., SI, English, etc.).
    UnitsOnly,
    /// Check property strings and those in `PropertiesAnd3` only.
    UnitsAndTrivial,
    /// Check property strings only that are not functions of T and D.
    TrivialOnly,
}

impl GetEnumFlag {
    pub open spec fn spec_code(&self) -> i32 {
        match self {
            GetEnumFlag::AllStrings => 0,
            GetEnumFlag::UnitsOnly => 1,
            GetEnumFlag::UnitsAndTrivial => 2,
            GetEnumFlag::TrivialOnly => 3,
        }
    }

    pub fn as_i32(self) -> (r: i32)
        ensures
            r == self.spec_code(),
    {
        match self {
            GetEnumFlag::AllStrings => 0,
            GetEnumFlag::UnitsOnly => 1,
            GetEnumFlag::UnitsAndTrivial => 2,
            GetEnumFlag::TrivialOnly => 3,
        }
    }
}

/// The names of a component.
#[derive(Debug)]
pub struct NameOutput {
    /// Component name (character*12)
    pub hnam: String,
    /// Component name - long form (character*80)
    pub hn80: String,
    /// Chemical Abstracts Service number (character*12)
    pub hcasn: String,
}

/// What `str::trim_end` leaves of a string.
pub uninterp spec fn trimmed_end(s: Seq<char>) -> Seq<char>;

/// Relies on `str::trim_end`: drops trailing whitespace, a function of the
/// characters alone, and returns a slice of its input starting at its start.
#[verifier::external_body]
fn trim_end(s: &str) -> (r: String)
    ensures
        r@ == trimmed_end(s@),
        r@.len() <= s@.len(),
        r@ == s@.subrange(0, r@.len() as int),
{
    s.trim_end().to_owned()
}

/// The name that a text field of the native library holds.
pub open spec fn field_name_spec(field: Seq<c_char>, t: Seq<char>) -> bool {
    &&& valid_utf8(field_text(field))
    &&& t == trimmed_end(decode_utf8(field_text(field)))
    &&& t.len() <= decode_utf8(field_text(field)).len()
    &&& t == decode_utf8(field_text(field)).subrange(0, t.len() as int)
    &&& t.len() <= field.len()
}

/// `t` is the name that some field of `w` characters holds.
pub open spec fn name_text_spec(t: Seq<char>, w: nat) -> bool {
    exists|f: Seq<c_char>| f.len() == w && field_name_spec(f, t)
}

/// The text of a name field, without trailing whitespace.
pub fn field_name<const W: usize>(field: &[c_char; W]) -> (r: Result<String, RefpropError>)
    ensures
        r is Ok <==> valid_utf8(field_text(field@)),
        r matches Ok(t) ==> field_name_spec(field@, t@),
        r is Err ==> r matches Err(RefpropError::Utf8Error(_)),
{
    match decode_field(field) {
        Ok(s) => {
            proof {
                crate::text::lemma_field_text_len(field@);
                crate::text::lemma_decode_len(field_text(field@));
            }
            Ok(trim_end(s.as_str()))
        },
        Err(e) => Err(e),
    }
}

/// A quality that is not in `[0, 1]`: a NaN, a negative value or one above one.
pub open spec fn quality_out_of_range(q: u64) -> bool {
    is_nan(q) || is_negative(q) || exceeds_one(q)
}

/// The result of a quality conversion, read out of the slots.
pub open spec fn quality_output_spec(o: QualityOutput, s: QualitySlots, nl: nat, nv: nat) -> bool {
    &&& o.quality == s.quality
    &&& o.liq_composition@ == s.liquid@.subrange(0, nl as int)
    &&& o.vap_composition@ == s.vapor@.subrange(0, nv as int)
    &&& o.liq_molar_mass == s.liquid_molar_mass
    &&& o.vap_molar_mass == s.vapor_molar_mass
}

pub open spec fn quality_result_spec(o: QualityOutput, nl: nat, nv: nat) -> bool {
    exists|s: QualitySlots| quality_output_spec(o, s, nl, nv)
}

/// Reads a quality conversion out of its slots.
pub fn quality_output(s: &QualitySlots, nl: usize, nv: usize) -> (r: QualityOutput)
    requires
        nl <= COMPOSITION_SLOTS,
        nv <= COMPOSITION_SLOTS,
    ensures
        quality_output_spec(r, *s, nl as nat, nv as nat),
{
    QualityOutput {
        quality: s.quality,
        liq_composition: unpack(&s.liquid, nl),
        vap_composition: unpack(&s.vapor, nv),
        liq_molar_mass: s.liquid_molar_mass,
        vap_molar_mass: s.vapor_molar_mass,
    }
}

/// The fraction conversions report no error code: a molar mass that is not
/// positive (zero, negative or NaN) is taken as the failure. Otherwise the
/// first `n` converted fractions and the molar mass.
pub fn fractions_result(converted: &[u64; COMPOSITION_SLOTS], n: usize, molar_mass: u64) -> (r:
    Result<(Vec<u64>, u64), RefpropError>)
    requires
        n <= COMPOSITION_SLOTS,
    ensures
        r is Err <==> !is_positive(molar_mass),
        r matches Err(e) ==> e is CalculationError,
        r matches Ok(v) ==> v.0@ == converted@.subrange(0, n as int) && v.1 == molar_mass,
{
    if !greater_than_zero(molar_mass) {
        return Err(RefpropError::CalculationError("Invalid molar mass calculated".to_string()));
    }
    Ok((unpack(converted, n), molar_mass))
}

/// The component number under which `name` gives a component's fluid file.
pub fn filename_component(component: usize) -> (r: i32)
    requires
        component <= i32::MAX,
    ensures
        r as int == -(component as int),
{
    -(component as i32)
}

/// The names of the unit systems in the native library's enumeration.
pub open spec fn units_enum_name(u: Units) -> Option<Seq<char>> {
    match u {
        Units::Default => Some("DEFAULT"@),
        Units::MolarSI => Some("MOLAR SI"@),
        Units::MassSI => Some("MASS SI"@),
        Units::SIWithC => Some("SI WITH C"@),
        Units::MolarBaseSI => Some("MOLAR BASE SI"@),
        Units::MassBaseSI => Some("MASS BASE SI"@),
        Units::English => Some("ENGLISH"@),
        Units::MolarEnglish => Some("MOLAR ENGLISH"@),
        Units::MKS => Some("MKS"@),
        Units::CGS => Some("CGS"@),
        Units::Mixed => Some("MIXED"@),
        Units::MEUnits => Some("MEUNITS"@),
        Units::User => None,
        Units::Custom(_) => None,
    }
}

impl Units {
    /// The name of the unit system in the native library's enumeration.
    pub fn enum_name(&self) -> (r: Option<&'static str>)
        ensures
            r is None <==> (self is User || self is Custom),
            r is None <==> units_enum_name(*self) is None,
            r matches Some(s) ==> units_enum_name(*self) == Some(s@),
            r matches Some(s) ==> !has_nul(s.spec_bytes()),
    {
        broadcast use vstd::string::is_ascii_spec_bytes;

        match self {
            Units::Default => {
                proof {
                    reveal_strlit("DEFAULT");
                    lemma_printable_no_nul("DEFAULT");
                }
                Some("DEFAULT")
            },
            Units::MolarSI => {
                proof {
                    reveal_strlit("MOLAR SI");
                    lemma_printable_no_nul("MOLAR SI");
                }
                Some("MOLAR SI")
            },
            Units::MassSI => {
                proof {
                    reveal_strlit("MASS SI");
                    lemma_printable_no_nul("MASS SI");
                }
                Some("MASS SI")
            },
            Units::SIWithC => {
                proof {
                    reveal_strlit("SI WITH C");
                    lemma_printable_no_nul("SI WITH C");
                }
                Some("SI WITH C")
            },
            Units::MolarBaseSI => {
                proof {
                    reveal_strlit("MOLAR BASE SI");
                    lemma_printable_no_nul("MOLAR BASE SI");
                }
                Some("MOLAR BASE SI")
            },
            Units::MassBaseSI => {
                proof {
                    reveal_strlit("MASS BASE SI");
                    lemma_printable_no_nul("MASS BASE SI");
                }
                Some("MASS BASE SI")
            },
            Units::English => {
                proof {
                    reveal_strlit("ENGLISH");
                    lemma_printable_no_nul("ENGLISH");
                }
                Some("ENGLISH")
            },
            Units::MolarEnglish => {
                proof {
                    reveal_strlit("MOLAR ENGLISH");
                    lemma_printable_no_nul("MOLAR ENGLISH");
                }
                Some("MOLAR ENGLISH")
            },
            Units::MKS => {
                proof {
                    reveal_strlit("MKS");
                    lemma_printable_no_nul("MKS");
                }
                Some("MKS")
            },
            Units::CGS => {
                proof {
                    reveal_strlit("CGS");
                    lemma_printable_no_nul("CGS");
                }
                Some("CGS")
            },
            Units::Mixed => {
                proof {
                    reveal_strlit("MIXED");
                    lemma_printable_no_nul("MIXED");
                }
                Some("MIXED")
            },
            Units::MEUnits => {
                proof {
                    reveal_strlit("MEUNITS");
                    lemma_printable_no_nul("MEUNITS");
                }
                Some("MEUNITS")
            },
            Units::User => None,
            Units::Custom(_) => None,
        }
    }

    /// The enumerated code of the unit system, from the native library's
    /// enumeration of unit strings. User-defined and custom systems have no
    /// name there and are rejected.
    pub fn get_iunits_code<N: NativeInterface>(&self, library: &RefpropFunctionLibrary<N>) -> (r:
        Result<i32, RefpropError>)
        ensures
            is_invalid_input(r) <==> (self is User || self is Custom),
            r matches Err(e) ==> e is InvalidInput || is_native_failure(e),
    {
        match self.enum_name() {
            Some(name) => library.get_enum(GetEnumFlag::UnitsOnly, name),
            None => Err(RefpropError::InvalidInput("the unit system has no enumerated name".to_string())),
        }
    }
}

impl<N: NativeInterface> RefpropFunctionLibrary<N> {
    /// Translates a string of upper-case letters into an enumerated value.
    /// Strings longer than 254 bytes are cut to that length.
    pub fn get_enum(&self, flag: GetEnumFlag, enum_str: &str) -> (r: Result<i32, RefpropError>)
        ensures
            is_invalid_input(r) <==> has_nul(enum_str.spec_bytes()),
            r matches Err(e) ==> e is InvalidInput || is_native_failure(e),
    {
        let field = match pack_text_truncated::<MESSAGE_WIDTH>(enum_str) {
            Ok(f) => f,
            Err(e) => return Err(e),
        };
        let guard = match self.lock() {
            Ok(g) => g,
            Err(e) => return Err(e),
        };
        let mut herr = message_buffer();
        let (value, ierr) = self.native.get_enum(flag.as_i32(), &field, &mut herr);
        match check_refprop_error(&self.native, &guard, ierr, &mut herr) {
            Ok(()) => Ok(value),
            Err(e) => Err(e),
        }
    }

    /// The short name, long name and CAS number of a component (1 for a pure fluid).
    pub fn name(&self, icomp: i32) -> (r: Result<NameOutput, RefpropError>)
        ensures
            r matches Err(e) ==> is_native_failure(e),
            r matches Ok(o) ==> name_text_spec(o.hnam@, 12) && name_text_spec(o.hn80@, 80)
                && name_text_spec(o.hcasn@, 12),
    {
        let _guard = match self.lock() {
            Ok(g) => g,
            Err(e) => return Err(e),
        };
        let mut hnam: [c_char; 12] = vstd::array::array_fill_for_copy_types(0 as c_char);
        let mut hn80: [c_char; 80] = vstd::array::array_fill_for_copy_types(0 as c_char);
        let mut hcasn: [c_char; 12] = vstd::array::array_fill_for_copy_types(0 as c_char);
        self.native.name(icomp, &mut hnam, &mut hn80, &mut hcasn);
        let hnam_text = match field_name(&hnam) {
            Ok(t) => t,
            Err(e) => return Err(e),
        };
        let hn80_text = match field_name(&hn80) {
            Ok(t) => t,
            Err(e) => return Err(e),
        };
        let hcasn_text = match field_name(&hcasn) {
            Ok(t) => t,
            Err(e) => return Err(e),
        };
        assert(field_name_spec(hnam@, hnam_text@));
        assert(field_name_spec(hn80@, hn80_text@));
        assert(field_name_spec(hcasn@, hcasn_text@));
        Ok(NameOutput { hnam: hnam_text, hn80: hn80_text, hcasn: hcasn_text })
    }

    /// The fluid file of a component of the loaded mixture: the long name
    /// that `name` gives for the negated component number.
    pub fn get_filename(&self, component: usize) -> (r: Result<String, RefpropError>)
        ensures
            is_invalid_input(r) <==> component > i32::MAX,
            r matches Err(e) ==> e is InvalidInput || is_native_failure(e),
            r matches Ok(t) ==> name_text_spec(t@, 80),
    {
        if component > i32::MAX as usize {
            return Err(RefpropError::InvalidInput("component number is out of range".to_string()));
        }
        let icomp = filename_component(component);
        match self.name(icomp) {
            Ok(output) => Ok(output.hn80),
            Err(e) => Err(e),
        }
    }

    /// The molar mass of a composition. The fractions need not sum to one.
    pub fn calc_molar_mass(&self, z: &Composition) -> (r: Result<u64, RefpropError>)
        ensures
            is_invalid_input(r) <==> !z.fits(),
            r matches Err(e) ==> e is InvalidInput || e is MutexPoisoned,
    {
        match validate_length(z) {
            Ok(()) => {},
            Err(e) => return Err(e),
        }
        let _guard = match self.lock() {
            Ok(g) => g,
            Err(e) => return Err(e),
        };
        let zbuf = composition_buffer(z);
        Ok(self.native.wmol(&zbuf))
    }

    /// Mole fractions to mass fractions, with the molar mass of the mixture.
    pub fn convert_to_mass_fractions(&self, mole_fractions: &Composition) -> (r: Result<
        (Vec<u64>, u64),
        RefpropError,
    >)
        ensures
            is_invalid_input(r) <==> !mole_fractions.is_valid(),
            r matches Err(e) ==> e is InvalidInput || e is MutexPoisoned || e is CalculationError,
            r matches Ok(v) ==> v.0@.len() == mole_fractions.len() && is_positive(v.1),
    {
        match validate_composition(mole_fractions) {
            Ok(()) => {},
            Err(e) => return Err(e),
        }
        let _guard = match self.lock() {
            Ok(g) => g,
            Err(e) => return Err(e),
        };
        let xmol = composition_buffer(mole_fractions);
        let mut xkg: [u64; COMPOSITION_SLOTS] = vstd::array::array_fill_for_copy_types(0u64);
        let molar_mass = self.native.xmass(&xmol, &mut xkg);
        fractions_result(&xkg, mole_fractions.fractions.len(), molar_mass)
    }

    /// Mass fractions to mole fractions, with the molar mass of the mixture.
    pub fn convert_to_mole_fractions(&self, mass_fractions: &Composition) -> (r: Result<
        (Vec<u64>, u64),
        RefpropError,
    >)
        ensures
            is_invalid_input(r) <==> !mass_fractions.is_valid(),
            r matches Err(e) ==> e is InvalidInput || e is MutexPoisoned || e is CalculationError,
            r matches Ok(v) ==> v.0@.len() == mass_fractions.len() && is_positive(v.1),
    {
        match validate_composition(mass_fractions) {
            Ok(()) => {},
            Err(e) => return Err(e),
        }
        let _guard = match self.lock() {
            Ok(g) => g,
            Err(e) => return Err(e),
        };
        let xkg = composition_buffer(mass_fractions);
        let mut xmol: [u64; COMPOSITION_SLOTS] = vstd::array::array_fill_for_copy_types(0u64);
        let molar_mass = self.native.xmole(&xkg, &mut xmol);
        fractions_result(&xmol, mass_fractions.fractions.len(), molar_mass)
    }

    /// Molar quality and phase compositions to a mass basis.
    pub fn convert_to_mass_quality(
        &self,
        mole_quality: u64,
        mole_fractions_liquid: &Composition,
        mole_fractions_vapor: &Composition,
    ) -> (r: Result<QualityOutput, RefpropError>)
        ensures
            is_invalid_input(r) <==> quality_out_of_range(mole_quality)
                || !mole_fractions_liquid.is_valid() || !mole_fractions_vapor.is_valid(),
            r matches Err(e) ==> e is InvalidInput || is_native_failure(e),
            r matches Ok(o) ==> quality_result_spec(
                o,
                mole_fractions_liquid.len(),
                mole_fractions_vapor.len(),
            ),
    {
        self.convert_quality(true, mole_quality, mole_fractions_liquid, mole_fractions_vapor)
    }

    /// Mass quality and phase compositions to a molar basis.
    pub fn convert_to_mole_quality(
        &self,
        mass_quality: u64,
        mass_fractions_liquid: &Composition,
        mass_fractions_vapor: &Composition,
    ) -> (r: Result<QualityOutput, RefpropError>)
        ensures
            is_invalid_input(r) <==> quality_out_of_range(mass_quality)
                || !mass_fractions_liquid.is_valid() || !mass_fractions_vapor.is_valid(),
            r matches Err(e) ==> e is InvalidInput || is_native_failure(e),
            r matches Ok(o) ==> quality_result_spec(
                o,
                mass_fractions_liquid.len(),
                mass_fractions_vapor.len(),
            ),
    {
        self.convert_quality(false, mass_quality, mass_fractions_liquid, mass_fractions_vapor)
    }

    /// Both quality conversions: to a mass basis when `to_mass`, else to a molar one.
    fn convert_quality(
        &self,
        to_mass: bool,
        quality: u64,
        liquid: &Composition,
        vapor: &Composition,
    ) -> (r: Result<QualityOutput, RefpropError>)
        ensures
            is_invalid_input(r) <==> quality_out_of_range(quality) || !liquid.is_valid()
                || !vapor.is_valid(),
            r matches Err(e) ==> e is InvalidInput || is_native_failure(e),
            r matches Ok(o) ==> quality_result_spec(o, liquid.len(), vapor.len()),
    {
        if nan(quality) || less_than_zero(quality) || greater_than_one(quality) {
            return Err(RefpropError::InvalidInput("Quality must be between 0 and 1.".to_string()));
        }
        match validate_composition(liquid) {
            Ok(()) => {},
            Err(e) => return Err(e),
        }
        match validate_composition(vapor) {
            Ok(()) => {},
            Err(e) => return Err(e),
        }
        let guard = match self.lock() {
            Ok(g) => g,
            Err(e) => return Err(e),
        };
        let xl = composition_buffer(liquid);
        let xv = composition_buffer(vapor);
        let zeros: [u64; COMPOSITION_SLOTS] = vstd::array::array_fill_for_copy_types(0u64);
        let mut out = QualitySlots {
            quality: 0,
            liquid: zeros,
            vapor: zeros,
            liquid_molar_mass: 0,
            vapor_molar_mass: 0,
        };
        let mut herr = message_buffer();
        let ierr = if to_mass {
            self.native.qmass(quality, &xl, &xv, &mut out, &mut herr)
        } else {
            self.native.qmole(quality, &xl, &xv, &mut out, &mut herr)
        };
        match check_refprop_error(&self.native, &guard, ierr, &mut herr) {
            Ok(()) => {},
            Err(e) => return Err(e),
        }
        let o = quality_output(&out, liquid.fractions.len(), vapor.fractions.len());
        assert(quality_output_spec(o, out, liquid.len(), vapor.len()));
        Ok(o)
    }

    /// Viscosity and thermal conductivity of a single-phase state.
    #[allow(non_snake_case)]
    pub fn transport_properties(&self, T: u64, D: u64, z: &Composition) -> (r: Result<
        TransportOutput,
        RefpropError,
    >)
        ensures
            is_invalid_input(r) <==> !z.is_valid(),
            r matches Err(e) ==> e is InvalidInput || is_native_failure(e),
    {
        match validate_composition(z) {
            Ok(()) => {},
            Err(e) => return Err(e),
        }
        let guard = match self.lock() {
            Ok(g) => g,
            Err(e) => return Err(e),
        };
        let zbuf = composition_buffer(z);
        let mut herr = message_buffer();
        let (eta, tcx, ierr) = self.native.trnprp(T, D, &zbuf, &mut herr);
        match check_refprop_error(&self.native, &guard, ierr, &mut herr) {
            Ok(()) => Ok(TransportOutput { eta, tcx }),
            Err(e) => Err(e),
        }
    }
}

} // verus!
