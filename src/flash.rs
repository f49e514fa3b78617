//! The flash family: state resolution from two intensive properties and a
//! composition, all driven by one engine.
use libc::c_char;
use vstd::prelude::*;
use vstd::string::StringSliceAdditionalSpecFns;

use crate::composition::{
    is_invalid_input, padded, unpack, validate_composition, Composition, COMPOSITION_SLOTS,
};
use crate::diagnostics::{check_refprop_error, is_native_failure};
use crate::errors::RefpropError;
use crate::native::{FlashCall, FlashEntry, FlashSlots, NativeInterface, Property};
use crate::sentinel::{heat_capacity, heat_capacity_spec, CP_UNDEFINED, CV_UNDEFINED};
use crate::text::pack_text;
use crate::{
    composite_flag, composition_buffer, message_buffer, Basis, KrKqFlag, Phase,
    RefpropFunctionLibrary,
};

verus! {

/// The state that a flash resolves, doubles as bit patterns.
#[derive(Debug)]
#[allow(non_snake_case)]
pub struct FlashOutput {
    /// Temperature [K]
    pub T: u64,
    /// Pressure [kPa]
    pub P: u64,
    /// Density [mol/L or kg/m³]
    pub D: u64,
    /// Density of the liquid phase
    pub Dl: u64,
    /// Density of the vapor phase
    pub Dv: u64,
    /// Composition of the liquid phase, one fraction per component
    pub x: Vec<u64>,
    /// Composition of the vapor phase, one fraction per component
    pub y: Vec<u64>,
    /// Vapor quality
    pub q: u64,
    /// Internal energy
    pub e: u64,
    /// Enthalpy
    pub h: u64,
    /// Entropy
    pub s: u64,
    /// Isochoric heat capacity; absent in two-phase states
    pub Cv: Option<u64>,
    /// Isobaric heat capacity; absent in two-phase states
    pub Cp: Option<u64>,
    /// Speed of sound [m/s]
    pub w: u64,
}

/// `o` is what the slots hold after a call, for a composition of `n` components.
pub open spec fn flash_output_spec(o: FlashOutput, s: FlashSlots, n: nat) -> bool {
    &&& o.T == s.t
    &&& o.P == s.p
    &&& o.D == s.d
    &&& o.Dl == s.dl
    &&& o.Dv == s.dv
    &&& o.x@ == s.x@.subrange(0, n as int)
    &&& o.y@ == s.y@.subrange(0, n as int)
    &&& o.q == s.q
    &&& o.e == s.e
    &&& o.h == s.h
    &&& o.s == s.s
    &&& o.Cv == heat_capacity_spec(s.cv)
    &&& o.Cp == heat_capacity_spec(s.cp)
    &&& o.w == s.w
}

/// `o` is what some call of the native library can have left in the slots.
pub open spec fn flash_result_spec(o: FlashOutput, n: nat) -> bool {
    exists|s: FlashSlots| flash_output_spec(o, s, n)
}

/// The contract shared by the flash operations: `InvalidInput` exactly when
/// `valid` fails; any other error is a native or gate failure; a result is
/// read out of the slots of some native call.
pub open spec fn flash_outcome(r: Result<FlashOutput, RefpropError>, valid: bool, n: nat) -> bool {
    &&& is_invalid_input(r) <==> !valid
    &&& r matches Err(e) ==> e is InvalidInput || is_native_failure(e)
    &&& r matches Ok(o) ==> flash_result_spec(o, n)
}

/// Reads a flash result out of the slots: the compositions cut to `n`
/// components and the heat capacities with their reserved values made absent.
pub fn flash_output(slots: &FlashSlots, n: usize) -> (r: FlashOutput)
    requires
        n <= COMPOSITION_SLOTS,
    ensures
        flash_output_spec(r, *slots, n as nat),
{
    FlashOutput {
        T: slots.t,
        P: slots.p,
        D: slots.d,
        Dl: slots.dl,
        Dv: slots.dv,
        x: unpack(&slots.x, n),
        y: unpack(&slots.y, n),
        q: slots.q,
        e: slots.e,
        h: slots.h,
        s: slots.s,
        Cv: heat_capacity(slots.cv),
        Cp: heat_capacity(slots.cp),
        w: slots.w,
    }
}

/// The letters that name a property in the code of the general flash.
pub open spec fn is_property_letter(c: char) -> bool {
    c == 'T' || c == 'P' || c == 'D' || c == 'E' || c == 'H' || c == 'S' || c == 'Q'
}

/// An upper-cased property code: one or two property letters.
pub open spec fn property_code_ok(u: Seq<char>) -> bool {
    1 <= u.len() <= 2 && forall|i: int| 0 <= i < u.len() ==> is_property_letter(u[i])
}

/// What `str::to_uppercase` makes of a string.
pub uninterp spec fn upper_of(s: Seq<char>) -> Seq<char>;

/// Relies on `str::to_uppercase`: its result depends on the characters alone.
#[verifier::external_body]
fn uppercase(s: &str) -> (r: String)
    ensures
        r@ == upper_of(s@),
{
    s.to_uppercase()
}

/// Checks an upper-cased property code.
pub fn check_property_code(upper: &str) -> (r: Result<(), RefpropError>)
    ensures
        r is Ok <==> property_code_ok(upper@),
        r is Err ==> is_invalid_input(r),
{
    let n = upper.unicode_len();
    if n < 1 || n > 2 {
        return Err(RefpropError::InvalidInput("ab string must be exactly two characters long".to_string()));
    }
    let mut i: usize = 0;
    while i < n
        invariant
            i <= n,
            n == upper@.len(),
            forall|k: int| 0 <= k < i ==> is_property_letter(upper@[k]),
        decreases n - i,
    {
        let c = upper.get_char(i);
        if !(c == 'T' || c == 'P' || c == 'D' || c == 'E' || c == 'H' || c == 'S' || c == 'Q') {
            return Err(RefpropError::InvalidInput("Invalid character in ab string".to_string()));
        }
        i = i + 1;
    }
    Ok(())
}

/// The slot of a flash entry point that holds a property.
pub open spec fn slot_of(s: FlashSlots, p: Property) -> u64 {
    match p {
        Property::T => s.t,
        Property::P => s.p,
        Property::D => s.d,
        Property::E => s.e,
        Property::H => s.h,
        Property::S => s.s,
        Property::Q => s.q,
    }
}

/// What an entry point finds in the slot of a property on entry: the first
/// or second input when the property is one of its inputs, else zero.
pub open spec fn input_value(entry: FlashEntry, p: Property, a: u64, b: u64) -> u64 {
    match entry.inputs() {
        Some((first, second)) => if p == first {
            a
        } else if p == second {
            b
        } else {
            0
        },
        None => 0,
    }
}

/// The slots as handed to an entry point: the two input properties in their
/// slots, the heat capacities preset to their reserved values, the rest zero.
pub open spec fn slots_prepared(s: FlashSlots, entry: FlashEntry, a: u64, b: u64) -> bool {
    &&& forall|p: Property| #[trigger] slot_of(s, p) == input_value(entry, p, a, b)
    &&& s.cv == CV_UNDEFINED
    &&& s.cp == CP_UNDEFINED
    &&& s.x@ == Seq::new(COMPOSITION_SLOTS as nat, |i: int| 0u64)
    &&& s.y@ == Seq::new(COMPOSITION_SLOTS as nat, |i: int| 0u64)
    &&& s.dl == 0 && s.dv == 0 && s.w == 0
}

/// Writes a value into the slot of a property.
fn set_slot(s: &mut FlashSlots, p: Property, v: u64)
    ensures
        slot_of(*final(s), p) == v,
        forall|o: Property| o != p ==> slot_of(*final(s), o) == slot_of(*old(s), o),
        final(s).x == old(s).x && final(s).y == old(s).y,
        final(s).cv == old(s).cv && final(s).cp == old(s).cp,
        final(s).dl == old(s).dl && final(s).dv == old(s).dv && final(s).w == old(s).w,
{
    match p {
        Property::T => s.t = v,
        Property::P => s.p = v,
        Property::D => s.d = v,
        Property::E => s.e = v,
        Property::H => s.h = v,
        Property::S => s.s = v,
        Property::Q => s.q = v,
    }
}

/// The two input properties of an entry point.
fn entry_inputs(entry: FlashEntry) -> (r: Option<(Property, Property)>)
    ensures
        r == entry.inputs(),
{
    match entry {
        FlashEntry::Ab => None,
        FlashEntry::Tp => Some((Property::T, Property::P)),
        FlashEntry::Td => Some((Property::T, Property::D)),
        FlashEntry::Th => Some((Property::T, Property::H)),
        FlashEntry::Ts => Some((Property::T, Property::S)),
        FlashEntry::Te => Some((Property::T, Property::E)),
        FlashEntry::Tq => Some((Property::T, Property::Q)),
        FlashEntry::Pd => Some((Property::P, Property::D)),
        FlashEntry::Ph => Some((Property::P, Property::H)),
        FlashEntry::Ps => Some((Property::P, Property::S)),
        FlashEntry::Pe => Some((Property::P, Property::E)),
        FlashEntry::Pq => Some((Property::P, Property::Q)),
        FlashEntry::Hs => Some((Property::H, Property::S)),
        FlashEntry::Dh => Some((Property::D, Property::H)),
        FlashEntry::Ds => Some((Property::D, Property::S)),
        FlashEntry::De => Some((Property::D, Property::E)),
    }
}

fn prepare_slots(entry: FlashEntry, a: u64, b: u64) -> (r: FlashSlots)
    requires
        entry.inputs() matches Some((first, second)) ==> first != second,
    ensures
        slots_prepared(r, entry, a, b),
{
    let zeros: [u64; COMPOSITION_SLOTS] = vstd::array::array_fill_for_copy_types(0u64);
    assert(zeros@ =~= Seq::new(COMPOSITION_SLOTS as nat, |i: int| 0u64));
    let mut s = FlashSlots {
        t: 0,
        p: 0,
        d: 0,
        dl: 0,
        dv: 0,
        x: zeros,
        y: zeros,
        q: 0,
        e: 0,
        h: 0,
        s: 0,
        cv: CV_UNDEFINED,
        cp: CP_UNDEFINED,
        w: 0,
    };
    assert forall|p: Property| #[trigger] slot_of(s, p) == 0 by {}
    if let Some((first, second)) = entry_inputs(entry) {
        set_slot(&mut s, first, a);
        set_slot(&mut s, second, b);
    }
    s
}

/// The inputs handed to a flash entry point: the composition in its
/// zero-padded buffer, the rest as given.
pub fn flash_call(code: [c_char; 3], a: u64, b: u64, z: &Composition, flag: i32) -> (r: FlashCall)
    requires
        z.fits(),
    ensures
        r.code == code,
        r.a == a,
        r.b == b,
        r.z@ == padded(z.fractions@, COMPOSITION_SLOTS as nat, 0u64),
        r.flag == flag,
{
    FlashCall { code, a, b, z: composition_buffer(z), flag }
}

impl<N: NativeInterface> RefpropFunctionLibrary<N> {
    /// Runs one flash entry point, holding the call gate from the packing of
    /// the inputs until the result has been read out of the slots.
    fn run_flash(
        &self,
        entry: FlashEntry,
        code: [c_char; 3],
        a: u64,
        b: u64,
        z: &Composition,
        flag: i32,
    ) -> (r: Result<FlashOutput, RefpropError>)
        requires
            z.is_valid(),
        ensures
            r matches Err(e) ==> is_native_failure(e),
            r matches Ok(o) ==> flash_result_spec(o, z.len()),
    {
        let guard = match self.lock() {
            Ok(g) => g,
            Err(e) => return Err(e),
        };
        let call = flash_call(code, a, b, z, flag);
        let mut slots = prepare_slots(entry, a, b);
        let mut herr = message_buffer();
        let ierr = self.native.flash(entry, &call, &mut slots, &mut herr);
        match check_refprop_error(&self.native, &guard, ierr, &mut herr) {
            Ok(()) => {},
            Err(e) => return Err(e),
        }
        let out = flash_output(&slots, z.fractions.len());
        assert(flash_output_spec(out, slots, z.len()));
        Ok(out)
    }

    /// The code field of the entry points that name their inputs themselves.
    fn no_code() -> (r: [c_char; 3]) {
        vstd::array::array_fill_for_copy_types(0 as c_char)
    }

    /// A flash that takes no flag.
    fn plain_flash(&self, entry: FlashEntry, a: u64, b: u64, z: &Composition) -> (r: Result<
        FlashOutput,
        RefpropError,
    >)
        requires
            entry.inputs() is Some,
        ensures
            flash_outcome(r, z.is_valid(), z.len()),
    {
        match validate_composition(z) {
            Ok(()) => {},
            Err(e) => return Err(e),
        }
        self.run_flash(entry, Self::no_code(), a, b, z, 0)
    }

    /// A flash that takes a root selector.
    fn root_flash(&self, entry: FlashEntry, a: u64, b: u64, z: &Composition, kr: i32) -> (r:
        Result<FlashOutput, RefpropError>)
        requires
            entry.inputs() is Some,
        ensures
            flash_outcome(r, z.is_valid() && (kr == 1 || kr == 2), z.len()),
    {
        match validate_composition(z) {
            Ok(()) => {},
            Err(e) => return Err(e),
        }
        if kr != 1 && kr != 2 {
            return Err(RefpropError::InvalidInput("Parameter 'kr' must be either 1 or 2.".to_string()));
        }
        self.run_flash(entry, Self::no_code(), a, b, z, kr)
    }

    /// A flash that takes a composite flag.
    fn flagged_flash(&self, entry: FlashEntry, a: u64, b: u64, z: &Composition, flag: i32) -> (r:
        Result<FlashOutput, RefpropError>)
        requires
            entry.inputs() is Some,
        ensures
            flash_outcome(r, z.is_valid(), z.len()),
    {
        match validate_composition(z) {
            Ok(()) => {},
            Err(e) => return Err(e),
        }
        self.run_flash(entry, Self::no_code(), a, b, z, flag)
    }

    /// The general flash: the two input properties are named by a two-letter
    /// code over `T P D E H S Q`, in either case.
    pub fn ab_flash(
        &self,
        ab: &str,
        a: u64,
        b: u64,
        z: &Composition,
        imass_flag: Basis,
        kph_flag: Phase,
        krkq_flag: KrKqFlag,
    ) -> (r: Result<FlashOutput, RefpropError>)
        ensures
            flash_outcome(
                r,
                ab.spec_bytes().len() == 2 && property_code_ok(upper_of(ab@)) && z.is_valid(),
                z.len(),
            ),
    {
        if ab.as_bytes().len() != 2 {
            return Err(RefpropError::InvalidInput("ab string must be exactly two characters long".to_string()));
        }
        let upper = uppercase(ab);
        match check_property_code(upper.as_str()) {
            Ok(()) => {},
            Err(e) => return Err(e),
        }
        match validate_composition(z) {
            Ok(()) => {},
            Err(e) => return Err(e),
        }
        let upper_str = upper.as_str();
        proof {
            broadcast use vstd::string::is_ascii_spec_bytes;
            assert(vstd::utf8::is_ascii_chars(upper_str@));
            assert(vstd::string::is_ascii(upper_str));
            assert(!crate::text::has_nul(upper_str.spec_bytes()));
            assert(upper_str.spec_bytes().len() < 3);
        }
        let code = match pack_text::<3>(upper_str) {
            Ok(c) => c,
            Err(e) => return Err(e),
        };
        let flag = composite_flag(imass_flag, kph_flag, krkq_flag);
        self.run_flash(FlashEntry::Ab, code, a, b, z, flag)
    }

    /// Flash from temperature and pressure.
    #[allow(non_snake_case)]
    pub fn tp_flash(&self, T: u64, P: u64, z: &Composition) -> (r: Result<FlashOutput, RefpropError>)
        ensures
            flash_outcome(r, z.is_valid(), z.len()),
    {
        self.plain_flash(FlashEntry::Tp, T, P, z)
    }

    /// Flash from temperature and density.
    #[allow(non_snake_case)]
    pub fn td_flash(&self, T: u64, D: u64, z: &Composition) -> (r: Result<FlashOutput, RefpropError>)
        ensures
            flash_outcome(r, z.is_valid(), z.len()),
    {
        self.plain_flash(FlashEntry::Td, T, D, z)
    }

    /// Flash from temperature and enthalpy; `kr` picks the lower (1) or the higher (2) density root.
    #[allow(non_snake_case)]
    pub fn th_flash(&self, T: u64, h: u64, z: &Composition, kr: i32) -> (r: Result<
        FlashOutput,
        RefpropError,
    >)
        ensures
            flash_outcome(r, z.is_valid() && (kr == 1 || kr == 2), z.len()),
    {
        self.root_flash(FlashEntry::Th, T, h, z, kr)
    }

    /// Flash from temperature and entropy; `kr` picks the lower (1) or the higher (2) density root.
    #[allow(non_snake_case)]
    pub fn ts_flash(&self, T: u64, s: u64, z: &Composition, kr: i32) -> (r: Result<
        FlashOutput,
        RefpropError,
    >)
        ensures
            flash_outcome(r, z.is_valid() && (kr == 1 || kr == 2), z.len()),
    {
        self.root_flash(FlashEntry::Ts, T, s, z, kr)
    }

    /// Flash from temperature and internal energy; `kr` picks the lower (1) or the higher (2) density root.
    #[allow(non_snake_case)]
    pub fn te_flash(&self, T: u64, e: u64, z: &Composition, kr: i32) -> (r: Result<
        FlashOutput,
        RefpropError,
    >)
        ensures
            flash_outcome(r, z.is_valid() && (kr == 1 || kr == 2), z.len()),
    {
        self.root_flash(FlashEntry::Te, T, e, z, kr)
    }

    /// Flash from temperature and quality. A quality of `-99` or `-98` asks for a melting-line or
    /// sublimation-line state; it is passed on as it is.
    #[allow(non_snake_case)]
    pub fn tq_flash(
        &self,
        T: u64,
        q: u64,
        z: &Composition,
        imass_flag: Basis,
        kph_flag: Phase,
        krkq_flag: KrKqFlag,
    ) -> (r: Result<FlashOutput, RefpropError>)
        ensures
            flash_outcome(r, z.is_valid(), z.len()),
    {
        self.flagged_flash(FlashEntry::Tq, T, q, z, composite_flag(imass_flag, kph_flag, krkq_flag))
    }

    /// Flash from pressure and density.
    #[allow(non_snake_case)]
    pub fn pd_flash(&self, P: u64, D: u64, z: &Composition) -> (r: Result<FlashOutput, RefpropError>)
        ensures
            flash_outcome(r, z.is_valid(), z.len()),
    {
        self.plain_flash(FlashEntry::Pd, P, D, z)
    }

    /// Flash from pressure and enthalpy.
    #[allow(non_snake_case)]
    pub fn ph_flash(&self, P: u64, h: u64, z: &Composition) -> (r: Result<FlashOutput, RefpropError>)
        ensures
            flash_outcome(r, z.is_valid(), z.len()),
    {
        self.plain_flash(FlashEntry::Ph, P, h, z)
    }

    /// Flash from pressure and entropy.
    #[allow(non_snake_case)]
    pub fn ps_flash(&self, P: u64, s: u64, z: &Composition) -> (r: Result<FlashOutput, RefpropError>)
        ensures
            flash_outcome(r, z.is_valid(), z.len()),
    {
        self.plain_flash(FlashEntry::Ps, P, s, z)
    }

    /// Flash from pressure and internal energy.
    #[allow(non_snake_case)]
    pub fn pe_flash(&self, P: u64, e: u64, z: &Composition) -> (r: Result<FlashOutput, RefpropError>)
        ensures
            flash_outcome(r, z.is_valid(), z.len()),
    {
        self.plain_flash(FlashEntry::Pe, P, e, z)
    }

    /// Flash from pressure and quality. A quality of `-99` or `-98` asks for a melting-line or
    /// sublimation-line state; it is passed on as it is.
    #[allow(non_snake_case)]
    pub fn pq_flash(
        &self,
        P: u64,
        q: u64,
        z: &Composition,
        imass_flag: Basis,
        kph_flag: Phase,
        krkq_flag: KrKqFlag,
    ) -> (r: Result<FlashOutput, RefpropError>)
        ensures
            flash_outcome(r, z.is_valid(), z.len()),
    {
        self.flagged_flash(FlashEntry::Pq, P, q, z, composite_flag(imass_flag, kph_flag, krkq_flag))
    }

    /// Flash from enthalpy and entropy.
    #[allow(non_snake_case)]
    pub fn hs_flash(&self, h: u64, s: u64, z: &Composition) -> (r: Result<FlashOutput, RefpropError>)
        ensures
            flash_outcome(r, z.is_valid(), z.len()),
    {
        self.plain_flash(FlashEntry::Hs, h, s, z)
    }

    /// Flash from density and enthalpy.
    #[allow(non_snake_case)]
    pub fn dh_flash(&self, D: u64, h: u64, z: &Composition) -> (r: Result<FlashOutput, RefpropError>)
        ensures
            flash_outcome(r, z.is_valid(), z.len()),
    {
        self.plain_flash(FlashEntry::Dh, D, h, z)
    }

    /// Flash from density and entropy.
    #[allow(non_snake_case)]
    pub fn ds_flash(&self, D: u64, s: u64, z: &Composition) -> (r: Result<FlashOutput, RefpropError>)
        ensures
            flash_outcome(r, z.is_valid(), z.len()),
    {
        self.plain_flash(FlashEntry::Ds, D, s, z)
    }

    /// Flash from density and internal energy.
    #[allow(non_snake_case)]
    pub fn de_flash(&self, D: u64, e: u64, z: &Composition) -> (r: Result<FlashOutput, RefpropError>)
        ensures
            flash_outcome(r, z.is_valid(), z.len()),
    {
        self.plain_flash(FlashEntry::De, D, e, z)
    }
}

} // verus!
