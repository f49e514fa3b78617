//! Session setup, critical parameters and bulk property retrieval.
use vstd::prelude::*;
use vstd::string::{StringExecFns, StringSliceAdditionalSpecFns};

use crate::composition::{
    is_invalid_input, pack, unpack, validate_composition, validate_length, Composition,
    COMPOSITION_SLOTS, PROPERTY_SLOTS,
};
use crate::diagnostics::{check_refprop_error, is_native_failure};
use crate::errors::RefpropError;
use crate::float_bits::{greater_than_zero, is_positive};
use crate::native::NativeInterface;
use crate::text::{has_nul, pack_text, MESSAGE_WIDTH};
use crate::{composition_buffer, message_buffer, RefpropFunctionLibrary, Units};

verus! {

/// Width of the fluid-list field.
pub const FLUIDS_WIDTH: usize = 10000;

/// The bit pattern of `-999970.0`, which the bulk property routine writes
/// where it could not compute an output.
pub const OUTPUT_UNDEFINED: u64 = 0xC12E_8444_0000_0000;

/// Critical temperature, pressure and density.
#[derive(Debug)]
#[allow(non_snake_case)]
pub struct CriticalParameters {
    pub Tc: u64,
    pub Pc: u64,
    pub Dc: u64,
}

/// The leading positive fractions of a buffer: a predefined mixture's
/// composition ends at its first slot that is not positive.
pub open spec fn positive_prefix(s: Seq<u64>) -> Seq<u64>
    decreases s.len(),
{
    if s.len() == 0 || !is_positive(s[0]) {
        Seq::empty()
    } else {
        seq![s[0]] + positive_prefix(s.drop_first())
    }
}

/// The composition of a predefined mixture, read out of its buffer.
pub fn leading_positive(buf: &[u64; COMPOSITION_SLOTS]) -> (r: Vec<u64>)
    ensures
        r@ == positive_prefix(buf@),
{
    let mut out: Vec<u64> = Vec::new();
    let mut i: usize = 0;
    assert(buf@.subrange(0, COMPOSITION_SLOTS as int) =~= buf@);
    assert(out@ + positive_prefix(buf@) =~= positive_prefix(buf@));
    while i < COMPOSITION_SLOTS
        invariant
            i <= COMPOSITION_SLOTS,
            buf@.len() == COMPOSITION_SLOTS,
            positive_prefix(buf@) == out@ + positive_prefix(
                buf@.subrange(i as int, COMPOSITION_SLOTS as int),
            ),
        decreases COMPOSITION_SLOTS - i,
    {
        let v = buf[i];
        assert(buf@.subrange(i as int, COMPOSITION_SLOTS as int).drop_first() =~= buf@.subrange(
            i + 1,
            COMPOSITION_SLOTS as int,
        ));
        if !greater_than_zero(v) {
            assert(positive_prefix(buf@.subrange(i as int, COMPOSITION_SLOTS as int))
                =~= Seq::empty());
            assert(out@ + Seq::<u64>::empty() =~= out@);
            return out;
        }
        let ghost before = out@;
        out.push(v);
        assert(out@ + positive_prefix(buf@.subrange(i + 1, COMPOSITION_SLOTS as int)) =~= before
            + positive_prefix(buf@.subrange(i as int, COMPOSITION_SLOTS as int)));
        i = i + 1;
    }
    assert(positive_prefix(buf@.subrange(COMPOSITION_SLOTS as int, COMPOSITION_SLOTS as int))
        =~= Seq::empty());
    assert(out@ + Seq::<u64>::empty() =~= out@);
    out
}

/// The first output of the bulk property routine, unless it is the
/// "could not compute" value.
pub fn first_output(output: &[u64; PROPERTY_SLOTS]) -> (r: Result<u64, RefpropError>)
    ensures
        r is Ok <==> output@[0] != OUTPUT_UNDEFINED,
        r matches Ok(v) ==> v == output@[0],
        r matches Err(e) ==> e matches RefpropError::CalculationError(m) && m@
            == "REFPROP unable to calculate output."@,
{
    let v = output[0];
    if v == OUTPUT_UNDEFINED {
        return Err(
            RefpropError::CalculationError(String::from_str("REFPROP unable to calculate output.")),
        );
    }
    Ok(v)
}

impl<N: NativeInterface> RefpropFunctionLibrary<N> {
    /// Critical temperature, pressure and density of a composition, which
    /// need not sum to one.
    pub fn critical_parameters(&self, z: &Composition) -> (r: Result<
        CriticalParameters,
        RefpropError,
    >)
        ensures
            is_invalid_input(r) <==> !z.fits(),
            r matches Err(e) ==> e is InvalidInput || is_native_failure(e),
    {
        match validate_length(z) {
            Ok(()) => {},
            Err(e) => return Err(e),
        }
        let guard = match self.lock() {
            Ok(g) => g,
            Err(e) => return Err(e),
        };
        let zbuf = composition_buffer(z);
        let mut herr = message_buffer();
        let (tc, pc, dc, ierr) = self.native.critp(&zbuf, &mut herr);
        match check_refprop_error(&self.native, &guard, ierr, &mut herr) {
            Ok(()) => Ok(CriticalParameters { Tc: tc, Pc: pc, Dc: dc }),
            Err(e) => Err(e),
        }
    }

    /// The properties named by the enumerated codes `i_out`, one output per code.
    #[allow(non_snake_case)]
    pub fn all_props0(&self, i_out: &Vec<i32>, T: u64, D: u64, z: &Composition) -> (r: Result<
        Vec<u64>,
        RefpropError,
    >)
        ensures
            is_invalid_input(r) <==> i_out@.len() > PROPERTY_SLOTS || !z.fits(),
            r matches Err(e) ==> e is InvalidInput || is_native_failure(e),
            r matches Ok(v) ==> v@.len() == i_out@.len(),
    {
        if i_out.len() > PROPERTY_SLOTS {
            return Err(RefpropError::InvalidInput("i_out slice length exceeds 200".to_string()));
        }
        match validate_length(z) {
            Ok(()) => {},
            Err(e) => return Err(e),
        }
        let guard = match self.lock() {
            Ok(g) => g,
            Err(e) => return Err(e),
        };
        let codes = match pack::<i32, PROPERTY_SLOTS>(i_out, 0i32) {
            Ok(buf) => buf,
            Err(e) => return Err(e),
        };
        let zbuf = composition_buffer(z);
        let mut output: [u64; PROPERTY_SLOTS] = vstd::array::array_fill_for_copy_types(0u64);
        let mut herr = message_buffer();
        let count = i_out.len() as i32;
        let ierr = self.native.allprops0(count, &codes, 0, T, D, &zbuf, &mut output, &mut herr);
        match check_refprop_error(&self.native, &guard, ierr, &mut herr) {
            Ok(()) => Ok(unpack(&output, i_out.len())),
            Err(e) => Err(e),
        }
    }

    /// The first property named by the string `h_out`, in the given unit system.
    #[allow(non_snake_case)]
    pub fn all_props1(&self, h_out: &str, units: Units, T: u64, D: u64, z: &Composition) -> (r:
        Result<u64, RefpropError>)
        ensures
            is_invalid_input(r) <==> h_out.spec_bytes().len() >= MESSAGE_WIDTH || !z.fits()
                || has_nul(h_out.spec_bytes()) || units is User || units is Custom,
            r matches Err(e) ==> e is InvalidInput || is_native_failure(e),
            r matches Ok(v) ==> v != OUTPUT_UNDEFINED,
    {
        if h_out.as_bytes().len() >= MESSAGE_WIDTH {
            return Err(
                RefpropError::InvalidInput("h_out string length exceeds 254 characters".to_string()),
            );
        }
        match validate_length(z) {
            Ok(()) => {},
            Err(e) => return Err(e),
        }
        let field = match pack_text::<MESSAGE_WIDTH>(h_out) {
            Ok(f) => f,
            Err(e) => return Err(e),
        };
        let i_units = match units.get_iunits_code(self) {
            Ok(code) => code,
            Err(e) => return Err(e),
        };
        let guard = match self.lock() {
            Ok(g) => g,
            Err(e) => return Err(e),
        };
        let zbuf = composition_buffer(z);
        let mut output: [u64; PROPERTY_SLOTS] = vstd::array::array_fill_for_copy_types(0u64);
        let mut herr = message_buffer();
        // The routine is called twice in a row; the error code and the
        // outputs of the second call are the ones read.
        let _ = self.native.allprops1(&field, i_units, T, D, &zbuf, &mut output, &mut herr);
        let ierr = self.native.allprops1(&field, i_units, T, D, &zbuf, &mut output, &mut herr);
        match check_refprop_error(&self.native, &guard, ierr, &mut herr) {
            Ok(()) => {},
            Err(e) => return Err(e),
        }
        first_output(&output)
    }

    /// Makes one component of the loaded mixture act as a pure fluid.
    pub fn pure_fld(&self, icomp: usize) -> (r: Result<(), RefpropError>)
        ensures
            is_invalid_input(r) <==> icomp > i32::MAX,
            r matches Err(e) ==> e is InvalidInput || e is MutexPoisoned,
    {
        if icomp > i32::MAX as usize {
            return Err(RefpropError::InvalidInput("component number is out of range".to_string()));
        }
        let _guard = match self.lock() {
            Ok(g) => g,
            Err(e) => return Err(e),
        };
        self.native.pure_fld(icomp as i32);
        Ok(())
    }

    /// Builds the saturation splines of a composition.
    pub fn satspln(&self, z: &Composition) -> (r: Result<(), RefpropError>)
        ensures
            is_invalid_input(r) <==> !z.is_valid(),
            r matches Err(e) ==> e is InvalidInput || is_native_failure(e),
    {
        match validate_composition(z) {
            Ok(()) => {},
            Err(e) => return Err(e),
        }
        let guard = match self.lock() {
            Ok(g) => g,
            Err(e) => return Err(e),
        };
        let zbuf = composition_buffer(z);
        let mut herr = message_buffer();
        let ierr = self.native.satspln(&zbuf, &mut herr);
        check_refprop_error(&self.native, &guard, ierr, &mut herr)
    }

    /// Loads the fluids of a list separated by `|`, `;` or `*`. The whole
    /// list must fit its field.
    pub fn set_fluids(&self, fluids: &str) -> (r: Result<(), RefpropError>)
        ensures
            is_invalid_input(r) <==> has_nul(fluids.spec_bytes()) || fluids.spec_bytes().len()
                >= FLUIDS_WIDTH,
            r matches Err(e) ==> e is InvalidInput || is_native_failure(e),
    {
        let field = match pack_text::<FLUIDS_WIDTH>(fluids) {
            Ok(f) => f,
            Err(e) => return Err(e),
        };
        let guard = match self.lock() {
            Ok(g) => g,
            Err(e) => return Err(e),
        };
        let ierr = self.native.set_fluids(&field);
        let mut herr = message_buffer();
        check_refprop_error(&self.native, &guard, ierr, &mut herr)
    }

    /// Loads a predefined mixture and returns its composition: the leading
    /// positive fractions that the native library writes.
    pub fn set_mixture(&self, mixture_name: &str) -> (r: Result<Vec<u64>, RefpropError>)
        ensures
            is_invalid_input(r) <==> has_nul(mixture_name.spec_bytes())
                || mixture_name.spec_bytes().len() >= MESSAGE_WIDTH,
            r matches Err(e) ==> e is InvalidInput || is_native_failure(e),
            r matches Ok(v) ==> exists|buf: Seq<u64>|
                buf.len() == COMPOSITION_SLOTS && v@ == #[trigger] positive_prefix(buf),
    {
        let field = match pack_text::<MESSAGE_WIDTH>(mixture_name) {
            Ok(f) => f,
            Err(e) => return Err(e),
        };
        let guard = match self.lock() {
            Ok(g) => g,
            Err(e) => return Err(e),
        };
        let mut z: [u64; COMPOSITION_SLOTS] = vstd::array::array_fill_for_copy_types(0u64);
        let ierr = self.native.set_mixture(&field, &mut z);
        let mut herr = message_buffer();
        match check_refprop_error(&self.native, &guard, ierr, &mut herr) {
            Ok(()) => {},
            Err(e) => return Err(e),
        }
        let v = leading_positive(&z);
        assert(z@.len() == COMPOSITION_SLOTS && v@ == positive_prefix(z@));
        Ok(v)
    }

    /// Sets the directory of the fluid files. The whole path must fit its
    /// field: a path of 255 bytes or more is rejected.
    pub fn set_path(&self, path: &str) -> (r: Result<(), RefpropError>)
        ensures
            is_invalid_input(r) <==> has_nul(path.spec_bytes()) || path.spec_bytes().len()
                >= MESSAGE_WIDTH,
            r matches Err(e) ==> e is InvalidInput || e is MutexPoisoned,
    {
        let field = match pack_text::<MESSAGE_WIDTH>(path) {
            Ok(f) => f,
            Err(e) => return Err(e),
        };
        let _guard = match self.lock() {
            Ok(g) => g,
            Err(e) => return Err(e),
        };
        self.native.set_path(&field);
        Ok(())
    }
}

} // verus!
