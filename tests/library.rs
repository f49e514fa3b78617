use std::cell::{Cell, RefCell};

use libc::c_char;
use refprop_sys::composition::{pack, unpack, validate_composition, COMPOSITION_SLOTS};
use refprop_sys::flags::{decode_flag, encode_flag};
use refprop_sys::float_bits::{greater_than_one, greater_than_zero, less_than_zero, not_above_zero};
use refprop_sys::native::{FlashCall, FlashEntry, FlashSlots, NativeInterface, QualitySlots};
use refprop_sys::sentinel::{heat_capacity, CP_UNDEFINED, CV_UNDEFINED};
use refprop_sys::setup::OUTPUT_UNDEFINED;
use refprop_sys::text::{decode_field, pack_text, pack_text_truncated};
use refprop_sys::diagnostics::{check_refprop_error, message_error};
use refprop_sys::{
    composite_flag, Basis, Composition, GetEnumFlag, KrKqFlag, Phase, RefpropError,
    RefpropFunctionLibrary, Units,
};

/// A stand-in for the native library that records what it is handed.
struct StandIn {
    calls: Cell<usize>,
    message_calls: Cell<usize>,
    flash_ierr: Cell<i32>,
    message: RefCell<Vec<u8>>,
    single_phase: Cell<bool>,
    mixture: RefCell<Vec<f64>>,
    names: RefCell<Vec<String>>,
    last_entry: Cell<Option<FlashEntry>>,
    last_code: RefCell<Vec<u8>>,
    last_flag: Cell<i32>,
    last_z: RefCell<Vec<u64>>,
    last_text: RefCell<Vec<u8>>,
    molar_mass: Cell<f64>,
    first_output: Cell<f64>,
}

fn stand_in() -> StandIn {
    StandIn {
        calls: Cell::new(0),
        message_calls: Cell::new(0),
        flash_ierr: Cell::new(0),
        message: RefCell::new(b"stand-in failure".to_vec()),
        single_phase: Cell::new(true),
        mixture: RefCell::new(vec![0.688, 0.312]),
        names: RefCell::new(vec!["R32".to_string(), "R125".to_string(), "R1234YF".to_string()]),
        last_entry: Cell::new(None),
        last_code: RefCell::new(Vec::new()),
        last_flag: Cell::new(-1),
        last_z: RefCell::new(Vec::new()),
        last_text: RefCell::new(Vec::new()),
        molar_mass: Cell::new(60.0),
        first_output: Cell::new(42.0),
    }
}

fn text_of(field: &[c_char]) -> Vec<u8> {
    field.iter().take_while(|c| **c != 0).map(|c| *c as u8).collect()
}

fn write_text(field: &mut [c_char], text: &[u8]) {
    for (slot, b) in field.iter_mut().zip(text.iter()) {
        *slot = *b as c_char;
    }
}

impl StandIn {
    fn enter(&self) {
        self.calls.set(self.calls.get() + 1);
    }
}

impl NativeInterface for StandIn {
    fn error_message(&self, herr: &mut [c_char; 255]) {
        self.message_calls.set(self.message_calls.get() + 1);
        write_text(herr, &self.message.borrow());
    }

    fn flash(
        &self,
        entry: FlashEntry,
        call: &FlashCall,
        slots: &mut FlashSlots,
        _herr: &mut [c_char; 255],
    ) -> i32 {
        self.enter();
        self.last_entry.set(Some(entry));
        *self.last_code.borrow_mut() = text_of(&call.code);
        self.last_flag.set(call.flag);
        *self.last_z.borrow_mut() = call.z.to_vec();
        if slots.t == 0 {
            slots.t = 300.0f64.to_bits();
        }
        if slots.p == 0 {
            slots.p = 1300.0f64.to_bits();
        }
        if slots.d == 0 {
            slots.d = 10.0f64.to_bits();
        }
        if slots.h == 0 {
            slots.h = 25000.0f64.to_bits();
        }
        for i in 0..COMPOSITION_SLOTS {
            slots.x[i] = call.z[i];
            slots.y[i] = call.z[i];
        }
        if self.single_phase.get() {
            slots.cv = 70.0f64.to_bits();
            slots.cp = 90.0f64.to_bits();
        }
        self.flash_ierr.get()
    }

    fn get_enum(&self, flag: i32, henum: &[c_char; 255], _herr: &mut [c_char; 255]) -> (i32, i32) {
        self.enter();
        *self.last_text.borrow_mut() = text_of(henum);
        (100 + flag, 0)
    }

    fn name(
        &self,
        icomp: i32,
        hnam: &mut [c_char; 12],
        hn80: &mut [c_char; 80],
        hcasn: &mut [c_char; 12],
    ) {
        self.enter();
        let k = icomp.unsigned_abs() as usize;
        let names = self.names.borrow();
        if k >= 1 && k <= names.len() {
            let n = &names[k - 1];
            write_text(hnam, format!("{:<11}", n).as_bytes());
            write_text(hn80, format!("{}.FLD   ", n).as_bytes());
            write_text(hcasn, b"75-10-5");
        }
    }

    fn set_fluids(&self, hfld: &[c_char; 10000]) -> i32 {
        self.enter();
        *self.last_text.borrow_mut() = text_of(hfld);
        0
    }

    fn set_path(&self, hpath: &[c_char; 255]) {
        self.enter();
        *self.last_text.borrow_mut() = text_of(hpath);
    }

    fn set_mixture(&self, hmix: &[c_char; 255], z: &mut [u64; 20]) -> i32 {
        self.enter();
        *self.last_text.borrow_mut() = text_of(hmix);
        for (slot, v) in z.iter_mut().zip(self.mixture.borrow().iter()) {
            *slot = v.to_bits();
        }
        0
    }

    fn pure_fld(&self, _icomp: i32) {
        self.enter();
    }

    fn satspln(&self, _z: &[u64; 20], _herr: &mut [c_char; 255]) -> i32 {
        self.enter();
        0
    }

    fn critp(&self, _z: &[u64; 20], _herr: &mut [c_char; 255]) -> (u64, u64, u64, i32) {
        self.enter();
        (351.255f64.to_bits(), 5782.0f64.to_bits(), 8.1500846f64.to_bits(), 0)
    }

    fn wmol(&self, _z: &[u64; 20]) -> u64 {
        self.enter();
        self.molar_mass.get().to_bits()
    }

    fn xmass(&self, xmol: &[u64; 20], xkg: &mut [u64; 20]) -> u64 {
        self.enter();
        *xkg = *xmol;
        self.molar_mass.get().to_bits()
    }

    fn xmole(&self, xkg: &[u64; 20], xmol: &mut [u64; 20]) -> u64 {
        self.enter();
        *xmol = *xkg;
        self.molar_mass.get().to_bits()
    }

    fn qmass(
        &self,
        qmol: u64,
        xl: &[u64; 20],
        xv: &[u64; 20],
        out: &mut QualitySlots,
        _herr: &mut [c_char; 255],
    ) -> i32 {
        self.enter();
        out.quality = qmol;
        out.liquid = *xl;
        out.vapor = *xv;
        out.liquid_molar_mass = 52.0f64.to_bits();
        out.vapor_molar_mass = 60.0f64.to_bits();
        0
    }

    fn qmole(
        &self,
        qkg: u64,
        xlkg: &[u64; 20],
        xvkg: &[u64; 20],
        out: &mut QualitySlots,
        herr: &mut [c_char; 255],
    ) -> i32 {
        self.qmass(qkg, xlkg, xvkg, out, herr)
    }

    fn trnprp(&self, _t: u64, _d: u64, _z: &[u64; 20], _herr: &mut [c_char; 255]) -> (u64, u64, i32) {
        self.enter();
        (12.0f64.to_bits(), 0.013f64.to_bits(), 0)
    }

    fn allprops0(
        &self,
        count: i32,
        iout: &[i32; 200],
        _iflag: i32,
        _t: u64,
        _d: u64,
        _z: &[u64; 20],
        output: &mut [u64; 200],
        _herr: &mut [c_char; 255],
    ) -> i32 {
        self.enter();
        for i in 0..count as usize {
            output[i] = (iout[i] as f64).to_bits();
        }
        0
    }

    fn allprops1(
        &self,
        hout: &[c_char; 255],
        iunits: i32,
        _t: u64,
        _d: u64,
        _z: &[u64; 20],
        output: &mut [u64; 200],
        _herr: &mut [c_char; 255],
    ) -> i32 {
        self.enter();
        *self.last_text.borrow_mut() = text_of(hout);
        self.last_flag.set(iunits);
        output[0] = self.first_output.get().to_bits();
        0
    }
}

fn bits(v: &[f64]) -> Vec<u64> {
    v.iter().map(|x| x.to_bits()).collect()
}

fn composition(v: &[f64]) -> Composition {
    let sum: f64 = v.iter().sum();
    Composition::new(bits(v), (sum - 1.0).abs() <= 1e-6)
}

fn composition_of_bits(v: &[u64]) -> Composition {
    let floats: Vec<f64> = v.iter().map(|b| f64::from_bits(*b)).collect();
    composition(&floats)
}

fn library() -> RefpropFunctionLibrary<StandIn> {
    RefpropFunctionLibrary::new(stand_in())
}

fn is_invalid<T>(r: &Result<T, RefpropError>) -> bool {
    matches!(r, Err(RefpropError::InvalidInput(_)))
}

#[test]
fn test_pd_flash() -> Result<(), RefpropError> {
    let lib = library();
    let _ = lib.set_path("/opt/refprop");
    let z = lib.set_mixture("R454B")?;
    let z = composition_of_bits(&z);

    let p = 1300.0f64;
    let d = 1.0f64;
    let result = lib.pd_flash(p.to_bits(), d.to_bits(), &z)?;

    println!("{:?}", result);
    Ok(())
}

#[test]
fn test_pq_flash() -> Result<(), RefpropError> {
    let lib = library();
    let _ = lib.set_path("/opt/refprop");
    let z = lib.set_mixture("R454B")?;
    let z = composition_of_bits(&z);

    let p = 1300.0f64;
    let q = 0.9f64;
    let result =
        lib.pq_flash(p.to_bits(), q.to_bits(), &z, Basis::Molar, Phase::TwoPhase, KrKqFlag::Default)?;

    println!("{:?}", result);
    Ok(())
}

#[test]
fn test_td_flash() -> Result<(), RefpropError> {
    let lib = library();
    let _ = lib.set_path("/opt/refprop");
    let z = lib.set_mixture("R454B")?;
    let z = composition_of_bits(&z);

    let t = 300.0f64;
    let d = 0.5f64;
    let result = lib.td_flash(t.to_bits(), d.to_bits(), &z)?;

    println!("{:?}", result);
    Ok(())
}

#[test]
fn test_filename() -> Result<(), RefpropError> {
    let lib = library();
    lib.set_path("/opt/refprop")?;
    lib.set_mixture("R457A.MIX")?;

    let name1 = lib.get_filename(1)?;
    let name2 = lib.get_filename(2)?;
    let name3 = lib.get_filename(3)?;
    let name4 = lib.get_filename(4)?;

    assert!(name4.is_empty());

    println!("{0} * {1} * {2} * {3}", name1, name2, name3, name4);
    Ok(())
}

#[test]
fn validator_accepts_normalised_compositions() {
    assert!(validate_composition(&composition(&[1.0])).is_ok());
    assert!(validate_composition(&composition(&[0.5, 0.5])).is_ok());
    assert!(validate_composition(&composition(&[0.05; 20])).is_ok());
    assert!(validate_composition(&composition(&[0.5, 0.5000005])).is_ok());
}

#[test]
fn validator_rejects_long_or_unnormalised_compositions() {
    let long = vec![1.0 / 21.0; 21];
    assert!(is_invalid(&validate_composition(&composition(&long))));
    assert!(is_invalid(&validate_composition(&composition(&[0.5, 0.6]))));
    assert!(is_invalid(&validate_composition(&composition(&[]))));
}

#[test]
fn pack_then_unpack_gives_the_sequence_back() {
    let seq: Vec<u64> = vec![3, 1, 4, 1, 5];
    let buf: [u64; 20] = pack(&seq, 0u64).unwrap();
    assert_eq!(&buf[..5], &[3, 1, 4, 1, 5]);
    assert!(buf[5..].iter().all(|v| *v == 0));
    assert_eq!(unpack(&buf, seq.len()), seq);

    let full: Vec<i32> = (0..200).collect();
    let buf: [i32; 200] = pack(&full, -1).unwrap();
    assert_eq!(unpack(&buf, 200), full);
}

#[test]
fn pack_rejects_a_sequence_longer_than_the_buffer() {
    let seq: Vec<u64> = vec![1; 21];
    let r: Result<[u64; 20], RefpropError> = pack(&seq, 0u64);
    assert!(is_invalid(&r));
}

#[test]
fn flags_encode_positionally_and_decode_back() {
    assert_eq!(encode_flag(1, 2, 4), 421);
    assert_eq!(decode_flag(421), (1, 2, 4));
    assert_eq!(composite_flag(Basis::Mass, Phase::Vapor, KrKqFlag::HigherDensity), 421);
    assert_eq!(composite_flag(Basis::Molar, Phase::Unknown, KrKqFlag::Default), 0);
    let mut seen = std::collections::HashSet::new();
    for a in 0..5 {
        for b in 0..5 {
            for c in 0..5 {
                let f = encode_flag(a, b, c);
                assert!(seen.insert(f));
                assert_eq!(decode_flag(f), (a, b, c));
            }
        }
    }
}

#[test]
fn heat_capacity_sentinels_become_absent() {
    assert_eq!(CV_UNDEFINED, (-9999990.0f64).to_bits());
    assert_eq!(CP_UNDEFINED, (-9999980.0f64).to_bits());
    assert_eq!(heat_capacity((-9999990.0f64).to_bits()), None);
    assert_eq!(heat_capacity((-9999980.0f64).to_bits()), None);
    let v = 75.5f64.to_bits();
    assert_eq!(heat_capacity(v), Some(v));
    assert_eq!(heat_capacity(heat_capacity(v).unwrap()), Some(v));
}

#[test]
fn float_comparisons_on_bit_patterns() {
    assert!(greater_than_one(1.5f64.to_bits()));
    assert!(!greater_than_one(1.0f64.to_bits()));
    assert!(!greater_than_one(f64::NAN.to_bits()));
    assert!(less_than_zero((-0.1f64).to_bits()));
    assert!(!less_than_zero((-0.0f64).to_bits()));
    assert!(greater_than_zero(0.25f64.to_bits()));
    assert!(!greater_than_zero(0.0f64.to_bits()));
    assert!(not_above_zero((-0.0f64).to_bits()));
    assert!(not_above_zero((-3.0f64).to_bits()));
    assert!(!not_above_zero(f64::NAN.to_bits()));
}

#[test]
fn text_fields_are_nul_terminated_and_checked() {
    let f: [c_char; 12] = pack_text("R32").unwrap();
    assert_eq!(text_of(&f), b"R32".to_vec());
    assert!(f[3..].iter().all(|c| *c == 0));
    let r: Result<[c_char; 4], RefpropError> = pack_text("ABCD");
    assert!(is_invalid(&r));
    let r: Result<[c_char; 12], RefpropError> = pack_text("R3\u{0}2");
    assert!(is_invalid(&r));
    let f: [c_char; 4] = pack_text_truncated("ABCDEF").unwrap();
    assert_eq!(text_of(&f), b"ABC".to_vec());
    assert_eq!(decode_field(&f).unwrap(), "ABC");
}

#[test]
fn message_decoding() {
    let mut f = [0 as c_char; 255];
    write_text(&mut f, "[SATT error 1] T < Tmin".as_bytes());
    match message_error(&f) {
        RefpropError::CalculationError(m) => assert_eq!(m, "[SATT error 1] T < Tmin"),
        other => panic!("unexpected {:?}", other),
    }
    write_text(&mut f, &[0xff, 0xfe]);
    assert!(matches!(message_error(&f), RefpropError::Utf8Error(_)));
}

#[test]
fn nonzero_code_fetches_the_native_message() {
    let lib = library();
    lib.native.flash_ierr.set(212);
    *lib.native.message.borrow_mut() = b"[TPFLSH error 212] no convergence".to_vec();
    let r = lib.pd_flash(1300.0f64.to_bits(), 1.0f64.to_bits(), &composition(&[1.0]));
    match r {
        Err(RefpropError::CalculationError(m)) => {
            assert_eq!(m, "[TPFLSH error 212] no convergence")
        }
        other => panic!("unexpected {:?}", other),
    }
    assert_eq!(lib.native.message_calls.get(), 1);
}

#[test]
fn zero_code_succeeds_without_a_message_lookup() {
    let lib = library();
    let guard = refprop_sys::gate::acquire_lock(&lib.gate).unwrap();
    let mut herr = [0 as c_char; 255];
    assert!(check_refprop_error(&lib.native, &guard, 0, &mut herr).is_ok());
    assert_eq!(lib.native.message_calls.get(), 0);
    assert!(herr.iter().all(|c| *c == 0));
    *lib.native.message.borrow_mut() = b"known message".to_vec();
    match check_refprop_error(&lib.native, &guard, -7, &mut herr) {
        Err(RefpropError::CalculationError(m)) => assert_eq!(m, "known message"),
        other => panic!("unexpected {:?}", other),
    }
    assert_eq!(lib.native.message_calls.get(), 1);
}

#[test]
fn pure_fluid_ph_flash_end_to_end() {
    let lib = library();
    lib.set_fluids("R32").unwrap();
    assert_eq!(lib.native.last_text.borrow().clone(), b"R32".to_vec());
    let z = composition(&[1.0]);
    let out = lib.ph_flash(101.325f64.to_bits(), 500.0f64.to_bits(), &z).unwrap();
    assert_eq!(lib.native.last_entry.get(), Some(FlashEntry::Ph));
    assert_eq!(out.P, 101.325f64.to_bits());
    assert_eq!(out.h, 500.0f64.to_bits());
    assert_eq!(out.T, 300.0f64.to_bits());
    assert_eq!(out.D, 10.0f64.to_bits());
    assert_eq!(out.x, vec![1.0f64.to_bits()]);
    assert_eq!(out.y, vec![1.0f64.to_bits()]);
    assert_eq!(out.Cv, Some(70.0f64.to_bits()));
    assert_eq!(out.Cp, Some(90.0f64.to_bits()));

    lib.native.single_phase.set(false);
    let out = lib.ph_flash(101.325f64.to_bits(), 500.0f64.to_bits(), &z).unwrap();
    assert_eq!(out.Cv, None);
    assert_eq!(out.Cp, None);
}

#[test]
fn composition_of_twenty_one_never_reaches_the_native_library() {
    let lib = library();
    let z = composition(&vec![1.0 / 21.0; 21]);
    let p = 1300.0f64.to_bits();
    assert!(is_invalid(&lib.pd_flash(p, p, &z)));
    assert!(is_invalid(&lib.ph_flash(p, p, &z)));
    assert!(is_invalid(&lib.td_flash(p, p, &z)));
    assert!(is_invalid(&lib.th_flash(p, p, &z, 1)));
    assert!(is_invalid(&lib.pq_flash(p, p, &z, Basis::Molar, Phase::Unknown, KrKqFlag::Default)));
    assert!(is_invalid(&lib.ab_flash("PH", p, p, &z, Basis::Molar, Phase::Unknown, KrKqFlag::Default)));
    assert!(is_invalid(&lib.calc_molar_mass(&z)));
    assert!(is_invalid(&lib.critical_parameters(&z)));
    assert!(is_invalid(&lib.transport_properties(p, p, &z)));
    assert!(is_invalid(&lib.satspln(&z)));
    assert!(is_invalid(&lib.convert_to_mass_fractions(&z)));
    assert!(is_invalid(&lib.all_props0(&vec![1], p, p, &z)));
    assert_eq!(lib.native.calls.get(), 0);
}

#[test]
fn quality_above_one_is_rejected_before_any_native_call() {
    let lib = library();
    let x = composition(&[0.5, 0.5]);
    let q = 1.5f64.to_bits();
    assert!(is_invalid(&lib.convert_to_mass_quality(q, &x, &x)));
    assert!(is_invalid(&lib.convert_to_mole_quality(q, &x, &x)));
    assert!(is_invalid(&lib.convert_to_mass_quality((-0.5f64).to_bits(), &x, &x)));
    assert_eq!(lib.native.calls.get(), 0);
    let out = lib.convert_to_mass_quality(0.25f64.to_bits(), &x, &x).unwrap();
    assert_eq!(out.quality, 0.25f64.to_bits());
    assert_eq!(out.liq_composition.len(), 2);
    assert_eq!(out.vap_composition.len(), 2);
    assert_eq!(out.vap_molar_mass, 60.0f64.to_bits());
}

#[test]
fn general_flash_checks_and_upper_cases_its_code() {
    let lib = library();
    let z = composition(&[1.0]);
    let a = 101.325f64.to_bits();
    let b = 500.0f64.to_bits();
    let out = lib.ab_flash("ph", a, b, &z, Basis::Mass, Phase::Vapor, KrKqFlag::QualityMass).unwrap();
    assert_eq!(lib.native.last_code.borrow().clone(), b"PH".to_vec());
    assert_eq!(lib.native.last_flag.get(), 1 + 20 + 200);
    assert_eq!(out.x.len(), 1);
    let z_sent = lib.native.last_z.borrow().clone();
    assert_eq!(z_sent.len(), 20);
    assert_eq!(z_sent[0], 1.0f64.to_bits());
    assert!(z_sent[1..].iter().all(|v| *v == 0));
    let calls = lib.native.calls.get();
    let flags = (Basis::Molar, Phase::Unknown, KrKqFlag::Default);
    assert!(is_invalid(&lib.ab_flash("PX", a, b, &z, flags.0, flags.1, flags.2)));
    assert!(is_invalid(&lib.ab_flash("PHT", a, b, &z, flags.0, flags.1, flags.2)));
    assert!(is_invalid(&lib.ab_flash("P", a, b, &z, flags.0, flags.1, flags.2)));
    assert_eq!(lib.native.calls.get(), calls);
}

#[test]
fn root_selector_must_be_one_or_two() {
    let lib = library();
    let z = composition(&[1.0]);
    let t = 300.0f64.to_bits();
    assert!(is_invalid(&lib.th_flash(t, t, &z, 0)));
    assert!(is_invalid(&lib.th_flash(t, t, &z, 3)));
    assert_eq!(lib.native.calls.get(), 0);
    lib.th_flash(t, t, &z, 2).unwrap();
    assert_eq!(lib.native.last_flag.get(), 2);
    assert_eq!(lib.native.last_entry.get(), Some(FlashEntry::Th));
}

#[test]
fn quality_flash_passes_composite_flag() {
    let lib = library();
    let z = composition(&[0.5, 0.5]);
    let out = lib
        .pq_flash(1300.0f64.to_bits(), (-99.0f64).to_bits(), &z, Basis::Molar, Phase::TwoPhase, KrKqFlag::QualityMolar)
        .unwrap();
    assert_eq!(lib.native.last_flag.get(), 130);
    assert_eq!(out.q, (-99.0f64).to_bits());
}

#[test]
fn mixture_composition_ends_at_first_non_positive_slot() {
    let lib = library();
    *lib.native.mixture.borrow_mut() = vec![0.25, 0.25, 0.5, 0.0, 0.7];
    let z = lib.set_mixture("R410A.MIX").unwrap();
    assert_eq!(z, bits(&[0.25, 0.25, 0.5]));
    assert_eq!(lib.native.last_text.borrow().clone(), b"R410A.MIX".to_vec());
    assert!(is_invalid(&lib.set_mixture("R410A\u{0}")));
}

#[test]
fn fluid_list_must_fit_its_field() {
    let lib = library();
    let long = "A".repeat(10000);
    assert!(is_invalid(&lib.set_fluids(&long)));
    assert!(is_invalid(&lib.set_fluids("ARGON\u{0}")));
    assert_eq!(lib.native.calls.get(), 0);
    let fits = "B".repeat(9999);
    lib.set_fluids(&fits).unwrap();
    assert_eq!(lib.native.last_text.borrow().len(), 9999);
}

#[test]
fn long_paths_are_rejected_and_enum_strings_cut() {
    let lib = library();
    let path = "p".repeat(300);
    assert!(is_invalid(&lib.set_path(&path)));
    assert!(is_invalid(&lib.set_path(&"p".repeat(255))));
    assert_eq!(lib.native.calls.get(), 0);
    lib.set_path(&"p".repeat(254)).unwrap();
    assert_eq!(lib.native.last_text.borrow().len(), 254);
    let code = lib.get_enum(GetEnumFlag::TrivialOnly, &"E".repeat(300)).unwrap();
    assert_eq!(code, 103);
    assert_eq!(lib.native.last_text.borrow().len(), 254);
    assert!(is_invalid(&lib.get_enum(GetEnumFlag::AllStrings, "S\u{0}I")));
}

#[test]
fn names_are_trimmed() {
    let lib = library();
    let n = lib.name(1).unwrap();
    assert_eq!(n.hnam, "R32");
    assert_eq!(n.hn80, "R32.FLD");
    assert_eq!(n.hcasn, "75-10-5");
    assert_eq!(lib.get_filename(2).unwrap(), "R125.FLD");
    assert!(is_invalid(&lib.get_filename(usize::MAX)));
}

#[test]
fn unit_systems_resolve_through_the_enumeration() {
    let lib = library();
    assert_eq!(Units::MassSI.get_iunits_code(&lib).unwrap(), 101);
    assert_eq!(lib.native.last_text.borrow().clone(), b"MASS SI".to_vec());
    assert!(is_invalid(&Units::User.get_iunits_code(&lib)));
    assert!(is_invalid(&Units::Custom("X".to_string()).get_iunits_code(&lib)));
}

#[test]
fn bulk_properties() {
    let lib = library();
    let z = composition(&[1.0]);
    let t = 300.0f64.to_bits();
    let out = lib.all_props0(&vec![3, 5, 7], t, t, &z).unwrap();
    assert_eq!(out, bits(&[3.0, 5.0, 7.0]));
    assert!(is_invalid(&lib.all_props0(&vec![1; 201], t, t, &z)));

    assert_eq!(lib.all_props1("CP", Units::MolarSI, t, t, &z).unwrap(), 42.0f64.to_bits());
    assert_eq!(lib.native.last_text.borrow().clone(), b"CP".to_vec());
    assert_eq!(lib.native.last_flag.get(), 101);
    lib.native.first_output.set(-999970.0);
    assert_eq!(OUTPUT_UNDEFINED, (-999970.0f64).to_bits());
    assert!(matches!(
        lib.all_props1("CP", Units::MolarSI, t, t, &z),
        Err(RefpropError::CalculationError(_))
    ));
    assert!(is_invalid(&lib.all_props1(&"C".repeat(255), Units::MolarSI, t, t, &z)));
    assert!(is_invalid(&lib.all_props1("CP", Units::User, t, t, &z)));
}

#[test]
fn fraction_conversions_treat_non_positive_molar_mass_as_failure() {
    let lib = library();
    let z = composition(&[0.4, 0.6]);
    let (mass, wmm) = lib.convert_to_mass_fractions(&z).unwrap();
    assert_eq!(mass, bits(&[0.4, 0.6]));
    assert_eq!(wmm, 60.0f64.to_bits());
    let (mole, _) = lib.convert_to_mole_fractions(&z).unwrap();
    assert_eq!(mole.len(), 2);
    lib.native.molar_mass.set(0.0);
    assert!(matches!(lib.convert_to_mass_fractions(&z), Err(RefpropError::CalculationError(_))));
    assert!(matches!(lib.convert_to_mole_fractions(&z), Err(RefpropError::CalculationError(_))));
}

#[test]
fn molar_mass_and_critical_point_accept_unnormalised_vectors() {
    let lib = library();
    let z = composition(&[2.0, 3.0]);
    assert_eq!(lib.calc_molar_mass(&z).unwrap(), 60.0f64.to_bits());
    let c = lib.critical_parameters(&z).unwrap();
    assert_eq!(c.Tc, 351.255f64.to_bits());
    assert!(is_invalid(&lib.transport_properties(1, 1, &z)));
    let t = lib.transport_properties(1, 1, &composition(&[1.0])).unwrap();
    assert_eq!(t.eta, 12.0f64.to_bits());
}

#[test]
fn pure_fluid_selection() {
    let lib = library();
    lib.pure_fld(2).unwrap();
    assert!(is_invalid(&lib.pure_fld(usize::MAX)));
    assert_eq!(lib.native.calls.get(), 1);
}

#[test]
fn every_flash_entry_receives_its_inputs_in_their_slots() {
    let lib = library();
    let z = composition(&[1.0]);
    let a = 11.0f64.to_bits();
    let b = 22.0f64.to_bits();
    let f = (Basis::Molar, Phase::Unknown, KrKqFlag::Default);
    let t = lib.tp_flash(a, b, &z).unwrap();
    assert_eq!((t.T, t.P), (a, b));
    let t = lib.ts_flash(a, b, &z, 1).unwrap();
    assert_eq!((t.T, t.s), (a, b));
    let t = lib.te_flash(a, b, &z, 2).unwrap();
    assert_eq!((t.T, t.e), (a, b));
    let t = lib.tq_flash(a, b, &z, f.0, f.1, f.2).unwrap();
    assert_eq!((t.T, t.q), (a, b));
    let t = lib.ps_flash(a, b, &z).unwrap();
    assert_eq!((t.P, t.s), (a, b));
    let t = lib.pe_flash(a, b, &z).unwrap();
    assert_eq!((t.P, t.e), (a, b));
    let t = lib.hs_flash(a, b, &z).unwrap();
    assert_eq!((t.h, t.s), (a, b));
    let t = lib.dh_flash(a, b, &z).unwrap();
    assert_eq!((t.D, t.h), (a, b));
    let t = lib.ds_flash(a, b, &z).unwrap();
    assert_eq!((t.D, t.s), (a, b));
    let t = lib.de_flash(a, b, &z).unwrap();
    assert_eq!((t.D, t.e), (a, b));
    assert_eq!(lib.native.last_entry.get(), Some(FlashEntry::De));
    assert!(is_invalid(&lib.ts_flash(a, b, &z, 5)));
    assert!(is_invalid(&lib.te_flash(a, b, &z, 0)));
}

#[test]
fn failures_carry_messages() {
    assert_eq!(
        RefpropError::CalculationError("[SATT error 1]".to_string()).message(),
        "Calculation failed: [SATT error 1]"
    );
    assert_eq!(RefpropError::InvalidInput("kr".to_string()).message(), "Invalid input: kr");
    assert_eq!(RefpropError::MutexPoisoned.message(), "Mutex was poisoned");
    let mut f = [0 as c_char; 255];
    write_text(&mut f, &[0xc3, 0x28]);
    let m = message_error(&f).message();
    assert!(m.starts_with("UTF-8 conversion error: "));
    assert!(m.len() > "UTF-8 conversion error: ".len());
}

#[test]
fn nan_quality_is_rejected() {
    let lib = library();
    let x = composition(&[0.5, 0.5]);
    assert!(is_invalid(&lib.convert_to_mass_quality(f64::NAN.to_bits(), &x, &x)));
    assert!(is_invalid(&lib.convert_to_mole_quality(f64::NAN.to_bits(), &x, &x)));
    assert_eq!(lib.native.calls.get(), 0);
    assert!(lib.convert_to_mass_quality((-0.0f64).to_bits(), &x, &x).is_ok());
    assert!(lib.convert_to_mole_quality(1.0f64.to_bits(), &x, &x).is_ok());
}

#[test]
fn nan_molar_mass_is_a_failure() {
    let lib = library();
    let z = composition(&[0.4, 0.6]);
    lib.native.molar_mass.set(f64::NAN);
    assert!(matches!(lib.convert_to_mass_fractions(&z), Err(RefpropError::CalculationError(_))));
    lib.native.molar_mass.set(-2.0);
    assert!(matches!(lib.convert_to_mole_fractions(&z), Err(RefpropError::CalculationError(_))));
}

#[test]
fn nan_fraction_fails_the_sum_test() {
    let z = composition(&[f64::NAN, 1.0]);
    match validate_composition(&z) {
        Err(RefpropError::InvalidInput(m)) => {
            assert_eq!(m, "Sum of mole fractions in 'z' does not equal 1 within tolerance.")
        }
        other => panic!("unexpected {:?}", other),
    }
    match validate_composition(&composition(&vec![0.05; 21])) {
        Err(RefpropError::InvalidInput(m)) => assert_eq!(m, "Composition slice 'z' length exceeds 20."),
        other => panic!("unexpected {:?}", other),
    }
}

#[test]
fn unit_names_and_filename_components() {
    let names = [
        (Units::Default, "DEFAULT"),
        (Units::MolarSI, "MOLAR SI"),
        (Units::MassSI, "MASS SI"),
        (Units::SIWithC, "SI WITH C"),
        (Units::MolarBaseSI, "MOLAR BASE SI"),
        (Units::MassBaseSI, "MASS BASE SI"),
        (Units::English, "ENGLISH"),
        (Units::MolarEnglish, "MOLAR ENGLISH"),
        (Units::MKS, "MKS"),
        (Units::CGS, "CGS"),
        (Units::Mixed, "MIXED"),
        (Units::MEUnits, "MEUNITS"),
    ];
    for (u, n) in names.iter() {
        assert_eq!(u.enum_name(), Some(*n));
    }
    assert_eq!(Units::User.enum_name(), None);
    assert_eq!(refprop_sys::misc::filename_component(3), -3);
    assert_eq!(refprop_sys::misc::filename_component(0), 0);
}

#[test]
fn undefined_bulk_output_message() {
    let lib = library();
    let z = composition(&[1.0]);
    lib.native.first_output.set(-999970.0);
    match lib.all_props1("CP", Units::MolarSI, 1, 1, &z) {
        Err(RefpropError::CalculationError(m)) => assert_eq!(m, "REFPROP unable to calculate output."),
        other => panic!("unexpected {:?}", other),
    }
}
