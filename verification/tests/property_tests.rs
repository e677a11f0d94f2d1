use pnr_core::property::{Property, PropertyError, State};

#[test]
fn state_char_round_trip() {
    assert_eq!(State::try_from_char('0'), Ok(State::S0));
    assert_eq!(State::try_from_char('1'), Ok(State::S1));
    assert_eq!(State::try_from_char('x'), Ok(State::Sx));
    assert_eq!(State::try_from_char('z'), Ok(State::Sz));
    assert_eq!(State::try_from_char('q'), Err(PropertyError::InvalidStateChar));
    assert_eq!(State::try_from_byte(b'1'), Ok(State::S1));
    assert_eq!(State::try_from_byte(b'!'), Err(PropertyError::InvalidStateChar));
    assert_eq!(State::try_from_opt_char(Some('z')), Ok(State::Sz));
    assert_eq!(State::try_from_opt_char(None), Err(PropertyError::MissingChar));
    assert_eq!(State::S0.to_char(), '0');
    assert_eq!(State::Sz.to_char(), 'z');
}

#[test]
fn with_width_encodes_low_bits() {
    let p = Property::with_width(5, 3);
    assert_eq!(p.as_int(), Ok(5));
    assert_eq!(p.size(), 3);
    assert!(p.is_fully_def());

    // The cache is the reconstruction of the stored bits, so a value
    // wider than the requested width is truncated.
    let p = Property::with_width(5, 2);
    assert_eq!(p.as_int(), Ok(1));

    // A negative value keeps its low bits.
    let p = Property::with_width(-1, 4);
    assert_eq!(p.as_int(), Ok(15));

    let p = Property::with_width(13, 0);
    assert_eq!(p.as_int(), Ok(0));
    assert_eq!(p.size(), 0);
}

#[test]
fn with_state_and_bool_coercion() {
    let one = Property::with_state(State::S1);
    assert_eq!(one.as_int(), Ok(1));
    assert!(one.as_bool());
    let zero = Property::with_state(State::S0);
    assert_eq!(zero.as_int(), Ok(0));
    assert!(!zero.as_bool());
    let x = Property::with_state(State::Sx);
    assert_eq!(x.as_int(), Ok(0));
    assert!(!x.is_fully_def());

    let s = Property::with_str("0010");
    assert!(s.as_bool());
    let s = Property::with_str("none here");
    assert!(!s.as_bool());
}

#[test]
fn conversions_fail_across_variants() {
    let s = Property::with_str("hello");
    assert_eq!(s.as_int(), Err(PropertyError::StringHasNoInt));
    assert!(s.to_bitvec().is_err());
    let i = Property::with_width(3, 2);
    assert!(i.as_string().is_err());
    assert_eq!(i.as_string().unwrap_err(), PropertyError::IntHasNoString);
    assert_eq!(s.as_string().unwrap().as_str(), "hello");
    assert_eq!(s.size(), 40);
}

#[test]
fn update_intval_recomputes_cache() {
    let mut p = Property::Int(State::S0, 999, vec![State::S1, State::S1, State::S0, State::S1]);
    p.update_intval();
    assert_eq!(p.as_int(), Ok(11));
}

#[test]
fn extract_slices_and_pads() {
    let p = Property::with_width(0b110, 3);
    let e = p.extract(1, 4, State::Sx);
    assert_eq!(e.as_int(), Ok(3));
    assert_eq!(e.size(), 4);
    assert!(!e.is_fully_def());
    let e = p.extract(0, 2, State::S0);
    assert_eq!(e.as_int(), Ok(2));
    assert!(e.is_fully_def());
}

#[test]
fn display_reverses_int_bits() {
    let p = Property::with_width(5, 4);
    assert_eq!(p.to_display_string().as_str(), "0101");
}

#[test]
fn display_escapes_ambiguous_strings() {
    assert_eq!(Property::with_str("01xz").to_display_string().as_str(), "01xz ");
    assert_eq!(Property::with_str("01 ").to_display_string().as_str(), "01  ");
    assert_eq!(Property::with_str("").to_display_string().as_str(), " ");
    assert_eq!(Property::with_str("hello").to_display_string().as_str(), "hello");
    assert_eq!(Property::with_str("0a1").to_display_string().as_str(), "0a1");
}

#[test]
fn from_string_distinguishes_bits_from_literals() {
    let p = Property::from_string("0100");
    assert_eq!(p.as_int(), Ok(4));
    let p = Property::from_string("01xz");
    assert_eq!(p.as_int(), Ok(4));
    assert!(!p.is_fully_def());

    let p = Property::from_string("0100 ");
    assert_eq!(p.as_string().unwrap().as_str(), "0100");
    let p = Property::from_string("plain text");
    assert_eq!(p.as_string().unwrap().as_str(), "plain text");
}

#[test]
fn display_parse_round_trip() {
    let cases = ["0101", "01xz", "hello", "0100 ", ""];
    for c in cases {
        let p = Property::with_str(c);
        let back = Property::from_string(p.to_display_string().as_str());
        assert_eq!(back.as_string().unwrap().as_str(), c);
    }
}

#[test]
fn packed_bits_round_trip() {
    let p = Property::with_width(0b1011, 4);
    let bits = p.to_bitvec().unwrap();
    assert_eq!(bits.len(), 4);
    assert_eq!(bits.get(0), true);
    assert_eq!(bits.get(1), true);
    assert_eq!(bits.get(2), false);
    assert_eq!(bits.get(3), true);
}

#[test]
fn packed_bits_matches_bitvec_crate() {
    // The packed form must agree with what bitvec itself collects.
    let expected: bitvec::vec::BitVec = [true, false, true].iter().copied().collect();
    let p = Property::with_width(0b101, 3);
    let bits = p.to_bitvec().unwrap();
    assert_eq!(bits.len(), expected.len());
    for i in 0..expected.len() {
        assert_eq!(bits.get(i), expected[i]);
    }
}

#[test]
fn property_default_is_empty_int() {
    let p = Property::default();
    assert_eq!(p.as_int(), Ok(0));
    assert_eq!(p.size(), 0);
    assert!(p.is_fully_def());
}
