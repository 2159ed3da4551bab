use gnss_signal::designator::contains;
use gnss_signal::text::chars_of;
use gnss_signal::{Carrier, Error, GNSSCarrier};
use std::str::FromStr;

const ALL: [Carrier; 10] = [
    Carrier::L1,
    Carrier::L5,
    Carrier::G1,
    Carrier::G2,
    Carrier::G3,
    Carrier::B2,
    Carrier::B6,
    Carrier::L6,
    Carrier::B8E8,
    Carrier::S,
];

fn megahertz(hertz: u64) -> f64 {
    hertz as f64 / 1.0e6
}

#[test]
fn test_carrier() {
    for desc in [
        "L1", "E1", "B1", "L5", "E5", "B5", "I5", "G1", "G3", "B2", "B6", "L6", "B8", "E8", "S",
    ] {
        assert!(
            Carrier::from_str(desc).is_ok(),
            "failed to parse \"{}\"",
            desc
        );
    }

    for (desc, freq_mhz) in [("L1", 1575.42), ("L5", 1176.45)] {
        let carrier = Carrier::from_str(desc).unwrap();
        assert_eq!(
            megahertz(carrier.frequency()),
            freq_mhz,
            "bad frequency for {}",
            carrier.to_string()
        );
    }

    for (desc, formatted) in [("L1", "L1"), ("E1", "L1")] {
        let carrier = Carrier::from_str(desc).unwrap();
        assert_eq!(carrier.to_string(), formatted);
    }
}

#[test]
fn frequency_table_in_hertz() {
    assert_eq!(Carrier::L1.frequency(), 1_575_420_000);
    assert_eq!(Carrier::L5.frequency(), 1_176_450_000);
    assert_eq!(Carrier::G1.frequency(), 1_602_000_000);
    assert_eq!(Carrier::G2.frequency(), 1_246_000_000);
    assert_eq!(Carrier::G3.frequency(), 1_201_000_000);
    assert_eq!(Carrier::B2.frequency(), 1_561_098_000);
    assert_eq!(Carrier::B6.frequency(), 1_268_520_000);
    assert_eq!(Carrier::L6.frequency(), 1_278_750_000);
    assert_eq!(Carrier::B8E8.frequency(), 1_191_795_000);
    assert_eq!(Carrier::S.frequency(), 2_492_028_000);
}

#[test]
fn frequency_table_in_megahertz() {
    let table = [
        (Carrier::L1, 1575.42),
        (Carrier::L5, 1176.45),
        (Carrier::G1, 1602.0),
        (Carrier::G2, 1246.0),
        (Carrier::G3, 1201.0),
        (Carrier::B2, 1561.098),
        (Carrier::B6, 1268.52),
        (Carrier::L6, 1278.75),
        (Carrier::B8E8, 1191.795),
        (Carrier::S, 2492.028),
    ];
    for (carrier, mhz) in table {
        let hertz = carrier.frequency();
        assert_eq!(megahertz(hertz), mhz);
        assert_eq!(megahertz(hertz) * 1.0e6, hertz as f64);
    }
}

#[test]
fn wavelength_in_nanometres() {
    assert_eq!(Carrier::L1.wavelength(), 190_293_672);
    assert_eq!(Carrier::L5.wavelength(), 254_828_048);
    assert_eq!(Carrier::G1.wavelength(), 187_136_365);
    assert_eq!(Carrier::G2.wavelength(), 240_603_898);
    assert_eq!(Carrier::G3.wavelength(), 249_619_032);
    assert_eq!(Carrier::B2.wavelength(), 192_039_486);
    assert_eq!(Carrier::B6.wavelength(), 236_332_464);
    assert_eq!(Carrier::L6.wavelength(), 234_441_804);
    assert_eq!(Carrier::B8E8.wavelength(), 251_547_000);
    assert_eq!(Carrier::S.wavelength(), 120_300_597);
}

#[test]
fn wavelength_is_light_speed_over_frequency() {
    for carrier in ALL {
        let hertz = carrier.frequency();
        let nanometres = carrier.wavelength();
        assert_eq!(nanometres, 299_792_458_000_000_000 / hertz);
        let metres = 299_792_458.0 / (megahertz(hertz) * 1.0e6);
        let rounded_down = nanometres as f64 / 1.0e9;
        assert!(rounded_down <= metres);
        assert!(metres - rounded_down < 1.0e-9);
    }
}

#[test]
fn every_designator_of_the_list_parses() {
    let expected = [
        ("L1", Carrier::L1),
        ("E1", Carrier::L1),
        ("B1", Carrier::L1),
        ("L5", Carrier::L5),
        ("E5", Carrier::L5),
        ("B5", Carrier::L5),
        ("I5", Carrier::L5),
        ("G1", Carrier::G1),
        ("G2", Carrier::G2),
        ("B2", Carrier::B2),
        ("B6", Carrier::B6),
        ("L6", Carrier::L6),
        ("B8", Carrier::B8E8),
        ("E8", Carrier::B8E8),
        ("S", Carrier::S),
    ];
    for (desc, carrier) in expected {
        assert_eq!(Carrier::from_str(desc), Ok(carrier), "{}", desc);
    }
}

#[test]
fn unknown_designator_is_refused() {
    assert_eq!(Carrier::from_str("XYZ"), Err(Error::UnknownCarrierSignal));
    assert_eq!(Carrier::from_str(""), Err(Error::UnknownCarrierSignal));
    assert_eq!(Carrier::from_str("   "), Err(Error::UnknownCarrierSignal));
    assert_eq!(Carrier::from_str("L"), Err(Error::UnknownCarrierSignal));
    assert_eq!(Carrier::from_str("1L"), Err(Error::UnknownCarrierSignal));
    assert_eq!(Carrier::from_str("L 1"), Err(Error::UnknownCarrierSignal));
    assert_eq!(Carrier::from_str("L2"), Err(Error::UnknownCarrierSignal));
}

#[test]
fn case_and_white_space_do_not_matter() {
    let padded = Carrier::from_str(" l1 ");
    let plain = Carrier::from_str("L1");
    let galileo = Carrier::from_str("e1");
    assert_eq!(padded, Ok(Carrier::L1));
    assert_eq!(padded, plain);
    assert_eq!(plain, galileo);
    assert_eq!(Carrier::from_str("\t g2\n"), Ok(Carrier::G2));
    assert_eq!(Carrier::from_str("\u{a0}b8\u{3000}"), Ok(Carrier::B8E8));
    assert_eq!(Carrier::from_str("s"), Ok(Carrier::S));
}

#[test]
fn upper_case_goes_by_unicode() {
    assert_eq!("\u{df}".to_uppercase(), "SS");
    assert_eq!(Carrier::from_str("\u{df}"), Ok(Carrier::S));
    assert_eq!(
        Carrier::from_uppercase("\u{df}"),
        Err(Error::UnknownCarrierSignal)
    );
}

#[test]
fn from_uppercase_leaves_the_case_alone() {
    assert_eq!(Carrier::from_uppercase("L1"), Ok(Carrier::L1));
    assert_eq!(Carrier::from_uppercase(" GPS_L1 "), Ok(Carrier::L1));
    assert_eq!(
        Carrier::from_uppercase("l1"),
        Err(Error::UnknownCarrierSignal)
    );
    assert_eq!(
        Carrier::from_uppercase("s"),
        Err(Error::UnknownCarrierSignal)
    );
    assert_eq!(Carrier::from_uppercase("S"), Ok(Carrier::S));
}

#[test]
fn codes_inside_longer_designators() {
    assert_eq!(Carrier::from_str("GPS_L1"), Ok(Carrier::L1));
    assert_eq!(Carrier::from_str("E5a"), Ok(Carrier::L5));
    assert_eq!(Carrier::from_str("GAL_E8"), Ok(Carrier::B8E8));
    assert_eq!(Carrier::from_str("qzss_l6"), Ok(Carrier::L6));
    assert_eq!(Carrier::from_str("GLO_G2"), Ok(Carrier::G2));
    assert_eq!(Carrier::from_str("IRNSS"), Ok(Carrier::S));
    assert_eq!(Carrier::from_str("GPS"), Ok(Carrier::S));
}

#[test]
fn the_first_code_in_the_order_of_the_rules_decides() {
    assert_eq!(Carrier::from_str("L5L1"), Ok(Carrier::L1));
    assert_eq!(Carrier::from_str("B8I5"), Ok(Carrier::L5));
    assert_eq!(Carrier::from_str("L6E8"), Ok(Carrier::B8E8));
    assert_eq!(Carrier::from_str("B6L6"), Ok(Carrier::L6));
    assert_eq!(Carrier::from_str("B2B6"), Ok(Carrier::B6));
    assert_eq!(Carrier::from_str("G1B2"), Ok(Carrier::B2));
    assert_eq!(Carrier::from_str("G2G1"), Ok(Carrier::G1));
    assert_eq!(Carrier::from_str("SG2"), Ok(Carrier::G2));
    assert_eq!(Carrier::from_str("SG3"), Ok(Carrier::G1));
    assert_eq!(Carrier::from_str("S1"), Ok(Carrier::S));
}

#[test]
fn g3_resolves_to_g1() {
    assert_eq!(Carrier::from_str("G3"), Ok(Carrier::G1));
    assert_eq!(Carrier::from_str("glo_g3"), Ok(Carrier::G1));
}

#[test]
fn formatting_after_parsing_is_no_round_trip() {
    assert_eq!(Carrier::from_str("E1").unwrap().to_string(), "L1");
    assert_eq!(Carrier::from_str("E8").unwrap().to_string(), "B8");
    assert_eq!(Carrier::from_str("I5").unwrap().to_string(), "L5");
}

#[test]
fn codes_of_all_carriers() {
    assert_eq!(Carrier::L1.to_string(), "L1");
    assert_eq!(Carrier::L5.to_string(), "L5");
    assert_eq!(Carrier::L6.to_string(), "L6");
    assert_eq!(Carrier::G1.to_string(), "G1");
    assert_eq!(Carrier::G2.to_string(), "G2");
    assert_eq!(Carrier::G3.to_string(), "G3");
    assert_eq!(Carrier::B2.to_string(), "B2");
    assert_eq!(Carrier::B6.to_string(), "B6");
    assert_eq!(Carrier::B8E8.to_string(), "B8");
    assert_eq!(Carrier::S.to_string(), "S");
}

#[test]
fn a_code_resolves_to_its_carrier_but_for_g3() {
    for carrier in ALL {
        let resolved = Carrier::from_uppercase(&carrier.to_string());
        if carrier == Carrier::G3 {
            assert_eq!(resolved, Ok(Carrier::G1));
        } else {
            assert_eq!(resolved, Ok(carrier));
        }
    }
}

#[test]
fn parsing_through_the_trait() {
    assert_eq!("L5".parse::<Carrier>(), Ok(Carrier::L5));
    assert_eq!(" e8 ".parse::<Carrier>(), Ok(Carrier::B8E8));
    assert_eq!(
        "XYZ".parse::<Carrier>(),
        Err(Error::UnknownCarrierSignal)
    );
    assert_eq!(
        <Carrier as FromStr>::from_str("b1"),
        Ok(Carrier::L1)
    );
}

#[test]
fn default_carrier_is_l1() {
    assert_eq!(Carrier::default(), Carrier::L1);
}

#[test]
fn carriers_are_ordered_as_declared() {
    for pair in ALL.windows(2) {
        assert!(pair[0] < pair[1]);
    }
    let mut sorted = vec![Carrier::S, Carrier::G2, Carrier::L1, Carrier::B8E8];
    sorted.sort();
    assert_eq!(
        sorted,
        vec![Carrier::L1, Carrier::G2, Carrier::B8E8, Carrier::S]
    );
}

#[test]
fn contains_finds_a_piece_wherever_it_stands() {
    let text = chars_of("GPS_L1");
    assert!(contains(&text, &['G', 'P']));
    assert!(contains(&text, &['S', '_', 'L']));
    assert!(contains(&text, &['L', '1']));
    assert!(contains(&text, &['1']));
    assert!(contains(&text, &text));
    assert!(!contains(&text, &['L', '2']));
    assert!(!contains(&text, &['1', 'L']));
    assert!(!contains(&text, &['G', 'S']));
    assert!(!contains(&text, &['G', 'P', 'S', '_', 'L', '1', ' ']));
}

#[test]
fn contains_with_empty_arguments() {
    assert!(contains(&[], &[]));
    assert!(contains(&['A'], &[]));
    assert!(!contains(&[], &['A']));
}

#[test]
fn contains_with_repeated_characters() {
    let text = chars_of("LLL1");
    assert!(contains(&text, &['L', '1']));
    assert!(contains(&text, &['L', 'L', '1']));
    assert!(!contains(&text, &['L', '1', '1']));
}

#[test]
fn chars_of_keeps_every_character() {
    assert_eq!(chars_of(""), Vec::<char>::new());
    assert_eq!(chars_of("E5a"), vec!['E', '5', 'a']);
    assert_eq!(chars_of("\u{df}\u{20ac} "), vec!['\u{df}', '\u{20ac}', ' ']);
}

#[test]
fn messages_of_the_errors() {
    assert_eq!(
        Error::UnknownCarrierSignal.to_string(),
        "unknown carrier signal"
    );
    assert_eq!(
        Error::InvalidCarrierSignal.to_string(),
        "invalid carrier signal"
    );
    assert_eq!(
        Error::InvalidFDMAChannel.to_string(),
        "invalid glonass fdma channel [-7, +6]"
    );
}
