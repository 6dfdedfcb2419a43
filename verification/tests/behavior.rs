//! End-to-end behavior of `generate`: determinism, shape of each output
//! kind, the length bound, and seed derivation.

use seedgen::GenError;
use seedgen::MAX_LENGTH;
use seedgen::OutputKind;
use seedgen::derive_seed;
use seedgen::gen::gen_ascii;
use seedgen::gen::gen_num;
use seedgen::gen::gen_text;
use seedgen::generate;

#[test]
fn determinism_all_kinds() {
    for kind in [
        OutputKind::Num { hex: false },
        OutputKind::Num { hex: true },
        OutputKind::Text,
        OutputKind::Ascii,
    ] {
        let first = generate(98127312, 17, kind).unwrap();
        let second = generate(98127312, 17, kind).unwrap();
        assert_eq!(first, second);
    }
}

#[test]
fn length_exactness_text_and_ascii() {
    for length in 0..=MAX_LENGTH {
        let text = generate(5, length, OutputKind::Text).unwrap();
        assert_eq!(text.chars().count(), length as usize);
        let ascii = generate(5, length, OutputKind::Ascii).unwrap();
        assert_eq!(ascii.len(), length as usize);
    }
}

#[test]
fn text_stays_in_alphabet() {
    for seed in [0, 1, 44, 913, u64::MAX] {
        let text = generate(seed, 38, OutputKind::Text).unwrap();
        assert!(text.chars().all(|c| c.is_ascii_alphanumeric()));
    }
}

#[test]
fn ascii_stays_printable() {
    for seed in [0, 1, 1337, 913, u64::MAX] {
        let ascii = generate(seed, 38, OutputKind::Ascii).unwrap();
        assert!(ascii.bytes().all(|b| (32..=126).contains(&b)));
    }
}

#[test]
fn decimal_digit_count() {
    let out = generate(787, 5, OutputKind::Num { hex: false }).unwrap();
    assert_eq!(out, "84531");
    assert_eq!(out.len(), 5);
    for seed in [0, 7, 29, 7213] {
        let long = generate(seed, 38, OutputKind::Num { hex: false }).unwrap();
        assert!(long.len() <= 38);
        assert!(long.chars().all(|c| c.is_ascii_digit()));
    }
}

#[test]
fn zero_length_outputs() {
    assert_eq!(generate(911, 0, OutputKind::Num { hex: false }).unwrap(), "0");
    assert_eq!(generate(911, 0, OutputKind::Num { hex: true }).unwrap(), "00");
    assert_eq!(generate(911, 0, OutputKind::Text).unwrap(), "");
    assert_eq!(generate(911, 0, OutputKind::Ascii).unwrap(), "");
}

#[test]
fn hex_rendering_of_known_value() {
    // The same request as the first numeric vector: 84531 is 0x14A33.
    assert_eq!(generate(787, 5, OutputKind::Num { hex: true }).unwrap(), "14A33");
}

#[test]
fn hex_is_padded_and_upper_case() {
    for seed in [0, 3, 1000, 77777] {
        for length in [0, 1, 2, 9, 38] {
            let out = generate(seed, length, OutputKind::Num { hex: true }).unwrap();
            assert!(out.len() >= 2);
            assert!(out.chars().all(|c| c.is_ascii_digit() || ('A'..='F').contains(&c)));
        }
    }
}

#[test]
fn effective_seed_derivation() {
    assert_eq!(derive_seed(787, 5), 792);
    assert_eq!(derive_seed(u64::MAX, 0), u64::MAX);
    assert_eq!(derive_seed(u64::MAX, 1), 0);
    assert_eq!(derive_seed(u64::MAX, 38), 37);
}

#[test]
fn seed_sensitivity() {
    for (s1, s2, length) in [(0, 1, 8), (44, 45, 8), (u64::MAX, 0, 3)] {
        assert_ne!(derive_seed(s1, length), derive_seed(s2, length));
        let o1 = generate(s1, length, OutputKind::Text).unwrap();
        let o2 = generate(s2, length, OutputKind::Text).unwrap();
        assert_ne!(o1, o2);
    }
    // Changing the length alone also changes the effective seed.
    assert_ne!(derive_seed(787, 5), derive_seed(787, 6));
}

#[test]
fn over_long_requests_are_rejected() {
    for kind in [
        OutputKind::Num { hex: false },
        OutputKind::Num { hex: true },
        OutputKind::Text,
        OutputKind::Ascii,
    ] {
        for length in [39, 40, 100, u8::MAX] {
            assert_eq!(generate(5, length, kind).unwrap_err(), GenError::LengthOutOfRange);
        }
    }
}

#[test]
fn generate_matches_generators() {
    assert_eq!(
        generate(44, 8, OutputKind::Text).unwrap(),
        gen_text(8, derive_seed(44, 8))
    );
    assert_eq!(
        generate(1337, 13, OutputKind::Ascii).unwrap(),
        gen_ascii(13, derive_seed(1337, 13))
    );
    assert_eq!(
        generate(787, 5, OutputKind::Num { hex: false }).unwrap(),
        gen_num(5, derive_seed(787, 5)).to_string()
    );
}
