use finalunlock::error::ActivationError;
use finalunlock::finalshell::{
    extract_key, variant_for_label, ActivationCodeGenerator, FinalShellVersionType, LicenseType,
};
use finalunlock::machine_code::MachineCode;
use finalunlock::models::FinalShellVersion;
use finalunlock::salt::{salt_spec, HashFamily, SaltSpec};

fn is_key(s: &str) -> bool {
    s.len() == 16 && s.chars().all(|c| c.is_ascii_digit() || ('A'..='F').contains(&c))
}

#[test]
fn test_validate_machine_code() {
    assert!(ActivationCodeGenerator::validate_machine_code("ABC123DEF456"));
    assert!(ActivationCodeGenerator::validate_machine_code("abc-123-def"));
    assert!(!ActivationCodeGenerator::validate_machine_code(""));
    assert!(!ActivationCodeGenerator::validate_machine_code("123"));
    assert!(!ActivationCodeGenerator::validate_machine_code("ABC@123"));
}

#[test]
fn test_clean_machine_code() {
    let input = " ABC 123\nDEF\t456 ";
    let expected = "ABC123DEF456";
    assert_eq!(ActivationCodeGenerator::clean_machine_code(input), expected);
}

#[test]
fn test_generate_activation_code() {
    let machine_code = "ABC123DEF456";
    let result = ActivationCodeGenerator::generate(machine_code);
    assert!(result.is_ok());

    let (activation_code, _version) = result.unwrap();
    assert!(!activation_code.is_empty());
    assert_eq!(activation_code.len(), 16);
}

#[test]
fn test_generate_all_codes() {
    let machine_code = "ABC123DEF456";
    let result = ActivationCodeGenerator::generate_all(machine_code);
    assert!(result.is_ok());

    let results = result.unwrap();
    assert_eq!(results.len(), 4);

    for activation_result in results {
        assert!(!activation_result.advanced_code.is_empty());
        assert!(!activation_result.professional_code.is_empty());
        assert_eq!(activation_result.advanced_code.len(), 16);
        assert_eq!(activation_result.professional_code.len(), 16);
    }
}

#[test]
fn test_format_all_codes() {
    let machine_code = "ABC123DEF456";
    let result = ActivationCodeGenerator::format_all_codes(machine_code);
    assert!(result.is_ok());

    let formatted = result.unwrap();
    assert!(formatted.contains("FinalShell < 3.9.6"));
    assert!(formatted.contains("FinalShell ≥ 3.9.6"));
    assert!(formatted.contains("FinalShell 4.5"));
    assert!(formatted.contains("FinalShell 4.6"));
    assert!(formatted.contains("高级版"));
    assert!(formatted.contains("专业版"));
}

#[test]
fn test_version_detection() {
    let short_code = "ABC123";
    let version = FinalShellVersion::detect_version(short_code);
    assert_eq!(version.version, "< 3.9.6");
    assert!(version.is_legacy);

    let long_code = "ABC123DEF456GHI789JKL012";
    let version = FinalShellVersion::detect_version(long_code);
    assert_ne!(version.version, "< 3.9.6");
    assert!(!version.is_legacy);
}

#[test]
fn validate_rejects_short_and_foreign_characters() {
    assert!(!ActivationCodeGenerator::validate_machine_code("ABC1234"));
    assert!(ActivationCodeGenerator::validate_machine_code("ABC12345"));
    assert!(ActivationCodeGenerator::validate_machine_code("abc123@def456"));
    assert!(ActivationCodeGenerator::validate_machine_code("user_001@machine"));
    assert!(!ActivationCodeGenerator::validate_machine_code("ABC 123 DEF 456"));
    assert!(!ActivationCodeGenerator::validate_machine_code("ABC.123.DEF"));
    assert!(!ActivationCodeGenerator::validate_machine_code("ABC#123#DEF"));
    assert!(!ActivationCodeGenerator::validate_machine_code("机器码机器码机器码"));
}

#[test]
fn validate_measures_the_trimmed_input() {
    assert!(ActivationCodeGenerator::validate_machine_code("  ABC123DEF456\n"));
    assert!(ActivationCodeGenerator::validate_machine_code("\u{3000}ABC12345\u{a0}"));
    assert!(!ActivationCodeGenerator::validate_machine_code("   ABC12   "));
    assert!(!ActivationCodeGenerator::validate_machine_code("            "));
}

#[test]
fn clean_strips_blanks_inside_but_only_blanks() {
    assert_eq!(ActivationCodeGenerator::clean_machine_code(""), "");
    assert_eq!(ActivationCodeGenerator::clean_machine_code(" \t\r\n "), "");
    assert_eq!(ActivationCodeGenerator::clean_machine_code("A\r\nB"), "AB");
    assert_eq!(ActivationCodeGenerator::clean_machine_code("\u{2003}A\u{2003}B\u{2003}"), "A\u{2003}B");
    assert_eq!(ActivationCodeGenerator::clean_machine_code("A\u{b}B"), "A\u{b}B");
}

#[test]
fn parse_validates_then_cleans() {
    let code = MachineCode::parse("  ABC123DEF456 \n").unwrap();
    assert_eq!(code.as_str(), "ABC123DEF456");
    assert!(matches!(MachineCode::parse("ABC 123 DEF 456"), Err(ActivationError::InvalidMachineCode)));
    assert!(matches!(MachineCode::parse("123"), Err(ActivationError::InvalidMachineCode)));
    assert!(matches!(MachineCode::parse(""), Err(ActivationError::InvalidMachineCode)));
}

#[test]
fn classifier_rules_in_order() {
    let label = |code: &str| FinalShellVersion::detect_version(code).version;
    assert_eq!(label("ABC123"), "< 3.9.6");
    assert_eq!(label("ABC123DEF456GHI789JKL012"), "≥ 3.9.6");
    // 14 and 15 characters: the edge of the first rule
    assert_eq!(label("ABCDEFGHIJKLMN"), "< 3.9.6");
    assert_eq!(label("ABCDEFGHIJKLMNO"), "4.5");
    // 20 and 21 characters: the edge of the third rule
    assert_eq!(label("ABCDEFGHIJKLMNOPQRST"), "4.5");
    assert_eq!(label("ABCDEFGHIJKLMNOPQRSTU"), "≥ 3.9.6");
    // 26 characters without a dash stay on the third rule
    assert_eq!(label("ABCDEFGHIJKLMNOPQRSTUVWXYZ"), "≥ 3.9.6");
    // with a dash: 25 characters are not enough, 26 are
    assert_eq!(label("ABCDEFGHIJKL-NOPQRSTUVWXY"), "≥ 3.9.6");
    assert_eq!(label("ABCDEFGHIJKL-NOPQRSTUVWXYZ"), "4.6+");
    // a short code with a dash is still legacy
    assert_eq!(label("ABC-123"), "< 3.9.6");
    assert!(FinalShellVersion::detect_version("ABC-123").is_legacy);
    assert!(!FinalShellVersion::detect_version("ABCDEFGHIJKL-NOPQRSTUVWXYZ").is_legacy);
}

#[test]
fn classifier_counts_bytes() {
    // five characters of three bytes each
    assert_eq!(FinalShellVersion::detect_version("机器码机器").version, "4.5");
}

#[test]
fn labels_stand_for_variants() {
    assert_eq!(variant_for_label("< 3.9.6"), FinalShellVersionType::Legacy);
    assert_eq!(variant_for_label("≥ 3.9.6"), FinalShellVersionType::V396Plus);
    assert_eq!(variant_for_label("4.5"), FinalShellVersionType::V45);
    assert_eq!(variant_for_label("4.6+"), FinalShellVersionType::V46);
    assert_eq!(variant_for_label("4.6"), FinalShellVersionType::V396Plus);
    assert_eq!(variant_for_label(""), FinalShellVersionType::V396Plus);
}

#[test]
fn legacy_professional_golden_vector() {
    // MD5("2356ABC123DEF45613593") = 5a7fe69df0a82121ded0ada219c11471
    assert_eq!(
        ActivationCodeGenerator::calc_md5("2356ABC123DEF45613593"),
        "5a7fe69df0a82121ded0ada219c11471"
    );
    let result = ActivationCodeGenerator::generate_legacy("ABC123DEF456").unwrap();
    assert_eq!(result.professional_code, "F0A82121DED0ADA2");
    assert_eq!(result.advanced_code, "1E2A9542FD15BA67");
    assert_eq!(result.version_name, "FinalShell < 3.9.6");
    assert_eq!(result.version_type, FinalShellVersionType::Legacy);
}

#[test]
fn digests_of_known_inputs() {
    assert_eq!(ActivationCodeGenerator::calc_md5(""), "d41d8cd98f00b204e9800998ecf8427e");
    assert_eq!(
        ActivationCodeGenerator::calc_keccak384(""),
        "2c23146a63a29acf99e73b88f8c24eaa7dc60aa771780ccc006afbfa8fe2479b2dd2b21362337441ac12b515911957ff"
    );
    assert_eq!(
        ActivationCodeGenerator::calc_keccak384("abc"),
        "f7df1165f033337be098e7d288ad6a2f74409d7a60b49c36642218de161b1f99f8c681e4afaf31a34db29fb763e3c28e"
    );
}

#[test]
fn all_variants_golden_vectors() {
    let results = ActivationCodeGenerator::generate_all("ABC123DEF456").unwrap();
    let expected = [
        (FinalShellVersionType::Legacy, "FinalShell < 3.9.6", "1E2A9542FD15BA67", "F0A82121DED0ADA2"),
        (FinalShellVersionType::V396Plus, "FinalShell ≥ 3.9.6", "35182A1C2BA126F6", "70CBF092805F479D"),
        (FinalShellVersionType::V45, "FinalShell 4.5", "A691E37A0576367F", "6D55F88ACC24DECE"),
        (FinalShellVersionType::V46, "FinalShell 4.6+", "EF7B9E523B1E38BA", "67C27E5DFFC8506F"),
    ];
    assert_eq!(results.len(), 4);
    for (result, (variant, name, advanced, professional)) in results.iter().zip(expected.iter()) {
        assert_eq!(result.version_type, *variant);
        assert_eq!(result.version_name, *name);
        assert_eq!(result.advanced_code, *advanced);
        assert_eq!(result.professional_code, *professional);
    }
}

#[test]
fn per_variant_functions_agree_with_derive() {
    let code = "abc-123-def-456-ghi-789-jkl";
    let v396 = ActivationCodeGenerator::generate_v396_plus(code).unwrap();
    assert_eq!(v396.advanced_code, "6A3D46869D828F61");
    assert_eq!(v396.professional_code, "EB28D5A8627446D3");
    let v45 = ActivationCodeGenerator::generate_v45(code).unwrap();
    assert_eq!(v45.advanced_code, "BEE133BC3C05F685");
    assert_eq!(v45.professional_code, "3B7241E6AE77E9E8");
    let v46 = ActivationCodeGenerator::generate_v46(code).unwrap();
    assert_eq!(v46.advanced_code, "071AB4CD4F14F966");
    assert_eq!(v46.professional_code, "D50A67C66CC51848");
    let again = ActivationCodeGenerator::derive(code, FinalShellVersionType::V46).unwrap();
    assert_eq!(again.advanced_code, v46.advanced_code);
    assert_eq!(again.professional_code, v46.professional_code);
    assert_eq!(
        ActivationCodeGenerator::derive_key(code, FinalShellVersionType::V45, LicenseType::Advanced).unwrap(),
        "BEE133BC3C05F685"
    );
}

#[test]
fn default_key_follows_the_classifier() {
    // 12 characters: legacy
    let (key, version) = ActivationCodeGenerator::generate("ABC123DEF456").unwrap();
    assert_eq!(key, "F0A82121DED0ADA2");
    assert_eq!(version.version, "< 3.9.6");
    assert!(version.is_legacy);
    // 24 characters, no dash: 3.9.6 and later
    let (key, version) = ActivationCodeGenerator::generate("ABC123DEF456GHI789JKL012").unwrap();
    assert_eq!(key, "29E838E5BC33153B");
    assert_eq!(version.version, "≥ 3.9.6");
    // 27 characters with dashes: 4.6 and later
    let (key, version) = ActivationCodeGenerator::generate("abc-123-def-456-ghi-789-jkl").unwrap();
    assert_eq!(key, "D50A67C66CC51848");
    assert_eq!(version.version, "4.6+");
    assert!(!version.is_legacy);
}

#[test]
fn machine_code_is_hashed_as_utf8() {
    let result = ActivationCodeGenerator::generate_legacy("机器码").unwrap();
    assert_eq!(result.advanced_code, "B455908815C509E0");
    assert_eq!(result.professional_code, "DB7988A6E4947583");
    let result = ActivationCodeGenerator::generate_v46("机器码").unwrap();
    assert_eq!(result.advanced_code, "8707D7BE01C9D97C");
    assert_eq!(result.professional_code, "E1FAAA1CF0EA7D11");
}

#[test]
fn derivation_is_deterministic() {
    for code in ["ABC123DEF456", "abc123@def456", "x"] {
        let first = ActivationCodeGenerator::generate_all(code).unwrap();
        let second = ActivationCodeGenerator::generate_all(code).unwrap();
        for (a, b) in first.iter().zip(second.iter()) {
            assert_eq!(a.advanced_code.as_bytes(), b.advanced_code.as_bytes());
            assert_eq!(a.professional_code.as_bytes(), b.professional_code.as_bytes());
        }
    }
}

#[test]
fn every_key_is_sixteen_uppercase_hex_digits() {
    for code in ["ABC123DEF456", "", "a", "abc-123-def-456-ghi-789-jkl", "机器码", " spaced out "] {
        for result in ActivationCodeGenerator::generate_all(code).unwrap() {
            assert!(is_key(&result.advanced_code));
            assert!(is_key(&result.professional_code));
        }
        let (key, _) = ActivationCodeGenerator::generate(code).unwrap();
        assert!(is_key(&key));
    }
}

#[test]
fn extract_key_cuts_and_uppercases() {
    assert_eq!(
        extract_key("5a7fe69df0a82121ded0ada219c11471", 8, 24).unwrap(),
        "F0A82121DED0ADA2"
    );
    assert_eq!(extract_key("abcdef", 0, 6).unwrap(), "ABCDEF");
    assert_eq!(extract_key("abcdef", 2, 2).unwrap(), "");
    assert_eq!(extract_key("0123456789abcdef", 0, 16).unwrap(), "0123456789ABCDEF");
}

#[test]
fn extract_key_refuses_a_short_digest() {
    assert!(matches!(extract_key("abcdef", 0, 7), Err(ActivationError::DerivationError)));
    assert!(matches!(extract_key("", 8, 24), Err(ActivationError::DerivationError)));
    assert!(matches!(
        extract_key("5a7fe69df0a82121ded0ada", 8, 24),
        Err(ActivationError::DerivationError)
    ));
}

#[test]
fn derive_with_checks_the_range_against_the_family() {
    let inside = SaltSpec { family: HashFamily::Md5, prefix: "2356", suffix: "13593", start: 16, end: 32 };
    assert_eq!(
        ActivationCodeGenerator::derive_with("ABC123DEF456", &inside).unwrap(),
        "DED0ADA219C11471"
    );
    let outside = SaltSpec { family: HashFamily::Md5, prefix: "2356", suffix: "13593", start: 17, end: 33 };
    assert!(matches!(
        ActivationCodeGenerator::derive_with("ABC123DEF456", &outside),
        Err(ActivationError::DerivationError)
    ));
    let wide = SaltSpec { family: HashFamily::Keccak384, prefix: "", suffix: "", start: 80, end: 96 };
    assert_eq!(ActivationCodeGenerator::derive_with("", &wide).unwrap(), "AC12B515911957FF");
    let too_wide = SaltSpec { family: HashFamily::Keccak384, prefix: "", suffix: "", start: 81, end: 97 };
    assert!(matches!(
        ActivationCodeGenerator::derive_with("", &too_wide),
        Err(ActivationError::DerivationError)
    ));
}

#[test]
fn salt_table_entries() {
    let legacy = salt_spec(FinalShellVersionType::Legacy, LicenseType::Professional);
    assert_eq!(legacy.family, HashFamily::Md5);
    assert_eq!((legacy.prefix, legacy.suffix, legacy.start, legacy.end), ("2356", "13593", 8, 24));
    let legacy = salt_spec(FinalShellVersionType::Legacy, LicenseType::Advanced);
    assert_eq!((legacy.prefix, legacy.suffix, legacy.start, legacy.end), ("61305", "8552", 8, 24));
    for variant in [FinalShellVersionType::V396Plus, FinalShellVersionType::V45, FinalShellVersionType::V46] {
        for license in [LicenseType::Advanced, LicenseType::Professional] {
            let salt = salt_spec(variant, license);
            assert_eq!(salt.family, HashFamily::Keccak384);
            assert_eq!(salt.prefix, "");
            assert!(!salt.suffix.is_empty());
            assert_eq!((salt.start, salt.end), (12, 28));
        }
    }
}

#[test]
fn version_info_lines() {
    assert_eq!(ActivationCodeGenerator::detect_version_info("ABC123"), "FinalShell 3.9.6 以前版本");
    assert_eq!(
        ActivationCodeGenerator::detect_version_info("ABC123DEF456GHI789JKL012"),
        "FinalShell 3.9.6 及以后版本"
    );
    assert_eq!(ActivationCodeGenerator::detect_version_info("ABCDEFGHIJKLMNOP"), "FinalShell 4.5 版本");
    assert_eq!(
        ActivationCodeGenerator::detect_version_info("abc-123-def-456-ghi-789-jkl"),
        "FinalShell 4.6 及以后版本"
    );
}

#[test]
fn error_messages() {
    assert_eq!(ActivationError::InvalidMachineCode.message(), "invalid machine code");
    assert_eq!(ActivationError::DerivationError.message(), "digest too short for the key range");
}
