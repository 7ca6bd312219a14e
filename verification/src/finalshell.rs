//! The derivation engine: from a machine code to the activation keys of
//! each product variant.
//!
//! A key is made in three steps. The machine code is wrapped in the salt
//! of its variant and tier; the salted text is hashed; sixteen characters
//! are cut from a fixed place in the digest's hexadecimal text and put in
//! upper case.

use vstd::prelude::*;
use vstd::string::*;
use vstd::utf8::*;
use crate::digest::{keccak384_digest, keccak384_of, md5_digest, md5_of};
use crate::error::ActivationError;
use crate::hex::{
    encode_hex, is_activation_key, is_lower_hex_text, lemma_hex_lower_digits,
    lemma_upper_hex_window_is_key, to_ascii_upper, to_hex_lower, upper_window, KEY_LEN,
};
use crate::machine_code::{clean, clean_text, is_valid_machine_code, validate};
use crate::models::{
    classify, code_len, label_legacy, label_v396_plus, label_v45, label_v46, FinalShellVersion,
};
use crate::salt::{lemma_table_cuts_keys, salt_spec, salt_table, HashFamily, SaltSpec};
pub use crate::salt::{FinalShellVersionType, LicenseType};
use crate::text::{str_eq, to_chars};

verus! {

/// The keys of one product variant.
#[derive(Debug, Clone)]
pub struct ActivationResult {
    pub version_type: FinalShellVersionType,
    pub advanced_code: String,
    pub professional_code: String,
    pub version_name: String,
}

/// The mathematical value of an [`ActivationResult`].
pub struct ActivationResultView {
    pub version_type: FinalShellVersionType,
    pub advanced_code: Seq<char>,
    pub professional_code: Seq<char>,
    pub version_name: Seq<char>,
}

impl View for ActivationResult {
    type V = ActivationResultView;

    open spec fn view(&self) -> ActivationResultView {
        ActivationResultView {
            version_type: self.version_type,
            advanced_code: self.advanced_code@,
            professional_code: self.professional_code@,
            version_name: self.version_name@,
        }
    }
}

/// The text that is hashed: the machine code between the salt's prefix and
/// suffix.
pub open spec fn salted_input(code: Seq<char>, salt: SaltSpec) -> Seq<char> {
    salt.prefix@ + code + salt.suffix@
}

/// The lowercase hexadecimal text of the digest of `text`, hashed as UTF-8.
pub open spec fn digest_hex(family: HashFamily, text: Seq<char>) -> Seq<char> {
    match family {
        HashFamily::Md5 => to_hex_lower(md5_digest(encode_utf8(text))),
        HashFamily::Keccak384 => to_hex_lower(keccak384_digest(encode_utf8(text))),
    }
}

/// The characters `start..end` of `hex`, in upper case.
pub open spec fn key_window(hex: Seq<char>, start: int, end: int) -> Seq<char> {
    to_ascii_upper(hex.subrange(start, end))
}

/// The key that `salt` derives from `code`.
pub open spec fn derived_key(code: Seq<char>, salt: SaltSpec) -> Seq<char> {
    key_window(digest_hex(salt.family, salted_input(code, salt)), salt.start as int, salt.end as int)
}

/// The display name of a variant.
pub open spec fn version_name(variant: FinalShellVersionType) -> Seq<char> {
    match variant {
        FinalShellVersionType::Legacy => "FinalShell < 3.9.6"@,
        FinalShellVersionType::V396Plus => "FinalShell ≥ 3.9.6"@,
        FinalShellVersionType::V45 => "FinalShell 4.5"@,
        FinalShellVersionType::V46 => "FinalShell 4.6+"@,
    }
}

/// Both keys of a variant for `code`, with the variant's display name.
pub open spec fn activation_result(
    code: Seq<char>,
    variant: FinalShellVersionType,
) -> ActivationResultView {
    ActivationResultView {
        version_type: variant,
        advanced_code: derived_key(code, salt_table(variant, LicenseType::Advanced)),
        professional_code: derived_key(code, salt_table(variant, LicenseType::Professional)),
        version_name: version_name(variant),
    }
}

/// The variants in the order in which all results are listed.
pub open spec fn variant_at(i: int) -> FinalShellVersionType {
    if i == 0 {
        FinalShellVersionType::Legacy
    } else if i == 1 {
        FinalShellVersionType::V396Plus
    } else if i == 2 {
        FinalShellVersionType::V45
    } else {
        FinalShellVersionType::V46
    }
}

/// The variant that a classifier label stands for. A label that is none
/// of the four known ones stands for 3.9.6 and later.
pub open spec fn label_variant(label: Seq<char>) -> FinalShellVersionType {
    if label == label_legacy() {
        FinalShellVersionType::Legacy
    } else if label == label_v396_plus() {
        FinalShellVersionType::V396Plus
    } else if label == label_v45() {
        FinalShellVersionType::V45
    } else if label == label_v46() {
        FinalShellVersionType::V46
    } else {
        FinalShellVersionType::V396Plus
    }
}

/// The variant whose key is given when only one is asked for: the one
/// that the classifier's label stands for.
pub open spec fn default_variant(code: Seq<char>) -> FinalShellVersionType {
    label_variant(classify(code).version)
}

/// The Professional key of the default variant.
pub open spec fn default_key(code: Seq<char>) -> Seq<char> {
    derived_key(code, salt_table(default_variant(code), LicenseType::Professional))
}

/// `results` holds the keys of `code` for each of the four variants, in
/// the listing order, each key in the shape of an activation key.
pub open spec fn is_all_results(results: Seq<ActivationResult>, code: Seq<char>) -> bool {
    &&& results.len() == 4
    &&& forall|i: int|
        0 <= i < 4 ==> {
            &&& (#[trigger] results[i])@ == activation_result(code, variant_at(i))
            &&& is_activation_key(results[i]@.advanced_code)
            &&& is_activation_key(results[i]@.professional_code)
        }
}

/// A line of text on the versions that a label covers.
pub open spec fn version_info(label: Seq<char>) -> Seq<char> {
    if label == label_legacy() {
        "FinalShell 3.9.6 以前版本"@
    } else if label == label_v396_plus() {
        "FinalShell 3.9.6 及以后版本"@
    } else if label == label_v45() {
        "FinalShell 4.5 版本"@
    } else if label == label_v46() {
        "FinalShell 4.6 及以后版本"@
    } else {
        "FinalShell 通用版本"@
    }
}

/// The display name of `variant`.
pub fn display_name(variant: FinalShellVersionType) -> (name: String)
    ensures
        name@ == version_name(variant),
{
    match variant {
        FinalShellVersionType::Legacy => "FinalShell < 3.9.6".to_owned(),
        FinalShellVersionType::V396Plus => "FinalShell ≥ 3.9.6".to_owned(),
        FinalShellVersionType::V45 => "FinalShell 4.5".to_owned(),
        FinalShellVersionType::V46 => "FinalShell 4.6+".to_owned(),
    }
}

/// The variant that `label` stands for.
pub fn variant_for_label(label: &str) -> (variant: FinalShellVersionType)
    ensures
        variant == label_variant(label@),
{
    if str_eq(label, "< 3.9.6") {
        FinalShellVersionType::Legacy
    } else if str_eq(label, "≥ 3.9.6") {
        FinalShellVersionType::V396Plus
    } else if str_eq(label, "4.5") {
        FinalShellVersionType::V45
    } else if str_eq(label, "4.6+") {
        FinalShellVersionType::V46
    } else {
        FinalShellVersionType::V396Plus
    }
}

/// Cuts the key out of a digest's hexadecimal text.
///
/// Before cutting, the text's length is held against the range's upper
/// bound; text that is too short gives `DerivationError`, never a shorter
/// key.
pub fn extract_key(hex: &str, start: usize, end: usize) -> (r: Result<String, ActivationError>)
    requires
        start <= end,
    ensures
        match r {
            Ok(key) => end <= hex@.len() && key@ == key_window(hex@, start as int, end as int),
            Err(e) => e == ActivationError::DerivationError && hex@.len() < end,
        },
        r is Ok && is_lower_hex_text(hex@) && end - start == KEY_LEN ==> is_activation_key(
            r->Ok_0@,
        ),
{
    let v = to_chars(hex);
    if v.len() < end {
        return Err(ActivationError::DerivationError);
    }
    proof {
        if is_lower_hex_text(hex@) && end - start == KEY_LEN {
            lemma_upper_hex_window_is_key(hex@, start as int, end as int);
        }
    }
    Ok(upper_window(&v, start, end))
}

/// The unit type that the engine's functions hang on.
pub struct ActivationCodeGenerator;

impl ActivationCodeGenerator {
    /// The MD5 digest of `data`, as 32 lowercase hexadecimal characters.
    pub fn calc_md5(data: &str) -> (hex: String)
        ensures
            hex@ == digest_hex(HashFamily::Md5, data@),
            hex@.len() == HashFamily::Md5.hex_len(),
            is_lower_hex_text(hex@),
    {
        let digest = md5_of(data.as_bytes());
        encode_hex(digest.as_slice())
    }

    /// The Keccak-384 digest of `data`, as 96 lowercase hexadecimal
    /// characters.
    pub fn calc_keccak384(data: &str) -> (hex: String)
        ensures
            hex@ == digest_hex(HashFamily::Keccak384, data@),
            hex@.len() == HashFamily::Keccak384.hex_len(),
            is_lower_hex_text(hex@),
    {
        let digest = keccak384_of(data.as_bytes());
        encode_hex(digest.as_slice())
    }

    /// Derives one key from `machine_code` with an arbitrary salt entry.
    ///
    /// Fails with `DerivationError` exactly when the entry's range reaches
    /// past the end of its family's digest.
    pub fn derive_with(machine_code: &str, salt: &SaltSpec) -> (r: Result<String, ActivationError>)
        requires
            salt.wf(),
        ensures
            match r {
                Ok(key) => salt.end <= salt.family.hex_len() && key@ == derived_key(
                    machine_code@,
                    *salt,
                ),
                Err(e) => e == ActivationError::DerivationError && salt.family.hex_len() < salt.end,
            },
            r is Ok && salt.end - salt.start == KEY_LEN ==> is_activation_key(r->Ok_0@),
    {
        let mut input = String::from_str(salt.prefix);
        input.append(machine_code);
        input.append(salt.suffix);
        let hex = match salt.family {
            HashFamily::Md5 => Self::calc_md5(input.as_str()),
            HashFamily::Keccak384 => Self::calc_keccak384(input.as_str()),
        };
        extract_key(hex.as_str(), salt.start, salt.end)
    }

    /// Derives the key of one variant and tier.
    pub fn derive_key(
        machine_code: &str,
        variant: FinalShellVersionType,
        license: LicenseType,
    ) -> (r: Result<String, ActivationError>)
        ensures
            r is Ok,
            r->Ok_0@ == derived_key(machine_code@, salt_table(variant, license)),
            is_activation_key(r->Ok_0@),
    {
        let salt = salt_spec(variant, license);
        proof {
            lemma_table_cuts_keys(variant, license);
        }
        Self::derive_with(machine_code, &salt)
    }

    /// Derives both keys of one variant.
    pub fn derive(machine_code: &str, variant: FinalShellVersionType) -> (r: Result<
        ActivationResult,
        ActivationError,
    >)
        ensures
            r is Ok,
            r->Ok_0@ == activation_result(machine_code@, variant),
            is_activation_key(r->Ok_0@.advanced_code),
            is_activation_key(r->Ok_0@.professional_code),
    {
        let advanced_code = Self::derive_key(machine_code, variant, LicenseType::Advanced)?;
        let professional_code = Self::derive_key(machine_code, variant, LicenseType::Professional)?;
        Ok(
            ActivationResult {
                version_type: variant,
                advanced_code,
                professional_code,
                version_name: display_name(variant),
            },
        )
    }

    /// The keys for versions before 3.9.6: MD5 of the machine code
    /// between a prefix and a suffix.
    pub fn generate_legacy(machine_code: &str) -> (r: Result<ActivationResult, ActivationError>)
        ensures
            r is Ok,
            r->Ok_0@ == activation_result(machine_code@, FinalShellVersionType::Legacy),
            is_activation_key(r->Ok_0@.advanced_code),
            is_activation_key(r->Ok_0@.professional_code),
    {
        Self::derive(machine_code, FinalShellVersionType::Legacy)
    }

    /// The keys for versions 3.9.6 and later: Keccak-384 of the machine
    /// code followed by a suffix.
    pub fn generate_v396_plus(machine_code: &str) -> (r: Result<ActivationResult, ActivationError>)
        ensures
            r is Ok,
            r->Ok_0@ == activation_result(machine_code@, FinalShellVersionType::V396Plus),
            is_activation_key(r->Ok_0@.advanced_code),
            is_activation_key(r->Ok_0@.professional_code),
    {
        Self::derive(machine_code, FinalShellVersionType::V396Plus)
    }

    /// The keys for version 4.5.
    pub fn generate_v45(machine_code: &str) -> (r: Result<ActivationResult, ActivationError>)
        ensures
            r is Ok,
            r->Ok_0@ == activation_result(machine_code@, FinalShellVersionType::V45),
            is_activation_key(r->Ok_0@.advanced_code),
            is_activation_key(r->Ok_0@.professional_code),
    {
        Self::derive(machine_code, FinalShellVersionType::V45)
    }

    /// The keys for version 4.6.
    pub fn generate_v46(machine_code: &str) -> (r: Result<ActivationResult, ActivationError>)
        ensures
            r is Ok,
            r->Ok_0@ == activation_result(machine_code@, FinalShellVersionType::V46),
            is_activation_key(r->Ok_0@.advanced_code),
            is_activation_key(r->Ok_0@.professional_code),
    {
        Self::derive(machine_code, FinalShellVersionType::V46)
    }

    /// The keys of all four variants, always in the order before 3.9.6,
    /// 3.9.6 and later, 4.5, 4.6. The classifier plays no part here.
    pub fn generate_all(machine_code: &str) -> (r: Result<Vec<ActivationResult>, ActivationError>)
        ensures
            r is Ok,
            is_all_results(r->Ok_0@, machine_code@),
    {
        let mut results: Vec<ActivationResult> = Vec::new();
        results.push(Self::generate_legacy(machine_code)?);
        results.push(Self::generate_v396_plus(machine_code)?);
        results.push(Self::generate_v45(machine_code)?);
        results.push(Self::generate_v46(machine_code)?);
        Ok(results)
    }

    /// The one key given by default: the classifier picks the variant, and
    /// the Professional key of that variant is returned with the
    /// classifier's finding.
    pub fn generate(machine_code: &str) -> (r: Result<(String, FinalShellVersion), ActivationError>)
        ensures
            r is Ok,
            r->Ok_0.1@ == classify(machine_code@),
            r->Ok_0.0@ == default_key(machine_code@),
            is_activation_key(r->Ok_0.0@),
    {
        let version = FinalShellVersion::detect_version(machine_code);
        let variant = variant_for_label(version.version.as_str());
        let result = Self::derive(machine_code, variant)?;
        Ok((result.professional_code, version))
    }

    /// Tells whether `machine_code`, with its ends trimmed, is at least
    /// eight characters long and made of ASCII letters, digits, `-`, `_`
    /// and `@` alone.
    pub fn validate_machine_code(machine_code: &str) -> (valid: bool)
        ensures
            valid == is_valid_machine_code(machine_code@),
    {
        validate(machine_code)
    }

    /// `machine_code` trimmed, then with every space, line feed, carriage
    /// return and tab removed. Nothing is validated here.
    pub fn clean_machine_code(machine_code: &str) -> (cleaned: String)
        ensures
            cleaned@ == clean(machine_code@),
    {
        clean_text(machine_code)
    }

    /// A line of text on the versions that the classifier's label for
    /// `machine_code` covers.
    pub fn detect_version_info(machine_code: &str) -> (info: String)
        ensures
            info@ == version_info(classify(machine_code@).version),
    {
        let version = FinalShellVersion::detect_version(machine_code);
        let label = version.version.as_str();
        if str_eq(label, "< 3.9.6") {
            "FinalShell 3.9.6 以前版本".to_owned()
        } else if str_eq(label, "≥ 3.9.6") {
            "FinalShell 3.9.6 及以后版本".to_owned()
        } else if str_eq(label, "4.5") {
            "FinalShell 4.5 版本".to_owned()
        } else if str_eq(label, "4.6+") {
            "FinalShell 4.6 及以后版本".to_owned()
        } else {
            "FinalShell 通用版本".to_owned()
        }
    }
}

/// Determinism: deriving from the same machine code for the same variant
/// gives the same result each time, character for character and byte for
/// byte.
pub proof fn lemma_derive_is_deterministic(
    code: Seq<char>,
    variant: FinalShellVersionType,
    first: ActivationResult,
    second: ActivationResult,
)
    requires
        first@ == activation_result(code, variant),
        second@ == activation_result(code, variant),
    ensures
        first@ == second@,
        encode_utf8(first@.advanced_code) == encode_utf8(second@.advanced_code),
        encode_utf8(first@.professional_code) == encode_utf8(second@.professional_code),
{
}

/// Format: a key cut from a digest's hexadecimal text by a range of
/// sixteen characters is sixteen uppercase hexadecimal digits, whatever
/// was hashed.
pub proof fn lemma_key_format(digest: Seq<u8>, start: int, end: int)
    requires
        0 <= start <= end <= 2 * digest.len(),
        end - start == KEY_LEN,
    ensures
        is_activation_key(key_window(to_hex_lower(digest), start, end)),
{
    lemma_hex_lower_digits(digest);
    lemma_upper_hex_window_is_key(to_hex_lower(digest), start, end);
}

/// The four labels are told apart, so each stands for its own variant.
pub proof fn lemma_label_variants()
    ensures
        label_variant(label_legacy()) == FinalShellVersionType::Legacy,
        label_variant(label_v396_plus()) == FinalShellVersionType::V396Plus,
        label_variant(label_v45()) == FinalShellVersionType::V45,
        label_variant(label_v46()) == FinalShellVersionType::V46,
{
    reveal_strlit("< 3.9.6");
    reveal_strlit("≥ 3.9.6");
    reveal_strlit("4.5");
    reveal_strlit("4.6+");
    assert(label_legacy()[0] == '<');
    assert(label_v396_plus()[0] == '≥');
    assert(label_v45().len() == 3);
    assert(label_v46().len() == 4);
}

/// The default variant, rule by rule: the classifier's ordered rules
/// carry over to the variant whose key is given by default.
pub proof fn lemma_default_variant(code: Seq<char>)
    ensures
        default_variant(code) == (if code_len(code) < 15 {
            FinalShellVersionType::Legacy
        } else if code.contains('-') && code_len(code) > 25 {
            FinalShellVersionType::V46
        } else if code_len(code) > 20 {
            FinalShellVersionType::V396Plus
        } else {
            FinalShellVersionType::V45
        }),
        classify(code).is_legacy <==> default_variant(code) == FinalShellVersionType::Legacy,
{
    lemma_label_variants();
}

} // verus!
