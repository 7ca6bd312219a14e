//! The salt table: for each product variant and license tier, the hash
//! family, the literal text wrapped around the machine code, and the range
//! of the digest's hexadecimal text that becomes the key.
//!
//! Each entry is one unit. The range belongs to the hash family's digest
//! length, so the two are kept together and never set apart.

use vstd::prelude::*;
use crate::hex::KEY_LEN;

verus! {

/// The four product variants, each with its own salts.
#[derive(Debug, Clone, Copy, PartialEq, Eq, Structural)]
pub enum FinalShellVersionType {
    /// Before 3.9.6.
    Legacy,
    /// 3.9.6 and later.
    V396Plus,
    /// 4.5.
    V45,
    /// 4.6.
    V46,
}

/// The two license tiers.
#[derive(Debug, Clone, Copy, PartialEq, Eq, Structural)]
pub enum LicenseType {
    Advanced,
    Professional,
}

/// The hash function of a salt entry.
#[derive(Debug, Clone, Copy, PartialEq, Eq, Structural)]
pub enum HashFamily {
    Md5,
    Keccak384,
}

/// One entry of the salt table.
#[derive(Debug, Clone, Copy)]
pub struct SaltSpec {
    /// The hash function applied to the salted machine code.
    pub family: HashFamily,
    /// Literal text put before the machine code; may be empty.
    pub prefix: &'static str,
    /// Literal text put after the machine code.
    pub suffix: &'static str,
    /// First position, in the digest's hexadecimal text, of the key.
    pub start: usize,
    /// Position just after the key's last character.
    pub end: usize,
}

impl HashFamily {
    /// Length of the family's digest in hexadecimal characters.
    pub open spec fn hex_len(self) -> nat {
        match self {
            HashFamily::Md5 => 32,
            HashFamily::Keccak384 => 96,
        }
    }
}

impl SaltSpec {
    /// The range is a range: it does not end before it starts.
    pub open spec fn wf(self) -> bool {
        self.start <= self.end
    }

    /// The range holds exactly as many characters as a key has, and lies
    /// within the family's digest.
    pub open spec fn cuts_a_key(self) -> bool {
        &&& self.wf()
        &&& self.end - self.start == KEY_LEN
        &&& self.end <= self.family.hex_len()
    }
}

/// The salt table.
pub open spec fn salt_table(variant: FinalShellVersionType, license: LicenseType) -> SaltSpec {
    match (variant, license) {
        (FinalShellVersionType::Legacy, LicenseType::Advanced) => SaltSpec {
            family: HashFamily::Md5,
            prefix: "61305",
            suffix: "8552",
            start: 8,
            end: 24,
        },
        (FinalShellVersionType::Legacy, LicenseType::Professional) => SaltSpec {
            family: HashFamily::Md5,
            prefix: "2356",
            suffix: "13593",
            start: 8,
            end: 24,
        },
        (FinalShellVersionType::V396Plus, LicenseType::Advanced) => SaltSpec {
            family: HashFamily::Keccak384,
            prefix: "",
            suffix: "hSf(78cvVlS5E",
            start: 12,
            end: 28,
        },
        (FinalShellVersionType::V396Plus, LicenseType::Professional) => SaltSpec {
            family: HashFamily::Keccak384,
            prefix: "",
            suffix: "FF3Go(*Xvbb5s2",
            start: 12,
            end: 28,
        },
        (FinalShellVersionType::V45, LicenseType::Advanced) => SaltSpec {
            family: HashFamily::Keccak384,
            prefix: "",
            suffix: "wcegS3gzA$",
            start: 12,
            end: 28,
        },
        (FinalShellVersionType::V45, LicenseType::Professional) => SaltSpec {
            family: HashFamily::Keccak384,
            prefix: "",
            suffix: "b(xxkHn%z);x",
            start: 12,
            end: 28,
        },
        (FinalShellVersionType::V46, LicenseType::Advanced) => SaltSpec {
            family: HashFamily::Keccak384,
            prefix: "",
            suffix: "csSf5*xlkgYSX,y",
            start: 12,
            end: 28,
        },
        (FinalShellVersionType::V46, LicenseType::Professional) => SaltSpec {
            family: HashFamily::Keccak384,
            prefix: "",
            suffix: "Scfg*ZkvJZc,s,Y",
            start: 12,
            end: 28,
        },
    }
}

/// Every entry of the table cuts a key out of its family's digest.
pub proof fn lemma_table_cuts_keys(variant: FinalShellVersionType, license: LicenseType)
    ensures
        salt_table(variant, license).cuts_a_key(),
{
}

/// Looks up the entry for a variant and a tier.
pub fn salt_spec(variant: FinalShellVersionType, license: LicenseType) -> (salt: SaltSpec)
    ensures
        salt == salt_table(variant, license),
{
    match (variant, license) {
        (FinalShellVersionType::Legacy, LicenseType::Advanced) => SaltSpec {
            family: HashFamily::Md5,
            prefix: "61305",
            suffix: "8552",
            start: 8,
            end: 24,
        },
        (FinalShellVersionType::Legacy, LicenseType::Professional) => SaltSpec {
            family: HashFamily::Md5,
            prefix: "2356",
            suffix: "13593",
            start: 8,
            end: 24,
        },
        (FinalShellVersionType::V396Plus, LicenseType::Advanced) => SaltSpec {
            family: HashFamily::Keccak384,
            prefix: "",
            suffix: "hSf(78cvVlS5E",
            start: 12,
            end: 28,
        },
        (FinalShellVersionType::V396Plus, LicenseType::Professional) => SaltSpec {
            family: HashFamily::Keccak384,
            prefix: "",
            suffix: "FF3Go(*Xvbb5s2",
            start: 12,
            end: 28,
        },
        (FinalShellVersionType::V45, LicenseType::Advanced) => SaltSpec {
            family: HashFamily::Keccak384,
            prefix: "",
            suffix: "wcegS3gzA$",
            start: 12,
            end: 28,
        },
        (FinalShellVersionType::V45, LicenseType::Professional) => SaltSpec {
            family: HashFamily::Keccak384,
            prefix: "",
            suffix: "b(xxkHn%z);x",
            start: 12,
            end: 28,
        },
        (FinalShellVersionType::V46, LicenseType::Advanced) => SaltSpec {
            family: HashFamily::Keccak384,
            prefix: "",
            suffix: "csSf5*xlkgYSX,y",
            start: 12,
            end: 28,
        },
        (FinalShellVersionType::V46, LicenseType::Professional) => SaltSpec {
            family: HashFamily::Keccak384,
            prefix: "",
            suffix: "Scfg*ZkvJZc,s,Y",
            start: 12,
            end: 28,
        },
    }
}

} // verus!
