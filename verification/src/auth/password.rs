//! Admin passwords: the strength rule, and hashing and checking with
//! Argon2id (version 19, 64 MiB, 3 passes, 2 lanes, 32-byte output).
use vstd::prelude::*;
use argon2::{Algorithm, Argon2, Params, PasswordHasher, Version};
use argon2::PasswordVerifier;
use crate::error::{AppError, is_bad_request};
use crate::num::decimal;
use crate::text::{byte_len_exceeds, concat};

verus! {

/// The fewest bytes a password may have.
pub const MIN_PASSWORD_LEN: usize = 12;

/// Memory cost of a hash, in KiB.
pub const ARGON2_M_COST: u32 = 65536;

/// Passes over memory.
pub const ARGON2_T_COST: u32 = 3;

/// Lanes.
pub const ARGON2_P_COST: u32 = 2;

/// Bytes of hash output.
pub const ARGON2_OUTPUT_LEN: usize = 32;

/// The Argon2 variants.
#[derive(Debug, Clone, Copy, PartialEq, Eq, Structural)]
pub enum HashAlgorithm {
    Argon2d,
    Argon2i,
    Argon2id,
}

/// The Argon2 versions.
#[derive(Debug, Clone, Copy, PartialEq, Eq, Structural)]
pub enum HashVersion {
    V0x10,
    V0x13,
}

/// How passwords are hashed: the variant, the version, the costs and the
/// output length.
#[derive(Debug, Clone, Copy, PartialEq, Eq, Structural)]
pub struct Argon2Settings {
    pub algorithm: HashAlgorithm,
    pub version: HashVersion,
    pub m_cost: u32,
    pub t_cost: u32,
    pub p_cost: u32,
    pub output_len: usize,
}

/// The parameters `argon2::Params::new` accepts: memory of at least 8 KiB
/// and 8 KiB per lane, 1 to `0xFFFFFF` lanes, at least one pass, and an
/// output length (where given) of 4 to `0xFFFFFFFF` bytes.
pub open spec fn params_valid(m_cost: u32, t_cost: u32, p_cost: u32, output_len: Option<usize>) -> bool {
    &&& m_cost >= 8
    &&& 1 <= p_cost <= 0xFF_FFFF
    &&& m_cost >= p_cost * 8
    &&& t_cost >= 1
    &&& (output_len matches Some(l) ==> 4 <= l <= 0xFFFF_FFFF)
}

/// Settings whose costs and output length `argon2::Params::new` accepts.
pub open spec fn settings_valid(s: Argon2Settings) -> bool {
    params_valid(s.m_cost, s.t_cost, s.p_cost, Some(s.output_len))
}

/// The identifier of a variant in a PHC string.
pub open spec fn algorithm_ident(a: HashAlgorithm) -> Seq<char> {
    match a {
        HashAlgorithm::Argon2d => "argon2d"@,
        HashAlgorithm::Argon2i => "argon2i"@,
        HashAlgorithm::Argon2id => "argon2id"@,
    }
}

/// The number of a version in a PHC string.
pub open spec fn version_number(v: HashVersion) -> nat {
    match v {
        HashVersion::V0x10 => 16,
        HashVersion::V0x13 => 19,
    }
}

/// The start of a PHC string that Argon2 writes with these settings, up to
/// the salt: `$`, the variant, `$v=` and the version, then `$m=`, `,t=`,
/// `,p=` with the costs, and `$`.
pub open spec fn phc_prefix(s: Argon2Settings) -> Seq<char> {
    "$"@ + algorithm_ident(s.algorithm) + "$v="@ + decimal(version_number(s.version)) + "$m="@
        + decimal(s.m_cost as nat) + ",t="@ + decimal(s.t_cost as nat) + ",p="@ + decimal(
        s.p_cost as nat,
    ) + "$"@
}

/// A text starts with another.
pub open spec fn starts_with(s: Seq<char>, prefix: Seq<char>) -> bool {
    s.len() >= prefix.len() && s.take(prefix.len() as int) == prefix
}

/// `PasswordHasher::hash_password` of `Argon2::new` with the settings'
/// variant and version and `Params::new` of its costs and output length (no
/// secret), on the password's bytes with a fresh random salt, rendered as a
/// PHC string; an error as its `Display` text. `Params::new` accepts valid
/// settings, so only the hashing can fail. Which string comes back depends on
/// the salt drawn and is not stated; what is stated is what argon2 writes
/// (`hash_password_with_salt`): the string starts with the variant, version
/// and costs used, it parses, and checking the same password against it
/// succeeds, as `PasswordVerifier::verify_password` recomputes the output
/// with the algorithm, version, parameters and salt the string records.
#[verifier::external_body]
fn argon2_hash(settings: &Argon2Settings, password: &str) -> (r: Result<String, String>)
    requires
        settings_valid(*settings),
    ensures
        r matches Ok(h) ==> hashes_to(password@, h@) && starts_with(h@, phc_prefix(*settings)),
{
    let s = settings;
    let a = match s.algorithm { HashAlgorithm::Argon2d => Algorithm::Argon2d, HashAlgorithm::Argon2i => Algorithm::Argon2i, HashAlgorithm::Argon2id => Algorithm::Argon2id };
    let v = match s.version { HashVersion::V0x10 => Version::V0x10, HashVersion::V0x13 => Version::V0x13 };
    let params = match Params::new(s.m_cost, s.t_cost, s.p_cost, Some(s.output_len)) { Ok(p) => p, Err(e) => return Err(e.to_string()) };
    match Argon2::new(a, v, params).hash_password(password.as_bytes()) {
        Ok(h) => Ok(h.to_string()),
        Err(e) => Err(e.to_string()),
    }
}

/// Whether `PasswordHash::new` accepts a string as a PHC password hash.
pub uninterp spec fn spec_phc_parses(s: Seq<char>) -> bool;

/// `PasswordHash::new`: whether a string parses as a PHC string.
#[verifier::external_body]
fn phc_parses(s: &str) -> (r: bool)
    ensures
        r == spec_phc_parses(s@),
{
    argon2::PasswordHash::new(s).is_ok()
}

/// Whether a password checks out against a PHC string: Argon2 recomputed
/// with the algorithm, version, parameters and salt the string records gives
/// the output it records.
pub uninterp spec fn spec_argon2_verifies(password: Seq<char>, phc: Seq<char>) -> bool;

/// `PasswordVerifier::<str>::verify_password` of `Argon2::new` with the
/// settings' variant and version and `Params::new` of its costs and output
/// length (no secret), on the password's bytes and a PHC string, as success
/// or not. As the source shows, the answer depends only on the password and
/// the string (the context's own variant and costs are not used, and it holds
/// no secret), so it is named over the two.
#[verifier::external_body]
fn argon2_verify(settings: &Argon2Settings, password: &str, phc: &str) -> (r: bool)
    requires
        settings_valid(*settings),
    ensures
        r == spec_argon2_verifies(password@, phc@),
{
    let s = settings;
    let a = match s.algorithm { HashAlgorithm::Argon2d => Algorithm::Argon2d, HashAlgorithm::Argon2i => Algorithm::Argon2i, HashAlgorithm::Argon2id => Algorithm::Argon2id };
    let v = match s.version { HashVersion::V0x10 => Version::V0x10, HashVersion::V0x13 => Version::V0x13 };
    let params = match Params::new(s.m_cost, s.t_cost, s.p_cost, Some(s.output_len)) { Ok(p) => p, Err(_) => return false };
    let ctx = Argon2::new(a, v, params);
    PasswordVerifier::<str>::verify_password(&ctx, password.as_bytes(), phc).is_ok()
}

/// A PHC string is a hash of a password: it parses, and the password checks
/// out against it.
pub open spec fn hashes_to(password: Seq<char>, phc: Seq<char>) -> bool {
    spec_phc_parses(phc) && spec_argon2_verifies(password, phc)
}

/// What checking a password against a stored hash answers: `None` (an
/// error) where the stored value is not a PHC string, else whether the
/// password checks out.
pub open spec fn spec_verify_outcome(password: Seq<char>, phc: Seq<char>) -> Option<bool> {
    if spec_phc_parses(phc) {
        Some(spec_argon2_verifies(password, phc))
    } else {
        None
    }
}

/// The byte length of a password (its UTF-8 encoding).
pub open spec fn byte_len(s: Seq<char>) -> nat {
    vstd::utf8::encode_utf8(s).len()
}

/// The message of a password that is too short.
pub open spec fn short_password_message() -> Seq<char> {
    "password must be at least 12 characters"@
}

/// Refuses a password shorter than twelve bytes.
pub fn validate_password_strength(password: &str) -> (r: Result<(), AppError>)
    ensures
        byte_len(password@) < MIN_PASSWORD_LEN ==> (r matches Err(e) && is_bad_request(
            e,
            short_password_message(),
        )),
        byte_len(password@) >= MIN_PASSWORD_LEN ==> r is Ok,
{
    if !byte_len_exceeds(password, MIN_PASSWORD_LEN - 1) {
        return Err(AppError::bad_request("password must be at least 12 characters"));
    }
    Ok(())
}

/// The hashing settings: Argon2id, version 19, with the fixed costs and
/// output length. They are within the bounds, so they are always given.
fn argon2() -> (r: Result<Argon2Settings, AppError>)
    ensures
        r == Ok::<Argon2Settings, AppError>(
            Argon2Settings {
                algorithm: HashAlgorithm::Argon2id,
                version: HashVersion::V0x13,
                m_cost: ARGON2_M_COST,
                t_cost: ARGON2_T_COST,
                p_cost: ARGON2_P_COST,
                output_len: ARGON2_OUTPUT_LEN,
            },
        ),
        r matches Ok(s) && settings_valid(s),
{
    Ok(
        Argon2Settings {
            algorithm: HashAlgorithm::Argon2id,
            version: HashVersion::V0x13,
            m_cost: ARGON2_M_COST,
            t_cost: ARGON2_T_COST,
            p_cost: ARGON2_P_COST,
            output_len: ARGON2_OUTPUT_LEN,
        },
    )
}

/// The start of every hash this library makes.
pub open spec fn hash_prefix() -> Seq<char> {
    "$argon2id$v=19$m=65536,t=3,p=2$"@
}

/// The settings of `argon2()` write `hash_prefix()`.
proof fn lemma_fixed_prefix(s: Argon2Settings)
    requires
        s.algorithm == HashAlgorithm::Argon2id,
        s.version == HashVersion::V0x13,
        s.m_cost == 65536,
        s.t_cost == 3,
        s.p_cost == 2,
    ensures
        phc_prefix(s) == hash_prefix(),
{
    reveal_strlit("$");
    reveal_strlit("argon2id");
    reveal_strlit("$v=");
    reveal_strlit("$m=");
    reveal_strlit(",t=");
    reveal_strlit(",p=");
    reveal_strlit("$argon2id$v=19$m=65536,t=3,p=2$");
    reveal_with_fuel(decimal, 6);
    assert(decimal(19) =~= seq!['1', '9']);
    assert(decimal(65536) =~= seq!['6', '5', '5', '3', '6']);
    assert(decimal(3) =~= seq!['3']);
    assert(decimal(2) =~= seq!['2']);
    assert(phc_prefix(s) =~= hash_prefix());
}

/// Hashes a new password. A password shorter than twelve bytes is refused
/// as a bad request; a failure of the hashing itself is an internal error
/// whose message starts with `hash failed: `. A hash made is a PHC string
/// that starts `$argon2id$v=19$m=65536,t=3,p=2$` and against which the
/// password checks out.
pub fn hash_password(password: &str) -> (r: Result<String, AppError>)
    ensures
        byte_len(password@) < MIN_PASSWORD_LEN ==> (r matches Err(e) && is_bad_request(
            e,
            short_password_message(),
        )),
        byte_len(password@) >= MIN_PASSWORD_LEN ==> (r is Ok || (r matches Err(AppError::Internal(m))
            && m@.len() >= 13 && m@.take(13) == "hash failed: "@)),
        r matches Ok(h) ==> hashes_to(password@, h@) && starts_with(h@, hash_prefix()),
{
    match validate_password_strength(password) {
        Ok(()) => {},
        Err(e) => return Err(e),
    }
    let settings = match argon2() {
        Ok(c) => c,
        Err(e) => return Err(e),
    };
    proof {
        lemma_fixed_prefix(settings);
    }
    match argon2_hash(&settings, password) {
        Ok(h) => Ok(h),
        Err(e) => {
            let m = concat("hash failed: ", e.as_str());
            proof {
                reveal_strlit("hash failed: ");
                assert(m@.take(13) =~= "hash failed: "@);
            }
            Err(AppError::internal(m.as_str()))
        },
    }
}

/// Checks a password against a stored PHC hash. A stored value that is not
/// a PHC string is an internal error; otherwise the answer is whether the
/// password checks out against it.
pub fn verify_password(password: &str, password_hash: &str) -> (r: Result<bool, AppError>)
    ensures
        match spec_verify_outcome(password@, password_hash@) {
            Some(b) => r == Ok::<bool, AppError>(b),
            None => r matches Err(AppError::Internal(m)) && m@ == "invalid stored password hash"@,
        },
{
    if !phc_parses(password_hash) {
        return Err(AppError::internal("invalid stored password hash"));
    }
    let settings = match argon2() {
        Ok(c) => c,
        Err(e) => return Err(e),
    };
    Ok(argon2_verify(&settings, password, password_hash))
}

/// A password checks out against every hash made of it: checking it against
/// what `hash_password` returned for it answers `true`.
pub proof fn law_password_verifies_against_own_hash(password: Seq<char>, phc: Seq<char>)
    requires
        hashes_to(password, phc),
    ensures
        spec_verify_outcome(password, phc) == Some(true),
{
}

} // verus!
