use vstd::prelude::*;

use rand::Rng;

use crate::errors::ServiceError;
use crate::utils::text::{base64_no_pad, decimal_text};

verus! {

/// The Argon2 variants.
#[derive(Debug, Clone, Copy, PartialEq, Eq, Structural)]
pub enum HashVariant {
    Argon2d,
    Argon2i,
    Argon2id,
}

/// The Argon2 versions.
#[derive(Debug, Clone, Copy, PartialEq, Eq, Structural)]
pub enum HashVersion {
    Version10,
    Version13,
}

/// The cost settings of an Argon2 hash.
#[derive(Debug, Clone, Copy, PartialEq, Eq, Structural)]
pub struct HashParams {
    pub variant: HashVariant,
    pub version: HashVersion,
    /// Memory in KiB.
    pub mem_cost: u32,
    /// Number of passes.
    pub time_cost: u32,
    pub lanes: u32,
    /// Length of the hash in bytes.
    pub hash_length: u32,
}

/// The settings with which this service hashes passwords.
pub open spec fn password_hash_params_spec() -> HashParams {
    HashParams {
        variant: HashVariant::Argon2id,
        version: HashVersion::Version13,
        mem_cost: 19456,
        time_cost: 2,
        lanes: 4,
        hash_length: 32,
    }
}

/// The settings with which this service hashes passwords: Argon2id, version
/// 0x13, 19456 KiB, two passes, four lanes, 32-byte hashes.
pub fn password_hash_params() -> (p: HashParams)
    ensures
        p == password_hash_params_spec(),
{
    HashParams {
        variant: HashVariant::Argon2id,
        version: HashVersion::Version13,
        mem_cost: 19456,
        time_cost: 2,
        lanes: 4,
        hash_length: 32,
    }
}

/// How rust-argon2 writes a variant.
pub open spec fn variant_text(v: HashVariant) -> Seq<char> {
    match v {
        HashVariant::Argon2d => "argon2d"@,
        HashVariant::Argon2i => "argon2i"@,
        HashVariant::Argon2id => "argon2id"@,
    }
}

/// The number of a version (0x10 or 0x13).
pub open spec fn version_number(v: HashVersion) -> nat {
    match v {
        HashVersion::Version10 => 16,
        HashVersion::Version13 => 19,
    }
}

/// The start of an encoded hash made with `params`:
/// `$<variant>$v=<version>$m=<mem_cost>,t=<time_cost>,p=<lanes>$`.
pub open spec fn encoded_prefix(params: HashParams) -> Seq<char> {
    "$"@ + variant_text(params.variant) + "$v="@ + decimal_text(version_number(params.version))
        + "$m="@ + decimal_text(params.mem_cost as nat) + ",t="@ + decimal_text(
        params.time_cost as nat,
    ) + ",p="@ + decimal_text(params.lanes as nat) + "$"@
}

/// `encoded` is laid out as rust-argon2's `encode_string` writes a hash made
/// with `params` and `salt`: the settings, the salt in base64, a `$`, and a tag
/// of `params.hash_length` bytes in base64 (standard alphabet, no padding).
pub open spec fn encoded_layout(encoded: Seq<char>, params: HashParams, salt: Seq<u8>) -> bool {
    exists|tag: Seq<u8>|
        tag.len() == params.hash_length && encoded == encoded_prefix(params) + base64_no_pad(salt)
            + "$"@ + #[trigger] base64_no_pad(tag)
}

/// The inputs that rust-argon2's `hash_encoded` accepts on every platform:
/// 1 to 0xFF_FFFF lanes, at least 8 KiB of memory per lane and at most 0x20_0000
/// KiB, at least one pass, a salt of 8 or more bytes, password, salt, secret and
/// associated data of at most `u32::MAX` bytes, and a hash of 4 or more bytes.
pub open spec fn argon2_accepts(
    password_len: nat,
    salt_len: nat,
    params: HashParams,
    secret_len: nat,
    ad_len: nat,
) -> bool {
    &&& 1 <= params.lanes <= 0xFF_FFFF
    &&& 8 * params.lanes <= params.mem_cost <= 0x20_0000
    &&& 1 <= params.time_cost
    &&& 8 <= salt_len <= u32::MAX
    &&& password_len <= u32::MAX
    &&& secret_len <= u32::MAX
    &&& ad_len <= u32::MAX
    &&& 4 <= params.hash_length
}

/// The hashes of this service start with `$argon2id$v=19$m=19456,t=2,p=4$`.
pub proof fn lemma_service_encoded_prefix()
    ensures
        encoded_prefix(password_hash_params_spec()) == "$argon2id$v=19$m=19456,t=2,p=4$"@,
{
    reveal_strlit("$");
    reveal_strlit("argon2id");
    reveal_strlit("$v=");
    reveal_strlit("$m=");
    reveal_strlit(",t=");
    reveal_strlit(",p=");
    reveal_strlit("$argon2id$v=19$m=19456,t=2,p=4$");
    reveal_with_fuel(decimal_text, 6);
    assert(decimal_text(19) =~= seq!['1', '9']);
    assert(decimal_text(1945) =~= seq!['1', '9', '4', '5']);
    assert(decimal_text(19456) =~= seq!['1', '9', '4', '5', '6']);
    assert(decimal_text(2) =~= seq!['2']);
    assert(decimal_text(4) =~= seq!['4']);
    assert(encoded_prefix(password_hash_params_spec()) =~= "$argon2id$v=19$m=19456,t=2,p=4$"@);
}

/// The encoded hash (`$argon2id$v=19$m=..,t=..,p=..$salt$hash`) that
/// rust-argon2's `hash_encoded` makes, or `None` where it refuses the inputs.
pub uninterp spec fn argon2_hash_encoded(
    password: Seq<u8>,
    salt: Seq<u8>,
    params: HashParams,
    secret: Seq<u8>,
    ad: Seq<u8>,
) -> Option<Seq<char>>;

/// What rust-argon2's `verify_encoded_ext` answers, or `None` where it fails.
pub uninterp spec fn argon2_verify_encoded(
    encoded: Seq<char>,
    password: Seq<u8>,
    secret: Seq<u8>,
    ad: Seq<u8>,
) -> Option<bool>;

/// Calls rust-argon2's `hash_encoded` with a `Config` made of the arguments.
/// Claims that the result is the named hash of the arguments, `None` where the
/// crate returns an error; that the crate accepts the inputs that its
/// `Context::new` checks let through; and that the string starts with the
/// variant, version and costs, then the salt and a tag of `hash_length` bytes,
/// each in base64, as its `encode_string` writes them. Which tag is not stated.
/// The crate may abort where memory runs out.
#[verifier::external_body]
fn argon2_hash(password: &[u8], salt: &[u8], params: &HashParams, secret: &[u8], ad: &[u8]) -> (r: Option<String>)
    ensures
        r.deep_view() == argon2_hash_encoded(password@, salt@, *params, secret@, ad@),
        argon2_accepts(password@.len(), salt@.len(), *params, secret@.len(), ad@.len()) ==> r is Some,
        r matches Some(h) ==> encoded_layout(h@, *params, salt@),
{
    let config = argon2::Config {
        ad,
        hash_length: params.hash_length,
        lanes: params.lanes,
        mem_cost: params.mem_cost,
        secret,
        time_cost: params.time_cost,
        variant: match params.variant { HashVariant::Argon2d => argon2::Variant::Argon2d, HashVariant::Argon2i => argon2::Variant::Argon2i, HashVariant::Argon2id => argon2::Variant::Argon2id },
        version: match params.version { HashVersion::Version10 => argon2::Version::Version10, HashVersion::Version13 => argon2::Version::Version13 },
    };
    argon2::hash_encoded(password, salt, &config).ok()
}

/// Calls rust-argon2's `verify_encoded_ext`. Claims that the result is the
/// named answer (`None` where the crate returns an error), and that a string
/// that `hash_encoded` made from the same password, secret and associated data
/// verifies: the crate writes every setting and the salt into the string, reads
/// them back, and recomputes the same hash. The crate may abort where the
/// string asks for more memory than there is.
#[verifier::external_body]
fn argon2_verify(encoded: &str, password: &[u8], secret: &[u8], ad: &[u8]) -> (r: Option<bool>)
    ensures
        r == argon2_verify_encoded(encoded@, password@, secret@, ad@),
        forall|salt: Seq<u8>, params: HashParams|
            #[trigger] argon2_hash_encoded(password@, salt, params, secret@, ad@) == Some(encoded@)
                ==> r == Some(true),
{
    argon2::verify_encoded_ext(encoded, password, secret, ad).ok()
}

/// Fills a 16-byte salt from rand's thread-local generator (which panics only
/// where the operating system gives no randomness). Nothing is claimed of the
/// bytes.
#[verifier::external_body]
fn random_salt() -> [u8; 16] {
    let mut salt = [0u8; 16];
    rand::rng().fill(&mut salt);
    salt
}

/// `encoded` is a hash of this service made with `salt`:
/// `$argon2id$v=19$m=19456,t=2,p=4$`, the salt in base64, a `$`, and a 32-byte
/// tag in base64.
pub open spec fn service_hash_layout(encoded: Seq<char>, salt: Seq<u8>) -> bool {
    exists|tag: Seq<u8>|
        tag.len() == 32 && encoded == "$argon2id$v=19$m=19456,t=2,p=4$"@ + base64_no_pad(salt) + "$"@
            + #[trigger] base64_no_pad(tag)
}

/// The outcome of hashing `password` with `salt` and `secret` in this
/// service's settings.
pub open spec fn hash_outcome(
    password: Seq<char>,
    salt: Seq<u8>,
    secret: Seq<char>,
    r: Result<String, ServiceError>,
) -> bool {
    match argon2_hash_encoded(
        vstd::utf8::encode_utf8(password),
        salt,
        password_hash_params_spec(),
        vstd::utf8::encode_utf8(secret),
        Seq::empty(),
    ) {
        Some(h) => r matches Ok(s) && s@ == h,
        None => r == Err::<String, ServiceError>(ServiceError::InternalServerError),
    }
}

/// `encoded` is an Argon2 hash that was made of `password` and `secret`
/// (with some salt and settings, and no associated data).
pub open spec fn hashed_from(encoded: Seq<char>, password: Seq<char>, secret: Seq<char>) -> bool {
    exists|salt: Seq<u8>, params: HashParams|
        #[trigger] argon2_hash_encoded(
            vstd::utf8::encode_utf8(password),
            salt,
            params,
            vstd::utf8::encode_utf8(secret),
            Seq::empty(),
        ) == Some(encoded)
}

/// Every hash that hashing a password yields is one that was made of that
/// password and secret, so `verify` accepts it for them.
pub proof fn lemma_hash_outcome_is_hashed_from(
    password: Seq<char>,
    salt: Seq<u8>,
    secret: Seq<char>,
    r: Result<String, ServiceError>,
)
    requires
        hash_outcome(password, salt, secret, r),
        r is Ok,
    ensures
        hashed_from(r->Ok_0@, password, secret),
{
    let params = password_hash_params_spec();
    assert(argon2_hash_encoded(
        vstd::utf8::encode_utf8(password),
        salt,
        params,
        vstd::utf8::encode_utf8(secret),
        Seq::empty(),
    ) == Some(r->Ok_0@));
}

/// Hashes `password` with the given salt, keyed with `secret`, in this
/// service's settings; a refusal of the hashing crate is an internal error.
pub fn hash_password_with_salt(password: &str, salt: &[u8], secret: &str) -> (r: Result<
    String,
    ServiceError,
>)
    ensures
        hash_outcome(password@, salt@, secret@, r),
        8 <= salt@.len() <= u32::MAX && vstd::utf8::encode_utf8(password@).len() <= u32::MAX
            && vstd::utf8::encode_utf8(secret@).len() <= u32::MAX ==> r is Ok,
        r matches Ok(h) ==> service_hash_layout(h@, salt@),
{
    let params = password_hash_params();
    let no_ad: [u8; 0] = [];
    let ad = no_ad.as_slice();
    assert(ad@ =~= Seq::<u8>::empty());
    proof {
        lemma_service_encoded_prefix();
    }
    match argon2_hash(password.as_bytes(), salt, &params, secret.as_bytes(), ad) {
        Some(h) => {
            proof {
                let tag = choose|tag: Seq<u8>|
                    tag.len() == params.hash_length && h@ == encoded_prefix(params) + base64_no_pad(
                        salt@,
                    ) + "$"@ + #[trigger] base64_no_pad(tag);
                assert(tag.len() == 32 && h@ == "$argon2id$v=19$m=19456,t=2,p=4$"@ + base64_no_pad(
                    salt@,
                ) + "$"@ + base64_no_pad(tag));
            }
            Ok(h)
        },
        None => Err(ServiceError::InternalServerError),
    }
}

/// Hashes `password` with a fresh random 16-byte salt, keyed with `secret`.
pub fn hash_password(password: &str, secret: &str) -> (r: Result<String, ServiceError>)
    ensures
        exists|salt: Seq<u8>| salt.len() == 16 && hash_outcome(password@, salt, secret@, r),
        r matches Ok(h) ==> hashed_from(h@, password@, secret@),
        vstd::utf8::encode_utf8(password@).len() <= u32::MAX
            && vstd::utf8::encode_utf8(secret@).len() <= u32::MAX ==> r is Ok,
        r matches Ok(h) ==> exists|salt: Seq<u8>| salt.len() == 16 && #[trigger] service_hash_layout(h@, salt),
{
    let salt = random_salt();
    let r = hash_password_with_salt(password, salt.as_slice(), secret);
    proof {
        assert(salt@.len() == 16 && hash_outcome(password@, salt@, secret@, r));
        if r is Ok {
            lemma_hash_outcome_is_hashed_from(password@, salt@, secret@, r);
        }
    }
    r
}

/// Checks `password` against an encoded hash keyed with `secret`; a hash that
/// cannot be read is reported as unauthorized. A hash made of the same
/// password and secret always verifies.
pub fn verify(hash: &str, password: &str, secret: &str) -> (r: Result<bool, ServiceError>)
    ensures
        match argon2_verify_encoded(
            hash@,
            vstd::utf8::encode_utf8(password@),
            vstd::utf8::encode_utf8(secret@),
            Seq::empty(),
        ) {
            Some(b) => r == Ok::<bool, ServiceError>(b),
            None => r == Err::<bool, ServiceError>(ServiceError::Unauthorized),
        },
        hashed_from(hash@, password@, secret@) ==> r == Ok::<bool, ServiceError>(true),
{
    let no_ad: [u8; 0] = [];
    let ad = no_ad.as_slice();
    assert(ad@ =~= Seq::<u8>::empty());
    let r = argon2_verify(hash, password.as_bytes(), secret.as_bytes(), ad);
    match r {
        Some(b) => Ok(b),
        None => Err(ServiceError::Unauthorized),
    }
}

} // verus!
