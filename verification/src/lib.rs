//! Orchestration engine for a two-backend workflow: an off-chain asynchronous
//! job service and an on-chain ledger transaction pipeline.
//!
//! The library holds the decision logic — retry/polling, transaction
//! confirmation, task validation and workflow sequencing — as verified
//! functions over plain values. Network transport, file access and the
//! ledger RPC client live outside the library and hand it the observations
//! it decides on.

pub mod job;
pub mod orchestrator;
pub mod pipeline;
pub mod poller;
pub mod validation;

use vstd::prelude::*;

verus! {

/// The contents of a secret-key file: a mnemonic phrase a signing keypair
/// is derived from.
pub struct SecretKeyFile {
    /// The mnemonic phrase, as the file's `secretPhrase` field holds it.
    pub secret_phrase: String,
}

/// The identity a workflow run signs its transactions with, resolved once
/// per run and immutable afterwards.
pub enum SigningIdentity {
    /// The fixed, publicly known development keypair. This fallback is a
    /// deliberate convenience for non-production use and a hazard in
    /// production: it is taken only when no secret-key file is given.
    Development,
    /// A keypair derived from this mnemonic phrase, loaded from the
    /// secret-key file.
    FromPhrase(String),
}

/// Resolve the signing identity for one run: the phrase from the
/// secret-key file when one was given, and the fixed development identity
/// — explicitly, never by accident — when none was.
pub fn resolve_identity(secret: Option<SecretKeyFile>) -> (r: SigningIdentity)
    ensures
        match secret {
            None => r == SigningIdentity::Development,
            Some(f) => r == SigningIdentity::FromPhrase(f.secret_phrase),
        },
{
    match secret {
        None => SigningIdentity::Development,
        Some(f) => SigningIdentity::FromPhrase(f.secret_phrase),
    }
}

/// A metadata capability flag understood by the ledger's entity schema.
#[derive(Clone, Copy, Debug, PartialEq, Eq, Structural)]
pub enum MetadataFeature {
    Immutable,
}

/// Error returned when a flag string names no known metadata feature.
#[derive(Clone, Copy, Debug, PartialEq, Eq, Structural)]
pub struct ParseMetadataFeatureError;

/// A flag type that can be parsed from a flag string and folded into a
/// bitmask understood by the ledger.
pub trait Bitmask: Sized {
    /// The bit pattern this flag contributes.
    spec fn spec_bitmask(&self) -> u64;

    /// Which flag, if any, a flag string denotes.
    spec fn spec_parse(s: Seq<char>) -> Option<Self>;

    fn bitmask(&self) -> (r: u64)
        ensures
            r == self.spec_bitmask(),
    ;

    fn parse_flag(s: &String) -> (r: Option<Self>)
        ensures
            r == Self::spec_parse(s@),
    ;
}

impl MetadataFeature {
    /// Parse a flag string; only `"Immutable"` is a known feature.
    pub fn from_str(s: &String) -> (r: Result<MetadataFeature, ParseMetadataFeatureError>)
        ensures
            s@ == "Immutable"@ ==> r == Ok::<_, ParseMetadataFeatureError>(
                MetadataFeature::Immutable,
            ),
            s@ != "Immutable"@ ==> r == Err::<MetadataFeature, _>(ParseMetadataFeatureError),
    {
        let immutable: String = "Immutable".to_owned();
        if immutable.eq(s) {
            Ok(MetadataFeature::Immutable)
        } else {
            Err(ParseMetadataFeatureError)
        }
    }
}

impl Bitmask for MetadataFeature {
    open spec fn spec_bitmask(&self) -> u64 {
        0x00000001u64
    }

    open spec fn spec_parse(s: Seq<char>) -> Option<MetadataFeature> {
        if s == "Immutable"@ {
            Some(MetadataFeature::Immutable)
        } else {
            None
        }
    }

    fn bitmask(&self) -> u64 {
        match self {
            MetadataFeature::Immutable => 0x00000001,
        }
    }

    fn parse_flag(s: &String) -> Option<MetadataFeature> {
        match MetadataFeature::from_str(s) {
            Ok(f) => Some(f),
            Err(_) => None,
        }
    }
}

/// The bitmask denoted by a sequence of flag strings: unknown strings
/// contribute nothing, known ones contribute their bit pattern.
pub open spec fn spec_flags<T: Bitmask>(flags: Seq<Seq<char>>) -> u64
    decreases flags.len(),
{
    if flags.len() == 0 {
        0u64
    } else {
        spec_flags::<T>(flags.drop_last()) | (match T::spec_parse(flags.last()) {
            Some(f) => f.spec_bitmask(),
            None => 0u64,
        })
    }
}

/// Fold a list of flag strings into the bitmask the ledger call expects.
/// Strings that name no flag are ignored; duplicates are idempotent since
/// the fold is a bitwise or.
pub fn calculate_flags<T: Bitmask>(flags: Vec<String>) -> (r: u64)
    ensures
        r == spec_flags::<T>(flags@.map_values(|s: String| s@)),
{
    let ghost all: Seq<Seq<char>> = flags@.map_values(|s: String| s@);
    let mut result: u64 = 0;
    let mut i: usize = 0;
    while i < flags.len()
        invariant
            i <= flags.len(),
            all == flags@.map_values(|s: String| s@),
            result == spec_flags::<T>(all.take(i as int)),
        decreases flags.len() - i,
    {
        match T::parse_flag(&flags[i]) {
            Some(f) => {
                result = result | f.bitmask();
            },
            None => {},
        }
        proof {
            assert(forall|x: u64| #[trigger] (x | 0u64) == x) by (bit_vector);
            assert(all[i as int] == flags@[i as int]@);
            assert(all.take(i as int + 1).drop_last() =~= all.take(i as int));
            assert(all.take(i as int + 1).last() == all[i as int]);
        }
        i = i + 1;
    }
    proof {
        assert(all.take(flags@.len() as int) =~= all);
    }
    result
}

} // verus!
