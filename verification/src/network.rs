//! The HTTP RPC endpoint: its commitment setting and the report of the
//! start-up check made against it.

use vstd::prelude::*;

use crate::config::AppConfig;
use crate::errors::{AppError, ConfigError};
use crate::text::{
    lemma_lowercase_keeps_trimmed, lemma_trim_is_trimmed, lemma_trimmed_is_fixed, normalize_word,
    spec_ascii_lowercase, spec_trim,
};

verus! {

/// The commitment levels that the RPC client can be asked for.
#[derive(Debug, Clone, Copy, PartialEq, Eq, Structural)]
pub enum CommitmentLevel {
    Processed,
    Confirmed,
    Finalized,
}

/// What the start-up check of the HTTP RPC endpoint found.
#[derive(Debug, Clone)]
pub struct RpcStartupReport {
    pub url: String,
    pub commitment: String,
    pub health_check_latency_ms: u128,
    pub blockhash_latency_ms: u128,
    pub latest_blockhash: String,
}

/// The word a commitment setting is matched by: trimmed and in ASCII lower case.
pub open spec fn commitment_word(value: Seq<char>) -> Seq<char> {
    spec_ascii_lowercase(spec_trim(value))
}

/// The commitment level a setting names, if it names one.
pub open spec fn spec_parse_commitment(value: Seq<char>) -> Option<CommitmentLevel> {
    let word = commitment_word(value);
    if word == "processed"@ {
        Some(CommitmentLevel::Processed)
    } else if word == "confirmed"@ {
        Some(CommitmentLevel::Confirmed)
    } else if word == "finalized"@ {
        Some(CommitmentLevel::Finalized)
    } else {
        None
    }
}

/// The message that rejects a commitment setting whose word is `word`.
pub open spec fn commitment_error_message(word: Seq<char>) -> Seq<char> {
    "network.http_rpc.commitment must be one of: processed, confirmed, finalized; got '"@ + word
        + "'"@
}

/// Normalizing a setting again changes nothing, so a setting names the same
/// level as its own normalized word: case and surrounding white space never
/// matter.
pub proof fn lemma_commitment_word_normal(value: Seq<char>)
    ensures
        commitment_word(commitment_word(value)) == commitment_word(value),
        spec_parse_commitment(commitment_word(value)) == spec_parse_commitment(value),
{
    let t = spec_trim(value);
    lemma_trim_is_trimmed(value);
    lemma_lowercase_keeps_trimmed(t);
    let w = spec_ascii_lowercase(t);
    lemma_trimmed_is_fixed(w);
}

/// A setting names a level exactly when its trimmed, ASCII-lower-cased word
/// is that level's name: `processed`, `confirmed` or `finalized`; any other
/// word names none.
pub proof fn lemma_commitment_names(value: Seq<char>)
    ensures
        spec_parse_commitment(value) == Some(CommitmentLevel::Processed) <==> spec_ascii_lowercase(
            spec_trim(value),
        ) == "processed"@,
        spec_parse_commitment(value) == Some(CommitmentLevel::Confirmed) <==> spec_ascii_lowercase(
            spec_trim(value),
        ) == "confirmed"@,
        spec_parse_commitment(value) == Some(CommitmentLevel::Finalized) <==> spec_ascii_lowercase(
            spec_trim(value),
        ) == "finalized"@,
        spec_parse_commitment(value) is None <==> ({
            let word = spec_ascii_lowercase(spec_trim(value));
            &&& word != "processed"@
            &&& word != "confirmed"@
            &&& word != "finalized"@
        }),
{
    reveal_strlit("processed");
    reveal_strlit("confirmed");
    reveal_strlit("finalized");
    assert("processed"@[0] != "confirmed"@[0]);
    assert("processed"@[0] != "finalized"@[0]);
    assert("confirmed"@[0] != "finalized"@[0]);
}

/// Read a commitment setting: `processed`, `confirmed` or `finalized`, in any
/// ASCII case and with surrounding white space; anything else is rejected
/// with a validation error that quotes the normalized word.
pub fn parse_commitment(value: &str) -> (r: Result<CommitmentLevel, AppError>)
    ensures
        r matches Ok(level) ==> spec_parse_commitment(value@) == Some(level),
        r is Err <==> spec_parse_commitment(value@) is None,
        r matches Err(e) ==> (e matches AppError::Config(ConfigError::Validation(m)) && m@
            == commitment_error_message(commitment_word(value@))),
{
    let word = normalize_word(value);
    if word == String::from_str("processed") {
        return Ok(CommitmentLevel::Processed);
    }
    if word == String::from_str("confirmed") {
        return Ok(CommitmentLevel::Confirmed);
    }
    if word == String::from_str("finalized") {
        return Ok(CommitmentLevel::Finalized);
    }
    let mut message = String::from_str(
        "network.http_rpc.commitment must be one of: processed, confirmed, finalized; got '",
    );
    message.append(word.as_str());
    message.append("'");
    Err(AppError::Config(ConfigError::Validation(message)))
}

impl RpcStartupReport {
    /// The report of a successful start-up check: the configured URL and
    /// commitment together with the measured latencies and the blockhash read.
    pub fn from_measurements(
        config: &AppConfig,
        health_check_latency_ms: u128,
        blockhash_latency_ms: u128,
        latest_blockhash: String,
    ) -> (r: RpcStartupReport)
        ensures
            r.url@ == config.network.http_rpc.url@,
            r.commitment@ == config.network.http_rpc.commitment@,
            r.health_check_latency_ms == health_check_latency_ms,
            r.blockhash_latency_ms == blockhash_latency_ms,
            r.latest_blockhash@ == latest_blockhash@,
    {
        RpcStartupReport {
            url: config.network.http_rpc.url.clone(),
            commitment: config.network.http_rpc.commitment.clone(),
            health_check_latency_ms,
            blockhash_latency_ms,
            latest_blockhash,
        }
    }
}

} // verus!
