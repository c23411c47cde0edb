//! Decoded program events and the naming and filtering used when a
//! transaction is mapped into artifact files.

use vstd::prelude::*;

use crate::clock::is_clock_reading;
use crate::text::{first_chars, starts_with, strings_view};

verus! {

/// What a decoded program event is.
#[derive(Debug, Clone, Copy, PartialEq, Eq, Structural)]
pub enum DecodedEventKind {
    Creation,
    Other,
}

/// Whether the Mayhem flag of a new token was seen switched on.
#[derive(Debug, Clone, Copy, PartialEq, Eq, Structural)]
pub enum MayhemStatus {
    On,
    Off,
    Unknown,
}

/// How sure the decoder is of what it read.
#[derive(Debug, Clone, Copy, PartialEq, Eq, Structural)]
pub enum DecodeConfidence {
    High,
    Medium,
    Low,
}

impl MayhemStatus {
    pub fn as_str(&self) -> (r: &'static str)
        ensures
            r@ == (match self {
                MayhemStatus::On => "on"@,
                MayhemStatus::Off => "off"@,
                MayhemStatus::Unknown => "unknown"@,
            }),
    {
        match self {
            MayhemStatus::On => "on",
            MayhemStatus::Off => "off",
            MayhemStatus::Unknown => "unknown",
        }
    }
}

impl DecodeConfidence {
    pub fn as_str(&self) -> (r: &'static str)
        ensures
            r@ == (match self {
                DecodeConfidence::High => "high"@,
                DecodeConfidence::Medium => "medium"@,
                DecodeConfidence::Low => "low"@,
            }),
    {
        match self {
            DecodeConfidence::High => "high",
            DecodeConfidence::Medium => "medium",
            DecodeConfidence::Low => "low",
        }
    }
}

/// A program event decoded from a transaction, as the qualifier reads it.
#[derive(Debug, Clone)]
pub struct DecodedMayhemEvent {
    pub signature: String,
    pub slot: u64,
    pub mint: Option<String>,
    pub event_kind: DecodedEventKind,
    pub is_creation_event: bool,
    pub is_first_seen_mint: bool,
    pub mayhem_status: MayhemStatus,
    pub decode_confidence: DecodeConfidence,
    pub matched_program_id: String,
    pub relevant_accounts: Vec<String>,
}

/// The first `n` characters of a signature, or all of it when it is shorter.
pub open spec fn signature_prefix(signature: Seq<char>, n: nat) -> Seq<char> {
    signature.take(if n <= signature.len() { n as int } else { signature.len() as int })
}

/// The first `n` characters of a signature are a prefix of it, `n` long when
/// the signature has that many and the whole signature otherwise.
pub proof fn lemma_signature_prefix(signature: Seq<char>, n: nat)
    ensures
        signature_prefix(signature, n).len() == (if n <= signature.len() {
            n
        } else {
            signature.len()
        }),
        forall|i: int|
            0 <= i < signature_prefix(signature, n).len() ==> #[trigger] signature_prefix(
                signature,
                n,
            )[i] == signature[i],
{
}

/// The directory that holds the artifacts of a transaction:
/// `<first 4 characters>_<first 8 characters>` of its signature.
pub fn artifact_dir_name(signature: &str) -> (r: String)
    ensures
        r@ == signature_prefix(signature@, 4) + "_"@ + signature_prefix(signature@, 8),
{
    let mut r = first_chars(signature, 4);
    r.append("_");
    let short_sig = first_chars(signature, 8);
    r.append(short_sig.as_str());
    r
}

/// The file that holds a transaction's log messages:
/// `<first 4 characters>_log_messages.json` of its signature.
pub fn log_messages_file_name(signature: &str) -> (r: String)
    ensures
        r@ == signature_prefix(signature@, 4) + "_log_messages.json"@,
{
    let mut r = first_chars(signature, 4);
    r.append("_log_messages.json");
    r
}

/// Whole seconds after the Unix epoch of a clock reading given in
/// nanoseconds; a reading before the epoch gives 0.
pub fn unix_secs(nanos: i128) -> (r: u64)
    requires
        is_clock_reading(nanos as int),
    ensures
        r == (if nanos < 0 {
            0
        } else {
            nanos / 1_000_000_000
        }),
{
    if nanos < 0 {
        0
    } else {
        (nanos / 1_000_000_000) as u64
    }
}

/// A log line that carries program data.
pub open spec fn is_program_data_line(line: Seq<char>) -> bool {
    "Program data:"@.len() <= line.len() && line.subrange(0, "Program data:"@.len() as int)
        == "Program data:"@
}

/// The program-data lines among `entries`, in order; entries that are not
/// strings are skipped.
pub open spec fn program_data_lines(entries: Seq<Option<String>>) -> Seq<Seq<char>>
    decreases entries.len(),
{
    if entries.len() == 0 {
        seq![]
    } else {
        let rest = program_data_lines(entries.drop_last());
        match entries.last() {
            Some(line) => if is_program_data_line(line@) {
                rest.push(line@)
            } else {
                rest
            },
            None => rest,
        }
    }
}

/// Every extracted line carries program data.
pub proof fn lemma_extracted_lines_are_program_data(entries: Seq<Option<String>>)
    ensures
        forall|i: int|
            0 <= i < program_data_lines(entries).len() ==> is_program_data_line(
                #[trigger] program_data_lines(entries)[i],
            ),
    decreases entries.len(),
{
    if entries.len() > 0 {
        let rest = program_data_lines(entries.drop_last());
        lemma_extracted_lines_are_program_data(entries.drop_last());
        let all = program_data_lines(entries);
        assert forall|i: int| 0 <= i < all.len() implies is_program_data_line(#[trigger] all[i]) by {
            if i < rest.len() {
                assert(all[i] == rest[i]);
            }
        }
    }
}

/// Extracting again from the extracted lines gives the same lines.
pub proof fn lemma_extract_idempotent(entries: Seq<Option<String>>, again: Seq<Option<String>>)
    requires
        again.len() == program_data_lines(entries).len(),
        forall|i: int|
            0 <= i < again.len() ==> (#[trigger] again[i] matches Some(s) && s@
                == program_data_lines(entries)[i]),
    ensures
        program_data_lines(again) == program_data_lines(entries),
{
    lemma_extracted_lines_are_program_data(entries);
    lemma_all_program_data_kept(again);
    let lines = program_data_lines(entries);
    assert forall|i: int| 0 <= i < again.len() implies is_program_data_line(
        (#[trigger] again[i])->0@,
    ) by {
        assert(lines[i] == again[i]->0@);
    }
    assert(program_data_lines(again) =~= lines);
}

/// When every entry is a program-data line, all of them are kept.
proof fn lemma_all_program_data_kept(entries: Seq<Option<String>>)
    ensures
        (forall|i: int|
            0 <= i < entries.len() ==> (#[trigger] entries[i] matches Some(s)
                && is_program_data_line(s@))) ==> {
            &&& program_data_lines(entries).len() == entries.len()
            &&& forall|i: int|
                0 <= i < entries.len() ==> #[trigger] program_data_lines(entries)[i]
                    == entries[i]->0@
        },
    decreases entries.len(),
{
    if entries.len() > 0 {
        let rest = entries.drop_last();
        lemma_all_program_data_kept(rest);
        if forall|i: int|
            0 <= i < entries.len() ==> (#[trigger] entries[i] matches Some(s)
                && is_program_data_line(s@)) {
            assert forall|i: int| 0 <= i < rest.len() implies (#[trigger] rest[i] matches Some(s)
                && is_program_data_line(s@)) by {
                assert(rest[i] == entries[i]);
            }
            assert(entries.last() == entries[entries.len() - 1]);
        }
    }
}

/// The lines of a transaction's log messages that carry program data. The
/// messages are a JSON array whose string entries are the lines (`None` when
/// the value is not an array; `None` entries are not strings).
pub fn extract_program_data_logs(log_messages: &Option<Vec<Option<String>>>) -> (r: Vec<String>)
    ensures
        strings_view(r@) == (match log_messages {
            Some(entries) => program_data_lines(entries@),
            None => seq![],
        }),
{
    let mut r: Vec<String> = Vec::new();
    match log_messages {
        None => {
            assert(strings_view(r@) =~= seq![]);
            r
        },
        Some(entries) => {
            let n = entries.len();
            let mut i: usize = 0;
            while i < n
                invariant
                    n == entries@.len(),
                    i <= n,
                    strings_view(r@) == program_data_lines(entries@.take(i as int)),
                decreases n - i,
            {
                assert(entries@.take(i + 1).drop_last() =~= entries@.take(i as int));
                match &entries[i] {
                    Some(line) => {
                        if starts_with(line.as_str(), "Program data:") {
                            r.push(line.clone());
                        }
                    },
                    None => {},
                }
                assert(strings_view(r@) =~= program_data_lines(entries@.take(i + 1)));
                i = i + 1;
            }
            assert(entries@.take(n as int) =~= entries@);
            r
        },
    }
}

} // verus!
