use vstd::prelude::*;

use std::io::Read;

use super::Progress;

pub mod eula;
pub mod initial_setup;
pub mod panel;
pub mod summary;

verus! {

#[verifier::external_type_specification]
#[verifier::external_body]
pub struct ExIoError(std::io::Error);

#[verifier::external_type_specification]
#[verifier::external_body]
pub struct ExJsonError(serde_json::Error);

/// The vendor's privacy statement, which the setup and the summary link to.
pub const HP_PRIVACY_URL: &'static str = "https://www.hp.com/us-en/privacy/privacy-central.html";

/// Whether a remote operation went through.
#[derive(Debug, Clone, Copy, PartialEq, Eq)]
pub enum Status {
    Success,
    Failed,
}

/// A purpose for which analytics data is collected, as the vendor service
/// describes it.
#[derive(Debug, PartialEq, Eq)]
pub struct Purpose {
    pub purpose_id: String,
    pub version: String,
    /// The statement that the user agrees to.
    pub statement: String,
}

impl Clone for Purpose {
    fn clone(&self) -> (res: Self)
        ensures
            res == *self,
    {
        Purpose {
            purpose_id: self.purpose_id.clone(),
            version: self.version.clone(),
            statement: self.statement.clone(),
        }
    }
}

/// The purpose that fits the user's locale, and whether the user opted in.
#[derive(Debug, PartialEq, Eq)]
pub struct PurposeAndOpt {
    pub language: String,
    pub region: String,
    pub purpose: Purpose,
    pub opted: bool,
}

impl PurposeAndOpt {
    /// Assembles the answer of the vendor service: the purpose chosen for the
    /// locale, and the opt-in of the consent on record, where there is one.
    /// A user without a consent on record has not opted in.
    pub fn from_response(
        language: String,
        region: String,
        purpose: Purpose,
        consent_opt_in: Option<bool>,
    ) -> (res: PurposeAndOpt)
        ensures
            res.language == language,
            res.region == region,
            res.purpose == purpose,
            res.opted == (consent_opt_in == Some(true)),
    {
        let opted = match consent_opt_in {
            Some(opt_in) => opt_in,
            None => false,
        };
        PurposeAndOpt { language, region, purpose, opted }
    }
}

/// The errors that the vendor service reports, by what the panel tells
/// apart in them.
#[derive(Debug, PartialEq, Eq)]
pub enum ClientError {
    /// The service answered with an error status for one of its endpoints.
    Api { code: u16, endpoint: String },
    /// The service could not be reached.
    Reqwest,
    /// Anything else.
    Other,
}

/// Counts the bytes of a download as they are read.
#[derive(Debug, Clone, Copy, PartialEq, Eq)]
pub struct ProgressCounter {
    pub read: u64,
    pub total: u64,
}

/// The counter after `count` more bytes are read.
pub open spec fn recorded(counter: ProgressCounter, count: int) -> ProgressCounter {
    ProgressCounter { read: (counter.read + count) as u64, total: counter.total }
}

/// The counter after reads of `counts` bytes, in order.
pub open spec fn recorded_all(counter: ProgressCounter, counts: Seq<usize>) -> ProgressCounter
    decreases counts.len(),
{
    if counts.len() == 0 {
        counter
    } else {
        recorded_all(recorded(counter, counts[0] as int), counts.drop_first())
    }
}

/// The number of bytes that reads of `counts` bytes read together.
pub open spec fn total_of(counts: Seq<usize>) -> int
    decreases counts.len(),
{
    if counts.len() == 0 {
        0
    } else {
        counts[0] + total_of(counts.drop_first())
    }
}

proof fn lemma_total_nonnegative(counts: Seq<usize>)
    ensures
        total_of(counts) >= 0,
    decreases counts.len(),
{
    if counts.len() > 0 {
        lemma_total_nonnegative(counts.drop_first());
    }
}

/// The counter keeps track of how many bytes have been read: after any
/// reads, counted from its start, it holds the bytes that they read together
/// and the size of the download it started with.
pub proof fn lemma_counter_adds_up(counter: ProgressCounter, counts: Seq<usize>)
    requires
        counter.read + total_of(counts) <= u64::MAX,
    ensures
        recorded_all(counter, counts).read == counter.read + total_of(counts),
        recorded_all(counter, counts).total == counter.total,
    decreases counts.len(),
{
    if counts.len() > 0 {
        lemma_total_nonnegative(counts.drop_first());
        lemma_counter_adds_up(recorded(counter, counts[0] as int), counts.drop_first());
    }
}

impl ProgressCounter {
    /// A counter for a download of `total` bytes of which none are read yet.
    pub fn new(total: u64) -> (counter: ProgressCounter)
        ensures
            counter.read == 0,
            counter.total == total,
    {
        ProgressCounter { read: 0, total }
    }

    /// Counts `count` more bytes read and returns the progress to show.
    pub fn record(&mut self, count: usize) -> (progress: Progress)
        requires
            old(self).read + count <= u64::MAX,
        ensures
            *final(self) == recorded(*old(self), count as int),
            final(self).read == old(self).read + count,
            progress == (Progress::Read { read: final(self).read, total: final(self).total }),
    {
        self.read = self.read + count as u64;
        Progress::Read { read: self.read, total: self.total }
    }
}

/// The bytes that a gzip stream decompresses to, or `None` where it is no
/// valid gzip stream.
pub uninterp spec fn gunzip_of(data: Seq<u8>) -> Option<Seq<u8>>;

/// The pretty-printed form of a JSON document, or `None` where the bytes
/// are no valid JSON.
pub uninterp spec fn pretty_json_of(data: Seq<u8>) -> Option<Seq<u8>>;

/// Decompresses a gzip stream with `flate2::read::GzDecoder`, read to its end.
/// Trusted to succeed exactly where `gunzip_of` gives bytes, and then to give
/// those bytes: decoding a byte slice depends on the slice alone.
#[verifier::external_body]
fn gunzip(data: &[u8]) -> (res: Result<Vec<u8>, std::io::Error>)
    ensures
        res is Ok <==> gunzip_of(data@) is Some,
        res matches Ok(bytes) ==> bytes@ == gunzip_of(data@)->0,
{
    let mut bytes = Vec::new();
    let mut decoder = flate2::read::GzDecoder::new(data);
    match decoder.read_to_end(&mut bytes) {
        Ok(_) => Ok(bytes),
        Err(err) => Err(err),
    }
}

/// Parses JSON with `serde_json::from_slice` into a `serde_json::Value` and
/// prints that value again with `serde_json::to_vec_pretty`. Trusted to
/// succeed exactly where `pretty_json_of` gives bytes, and then to give those
/// bytes: both steps depend on their input alone.
#[verifier::external_body]
fn pretty_json(data: &[u8]) -> (res: Result<Vec<u8>, serde_json::Error>)
    ensures
        res is Ok <==> pretty_json_of(data@) is Some,
        res matches Ok(bytes) ==> bytes@ == pretty_json_of(data@)->0,
{
    match serde_json::from_slice::<serde_json::Value>(data) {
        Ok(value) => serde_json::to_vec_pretty(&value),
        Err(err) => Err(err),
    }
}

/// Why a downloaded archive could not be made readable.
#[derive(Debug)]
pub enum ExportError {
    /// The archive is no valid gzip stream.
    Decompress(std::io::Error),
    /// What it holds is no valid JSON.
    Json(serde_json::Error),
}

/// The readable form of a downloaded archive: its decompressed JSON,
/// pretty-printed.
pub open spec fn exported_of(compressed: Seq<u8>) -> Option<Seq<u8>> {
    match gunzip_of(compressed) {
        Some(raw) => pretty_json_of(raw),
        None => None,
    }
}

/// Turns the gzip-compressed JSON that the vendor service sends into the
/// pretty-printed JSON that is saved for the user.
pub fn export_download(compressed: &[u8]) -> (res: Result<Vec<u8>, ExportError>)
    ensures
        match res {
            Ok(bytes) => exported_of(compressed@) == Some(bytes@),
            Err(ExportError::Decompress(_)) => gunzip_of(compressed@) is None,
            Err(ExportError::Json(_)) => gunzip_of(compressed@) is Some
                && pretty_json_of(gunzip_of(compressed@)->0) is None,
        },
{
    let raw = match gunzip(compressed) {
        Ok(raw) => raw,
        Err(err) => return Err(ExportError::Decompress(err)),
    };
    match pretty_json(raw.as_slice()) {
        Ok(bytes) => Ok(bytes),
        Err(err) => Err(ExportError::Json(err)),
    }
}

} // verus!
