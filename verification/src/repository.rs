use vstd::prelude::*;
use vstd::utf8::{encode_scalar, encode_utf8};
use crate::error::{Error, ErrorKind, error_of};
use crate::external::{Timestamp, uuid_string, uuid_text};
use crate::job::{Job, JobView, opt_results};
use crate::job_action::{JobAction, JobActionView, actions_view, opt_text};
use crate::job_config::{JobConfig, JobConfigView, opt_config};
use crate::job_status::JobStatus;
use crate::results::ResultMap;
use crate::text::{chars_of, concat};

verus! {

/// Payloads longer than this many bytes are kept in object storage instead of the record.
pub const DEFAULT_S3_OFFLOAD_THRESHOLD_BYTES: usize = 300000;

/// The object key under which a job's actions are offloaded.
pub open spec fn actions_key_spec(job_id: u128) -> Seq<char> {
    "jobs/"@ + uuid_text(job_id) + "/actions.json"@
}

/// The object key under which a job's results are offloaded.
pub open spec fn results_key_spec(job_id: u128) -> Seq<char> {
    "jobs/"@ + uuid_text(job_id) + "/results.json"@
}

/// The object key under which a job's actions are offloaded.
pub fn actions_s3_key(job_id: u128) -> (key: String)
    ensures
        key@ == actions_key_spec(job_id),
{
    let head = concat("jobs/", uuid_string(job_id).as_str());
    concat(head.as_str(), "/actions.json")
}

/// The object key under which a job's results are offloaded.
pub fn results_s3_key(job_id: u128) -> (key: String)
    ensures
        key@ == results_key_spec(job_id),
{
    let head = concat("jobs/", uuid_string(job_id).as_str());
    concat(head.as_str(), "/results.json")
}

/// Whether a payload is too large to stay inline: its UTF-8 length exceeds the threshold.
pub open spec fn offloaded(payload: Seq<char>, threshold: usize) -> bool {
    encode_utf8(payload).len() > threshold
}

/// The number of bytes that `c` takes in UTF-8.
fn utf8_width(c: char) -> (w: usize)
    ensures
        w == encode_utf8(seq![c]).len(),
{
    let u = c as u32;
    assert(encode_utf8(seq![c]) =~= encode_scalar(u) + encode_utf8(seq![c].drop_first()));
    assert(encode_utf8(seq![c].drop_first()) =~= Seq::<u8>::empty());
    if u <= 0x7f {
        1
    } else if u <= 0x7ff {
        2
    } else if u <= 0xffff {
        3
    } else {
        4
    }
}

/// Whether a payload must be uploaded to object storage instead of staying inline: its
/// UTF-8 length is counted until it passes the threshold.
pub fn must_offload(payload: &str, threshold: usize) -> (b: bool)
    ensures
        b == offloaded(payload@, threshold),
{
    let chars = chars_of(payload);
    let mut total: usize = 0;
    let mut i: usize = 0;
    assert(chars@.skip(0) =~= chars@);
    while i < chars.len()
        invariant
            i <= chars@.len(),
            chars@ == payload@,
            total <= threshold,
            encode_utf8(chars@).len() == total + encode_utf8(chars@.skip(i as int)).len(),
        decreases chars@.len() - i,
    {
        let c = chars[i];
        let w = utf8_width(c);
        let ghost rest = chars@.skip(i as int);
        assert(rest[0] == c);
        assert(rest.drop_first() =~= chars@.skip(i + 1));
        assert(encode_utf8(seq![c]) =~= encode_scalar(c as u32) + encode_utf8(
            seq![c].drop_first(),
        ));
        assert(encode_utf8(seq![c].drop_first()) =~= Seq::<u8>::empty());
        assert(encode_utf8(rest) == encode_scalar(c as u32) + encode_utf8(rest.drop_first()));
        if w > threshold - total {
            return true;
        }
        total = total + w;
        i = i + 1;
    }
    assert(chars@.skip(i as int) =~= Seq::<char>::empty());
    false
}

/// Where a payload is kept: `(inline, key)`, one of which is set.
pub open spec fn placement_spec(s3_key: Seq<char>, payload: Seq<char>, threshold: usize) -> (
    Option<Seq<char>>,
    Option<Seq<char>>,
) {
    if offloaded(payload, threshold) {
        (None, Some(s3_key))
    } else {
        (Some(payload), None)
    }
}

/// The record fields `(inline, key)` of a payload: the payload itself if it fits under the
/// threshold, else the object key under which it is uploaded.
pub fn place_payload(s3_key: String, payload: String, threshold: usize) -> (placed: (
    Option<String>,
    Option<String>,
))
    ensures
        (opt_text(placed.0), opt_text(placed.1)) == placement_spec(s3_key@, payload@, threshold),
{
    if must_offload(payload.as_str(), threshold) {
        (None, Some(s3_key))
    } else {
        (Some(payload), None)
    }
}

/// Where a stored payload is read from.
#[derive(Debug)]
pub enum PayloadSource {
    Inline(String),
    Fetch(String),
    Absent,
}

pub enum PayloadSourceView {
    Inline(Seq<char>),
    Fetch(Seq<char>),
    Absent,
}

impl View for PayloadSource {
    type V = PayloadSourceView;

    open spec fn view(&self) -> PayloadSourceView {
        match self {
            PayloadSource::Inline(p) => PayloadSourceView::Inline(p@),
            PayloadSource::Fetch(k) => PayloadSourceView::Fetch(k@),
            PayloadSource::Absent => PayloadSourceView::Absent,
        }
    }
}

/// Where a payload with the given record fields is read from: the inline copy if there is
/// one, else the object under the key, else nowhere.
pub open spec fn source_spec(
    inline: Option<Seq<char>>,
    s3_key: Option<Seq<char>>,
) -> PayloadSourceView {
    match (inline, s3_key) {
        (Some(p), _) => PayloadSourceView::Inline(p),
        (None, Some(k)) => PayloadSourceView::Fetch(k),
        (None, None) => PayloadSourceView::Absent,
    }
}

/// Where a payload with the given record fields is read from.
pub fn payload_source(inline: Option<String>, s3_key: Option<String>) -> (source: PayloadSource)
    ensures
        source@ == source_spec(opt_text(inline), opt_text(s3_key)),
{
    match (inline, s3_key) {
        (Some(p), _) => PayloadSource::Inline(p),
        (None, Some(k)) => PayloadSource::Fetch(k),
        (None, None) => PayloadSource::Absent,
    }
}

/// A payload placed under a key is read back from where it was put: inline when it fits,
/// else from the object under that key.
pub proof fn lemma_payload_round_trip(s3_key: Seq<char>, payload: Seq<char>, threshold: usize)
    ensures
        source_spec(
            placement_spec(s3_key, payload, threshold).0,
            placement_spec(s3_key, payload, threshold).1,
        ) == if offloaded(payload, threshold) {
            PayloadSourceView::Fetch(s3_key)
        } else {
            PayloadSourceView::Inline(payload)
        },
{
}

/// The message for a record that has no actions anywhere.
pub open spec fn missing_actions_message() -> Seq<char> {
    "job record has neither inline actions nor an S3 key"@
}

/// The actions payload that was read, which every record must have.
pub fn require_actions_payload(payload: Option<String>) -> (r: Result<String, Error>)
    ensures
        match payload {
            Some(p) => r matches Ok(q) && q@ == p@,
            None => r matches Err(e) && e@ == error_of(
                ErrorKind::DatabaseError,
                missing_actions_message(),
            ),
        },
{
    match payload {
        Some(p) => Ok(p),
        None => Err(
            Error::DatabaseError("job record has neither inline actions nor an S3 key".to_owned()),
        ),
    }
}

/// A job as it is stored: its fields, with the actions and results as payloads that are
/// inline or offloaded.
#[derive(Debug)]
pub struct JobRecord {
    pub id: u128,
    pub actions_inline: Option<String>,
    pub actions_s3_key: Option<String>,
    pub status: JobStatus,
    pub config: Option<JobConfig>,
    pub results_inline: Option<String>,
    pub results_s3_key: Option<String>,
    pub error: Option<String>,
    pub created_at: Timestamp,
    pub started_at: Option<Timestamp>,
    pub finished_at: Option<Timestamp>,
}

pub struct JobRecordView {
    pub id: u128,
    pub actions_inline: Option<Seq<char>>,
    pub actions_s3_key: Option<Seq<char>>,
    pub status: JobStatus,
    pub config: Option<JobConfigView>,
    pub results_inline: Option<Seq<char>>,
    pub results_s3_key: Option<Seq<char>>,
    pub error: Option<Seq<char>>,
    pub created_at: Timestamp,
    pub started_at: Option<Timestamp>,
    pub finished_at: Option<Timestamp>,
}

impl View for JobRecord {
    type V = JobRecordView;

    open spec fn view(&self) -> JobRecordView {
        JobRecordView {
            id: self.id,
            actions_inline: opt_text(self.actions_inline),
            actions_s3_key: opt_text(self.actions_s3_key),
            status: self.status,
            config: opt_config(self.config),
            results_inline: opt_text(self.results_inline),
            results_s3_key: opt_text(self.results_s3_key),
            error: opt_text(self.error),
            created_at: self.created_at,
            started_at: self.started_at,
            finished_at: self.finished_at,
        }
    }
}

/// The record of a job whose actions and results payloads were placed as given.
pub open spec fn record_spec(
    job: JobView,
    actions: (Option<Seq<char>>, Option<Seq<char>>),
    results: (Option<Seq<char>>, Option<Seq<char>>),
) -> JobRecordView {
    JobRecordView {
        id: job.id,
        actions_inline: actions.0,
        actions_s3_key: actions.1,
        status: job.status,
        config: job.config,
        results_inline: results.0,
        results_s3_key: results.1,
        error: job.error,
        created_at: job.created_at,
        started_at: job.started_at,
        finished_at: job.finished_at,
    }
}

/// The record that stores a job, given where its actions and results payloads were placed.
pub fn record_for_job(
    job: &Job,
    actions: (Option<String>, Option<String>),
    results: (Option<String>, Option<String>),
) -> (record: JobRecord)
    ensures
        record@ == record_spec(
            job@,
            (opt_text(actions.0), opt_text(actions.1)),
            (opt_text(results.0), opt_text(results.1)),
        ),
{
    let config = match job.config() {
        Some(c) => Some(c.clone()),
        None => None,
    };
    let error = match job.error() {
        Some(e) => Some(e.to_owned()),
        None => None,
    };
    JobRecord {
        id: job.id(),
        actions_inline: actions.0,
        actions_s3_key: actions.1,
        status: job.status(),
        config,
        results_inline: results.0,
        results_s3_key: results.1,
        error,
        created_at: job.created_at(),
        started_at: job.started_at(),
        finished_at: job.finished_at(),
    }
}

/// The job that a record stores, with its actions and results as read from their payloads.
pub open spec fn job_of_record(
    record: JobRecordView,
    actions: Seq<JobActionView>,
    results: Option<Map<Seq<char>, Seq<char>>>,
) -> JobView {
    JobView {
        id: record.id,
        actions,
        status: record.status,
        config: record.config,
        results,
        error: record.error,
        created_at: record.created_at,
        started_at: record.started_at,
        finished_at: record.finished_at,
    }
}

/// The job that a record stores, with its actions and results as read from their payloads.
pub fn job_from_record(
    record: JobRecord,
    actions: Vec<JobAction>,
    results: Option<ResultMap>,
) -> (job: Job)
    ensures
        job@ == job_of_record(record@, actions_view(actions@), opt_results(results)),
{
    Job::from_persisted(
        record.id,
        actions,
        record.status,
        record.config,
        results,
        record.error,
        record.created_at,
        record.started_at,
        record.finished_at,
    )
}

/// Reading back the record of a job, with its actions and results as they were, gives the
/// same job, wherever the payloads were placed.
pub proof fn lemma_record_round_trip(
    job: JobView,
    actions: (Option<Seq<char>>, Option<Seq<char>>),
    results: (Option<Seq<char>>, Option<Seq<char>>),
)
    ensures
        job_of_record(record_spec(job, actions, results), job.actions, job.results) == job,
{
}

/// A record keeps both fields of each payload's placement as given, so each payload is read
/// back from where it was put: a payload kept inline is read from the record, and one
/// offloaded to an object is fetched from it and its key is among those deleted with the job.
pub proof fn lemma_record_keeps_placements(
    job: JobView,
    actions_key: Seq<char>,
    actions_payload: Seq<char>,
    results_key: Seq<char>,
    results_payload: Seq<char>,
    threshold: usize,
)
    ensures
        ({
            let actions = placement_spec(actions_key, actions_payload, threshold);
            let results = placement_spec(results_key, results_payload, threshold);
            let record = record_spec(job, actions, results);
            &&& record.actions_inline == actions.0
            &&& record.actions_s3_key == actions.1
            &&& record.results_inline == results.0
            &&& record.results_s3_key == results.1
            &&& source_spec(record.actions_inline, record.actions_s3_key) == if offloaded(
                actions_payload,
                threshold,
            ) {
                PayloadSourceView::Fetch(actions_key)
            } else {
                PayloadSourceView::Inline(actions_payload)
            }
            &&& source_spec(record.results_inline, record.results_s3_key) == if offloaded(
                results_payload,
                threshold,
            ) {
                PayloadSourceView::Fetch(results_key)
            } else {
                PayloadSourceView::Inline(results_payload)
            }
            &&& offloaded(results_payload, threshold) ==> offloaded_keys_spec(record).contains(
                results_key,
            )
            &&& offloaded(actions_payload, threshold) ==> offloaded_keys_spec(record).contains(
                actions_key,
            )
        }),
{
    let actions = placement_spec(actions_key, actions_payload, threshold);
    let results = placement_spec(results_key, results_payload, threshold);
    let record = record_spec(job, actions, results);
    let keys = offloaded_keys_spec(record);
    if offloaded(results_payload, threshold) {
        assert(keys[keys.len() - 1] == results_key);
    }
    if offloaded(actions_payload, threshold) {
        assert(keys[0] == actions_key);
    }
}

/// The object keys that a record's payloads were offloaded under.
pub open spec fn offloaded_keys_spec(record: JobRecordView) -> Seq<Seq<char>> {
    let a = match record.actions_s3_key {
        Some(k) => seq![k],
        None => Seq::empty(),
    };
    match record.results_s3_key {
        Some(k) => a.push(k),
        None => a,
    }
}

/// The object keys that a record's payloads were offloaded under, actions first; deleting a
/// job deletes these objects before the record.
pub fn offloaded_keys(record: &JobRecord) -> (keys: Vec<String>)
    ensures
        keys@.map_values(|k: String| k@) == offloaded_keys_spec(record@),
{
    let mut keys: Vec<String> = Vec::new();
    match &record.actions_s3_key {
        Some(k) => keys.push(k.clone()),
        None => {},
    }
    match &record.results_s3_key {
        Some(k) => keys.push(k.clone()),
        None => {},
    }
    assert(keys@.map_values(|k: String| k@) =~= offloaded_keys_spec(record@));
    keys
}

} // verus!
