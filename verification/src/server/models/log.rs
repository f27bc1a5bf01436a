//! Log entries: what a client sends, and how it is checked and normalised.
use vstd::prelude::*;
use vstd::utf8::encode_utf8;
use crate::clock::{clock_failure, clock_failure_message, now_millis, rfc3339_millis, spec_rfc3339_millis, spec_utc_datetime_millis, utc_datetime_millis};
use crate::error::{AppError, is_bad_request};
use crate::num::{law_parse_format_i64, parse_i64, signed_decimal, spec_parse_i64};
use crate::text::{
    byte_len_exceeds, concat, lemma_trim_clean, lemma_trim_idempotent, lowercase, opt_view, owned, str_eq,
    to_lowercase, trim, trim_seq,
};

verus! {

/// Largest message, in bytes.
pub const MAX_MESSAGE_BYTES: usize = 65536;

/// Largest encoded metadata, in bytes.
pub const MAX_META_BYTES: usize = 131072;

/// Largest `app` and `source`, in bytes.
pub const MAX_NAME_BYTES: usize = 128;

/// The length in bytes (UTF-8) of a string.
pub open spec fn byte_len(s: Seq<char>) -> nat {
    encode_utf8(s).len()
}

/// The accepted levels: `debug`, `info`, `warn`, `error`, `fatal`.
pub open spec fn is_valid_level(level: Seq<char>) -> bool {
    level == "debug"@ || level == "info"@ || level == "warn"@ || level == "error"@ || level
        == "fatal"@
}

/// Whether `level` is one of the accepted levels.
pub fn valid_level(level: &str) -> (r: bool)
    ensures
        r == is_valid_level(level@),
{
    str_eq(level, "debug") || str_eq(level, "info") || str_eq(level, "warn") || str_eq(level, "error")
        || str_eq(level, "fatal")
}

/// A log entry as a client submits it. `meta_json` is the metadata already
/// encoded as JSON text.
#[derive(Debug, Clone)]
pub struct NewLog {
    pub app: String,
    pub level: String,
    pub message: String,
    pub timestamp: Option<String>,
    pub source: Option<String>,
    pub meta_json: Option<String>,
}

/// A checked entry, ready to be stored.
#[derive(Debug, Clone, PartialEq, Eq)]
pub struct InsertLog {
    pub timestamp_ms: i64,
    pub app: String,
    pub level: String,
    pub source: Option<String>,
    pub message: String,
    pub meta_json: Option<String>,
}

pub struct NewLogView {
    pub app: Seq<char>,
    pub level: Seq<char>,
    pub message: Seq<char>,
    pub timestamp: Option<Seq<char>>,
    pub source: Option<Seq<char>>,
    pub meta_json: Option<Seq<char>>,
}

pub struct InsertLogView {
    pub timestamp_ms: i64,
    pub app: Seq<char>,
    pub level: Seq<char>,
    pub source: Option<Seq<char>>,
    pub message: Seq<char>,
    pub meta_json: Option<Seq<char>>,
}

impl View for NewLog {
    type V = NewLogView;

    open spec fn view(&self) -> NewLogView {
        NewLogView {
            app: self.app@,
            level: self.level@,
            message: self.message@,
            timestamp: opt_view(self.timestamp),
            source: opt_view(self.source),
            meta_json: opt_view(self.meta_json),
        }
    }
}

impl View for InsertLog {
    type V = InsertLogView;

    open spec fn view(&self) -> InsertLogView {
        InsertLogView {
            timestamp_ms: self.timestamp_ms,
            app: self.app@,
            level: self.level@,
            source: opt_view(self.source),
            message: self.message@,
            meta_json: opt_view(self.meta_json),
        }
    }
}

/// What a client timestamp denotes in Unix milliseconds: an integer is taken
/// as milliseconds, else RFC 3339, else chrono's relaxed UTC form.
pub open spec fn spec_parse_timestamp_ms(raw: Seq<char>) -> Option<i64> {
    match spec_parse_i64(raw) {
        Some(ms) => Some(ms),
        None => match spec_rfc3339_millis(raw) {
            Some(ms) => Some(ms),
            None => spec_utc_datetime_millis(raw),
        },
    }
}

/// Reads a client timestamp (see `spec_parse_timestamp_ms`); the error is
/// `invalid timestamp: <raw>`.
pub fn parse_timestamp_ms(raw: &str) -> (r: Result<i64, String>)
    ensures
        match spec_parse_timestamp_ms(raw@) {
            Some(ms) => r == Ok::<i64, String>(ms),
            None => r matches Err(m) && m@ == "invalid timestamp: "@ + raw@,
        },
{
    if let Some(ms) = parse_i64(raw) {
        return Ok(ms);
    }
    if let Some(ms) = rfc3339_millis(raw) {
        return Ok(ms);
    }
    match utc_datetime_millis(raw) {
        Some(ms) => Ok(ms),
        None => Err(concat("invalid timestamp: ", raw)),
    }
}

/// The source after trimming, absent where it is empty.
pub open spec fn normalized_source(source: Option<Seq<char>>) -> Option<Seq<char>> {
    match source {
        Some(s) => if trim_seq(s).len() == 0 {
            None
        } else {
            Some(trim_seq(s))
        },
        None => None,
    }
}

/// What `validate_and_normalize` gives at time `now_ms`: the first failing
/// check's message, or the normalised entry.
pub open spec fn spec_validate(n: NewLogView, now_ms: i64) -> Result<InsertLogView, Seq<char>> {
    let app = trim_seq(n.app);
    let level = lowercase(trim_seq(n.level));
    let source = normalized_source(n.source);
    if app.len() == 0 {
        Err("app is required"@)
    } else if byte_len(app) > MAX_NAME_BYTES {
        Err("app is too long"@)
    } else if !is_valid_level(level) {
        Err("invalid level: "@ + n.level)
    } else if n.message.len() == 0 {
        Err("message is required"@)
    } else if byte_len(n.message) > MAX_MESSAGE_BYTES {
        Err("message exceeds maximum size"@)
    } else if n.meta_json matches Some(m) && byte_len(m) > MAX_META_BYTES {
        Err("metadata exceeds maximum size"@)
    } else if source matches Some(s) && byte_len(s) > MAX_NAME_BYTES {
        Err("source is too long"@)
    } else {
        match n.timestamp {
            Some(t) => match spec_parse_timestamp_ms(t) {
                Some(ms) => Ok(
                    InsertLogView {
                        timestamp_ms: ms,
                        app,
                        level,
                        source,
                        message: n.message,
                        meta_json: n.meta_json,
                    },
                ),
                None => Err("invalid timestamp: "@ + t),
            },
            None => Ok(
                InsertLogView {
                    timestamp_ms: now_ms,
                    app,
                    level,
                    source,
                    message: n.message,
                    meta_json: n.meta_json,
                },
            ),
        }
    }
}

/// The view of a validation result.
pub open spec fn validation_view(r: Result<InsertLog, String>) -> Result<InsertLogView, Seq<char>> {
    match r {
        Ok(i) => Ok(i@),
        Err(m) => Err(m@),
    }
}

impl NewLog {
    /// Checks and normalises an entry at time `now_ms` (used where the entry
    /// has no timestamp): `app` trimmed, non-empty, at most 128 bytes; `level`
    /// trimmed and lowercased, one of the five levels; `message` non-empty, at
    /// most 64 KiB; metadata at most 128 KiB; `source` trimmed, dropped when
    /// empty, at most 128 bytes; the timestamp readable.
    pub fn validate_and_normalize_at(self, now_ms: i64) -> (r: Result<InsertLog, String>)
        ensures
            validation_view(r) == spec_validate(self@, now_ms),
    {
        let app = trim(self.app.as_str());
        if app.as_str().is_empty() {
            return Err(crate::text::owned("app is required"));
        }
        if byte_len_exceeds(app.as_str(), MAX_NAME_BYTES) {
            return Err(crate::text::owned("app is too long"));
        }
        let trimmed_level = trim(self.level.as_str());
        let level = to_lowercase(trimmed_level.as_str());
        if !valid_level(level.as_str()) {
            return Err(concat("invalid level: ", self.level.as_str()));
        }
        let message = self.message;
        if message.as_str().is_empty() {
            return Err(crate::text::owned("message is required"));
        }
        if byte_len_exceeds(message.as_str(), MAX_MESSAGE_BYTES) {
            return Err(crate::text::owned("message exceeds maximum size"));
        }
        match &self.meta_json {
            Some(m) => {
                if byte_len_exceeds(m.as_str(), MAX_META_BYTES) {
                    return Err(crate::text::owned("metadata exceeds maximum size"));
                }
            },
            None => {},
        }
        let source = match &self.source {
            Some(s) => {
                let t = trim(s.as_str());
                if t.as_str().is_empty() {
                    None
                } else {
                    Some(t)
                }
            },
            None => None,
        };
        match &source {
            Some(s) => {
                if byte_len_exceeds(s.as_str(), MAX_NAME_BYTES) {
                    return Err(crate::text::owned("source is too long"));
                }
            },
            None => {},
        }
        let timestamp_ms = match &self.timestamp {
            Some(ts) => match parse_timestamp_ms(ts.as_str()) {
                Ok(ms) => ms,
                Err(e) => return Err(e),
            },
            None => now_ms,
        };
        Ok(InsertLog { timestamp_ms, app, level, source, message, meta_json: self.meta_json })
    }

    /// Checks and normalises an entry; an entry without a timestamp gets the
    /// current time (see `validate_and_normalize_at`). The clock is read only
    /// for an entry that passes every check and has no timestamp; where it
    /// reads before the Unix epoch, that entry is refused with `system time
    /// before Unix epoch`.
    pub fn validate_and_normalize(self) -> (r: Result<InsertLog, String>)
        ensures
            self.timestamp is Some ==> forall|t: i64| validation_view(r) == #[trigger] spec_validate(self@, t),
            exists|now: Option<i64>| validation_view(r) == spec_validate_with_clock(self@, now),
    {
        let has_timestamp = self.timestamp.is_some();
        let ghost n = self@;
        proof {
            lemma_validate_time_only(n);
        }
        let checked = self.validate_and_normalize_at(0);
        if has_timestamp {
            assert(validation_view(checked) == spec_validate_with_clock(n, None));
            return checked;
        }
        match checked {
            Ok(mut entry) => match now_millis() {
                Some(now) => {
                    entry.timestamp_ms = now;
                    let r: Result<InsertLog, String> = Ok(entry);
                    assert(validation_view(r) == spec_validate_with_clock(n, Some(now)));
                    r
                },
                None => {
                    let r: Result<InsertLog, String> = Err(clock_failure());
                    assert(validation_view(r) == spec_validate_with_clock(n, None));
                    r
                },
            },
            Err(e) => {
                let r: Result<InsertLog, String> = Err(e);
                assert(validation_view(r) == spec_validate_with_clock(n, None));
                r
            },
        }
    }
}

/// The time only fills in a missing timestamp: the checks do not depend on
/// it, and an entry with its own timestamp is judged the same at any time.
proof fn lemma_validate_time_only(n: NewLogView)
    ensures
        forall|t: i64| #![trigger spec_validate(n, t)]
            (spec_validate(n, t) is Err <==> spec_validate(n, 0) is Err),
        forall|t: i64| #![trigger spec_validate(n, t)]
            spec_validate(n, 0) is Err ==> spec_validate(n, t) == spec_validate(n, 0),
        forall|t: i64| #![trigger spec_validate(n, t)]
            n.timestamp is Some ==> spec_validate(n, t) == spec_validate(n, 0),
        forall|t: i64| #![trigger spec_validate(n, t)]
            n.timestamp is None && spec_validate(n, 0) is Ok ==> spec_validate(n, t) == Ok::<InsertLogView, Seq<char>>(
                InsertLogView { timestamp_ms: t, ..spec_validate(n, 0)->Ok_0 },
            ),
{
}

/// What `validate_and_normalize` gives for a reading of the clock: the
/// validation at that time; where the clock could not be read, the
/// validation's refusal, the entry itself where it has its own timestamp,
/// and the clock's error otherwise.
pub open spec fn spec_validate_with_clock(n: NewLogView, now: Option<i64>) -> Result<InsertLogView, Seq<char>> {
    match now {
        Some(now_ms) => spec_validate(n, now_ms),
        None => if spec_validate(n, 0) is Err || n.timestamp is Some {
            spec_validate(n, 0)
        } else {
            Err(clock_failure_message())
        },
    }
}

/// What an accepted entry always satisfies.
pub proof fn law_accepted_entry_is_normal(n: NewLogView, now_ms: i64)
    requires
        spec_validate(n, now_ms) is Ok,
    ensures
        ({
            let i = spec_validate(n, now_ms)->Ok_0;
            &&& i.app.len() > 0 && byte_len(i.app) <= MAX_NAME_BYTES
            &&& i.app == trim_seq(n.app)
            &&& is_valid_level(i.level)
            &&& i.message == n.message && i.message.len() > 0 && byte_len(i.message)
                <= MAX_MESSAGE_BYTES
            &&& (i.meta_json matches Some(m) ==> byte_len(m) <= MAX_META_BYTES)
            &&& (i.source matches Some(s) ==> s.len() > 0 && byte_len(s) <= MAX_NAME_BYTES)
            &&& (n.timestamp is None ==> i.timestamp_ms == now_ms)
        }),
{
}

/// The entry a client would send to store an accepted entry again: its
/// fields as stored, and its time as integer milliseconds.
pub open spec fn resubmitted(i: InsertLogView) -> NewLogView {
    NewLogView {
        app: i.app,
        level: i.level,
        message: i.message,
        timestamp: Some(signed_decimal(i.timestamp_ms as int)),
        source: i.source,
        meta_json: i.meta_json,
    }
}

/// Normalising is idempotent: an accepted entry, sent again as stored (with
/// its time in milliseconds), is accepted as the same entry at any time.
pub proof fn law_normalize_idempotent(n: NewLogView, now_ms: i64, later_ms: i64)
    requires
        spec_validate(n, now_ms) is Ok,
    ensures
        spec_validate(resubmitted(spec_validate(n, now_ms)->Ok_0), later_ms) == spec_validate(n, now_ms),
{
    let i = spec_validate(n, now_ms)->Ok_0;
    lemma_trim_idempotent(n.app);
    match n.source {
        Some(src) => lemma_trim_idempotent(src),
        None => {},
    }
    reveal_strlit("debug");
    reveal_strlit("info");
    reveal_strlit("warn");
    reveal_strlit("error");
    reveal_strlit("fatal");
    lemma_trim_clean(i.level);
    assert(lowercase(i.level) =~= i.level);
    law_parse_format_i64(i.timestamp_ms);
}

/// A batch as a client submits it.
#[derive(Debug, Clone)]
pub struct BatchLogsRequest {
    pub logs: Vec<NewLog>,
}

/// What `validate_batch` gives at `now_ms`: an error for an empty or an
/// oversize batch, else the first entry's error, else every entry checked.
pub open spec fn spec_validate_batch(logs: Seq<NewLogView>, max_batch: usize, now_ms: i64) -> Result<
    Seq<InsertLogView>,
    AppErrorSpec,
> {
    if logs.len() == 0 {
        Err(AppErrorSpec::BadRequest("logs array is empty"@))
    } else if logs.len() > max_batch {
        Err(AppErrorSpec::PayloadTooLarge)
    } else {
        validate_all(logs, now_ms)
    }
}

/// The errors batch validation gives, by their view.
pub enum AppErrorSpec {
    BadRequest(Seq<char>),
    PayloadTooLarge,
}

/// Every entry checked in order; the first error stops the batch.
pub open spec fn validate_all(logs: Seq<NewLogView>, now_ms: i64) -> Result<Seq<InsertLogView>, AppErrorSpec>
    decreases logs.len(),
{
    if logs.len() == 0 {
        Ok(Seq::empty())
    } else {
        match validate_all(logs.drop_last(), now_ms) {
            Err(e) => Err(e),
            Ok(prefix) => match spec_validate(logs.last(), now_ms) {
                Ok(i) => Ok(prefix.push(i)),
                Err(m) => Err(AppErrorSpec::BadRequest(m)),
            },
        }
    }
}

/// The view of a batch error.
pub open spec fn batch_error_view(e: AppError) -> AppErrorSpec {
    match e {
        AppError::BadRequest(m) => AppErrorSpec::BadRequest(m@),
        _ => AppErrorSpec::PayloadTooLarge,
    }
}

proof fn lemma_validate_all_prefix_err(logs: Seq<NewLogView>, k: int, now_ms: i64)
    requires
        0 <= k <= logs.len(),
        validate_all(logs.take(k), now_ms) is Err,
    ensures
        validate_all(logs, now_ms) == validate_all(logs.take(k), now_ms),
    decreases logs.len() - k,
{
    if k < logs.len() {
        assert(logs.take(k + 1).drop_last() =~= logs.take(k));
        lemma_validate_all_prefix_err(logs, k + 1, now_ms);
    } else {
        assert(logs.take(k) =~= logs);
    }
}

/// Checks a batch of entries at `now_ms`: at least one and at most
/// `max_batch` entries, each valid.
pub fn validate_batch(logs: Vec<NewLog>, max_batch: usize, now_ms: i64) -> (r: Result<Vec<InsertLog>, AppError>)
    ensures
        match r {
            Ok(v) => spec_validate_batch(logs@.map_values(|n: NewLog| n@), max_batch, now_ms)
                == Ok::<Seq<InsertLogView>, AppErrorSpec>(v@.map_values(|i: InsertLog| i@)),
            Err(e) => (e is BadRequest || e is PayloadTooLarge) && spec_validate_batch(
                logs@.map_values(|n: NewLog| n@),
                max_batch,
                now_ms,
            ) == Err::<Seq<InsertLogView>, AppErrorSpec>(batch_error_view(e)),
        },
{
    let ghost views = logs@.map_values(|n: NewLog| n@);
    if logs.len() == 0 {
        return Err(AppError::bad_request("logs array is empty"));
    }
    if logs.len() > max_batch {
        return Err(AppError::PayloadTooLarge);
    }
    let ghost all = logs@;
    let mut rest = logs;
    let mut out: Vec<InsertLog> = Vec::new();
    let mut i: usize = 0;
    let n = rest.len();
    assert(views.take(0) =~= Seq::<NewLogView>::empty());
    assert(out@.map_values(|x: InsertLog| x@) =~= Seq::<InsertLogView>::empty());
    #[verifier::loop_isolation(false)]
    while i < n
        invariant
            n == all.len(),
            views == all.map_values(|n: NewLog| n@),
            0 < views.len() <= max_batch,
            i <= n,
            rest@ == all.skip(i as int),
            validate_all(views.take(i as int), now_ms) == Ok::<Seq<InsertLogView>, AppErrorSpec>(
                out@.map_values(|x: InsertLog| x@),
            ),
        decreases n - i,
    {
        let entry = rest.remove(0);
        assert(views.take(i + 1).drop_last() =~= views.take(i as int));
        assert(views.take(i + 1).last() == all[i as int]@);
        assert(rest@ =~= all.skip(i + 1));
        let ghost before = out@;
        match entry.validate_and_normalize_at(now_ms) {
            Ok(ins) => {
                out.push(ins);
                assert(out@.map_values(|x: InsertLog| x@) =~= before.map_values(|x: InsertLog| x@).push(ins@));
            },
            Err(m) => {
                proof {
                    let t = views.take(i + 1);
                    assert(entry == all[i as int]);
                    assert(t.last() == entry@);
                    assert(spec_validate(entry@, now_ms) == Err::<InsertLogView, Seq<char>>(m@));
                    assert(validate_all(t, now_ms) == Err::<Seq<InsertLogView>, AppErrorSpec>(
                        AppErrorSpec::BadRequest(m@),
                    ));
                    lemma_validate_all_prefix_err(views, i + 1, now_ms);
                    assert(validate_all(views, now_ms) == Err::<Seq<InsertLogView>, AppErrorSpec>(
                        AppErrorSpec::BadRequest(m@),
                    ));
                }
                return Err(AppError::BadRequest(m));
            },
        }
        i = i + 1;
    }
    assert(views.take(n as int) =~= views);
    Ok(out)
}

/// The source of a log sent by a browser client: `browser` where none (or
/// an empty one) is given.
pub open spec fn spec_client_source(source: Option<Seq<char>>) -> Option<Seq<char>> {
    match source {
        Some(s) if s.len() > 0 => Some(s),
        _ => Some("browser"@),
    }
}

/// Fills in the source of a browser client's log.
pub fn client_source(source: Option<String>) -> (r: Option<String>)
    ensures
        opt_view(r) == spec_client_source(opt_view(source)),
{
    match source {
        Some(s) => {
            if s.unicode_len() > 0 {
                Some(s)
            } else {
                Some(owned("browser"))
            }
        },
        None => Some(owned("browser")),
    }
}

} // verus!
