//! The usage snapshot that the app-server's responses describe, and the merge
//! of sparse `account/rateLimits/updated` notifications into the last
//! rate-limit response.
use vstd::prelude::*;
use crate::json::{JsonValue, JsonModel, has_key, lemma_lookup_well_formed, lemma_insert_well_formed, lemma_lookup_insert, lemma_insert_present, lookup, insert_entry, entries_model, entries_get, insert_entry_exec, clone_entries, lemma_object_model, get_in, str_of, u64_of, i64_of, bool_of, non_null, opt_model};
use crate::clock::now_timestamp;

verus! {

/// What the worker knows of the Codex quota at one moment.
#[derive(Debug, Clone, PartialEq, Eq)]
pub struct UsageSnapshot {
    pub used_percent: u32,
    pub window_duration_mins: Option<i64>,
    pub resets_at: Option<i64>,
    pub plan_type: Option<String>,
    pub credit_balance: Option<String>,
    pub has_credits: bool,
    pub unlimited_credits: bool,
    pub reset_credits: i64,
    pub limit_reached_type: Option<String>,
    pub updated_at: i64,
}

/// Why talking to the app-server failed. Each variant carries the detail text.
#[derive(Debug, Clone)]
pub enum CodexError {
    /// The `codex` process could not be started.
    Spawn(String),
    /// Reading from or writing to the app-server failed.
    Io(String),
    /// The app-server wrote a line that is not JSON.
    Json(String),
    /// The app-server's messages do not follow the protocol.
    Protocol(String),
}

/// The mathematical model of a snapshot.
pub struct SnapshotModel {
    pub used_percent: u32,
    pub window_duration_mins: Option<i64>,
    pub resets_at: Option<i64>,
    pub plan_type: Option<Seq<char>>,
    pub credit_balance: Option<Seq<char>>,
    pub has_credits: bool,
    pub unlimited_credits: bool,
    pub reset_credits: i64,
    pub limit_reached_type: Option<Seq<char>>,
    pub updated_at: i64,
}

pub open spec fn opt_text(s: Option<String>) -> Option<Seq<char>> {
    match s {
        Some(t) => Some(t@),
        None => None,
    }
}

impl View for UsageSnapshot {
    type V = SnapshotModel;

    open spec fn view(&self) -> SnapshotModel {
        SnapshotModel {
            used_percent: self.used_percent,
            window_duration_mins: self.window_duration_mins,
            resets_at: self.resets_at,
            plan_type: opt_text(self.plan_type),
            credit_balance: opt_text(self.credit_balance),
            has_credits: self.has_credits,
            unlimited_credits: self.unlimited_credits,
            reset_credits: self.reset_credits,
            limit_reached_type: opt_text(self.limit_reached_type),
            updated_at: self.updated_at,
        }
    }
}

/// The mathematical model of an error: its kind and detail text.
pub enum ErrorModel {
    Spawn(Seq<char>),
    Io(Seq<char>),
    Json(Seq<char>),
    Protocol(Seq<char>),
}

impl View for CodexError {
    type V = ErrorModel;

    open spec fn view(&self) -> ErrorModel {
        match self {
            CodexError::Spawn(d) => ErrorModel::Spawn(d@),
            CodexError::Io(d) => ErrorModel::Io(d@),
            CodexError::Json(d) => ErrorModel::Json(d@),
            CodexError::Protocol(d) => ErrorModel::Protocol(d@),
        }
    }
}

impl CodexError {
    /// The error is a protocol error with this text.
    pub open spec fn is_protocol(self, text: Seq<char>) -> bool {
        self matches CodexError::Protocol(t) && t@ == text
    }

    /// The text the error reads as.
    pub open spec fn message_model(self) -> Seq<char> {
        match self {
            CodexError::Spawn(d) => "не удалось запустить codex: "@ + d@,
            CodexError::Io(d) => "ошибка обмена с codex app-server: "@ + d@,
            CodexError::Json(d) => "codex вернул некорректный JSON: "@ + d@,
            CodexError::Protocol(d) => "ошибка протокола codex: "@ + d@,
        }
    }

    /// The text the error reads as: a fixed prefix for its kind, then the detail.
    pub fn message(&self) -> (r: String)
        ensures
            r@ == self.message_model(),
    {
        let (prefix, detail) = match self {
            CodexError::Spawn(d) => ("не удалось запустить codex: ", d),
            CodexError::Io(d) => ("ошибка обмена с codex app-server: ", d),
            CodexError::Json(d) => ("codex вернул некорректный JSON: ", d),
            CodexError::Protocol(d) => ("ошибка протокола codex: ", d),
        };
        let mut text = String::from_str(prefix);
        text.append(detail.as_str());
        text
    }
}

/// A protocol error with the given text.
pub fn protocol_error(text: &str) -> (e: CodexError)
    ensures
        e.is_protocol(text@),
{
    CodexError::Protocol(String::from_str(text))
}

// ---------------------------------------------------------------------------
// Snapshot parsing
// ---------------------------------------------------------------------------

/// The limit bucket of a rate-limit `result`: the `codex` entry of
/// `rateLimitsByLimitId`, else the legacy `rateLimits`.
pub open spec fn bucket_of(result: JsonModel) -> Option<JsonModel> {
    match get_in(result.get("rateLimitsByLimitId"@), "codex"@) {
        Some(bucket) => Some(bucket),
        None => result.get("rateLimits"@),
    }
}

/// `min(used, 100)` as a `u32`.
pub open spec fn clamp_percent(used: u64) -> u32 {
    if used > 100 {
        100
    } else {
        used as u32
    }
}

/// The plan: the bucket's own `planType`, else the account's.
pub open spec fn plan_of(account: JsonModel, bucket: JsonModel) -> Option<Seq<char>> {
    match str_of(bucket.get("planType"@)) {
        Some(p) => Some(p),
        None => str_of(get_in(get_in(account.get("result"@), "account"@), "planType"@)),
    }
}

/// The snapshot that an `account/read` response and an
/// `account/rateLimits/read` response describe at time `now`, or the text of
/// the protocol error.
pub open spec fn snapshot_model(account: JsonModel, limits: JsonModel, now: i64) -> Result<
    SnapshotModel,
    Seq<char>,
> {
    match limits.get("result"@) {
        None => Err("в ответе нет result"@),
        Some(result) => match bucket_of(result) {
            None => Err("в ответе нет лимита codex"@),
            Some(bucket) => match non_null(bucket.get("primary"@)) {
                None => Err("у лимита codex нет активного окна"@),
                Some(primary) => match u64_of(primary.get("usedPercent"@)) {
                    None => Err("в окне нет usedPercent"@),
                    Some(used) => {
                        let credits = non_null(bucket.get("credits"@));
                        Ok(
                            SnapshotModel {
                                used_percent: clamp_percent(used),
                                window_duration_mins: i64_of(primary.get("windowDurationMins"@)),
                                resets_at: i64_of(primary.get("resetsAt"@)),
                                plan_type: plan_of(account, bucket),
                                credit_balance: str_of(get_in(credits, "balance"@)),
                                has_credits: match bool_of(get_in(credits, "hasCredits"@)) {
                                    Some(b) => b,
                                    None => false,
                                },
                                unlimited_credits: match bool_of(get_in(credits, "unlimited"@)) {
                                    Some(b) => b,
                                    None => false,
                                },
                                reset_credits: match i64_of(
                                    get_in(result.get("rateLimitResetCredits"@), "availableCount"@),
                                ) {
                                    Some(n) => n,
                                    None => 0,
                                },
                                limit_reached_type: str_of(bucket.get("rateLimitReachedType"@)),
                                updated_at: now,
                            },
                        )
                    },
                },
            },
        },
    }
}

/// `value.get(key)` on an optional value.
fn get_opt<'a>(value: Option<&'a JsonValue>, key: &str) -> (r: Option<&'a JsonValue>)
    ensures
        opt_model(r) == get_in(opt_model(value), key@),
{
    match value {
        Some(v) => v.get(key),
        None => None,
    }
}

fn str_opt(value: Option<&JsonValue>) -> (r: Option<String>)
    ensures
        opt_text(r) == str_of(opt_model(value)),
{
    match value {
        Some(v) => match v.as_str() {
            Some(s) => Some(s.to_owned()),
            None => None,
        },
        None => None,
    }
}

fn i64_opt(value: Option<&JsonValue>) -> (r: Option<i64>)
    ensures
        r == i64_of(opt_model(value)),
{
    match value {
        Some(v) => v.as_i64(),
        None => None,
    }
}

fn bool_opt(value: Option<&JsonValue>) -> (r: Option<bool>)
    ensures
        r == bool_of(opt_model(value)),
{
    match value {
        Some(v) => v.as_bool(),
        None => None,
    }
}

fn non_null_opt(value: Option<&JsonValue>) -> (r: Option<&JsonValue>)
    ensures
        opt_model(r) == non_null(opt_model(value)),
{
    match value {
        Some(v) => if v.is_null() {
            None
        } else {
            Some(v)
        },
        None => None,
    }
}

/// Reads the quota snapshot out of an `account/read` response and an
/// `account/rateLimits/read` response, stamped with `now`.
pub fn parse_snapshot_at(account: &JsonValue, limits: &JsonValue, now: i64) -> (r: Result<
    UsageSnapshot,
    CodexError,
>)
    ensures
        match snapshot_model(account@, limits@, now) {
            Ok(m) => r matches Ok(s) && s@ == m,
            Err(text) => r matches Err(e) && e.is_protocol(text),
        },
{
    let result = match limits.get("result") {
        Some(v) => v,
        None => return Err(protocol_error("в ответе нет result")),
    };
    let bucket = match get_opt(result.get("rateLimitsByLimitId"), "codex") {
        Some(v) => v,
        None => match result.get("rateLimits") {
            Some(v) => v,
            None => return Err(protocol_error("в ответе нет лимита codex")),
        },
    };
    let primary = match non_null_opt(bucket.get("primary")) {
        Some(v) => v,
        None => return Err(protocol_error("у лимита codex нет активного окна")),
    };
    let used = match primary.get("usedPercent") {
        Some(v) => match v.as_u64() {
            Some(n) => n,
            None => return Err(protocol_error("в окне нет usedPercent")),
        },
        None => return Err(protocol_error("в окне нет usedPercent")),
    };
    let used_percent: u32 = if used > 100 {
        100
    } else {
        used as u32
    };
    let plan_type = match str_opt(bucket.get("planType")) {
        Some(p) => Some(p),
        None => str_opt(get_opt(get_opt(account.get("result"), "account"), "planType")),
    };
    let credits = non_null_opt(bucket.get("credits"));
    let snapshot = UsageSnapshot {
        used_percent,
        window_duration_mins: i64_opt(primary.get("windowDurationMins")),
        resets_at: i64_opt(primary.get("resetsAt")),
        plan_type,
        credit_balance: str_opt(get_opt(credits, "balance")),
        has_credits: match bool_opt(get_opt(credits, "hasCredits")) {
            Some(b) => b,
            None => false,
        },
        unlimited_credits: match bool_opt(get_opt(credits, "unlimited")) {
            Some(b) => b,
            None => false,
        },
        reset_credits: match i64_opt(
            get_opt(result.get("rateLimitResetCredits"), "availableCount"),
        ) {
            Some(n) => n,
            None => 0,
        },
        limit_reached_type: str_opt(bucket.get("rateLimitReachedType")),
        updated_at: now,
    };
    Ok(snapshot)
}

/// The text of the error reported when the system clock reads before the
/// Unix epoch.
pub open spec fn clock_error_text() -> Seq<char> {
    "системные часы показывают время раньше 1970 года"@
}

/// The protocol error reported when the system clock reads before the epoch.
pub fn clock_error() -> (e: CodexError)
    ensures
        e.is_protocol(clock_error_text()),
{
    protocol_error("системные часы показывают время раньше 1970 года")
}

/// Reads the quota snapshot out of the two responses, stamped with the current
/// time. The responses decide first; where they describe a snapshot, the
/// clock is read, and a clock before the epoch is reported as an error.
pub fn parse_snapshot(account: &JsonValue, limits: &JsonValue) -> (r: Result<
    UsageSnapshot,
    CodexError,
>)
    ensures
        match snapshot_model(account@, limits@, 0) {
            Ok(m) => match r {
                Ok(s) => s@ == SnapshotModel { updated_at: s.updated_at, ..m } && s.updated_at >= 0,
                Err(e) => e.is_protocol(clock_error_text()),
            },
            Err(text) => r matches Err(e) && e.is_protocol(text),
        },
{
    let now = now_timestamp();
    let stamp = match now {
        Some(t) => t,
        None => 0,
    };
    match parse_snapshot_at(account, limits, stamp) {
        Err(e) => Err(e),
        Ok(snapshot) => match now {
            Some(_) => Ok(snapshot),
            None => Err(clock_error()),
        },
    }
}

// ---------------------------------------------------------------------------
// Notification merge
// ---------------------------------------------------------------------------

/// The bucket after copying `key` from the update, whatever its value.
pub open spec fn copy_member(
    entries: Seq<(Seq<char>, JsonModel)>,
    update: Seq<(Seq<char>, JsonModel)>,
    key: Seq<char>,
) -> Seq<(Seq<char>, JsonModel)> {
    match lookup(update, key) {
        Some(v) => insert_entry(entries, key, v),
        None => entries,
    }
}

/// The bucket after copying `key` from the update unless it is absent or null.
pub open spec fn copy_non_null_member(
    entries: Seq<(Seq<char>, JsonModel)>,
    update: Seq<(Seq<char>, JsonModel)>,
    key: Seq<char>,
) -> Seq<(Seq<char>, JsonModel)> {
    match non_null(lookup(update, key)) {
        Some(v) => insert_entry(entries, key, v),
        None => entries,
    }
}

/// A limit bucket after a sparse update: `primary`, `secondary` and
/// `rateLimitReachedType` are taken whenever the update carries them (a null
/// clears them); `limitId`, `limitName`, `credits`, `individualLimit`,
/// `spendControlReached` and `planType` only when the update carries a
/// non-null value.
pub open spec fn merged_bucket(
    entries: Seq<(Seq<char>, JsonModel)>,
    update: Seq<(Seq<char>, JsonModel)>,
) -> Seq<(Seq<char>, JsonModel)> {
    let e = copy_member(entries, update, "primary"@);
    let e = copy_member(e, update, "secondary"@);
    let e = copy_member(e, update, "rateLimitReachedType"@);
    let e = copy_non_null_member(e, update, "limitId"@);
    let e = copy_non_null_member(e, update, "limitName"@);
    let e = copy_non_null_member(e, update, "credits"@);
    let e = copy_non_null_member(e, update, "individualLimit"@);
    let e = copy_non_null_member(e, update, "spendControlReached"@);
    copy_non_null_member(e, update, "planType"@)
}

fn copy_from_update(
    entries: &mut Vec<(String, JsonValue)>,
    update: &Vec<(String, JsonValue)>,
    key: &str,
    keep_null: bool,
)
    ensures
        entries_model(final(entries)@) == if keep_null {
            copy_member(entries_model(old(entries)@), entries_model(update@), key@)
        } else {
            copy_non_null_member(entries_model(old(entries)@), entries_model(update@), key@)
        },
{
    match entries_get(update, key) {
        Some(value) => {
            if keep_null || !value.is_null() {
                insert_entry_exec(entries, key.to_owned(), value.deep_clone());
            }
        },
        None => {},
    }
}

/// Applies a sparse update to a bucket's entries.
fn merge_bucket_entries(entries: &mut Vec<(String, JsonValue)>, update: &Vec<(String, JsonValue)>)
    ensures
        entries_model(final(entries)@) == merged_bucket(
            entries_model(old(entries)@),
            entries_model(update@),
        ),
{
    copy_from_update(entries, update, "primary", true);
    copy_from_update(entries, update, "secondary", true);
    copy_from_update(entries, update, "rateLimitReachedType", true);
    copy_from_update(entries, update, "limitId", false);
    copy_from_update(entries, update, "limitName", false);
    copy_from_update(entries, update, "credits", false);
    copy_from_update(entries, update, "individualLimit", false);
    copy_from_update(entries, update, "spendControlReached", false);
    copy_from_update(entries, update, "planType", false);
}

/// Applies the sparse `update` to one limit bucket, which must be an object.
pub fn merge_rate_limit_bucket(bucket: &mut JsonValue, update: &Vec<(String, JsonValue)>) -> (r:
    Result<(), CodexError>)
    ensures
        match old(bucket)@ {
            JsonModel::Object(entries) => r is Ok && final(bucket)@ == JsonModel::Object(
                merged_bucket(entries, entries_model(update@)),
            ),
            _ => r matches Err(e) && e.is_protocol("снимок лимита не является объектом"@)
                && final(bucket)@ == old(bucket)@,
        },
{
    match bucket {
        JsonValue::Object(entries) => {
            proof {
                lemma_object_model(*entries);
            }
            merge_bucket_entries(entries, update);
            proof {
                lemma_object_model(*entries);
            }
            Ok(())
        },
        _ => Err(protocol_error("снимок лимита не является объектом")),
    }
}


/// The bucket that an update creates or refreshes: a merge into `existing`,
/// into an empty bucket where there is none, or `None` where the existing
/// entry is not an object.
pub open spec fn refreshed_bucket(existing: Option<JsonModel>, update: Seq<(Seq<char>, JsonModel)>) -> Option<
    JsonModel,
> {
    match existing {
        None => Some(JsonModel::Object(merged_bucket(Seq::empty(), update))),
        Some(JsonModel::Object(b)) => Some(JsonModel::Object(merged_bucket(b, update))),
        Some(_) => None,
    }
}

/// The limit the update names (`limitId`), `codex` by default.
pub open spec fn update_limit_id(update: Seq<(Seq<char>, JsonModel)>) -> Seq<char> {
    match str_of(lookup(update, "limitId"@)) {
        Some(id) => id,
        None => "codex"@,
    }
}

/// A rate-limit `result` after an update, and the error text if one stops it:
/// `rateLimits` is refreshed first; then, where `rateLimitsByLimitId` is an
/// object, the entry of the update's limit is refreshed too.
pub open spec fn merged_result(
    result: Seq<(Seq<char>, JsonModel)>,
    update: Seq<(Seq<char>, JsonModel)>,
) -> (Seq<(Seq<char>, JsonModel)>, Option<Seq<char>>) {
    match refreshed_bucket(lookup(result, "rateLimits"@), update) {
        None => (result, Some("снимок лимита не является объектом"@)),
        Some(legacy) => {
            let after = insert_entry(result, "rateLimits"@, legacy);
            match lookup(after, "rateLimitsByLimitId"@) {
                Some(JsonModel::Object(by_id)) => {
                    let id = update_limit_id(update);
                    match refreshed_bucket(lookup(by_id, id), update) {
                        None => (after, Some("снимок лимита не является объектом"@)),
                        Some(bucket) => (
                            insert_entry(
                                after,
                                "rateLimitsByLimitId"@,
                                JsonModel::Object(insert_entry(by_id, id, bucket)),
                            ),
                            None,
                        ),
                    }
                },
                _ => (after, None),
            }
        },
    }
}

/// The last `account/rateLimits/read` response after an
/// `account/rateLimits/updated` notification with `params`, and the error text
/// if the merge fails.
pub open spec fn merged_limits(limits: JsonModel, params: JsonModel) -> (JsonModel, Option<
    Seq<char>,
>) {
    match params.get("rateLimits"@) {
        Some(JsonModel::Object(update)) => match limits.get("result"@) {
            Some(JsonModel::Object(result)) => {
                let (new_result, err) = merged_result(result, update);
                (
                    JsonModel::Object(
                        insert_entry(limits->Object_0, "result"@, JsonModel::Object(new_result)),
                    ),
                    err,
                )
            },
            _ => (limits, Some("в снимке лимитов нет result"@)),
        },
        _ => (limits, Some("в уведомлении нет rateLimits"@)),
    }
}

/// The outcome matches an optional error text.
pub open spec fn outcome_matches(r: Result<(), CodexError>, err: Option<Seq<char>>) -> bool {
    match err {
        None => r is Ok,
        Some(text) => r matches Err(e) && e.is_protocol(text),
    }
}

/// Creates or refreshes the bucket under `key` among `entries`.
fn refresh_bucket_entry(
    entries: &mut Vec<(String, JsonValue)>,
    key: &str,
    update: &Vec<(String, JsonValue)>,
) -> (r: Result<(), CodexError>)
    ensures
        match refreshed_bucket(lookup(entries_model(old(entries)@), key@), entries_model(update@)) {
            Some(bucket) => r is Ok && entries_model(final(entries)@) == insert_entry(
                entries_model(old(entries)@),
                key@,
                bucket,
            ),
            None => r matches Err(e) && e.is_protocol("снимок лимита не является объектом"@)
                && final(entries)@ == old(entries)@,
        },
{
    let mut bucket = match entries_get(entries, key) {
        Some(existing) => match existing.as_object() {
            Some(b) => clone_entries(b),
            None => return Err(protocol_error("снимок лимита не является объектом")),
        },
        None => {
            let fresh: Vec<(String, JsonValue)> = Vec::new();
            proof {
                assert(entries_model(fresh@) =~= Seq::empty());
            }
            fresh
        },
    };
    merge_bucket_entries(&mut bucket, update);
    proof {
        lemma_object_model(bucket);
    }
    insert_entry_exec(entries, key.to_owned(), JsonValue::Object(bucket));
    Ok(())
}

/// Applies an update to the entries of a rate-limit `result`.
fn merge_into_result(result: &mut Vec<(String, JsonValue)>, update: &Vec<(String, JsonValue)>) -> (r:
    Result<(), CodexError>)
    ensures
        ({
            let (new_result, err) = merged_result(entries_model(old(result)@), entries_model(update@));
            entries_model(final(result)@) == new_result && outcome_matches(r, err)
        }),
{
    let r = refresh_bucket_entry(result, "rateLimits", update);
    if r.is_err() {
        return r;
    }
    let limit_id: String = match entries_get(update, "limitId") {
        Some(v) => match v.as_str() {
            Some(id) => id.to_owned(),
            None => String::from_str("codex"),
        },
        None => String::from_str("codex"),
    };
    let mut by_id = match entries_get(result, "rateLimitsByLimitId") {
        Some(v) => match v.as_object() {
            Some(entries) => clone_entries(entries),
            None => return Ok(()),
        },
        None => return Ok(()),
    };
    let r = refresh_bucket_entry(&mut by_id, limit_id.as_str(), update);
    if r.is_err() {
        return r;
    }
    proof {
        lemma_object_model(by_id);
    }
    insert_entry_exec(result, String::from_str("rateLimitsByLimitId"), JsonValue::Object(by_id));
    Ok(())
}

/// Merges an `account/rateLimits/updated` notification's `params` into the
/// last rate-limit response.
pub fn merge_rate_limits_notification(limits_response: &mut JsonValue, params: &JsonValue) -> (r:
    Result<(), CodexError>)
    ensures
        ({
            let (merged, err) = merged_limits(old(limits_response)@, params@);
            final(limits_response)@ == merged && outcome_matches(r, err)
        }),
{
    let update = match params.get("rateLimits") {
        Some(v) => match v.as_object() {
            Some(entries) => entries,
            None => return Err(protocol_error("в уведомлении нет rateLimits")),
        },
        None => return Err(protocol_error("в уведомлении нет rateLimits")),
    };
    let mut result = match limits_response.get("result") {
        Some(v) => match v.as_object() {
            Some(entries) => clone_entries(entries),
            None => return Err(protocol_error("в снимке лимитов нет result")),
        },
        None => return Err(protocol_error("в снимке лимитов нет result")),
    };
    let outcome = merge_into_result(&mut result, update);
    proof {
        lemma_object_model(result);
    }
    match limits_response {
        JsonValue::Object(top) => {
            proof {
                lemma_object_model(*top);
            }
            insert_entry_exec(top, String::from_str("result"), JsonValue::Object(result));
            proof {
                lemma_object_model(*top);
            }
        },
        _ => {},
    }
    outcome
}


// ---------------------------------------------------------------------------
// Laws of the merge
// ---------------------------------------------------------------------------

/// The members that an update overwrites whenever it carries them.
pub open spec fn always_copied(key: Seq<char>) -> bool {
    key == "primary"@ || key == "secondary"@ || key == "rateLimitReachedType"@
}

/// The members that an update overwrites only with a non-null value.
pub open spec fn copied_when_set(key: Seq<char>) -> bool {
    key == "limitId"@ || key == "limitName"@ || key == "credits"@ || key == "individualLimit"@
        || key == "spendControlReached"@ || key == "planType"@
}

/// What a merged bucket holds under each key: the update's value for the
/// members it overwrites, the old value otherwise.
pub proof fn lemma_merged_bucket_lookup(
    entries: Seq<(Seq<char>, JsonModel)>,
    update: Seq<(Seq<char>, JsonModel)>,
    key: Seq<char>,
)
    ensures
        lookup(merged_bucket(entries, update), key) == if always_copied(key) && lookup(
            update,
            key,
        ) is Some {
            lookup(update, key)
        } else if copied_when_set(key) && non_null(lookup(update, key)) is Some {
            non_null(lookup(update, key))
        } else {
            lookup(entries, key)
        },
{
    reveal_strlit("primary");
    reveal_strlit("secondary");
    reveal_strlit("rateLimitReachedType");
    reveal_strlit("limitId");
    reveal_strlit("limitName");
    reveal_strlit("credits");
    reveal_strlit("individualLimit");
    reveal_strlit("spendControlReached");
    reveal_strlit("planType");
    lemma_copy_member_lookup(entries, update, "primary"@, key, true);
    let e1 = copy_member(entries, update, "primary"@);
    lemma_copy_member_lookup(e1, update, "secondary"@, key, true);
    let e2 = copy_member(e1, update, "secondary"@);
    lemma_copy_member_lookup(e2, update, "rateLimitReachedType"@, key, true);
    let e3 = copy_member(e2, update, "rateLimitReachedType"@);
    lemma_copy_member_lookup(e3, update, "limitId"@, key, false);
    let e4 = copy_non_null_member(e3, update, "limitId"@);
    lemma_copy_member_lookup(e4, update, "limitName"@, key, false);
    let e5 = copy_non_null_member(e4, update, "limitName"@);
    lemma_copy_member_lookup(e5, update, "credits"@, key, false);
    let e6 = copy_non_null_member(e5, update, "credits"@);
    lemma_copy_member_lookup(e6, update, "individualLimit"@, key, false);
    let e7 = copy_non_null_member(e6, update, "individualLimit"@);
    lemma_copy_member_lookup(e7, update, "spendControlReached"@, key, false);
    let e8 = copy_non_null_member(e7, update, "spendControlReached"@);
    lemma_copy_member_lookup(e8, update, "planType"@, key, false);
}

proof fn lemma_copy_member_lookup(
    entries: Seq<(Seq<char>, JsonModel)>,
    update: Seq<(Seq<char>, JsonModel)>,
    member: Seq<char>,
    key: Seq<char>,
    keep_null: bool,
)
    ensures
        keep_null ==> lookup(copy_member(entries, update, member), key) == if key == member
            && lookup(update, key) is Some {
            lookup(update, key)
        } else {
            lookup(entries, key)
        },
        !keep_null ==> lookup(copy_non_null_member(entries, update, member), key) == if key
            == member && non_null(lookup(update, key)) is Some {
            non_null(lookup(update, key))
        } else {
            lookup(entries, key)
        },
{
    if let Some(v) = lookup(update, member) {
        lemma_lookup_insert(entries, member, v, key);
    }
}


/// The entries of a bucket, empty where there is none.
pub open spec fn bucket_entries(bucket: Option<JsonModel>) -> Seq<(Seq<char>, JsonModel)> {
    match bucket {
        Some(JsonModel::Object(entries)) => entries,
        _ => Seq::empty(),
    }
}

/// The bucket that snapshots read stays in the same place across a merge:
/// where `rateLimitsByLimitId` is an object, it already holds `codex`, or there
/// is no legacy `rateLimits` bucket either.
pub open spec fn read_slot_stable(result: Seq<(Seq<char>, JsonModel)>) -> bool {
    match lookup(result, "rateLimitsByLimitId"@) {
        Some(JsonModel::Object(by_id)) => has_key(by_id, "codex"@) || lookup(result, "rateLimits"@)
            is None,
        _ => true,
    }
}

/// A successful merge of a `codex` update refreshes exactly the bucket that
/// snapshots read: afterwards it is the merge of the update into the bucket
/// read before (or into an empty bucket where none was there).
pub proof fn lemma_merge_refreshes_read_bucket(
    result: Seq<(Seq<char>, JsonModel)>,
    update: Seq<(Seq<char>, JsonModel)>,
)
    requires
        update_limit_id(update) == "codex"@,
        merged_result(result, update).1 is None,
        read_slot_stable(result),
    ensures
        bucket_of(JsonModel::Object(merged_result(result, update).0)) == Some(
            JsonModel::Object(merged_bucket(bucket_entries(bucket_of(JsonModel::Object(result))), update)),
        ),
{
    reveal_strlit("rateLimits");
    reveal_strlit("rateLimitsByLimitId");
    broadcast use vstd::string::group_string_axioms;
    assert("rateLimits"@.len() == 10);
    assert("rateLimits"@ != "rateLimitsByLimitId"@);
    let legacy = refreshed_bucket(lookup(result, "rateLimits"@), update).unwrap();
    let after = insert_entry(result, "rateLimits"@, legacy);
    lemma_lookup_insert(result, "rateLimits"@, legacy, "rateLimitsByLimitId"@);
    lemma_lookup_insert(result, "rateLimits"@, legacy, "rateLimits"@);
    assert(lookup(after, "rateLimitsByLimitId"@) == lookup(result, "rateLimitsByLimitId"@));
    match lookup(result, "rateLimitsByLimitId"@) {
        Some(JsonModel::Object(by_id)) => {
            let bucket = refreshed_bucket(lookup(by_id, "codex"@), update).unwrap();
            let new_by_id = insert_entry(by_id, "codex"@, bucket);
            lemma_lookup_insert(
                after,
                "rateLimitsByLimitId"@,
                JsonModel::Object(new_by_id),
                "rateLimitsByLimitId"@,
            );
            lemma_lookup_insert(by_id, "codex"@, bucket, "codex"@);
            let new_result = insert_entry(after, "rateLimitsByLimitId"@, JsonModel::Object(new_by_id));
            assert(merged_result(result, update).0 == new_result);
            assert(JsonModel::Object(new_result).get("rateLimitsByLimitId"@) == Some(JsonModel::Object(new_by_id)));
            assert(get_in(JsonModel::Object(new_result).get("rateLimitsByLimitId"@), "codex"@) == Some(bucket));
            if has_key(by_id, "codex"@) {
                assert(bucket_of(JsonModel::Object(result)) == lookup(by_id, "codex"@));
            } else {
                assert(lookup(by_id, "codex"@) is None);
                assert(bucket_of(JsonModel::Object(result)) is None);
            }
        },
        _ => {
            assert(merged_result(result, update).0 == after);
            assert(get_in(lookup(after, "rateLimitsByLimitId"@), "codex"@) is None);
            assert(bucket_of(JsonModel::Object(after)) == Some(legacy));
        },
    }
}

/// The read bucket before and after a merge, for the notification's update.
pub open spec fn notification_update(params: JsonModel) -> Seq<(Seq<char>, JsonModel)> {
    bucket_entries(params.get("rateLimits"@))
}

/// A sparse `codex` notification keeps what it does not carry: after a
/// successful merge, the snapshot's plan and credits are the ones read before
/// wherever the notification's `planType` or `credits` is null or absent, the
/// reset credits are unchanged, and a notification that carries a primary
/// window sets the used percentage from it.
pub proof fn lemma_sparse_notification_keeps_metadata(
    account: JsonModel,
    limits: JsonModel,
    params: JsonModel,
    now: i64,
)
    requires
        merged_limits(limits, params).1 is None,
        update_limit_id(notification_update(params)) == "codex"@,
        read_slot_stable(limits.get("result"@)->0->Object_0),
        snapshot_model(account, limits, now) is Ok,
    ensures
        ({
            let update = notification_update(params);
            let before = snapshot_model(account, limits, now)->Ok_0;
            let after = snapshot_model(account, merged_limits(limits, params).0, now);
            &&& after matches Ok(m) ==> {
                &&& non_null(lookup(update, "planType"@)) is None ==> m.plan_type == before.plan_type
                &&& non_null(lookup(update, "credits"@)) is None ==> {
                    &&& m.credit_balance == before.credit_balance
                    &&& m.has_credits == before.has_credits
                    &&& m.unlimited_credits == before.unlimited_credits
                }
                &&& m.reset_credits == before.reset_credits
            }
            &&& forall|p: JsonModel, u: u64|
                non_null(lookup(update, "primary"@)) == Some(p) && u64_of(p.get("usedPercent"@))
                    == Some(u) ==> after is Ok && after->Ok_0.used_percent == clamp_percent(u)
        }),
{
    broadcast use vstd::string::group_string_axioms;
    reveal_strlit("rateLimits");
    reveal_strlit("rateLimitsByLimitId");
    reveal_strlit("rateLimitResetCredits");
    reveal_strlit("result");
    reveal_strlit("primary");
    reveal_strlit("planType");
    reveal_strlit("credits");
    reveal_strlit("usedPercent");
    reveal_strlit("secondary");
    reveal_strlit("rateLimitReachedType");
    reveal_strlit("limitId");
    reveal_strlit("limitName");
    reveal_strlit("individualLimit");
    reveal_strlit("spendControlReached");
    assert("rateLimits"@.len() == 10 && "rateLimitsByLimitId"@.len() == 19
        && "rateLimitResetCredits"@.len() == 21 && "primary"@.len() == 7 && "secondary"@.len() == 9
        && "rateLimitReachedType"@.len() == 20 && "planType"@.len() == 8 && "credits"@.len() == 7
        && "limitId"@.len() == 7 && "limitName"@.len() == 9 && "individualLimit"@.len() == 15
        && "spendControlReached"@.len() == 19);
    assert("credits"@ != "primary"@ && "limitId"@ != "credits"@ && "limitId"@ != "primary"@) by {
        assert("credits"@[0] != "primary"@[0]);
        assert("limitId"@[0] != "credits"@[0]);
        assert("limitId"@[0] != "primary"@[0]);
    }
    let update = notification_update(params);
    let top = limits->Object_0;
    let result = limits.get("result"@)->0->Object_0;
    let new_result = merged_result(result, update).0;
    let merged = merged_limits(limits, params).0;
    assert(params.get("rateLimits"@) == Some(JsonModel::Object(update)));
    assert(limits.get("result"@) == Some(JsonModel::Object(result)));
    assert(merged == JsonModel::Object(insert_entry(top, "result"@, JsonModel::Object(new_result))));
    lemma_lookup_insert(top, "result"@, JsonModel::Object(new_result), "result"@);
    assert(merged.get("result"@) == Some(JsonModel::Object(new_result)));
    lemma_merge_refreshes_read_bucket(result, update);
    let old_bucket = bucket_of(JsonModel::Object(result))->0;
    assert(old_bucket is Object);
    let old_entries = old_bucket->Object_0;
    let new_bucket = JsonModel::Object(merged_bucket(old_entries, update));
    assert(bucket_of(JsonModel::Object(new_result)) == Some(new_bucket));
    lemma_merged_bucket_lookup(old_entries, update, "planType"@);
    lemma_merged_bucket_lookup(old_entries, update, "credits"@);
    lemma_merged_bucket_lookup(old_entries, update, "primary"@);
    // The reset credits live beside the buckets and are untouched.
    let legacy = refreshed_bucket(lookup(result, "rateLimits"@), update).unwrap();
    let after = insert_entry(result, "rateLimits"@, legacy);
    lemma_lookup_insert(result, "rateLimits"@, legacy, "rateLimitResetCredits"@);
    lemma_lookup_insert(result, "rateLimits"@, legacy, "rateLimitsByLimitId"@);
    match lookup(after, "rateLimitsByLimitId"@) {
        Some(JsonModel::Object(by_id)) => {
            let bucket = refreshed_bucket(lookup(by_id, update_limit_id(update)), update).unwrap();
            let by_id_entry = JsonModel::Object(insert_entry(by_id, update_limit_id(update), bucket));
            lemma_lookup_insert(after, "rateLimitsByLimitId"@, by_id_entry, "rateLimitResetCredits"@);
            assert(new_result == insert_entry(after, "rateLimitsByLimitId"@, by_id_entry));
        },
        _ => {
            assert(new_result == after);
        },
    }
    assert(lookup(new_result, "rateLimitResetCredits"@) == lookup(result, "rateLimitResetCredits"@));
    let before = snapshot_model(account, limits, now)->Ok_0;
    let after_snapshot = snapshot_model(account, merged, now);
    if non_null(lookup(update, "planType"@)) is None {
        assert(new_bucket.get("planType"@) == old_bucket.get("planType"@));
    }
    if non_null(lookup(update, "credits"@)) is None {
        assert(new_bucket.get("credits"@) == old_bucket.get("credits"@));
    }
    assert forall|p: JsonModel, u: u64|
        non_null(lookup(update, "primary"@)) == Some(p) && u64_of(p.get("usedPercent"@)) == Some(
            u,
        ) implies after_snapshot is Ok && after_snapshot->Ok_0.used_percent == clamp_percent(u) by {
        assert(new_bucket.get("primary"@) == Some(p));
    }
}


/// Copying members of a well-formed update keeps a bucket well-formed.
pub proof fn lemma_merged_bucket_well_formed(
    entries: Seq<(Seq<char>, JsonModel)>,
    update: Seq<(Seq<char>, JsonModel)>,
)
    requires
        JsonModel::Object(entries).well_formed(),
        JsonModel::Object(update).well_formed(),
    ensures
        JsonModel::Object(merged_bucket(entries, update)).well_formed(),
{
    lemma_copy_member_well_formed(entries, update, "primary"@, true);
    let e = copy_member(entries, update, "primary"@);
    lemma_copy_member_well_formed(e, update, "secondary"@, true);
    let e = copy_member(e, update, "secondary"@);
    lemma_copy_member_well_formed(e, update, "rateLimitReachedType"@, true);
    let e = copy_member(e, update, "rateLimitReachedType"@);
    lemma_copy_member_well_formed(e, update, "limitId"@, false);
    let e = copy_non_null_member(e, update, "limitId"@);
    lemma_copy_member_well_formed(e, update, "limitName"@, false);
    let e = copy_non_null_member(e, update, "limitName"@);
    lemma_copy_member_well_formed(e, update, "credits"@, false);
    let e = copy_non_null_member(e, update, "credits"@);
    lemma_copy_member_well_formed(e, update, "individualLimit"@, false);
    let e = copy_non_null_member(e, update, "individualLimit"@);
    lemma_copy_member_well_formed(e, update, "spendControlReached"@, false);
    let e = copy_non_null_member(e, update, "spendControlReached"@);
    lemma_copy_member_well_formed(e, update, "planType"@, false);
}

proof fn lemma_copy_member_well_formed(
    entries: Seq<(Seq<char>, JsonModel)>,
    update: Seq<(Seq<char>, JsonModel)>,
    member: Seq<char>,
    keep_null: bool,
)
    requires
        JsonModel::Object(entries).well_formed(),
        JsonModel::Object(update).well_formed(),
    ensures
        keep_null ==> JsonModel::Object(copy_member(entries, update, member)).well_formed(),
        !keep_null ==> JsonModel::Object(copy_non_null_member(entries, update, member)).well_formed(),
{
    lemma_lookup_well_formed(update, member);
    if let Some(v) = lookup(update, member) {
        lemma_insert_well_formed(entries, member, v);
    }
}

proof fn lemma_refreshed_bucket_well_formed(existing: Option<JsonModel>, update: Seq<(Seq<char>, JsonModel)>)
    requires
        existing matches Some(b) ==> b.well_formed(),
        JsonModel::Object(update).well_formed(),
    ensures
        refreshed_bucket(existing, update) matches Some(b) ==> b.well_formed(),
{
    match existing {
        None => {
            lemma_merged_bucket_well_formed(Seq::empty(), update);
        },
        Some(JsonModel::Object(b)) => {
            lemma_merged_bucket_well_formed(b, update);
        },
        _ => {},
    }
}

/// Merging a well-formed notification keeps the rate-limit response
/// well-formed: every object in it still has distinct keys.
pub proof fn lemma_merge_keeps_well_formed(limits: JsonModel, params: JsonModel)
    requires
        limits.well_formed(),
        params.well_formed(),
    ensures
        merged_limits(limits, params).0.well_formed(),
{
    if let JsonModel::Object(params_entries) = params {
        lemma_lookup_well_formed(params_entries, "rateLimits"@);
    }
    if let Some(JsonModel::Object(update)) = params.get("rateLimits"@) {
        if let JsonModel::Object(top) = limits {
            lemma_lookup_well_formed(top, "result"@);
            if let Some(JsonModel::Object(result)) = lookup(top, "result"@) {
                lemma_lookup_well_formed(result, "rateLimits"@);
                lemma_refreshed_bucket_well_formed(lookup(result, "rateLimits"@), update);
                if let Some(legacy) = refreshed_bucket(lookup(result, "rateLimits"@), update) {
                    let after = insert_entry(result, "rateLimits"@, legacy);
                    lemma_insert_well_formed(result, "rateLimits"@, legacy);
                    lemma_lookup_well_formed(after, "rateLimitsByLimitId"@);
                    if let Some(JsonModel::Object(by_id)) = lookup(after, "rateLimitsByLimitId"@) {
                        let id = update_limit_id(update);
                        lemma_lookup_well_formed(by_id, id);
                        lemma_refreshed_bucket_well_formed(lookup(by_id, id), update);
                        if let Some(bucket) = refreshed_bucket(lookup(by_id, id), update) {
                            lemma_insert_well_formed(by_id, id, bucket);
                            lemma_insert_well_formed(
                                after,
                                "rateLimitsByLimitId"@,
                                JsonModel::Object(insert_entry(by_id, id, bucket)),
                            );
                        }
                    }
                }
                let new_result = merged_result(result, update).0;
                assert(JsonModel::Object(new_result).well_formed());
                lemma_insert_well_formed(top, "result"@, JsonModel::Object(new_result));
            }
        }
    }
}

/// Merging a sparse update into a bucket that already took it changes
/// nothing.
pub proof fn lemma_merged_bucket_idempotent(
    entries: Seq<(Seq<char>, JsonModel)>,
    update: Seq<(Seq<char>, JsonModel)>,
)
    ensures
        merged_bucket(merged_bucket(entries, update), update) == merged_bucket(entries, update),
{
    lemma_keeps_member(entries, update, "primary"@);
    lemma_keeps_member(entries, update, "secondary"@);
    lemma_keeps_member(entries, update, "rateLimitReachedType"@);
    lemma_keeps_member(entries, update, "limitId"@);
    lemma_keeps_member(entries, update, "limitName"@);
    lemma_keeps_member(entries, update, "credits"@);
    lemma_keeps_member(entries, update, "individualLimit"@);
    lemma_keeps_member(entries, update, "spendControlReached"@);
    lemma_keeps_member(entries, update, "planType"@);
}

proof fn lemma_keeps_member(
    entries: Seq<(Seq<char>, JsonModel)>,
    update: Seq<(Seq<char>, JsonModel)>,
    key: Seq<char>,
)
    requires
        always_copied(key) || copied_when_set(key),
    ensures
        always_copied(key) ==> copy_member(merged_bucket(entries, update), update, key) == merged_bucket(
            entries,
            update,
        ),
        copied_when_set(key) ==> copy_non_null_member(merged_bucket(entries, update), update, key)
            == merged_bucket(entries, update),
{
    let m = merged_bucket(entries, update);
    lemma_merged_bucket_lookup(entries, update, key);
    if always_copied(key) {
        if let Some(v) = lookup(update, key) {
            lemma_insert_present(m, key, v);
        }
    }
    if copied_when_set(key) {
        if let Some(v) = non_null(lookup(update, key)) {
            lemma_insert_present(m, key, v);
        }
    }
}

proof fn lemma_refreshed_bucket_idempotent(existing: Option<JsonModel>, update: Seq<(Seq<char>, JsonModel)>)
    requires
        refreshed_bucket(existing, update) is Some,
    ensures
        refreshed_bucket(refreshed_bucket(existing, update), update) == refreshed_bucket(existing, update),
{
    match existing {
        Some(JsonModel::Object(b)) => lemma_merged_bucket_idempotent(b, update),
        _ => lemma_merged_bucket_idempotent(Seq::empty(), update),
    }
}

/// Applying the same `account/rateLimits/updated` notification twice leaves
/// the rate-limit response as applying it once does, and the second merge
/// succeeds too.
pub proof fn lemma_merge_idempotent(limits: JsonModel, params: JsonModel)
    requires
        merged_limits(limits, params).1 is None,
    ensures
        merged_limits(merged_limits(limits, params).0, params) == (merged_limits(limits, params).0, None::<
            Seq<char>,
        >),
{
    reveal_strlit("rateLimits");
    reveal_strlit("rateLimitsByLimitId");
    assert("rateLimits"@.len() == 10);
    assert("rateLimitsByLimitId"@.len() == 19);
    let update = params.get("rateLimits"@)->Some_0->Object_0;
    let top = limits->Object_0;
    let result = lookup(top, "result"@)->Some_0->Object_0;
    let legacy = refreshed_bucket(lookup(result, "rateLimits"@), update)->Some_0;
    lemma_refreshed_bucket_idempotent(lookup(result, "rateLimits"@), update);
    let after = insert_entry(result, "rateLimits"@, legacy);
    lemma_lookup_insert(result, "rateLimits"@, legacy, "rateLimits"@);
    lemma_lookup_insert(result, "rateLimits"@, legacy, "rateLimitsByLimitId"@);
    let result1 = merged_result(result, update).0;
    match lookup(after, "rateLimitsByLimitId"@) {
        Some(JsonModel::Object(by_id)) => {
            let id = update_limit_id(update);
            let bucket = refreshed_bucket(lookup(by_id, id), update)->Some_0;
            lemma_refreshed_bucket_idempotent(lookup(by_id, id), update);
            let by_id1 = insert_entry(by_id, id, bucket);
            lemma_lookup_insert(by_id, id, bucket, id);
            lemma_lookup_insert(after, "rateLimitsByLimitId"@, JsonModel::Object(by_id1), "rateLimits"@);
            lemma_lookup_insert(after, "rateLimitsByLimitId"@, JsonModel::Object(by_id1), "rateLimitsByLimitId"@);
            assert(result1 == insert_entry(after, "rateLimitsByLimitId"@, JsonModel::Object(by_id1)));
            lemma_insert_present(result1, "rateLimits"@, legacy);
            lemma_insert_present(by_id1, id, bucket);
            lemma_insert_present(result1, "rateLimitsByLimitId"@, JsonModel::Object(by_id1));
            assert(merged_result(result1, update) == (result1, None::<Seq<char>>));
        },
        _ => {
            assert(result1 == after);
            lemma_insert_present(after, "rateLimits"@, legacy);
            assert(merged_result(result1, update) == (result1, None::<Seq<char>>));
        },
    }
    let top1 = insert_entry(top, "result"@, JsonModel::Object(result1));
    lemma_lookup_insert(top, "result"@, JsonModel::Object(result1), "result"@);
    lemma_insert_present(top1, "result"@, JsonModel::Object(result1));
}

/// What a parsed snapshot holds, member by member. The bucket read is the
/// `codex` entry of `result.rateLimitsByLimitId`, or, where there is none,
/// `result.rateLimits`; its `primary` window must be non-null with a
/// non-negative integer `usedPercent`. Then the snapshot is there, and:
/// the used percentage is `usedPercent` capped at 100; the window length and
/// the reset time are the primary window's `windowDurationMins` and
/// `resetsAt`; the limit-reached type is the bucket's own
/// `rateLimitReachedType`; the plan is the bucket's `planType`, else the
/// account's; the credit fields come from the bucket's non-null `credits`
/// (`balance`, `hasCredits`, `unlimited`, flags false where absent); the
/// reset credits are `result.rateLimitResetCredits.availableCount` (0 where
/// absent); and the snapshot is stamped with the time given.
pub proof fn lemma_snapshot_reads_members(
    account: JsonModel,
    limits: JsonModel,
    now: i64,
    result: JsonModel,
    bucket: JsonModel,
    primary: JsonModel,
    used: u64,
)
    requires
        limits.get("result"@) == Some(result),
        match result.get("rateLimitsByLimitId"@) {
            Some(by_id) => by_id.get("codex"@) == Some(bucket) || (by_id.get("codex"@) is None
                && result.get("rateLimits"@) == Some(bucket)),
            None => result.get("rateLimits"@) == Some(bucket),
        },
        bucket.get("primary"@) == Some(primary),
        !(primary is Null),
        primary.get("usedPercent"@) matches Some(u) && u.as_u64() == Some(used),
    ensures
        snapshot_model(account, limits, now) matches Ok(s) && {
            &&& s.used_percent == (if used > 100 {
                100
            } else {
                used
            })
            &&& s.window_duration_mins == i64_of(primary.get("windowDurationMins"@))
            &&& s.resets_at == i64_of(primary.get("resetsAt"@))
            &&& s.limit_reached_type == str_of(bucket.get("rateLimitReachedType"@))
            &&& s.plan_type == match bucket.get("planType"@) {
                Some(JsonModel::Text(p)) => Some(p),
                _ => str_of(get_in(get_in(account.get("result"@), "account"@), "planType"@)),
            }
            &&& s.credit_balance == match bucket.get("credits"@) {
                Some(JsonModel::Null) | None => None,
                Some(c) => str_of(c.get("balance"@)),
            }
            &&& s.has_credits == (bucket.get("credits"@) matches Some(c) && !(c is Null) && c.get(
                "hasCredits"@,
            ) == Some(JsonModel::Bool(true)))
            &&& s.unlimited_credits == (bucket.get("credits"@) matches Some(c) && !(c is Null) && c.get(
                "unlimited"@,
            ) == Some(JsonModel::Bool(true)))
            &&& s.reset_credits == match get_in(result.get("rateLimitResetCredits"@), "availableCount"@) {
                Some(n) => match n.as_i64() {
                    Some(k) => k,
                    None => 0,
                },
                None => 0,
            }
            &&& s.updated_at == now
        },
{
}

} // verus!
