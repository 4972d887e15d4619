//! Recurring jobs: cron expressions, the next fire time, and the decisions
//! that spawn a template's instances one after another.
use vstd::prelude::*;

use std::str::FromStr;

use crate::job::{ConcurrencyPolicy, CreateJobRequest, Job, JobState, NewJob, RecurrenceConfig};
use crate::text::{chars_of, digit_char};
use crate::time::{valid_timestamp, MAX_TIMESTAMP_MICROS, MICROS_PER_SEC};

verus! {

broadcast use vstd::string::group_string_axioms;

/// The Unicode `White_Space` characters.
pub open spec fn is_white_space(c: char) -> bool {
    let u = c as u32;
    u == 0x20 || (0x09 <= u && u <= 0x0d) || u == 0x85 || u == 0xa0 || u == 0x1680 || (0x2000
        <= u && u <= 0x200a) || u == 0x2028 || u == 0x2029 || u == 0x202f || u == 0x205f || u
        == 0x3000
}

/// Whether `c` is a Unicode `White_Space` character.
pub fn white_space(c: char) -> (r: bool)
    ensures
        r == is_white_space(c),
{
    let u = c as u32;
    u == 0x20 || (0x09 <= u && u <= 0x0d) || u == 0x85 || u == 0xa0 || u == 0x1680 || (0x2000
        <= u && u <= 0x200a) || u == 0x2028 || u == 0x2029 || u == 0x202f || u == 0x205f || u
        == 0x3000
}

/// The number of maximal runs of non-white-space characters in `s`.
pub open spec fn word_count(s: Seq<char>) -> nat
    decreases s.len(),
{
    if s.len() == 0 {
        0
    } else {
        let prev = s.drop_last();
        word_count(prev) + if !is_white_space(s.last()) && (prev.len() == 0 || is_white_space(
            prev.last(),
        )) {
            1nat
        } else {
            0nat
        }
    }
}

/// The number of white-space separated words in `s`.
pub fn count_words(s: &str) -> (r: usize)
    ensures
        r == word_count(s@),
{
    let cs = chars_of(s);
    let n = cs.len();
    let mut count: usize = 0;
    let mut i: usize = 0;
    while i < n
        invariant
            n == cs@.len(),
            cs@ == s@,
            i <= n,
            count <= i,
            count == word_count(cs@.take(i as int)),
        decreases n - i,
    {
        let c = cs[i];
        let starts = !white_space(c) && (i == 0 || white_space(cs[i - 1]));
        proof {
            let t = cs@.take(i + 1);
            assert(t.drop_last() =~= cs@.take(i as int));
            assert(t.last() == c);
        }
        if starts {
            count = count + 1;
        }
        i = i + 1;
    }
    assert(cs@.take(n as int) =~= s@);
    count
}

/// A cron expression completed to seven fields: five fields get a leading
/// seconds field of `0` and a trailing any-year field, six fields get the
/// year field; any other expression is kept as it is.
pub open spec fn normalized_cron(expr: Seq<char>) -> Seq<char> {
    if word_count(expr) == 5 {
        "0 "@ + expr + " *"@
    } else if word_count(expr) == 6 {
        expr + " *"@
    } else {
        expr
    }
}

pub fn normalize_cron_expr(expr: &str) -> (r: String)
    ensures
        r@ == normalized_cron(expr@),
{
    let n = count_words(expr);
    if n == 5 {
        let mut r = "0 ".to_string();
        r.append(expr);
        r.append(" *");
        r
    } else if n == 6 {
        let mut r = expr.to_string();
        r.append(" *");
        r
    } else {
        expr.to_string()
    }
}

#[verifier::external_type_specification]
#[verifier::external_body]
pub struct ExSchedule(cron::Schedule);

#[verifier::external_type_specification]
#[verifier::external_body]
pub struct ExCronError(cron::error::Error);

/// Whether the cron parser accepts `expr`.
pub uninterp spec fn cron_parses(expr: Seq<char>) -> bool;

/// The first instant (microseconds since the epoch) after `after` at which the
/// schedule parsed from `expr` fires, evaluated in UTC; `None` when it never fires again.
pub uninterp spec fn cron_next_after(expr: Seq<char>, after: int) -> Option<int>;

/// A parsed cron schedule, with the text it was parsed from as its view.
pub struct CronSchedule {
    source: String,
    schedule: cron::Schedule,
}

impl View for CronSchedule {
    type V = Seq<char>;

    closed spec fn view(&self) -> Seq<char> {
        self.source@
    }
}

/// Parses a cron expression with `cron::Schedule::from_str`. Claimed: it
/// succeeds exactly when the parser accepts the text, and the schedule keeps the text.
#[verifier::external_body]
fn parse_schedule(expr: &str) -> (r: Result<CronSchedule, cron::error::Error>)
    ensures
        r is Ok <==> cron_parses(expr@),
        r matches Ok(s) ==> s@ == expr@,
{
    match cron::Schedule::from_str(expr) {
        Ok(schedule) => Ok(CronSchedule { source: expr.to_string(), schedule }),
        Err(e) => Err(e),
    }
}

/// The next fire time after `after`, by `cron::Schedule::after` and the
/// iterator's first item, in UTC. Claimed: the result is the schedule's next
/// fire time, and it is a representable instant. The source adds one second to
/// `after` first, which must stay representable.
#[verifier::external_body]
fn schedule_next_after(s: &CronSchedule, after: i64) -> (r: Option<i64>)
    requires
        valid_timestamp(after as int),
        after <= MAX_TIMESTAMP_MICROS - MICROS_PER_SEC,
    ensures
        match cron_next_after(s@, after as int) {
            Some(t) => valid_timestamp(t) && r == Some(t as i64),
            None => r is None,
        },
{
    let start = chrono::DateTime::<chrono::Utc>::from_timestamp_micros(after).unwrap();
    match s.schedule.after(&start).next() {
        Some(t) => Some(t.timestamp_micros()),
        None => None,
    }
}

/// Why the next fire time of a cron expression could not be found.
#[derive(Debug)]
pub enum CronError {
    /// The expression does not parse; the parser's error is kept.
    Invalid(cron::error::Error),
    /// The schedule never fires after the given instant.
    NoNextFire,
}

/// The next instant after `after` at which `cron_expr` fires, in UTC. Five- and
/// six-field expressions are completed first (see `normalized_cron`).
pub fn next_fire_after(cron_expr: &str, after: i64) -> (r: Result<i64, CronError>)
    requires
        valid_timestamp(after as int),
        after <= MAX_TIMESTAMP_MICROS - MICROS_PER_SEC,
    ensures
        !cron_parses(normalized_cron(cron_expr@)) ==> r matches Err(CronError::Invalid(_)),
        cron_parses(normalized_cron(cron_expr@)) ==> match cron_next_after(normalized_cron(cron_expr@), after as int) {
            Some(t) => r == Ok::<i64, CronError>(t as i64) && valid_timestamp(t),
            None => r matches Err(CronError::NoNextFire),
        },
{
    let normalized = normalize_cron_expr(cron_expr);
    let schedule = match parse_schedule(normalized.as_str()) {
        Ok(s) => s,
        Err(e) => {
            return Err(CronError::Invalid(e));
        },
    };
    match schedule_next_after(&schedule, after) {
        Some(t) => Ok(t),
        None => Err(CronError::NoNextFire),
    }
}


/// The lower-case hexadecimal digit for `d < 16`.
pub open spec fn hex_digit(d: nat) -> char {
    if d < 10 {
        digit_char(d)
    } else if d == 10 {
        'a'
    } else if d == 11 {
        'b'
    } else if d == 12 {
        'c'
    } else if d == 13 {
        'd'
    } else if d == 14 {
        'e'
    } else {
        'f'
    }
}

/// The last `n` hexadecimal digits of `v`, most significant first.
pub open spec fn hex_digits(v: nat, n: nat) -> Seq<char>
    decreases n,
{
    if n == 0 {
        Seq::empty()
    } else {
        hex_digits(v / 16, (n - 1) as nat).push(hex_digit(v % 16))
    }
}

/// The hyphenated lower-case form of a UUID: 32 hexadecimal digits in groups of 8, 4, 4, 4 and 12.
pub open spec fn uuid_text(id: nat) -> Seq<char> {
    let h = hex_digits(id, 32);
    h.subrange(0, 8) + seq!['-'] + h.subrange(8, 12) + seq!['-'] + h.subrange(12, 16) + seq!['-']
        + h.subrange(16, 20) + seq!['-'] + h.subrange(20, 32)
}

/// The hyphenated text of a UUID, by `uuid::Uuid::from_u128` and its `Display`
/// (which writes the hyphenated lower-case form). Claimed: the text is `uuid_text(id)`.
#[verifier::external_body]
fn format_uuid(id: u128) -> (r: String)
    ensures
        r@ == uuid_text(id as nat),
{
    uuid::Uuid::from_u128(id).to_string()
}

/// The RFC 3339 text of the UTC instant `t` (microseconds since the epoch), as
/// chrono writes it: seconds precision with as many fractional digits as needed, and a `+00:00` offset.
pub uninterp spec fn rfc3339_text(t: int) -> Seq<char>;

/// The RFC 3339 text of an instant, by `chrono::DateTime::from_timestamp_micros`
/// and `DateTime::to_rfc3339`. Claimed: the text is `rfc3339_text(t)`.
#[verifier::external_body]
fn format_rfc3339(t: i64) -> (r: String)
    requires
        valid_timestamp(t as int),
    ensures
        r@ == rfc3339_text(t as int),
{
    chrono::DateTime::<chrono::Utc>::from_timestamp_micros(t).unwrap().to_rfc3339()
}

/// The idempotency key of a template's instance due at `fire_at`.
pub open spec fn instance_key_text(template_id: u128, fire_at: int) -> Seq<char> {
    uuid_text(template_id as nat) + seq![':'] + rfc3339_text(fire_at)
}

/// The count of numbers that `n` hexadecimal digits can write: `16^n`.
pub open spec fn hex_span(n: nat) -> nat
    decreases n,
{
    if n == 0 {
        1
    } else {
        16 * hex_span((n - 1) as nat)
    }
}

proof fn lemma_hex_digits_len(v: nat, n: nat)
    ensures
        hex_digits(v, n).len() == n,
    decreases n,
{
    if n > 0 {
        lemma_hex_digits_len(v / 16, (n - 1) as nat);
    }
}

proof fn lemma_hex_digit_injective(a: nat, b: nat)
    requires
        a < 16,
        b < 16,
        hex_digit(a) == hex_digit(b),
    ensures
        a == b,
{
}

/// Numbers below `16^n` are told apart by their `n` hexadecimal digits.
proof fn lemma_hex_digits_injective(v: nat, w: nat, n: nat)
    requires
        v < hex_span(n),
        w < hex_span(n),
        hex_digits(v, n) == hex_digits(w, n),
    ensures
        v == w,
    decreases n,
{
    if n > 0 {
        let m = (n - 1) as nat;
        let hv = hex_digits(v, n);
        assert(hv.drop_last() =~= hex_digits(v / 16, m));
        assert(hex_digits(w, n).drop_last() =~= hex_digits(w / 16, m));
        assert(hv.last() == hex_digit(v % 16));
        assert(hex_digits(w, n).last() == hex_digit(w % 16));
        lemma_hex_digit_injective(v % 16, w % 16);
        let span = hex_span(m);
        assert(v / 16 < span) by (nonlinear_arith)
            requires
                v < 16 * span,
        ;
        assert(w / 16 < span) by (nonlinear_arith)
            requires
                w < 16 * span,
        ;
        lemma_hex_digits_injective(v / 16, w / 16, m);
        assert(v == 16 * (v / 16) + v % 16) by (nonlinear_arith);
        assert(w == 16 * (w / 16) + w % 16) by (nonlinear_arith);
    }
}

/// A UUID's hyphenated text has 36 characters and names that UUID alone.
pub proof fn lemma_uuid_text_identifies(a: u128, b: u128)
    ensures
        uuid_text(a as nat).len() == 36,
        uuid_text(a as nat) == uuid_text(b as nat) ==> a == b,
{
    let ha = hex_digits(a as nat, 32);
    let hb = hex_digits(b as nat, 32);
    lemma_hex_digits_len(a as nat, 32);
    lemma_hex_digits_len(b as nat, 32);
    if uuid_text(a as nat) == uuid_text(b as nat) {
        let ua = uuid_text(a as nat);
        assert forall|i: int| 0 <= i < 32 implies ha[i] == hb[i] by {
            let j = if i < 8 {
                i
            } else if i < 12 {
                i + 1
            } else if i < 16 {
                i + 2
            } else if i < 20 {
                i + 3
            } else {
                i + 4
            };
            assert(uuid_text(a as nat)[j] == ha[i]);
            assert(uuid_text(b as nat)[j] == hb[i]);
        }
        assert(ha =~= hb);
        assert(hex_span(32) == 0x1_0000_0000_0000_0000_0000_0000_0000_0000) by {
            reveal_with_fuel(hex_span, 33);
        }
        lemma_hex_digits_injective(a as nat, b as nat, 32);
    }
}

/// Two instance keys are equal only for the same template and fire times
/// that print alike: one template's instances never take another's key.
pub proof fn lemma_instance_keys_identify_template(t1: u128, f1: int, t2: u128, f2: int)
    requires
        instance_key_text(t1, f1) == instance_key_text(t2, f2),
    ensures
        t1 == t2,
        rfc3339_text(f1) == rfc3339_text(f2),
{
    lemma_uuid_text_identifies(t1, t2);
    lemma_uuid_text_identifies(t2, t1);
    let k1 = instance_key_text(t1, f1);
    let k2 = instance_key_text(t2, f2);
    assert(k1.subrange(0, 36) =~= uuid_text(t1 as nat));
    assert(k2.subrange(0, 36) =~= uuid_text(t2 as nat));
    assert(k1.subrange(37, k1.len() as int) =~= rfc3339_text(f1));
    assert(k2.subrange(37, k2.len() as int) =~= rfc3339_text(f2));
}

/// The idempotency key of a template's instance due at `fire_at`: the
/// template's id, a colon, and the fire time in RFC 3339.
pub fn instance_key(template_id: u128, fire_at: i64) -> (r: String)
    requires
        valid_timestamp(fire_at as int),
    ensures
        r@ == instance_key_text(template_id, fire_at as int),
{
    let mut key = format_uuid(template_id);
    key.append(":");
    let when = format_rfc3339(fire_at);
    key.append(when.as_str());
    proof {
        reveal_strlit(":");
    }
    assert(key@ =~= instance_key_text(template_id, fire_at as int));
    key
}

/// The states in which a template's instances count as still pending under a
/// policy; `None` when the policy does not look at them.
pub open spec fn watched_states(policy: ConcurrencyPolicy) -> Option<Seq<JobState>> {
    match policy {
        ConcurrencyPolicy::Skip => Some(seq![JobState::Leased, JobState::Running]),
        ConcurrencyPolicy::QueueOnce => Some(seq![JobState::Scheduled, JobState::Leased, JobState::Running]),
        ConcurrencyPolicy::Allow => None,
    }
}

/// The states in which a template's instances count as still pending: leased or
/// running under `Skip`, also scheduled under `QueueOnce`, none looked at under `Allow`.
pub fn sibling_states(policy: ConcurrencyPolicy) -> (r: Option<Vec<JobState>>)
    ensures
        match watched_states(policy) {
            Some(states) => r matches Some(v) && v@ == states,
            None => r is None,
        },
{
    match policy {
        ConcurrencyPolicy::Skip => {
            let v = vec![JobState::Leased, JobState::Running];
            assert(v@ =~= seq![JobState::Leased, JobState::Running]);
            Some(v)
        },
        ConcurrencyPolicy::QueueOnce => {
            let v = vec![JobState::Scheduled, JobState::Leased, JobState::Running];
            assert(v@ =~= seq![JobState::Scheduled, JobState::Leased, JobState::Running]);
            Some(v)
        },
        ConcurrencyPolicy::Allow => None,
    }
}

/// The next step while spawning a recurring template's next instance.
#[derive(Debug)]
pub enum SpawnAction {
    /// Nothing more to do.
    Stop,
    /// Mark the template completed.
    CompleteTemplate,
    /// Count the template's pending instances (see `sibling_states`), then call `plan_after_siblings`.
    CountSiblings { next_fire: i64 },
    /// Skip this occurrence: count it on the template and record `next_fire` as its next instance time.
    SkipOccurrence { next_fire: i64 },
    /// Look for a job with this idempotency key, then call `plan_after_key_check`.
    CheckKey { next_fire: i64, key: String },
    /// Store the instance due at `next_fire` under `key`, then count the
    /// occurrence on the template and record `next_fire`.
    InsertInstance { next_fire: i64, key: String },
}

/// Whether `template` can spawn instances: a recurring template that is not
/// cancelled and has a cron expression.
pub open spec fn spawns(template: Option<&Job>) -> bool {
    match template {
        Some(t) => t.is_template && t.is_recurring && t.state != JobState::Cancelled && t.cron_expr is Some,
        None => false,
    }
}

/// Whether the occurrence after the completed ones reaches the template's limit.
pub open spec fn reaches_max(t: Job) -> bool {
    match t.max_occurrences {
        Some(max) => t.occurrences_completed + 1 >= max,
        None => false,
    }
}

/// The step after the next fire time of `template` is known: the template
/// completes once the fire time passes its end date, else its pending instances are counted.
pub open spec fn after_next_fire(template: Job, next_fire: int) -> SpawnAction {
    match template.recurrence_end_at {
        Some(end_at) => if next_fire > end_at {
            SpawnAction::CompleteTemplate
        } else {
            SpawnAction::CountSiblings { next_fire: next_fire as i64 }
        },
        None => SpawnAction::CountSiblings { next_fire: next_fire as i64 },
    }
}

/// Decides the step after the next fire time of a template is known.
pub fn plan_after_next_fire(template: &Job, next_fire: i64) -> (r: SpawnAction)
    ensures
        r == after_next_fire(*template, next_fire as int),
{
    match template.recurrence_end_at {
        Some(end_at) => {
            if next_fire > end_at {
                SpawnAction::CompleteTemplate
            } else {
                SpawnAction::CountSiblings { next_fire }
            }
        },
        None => SpawnAction::CountSiblings { next_fire },
    }
}

/// Decides the first step of spawning the instance that follows one due at
/// `last_scheduled_at`, given the template as loaded (if it was found): stop
/// unless the template spawns; complete it once the next occurrence reaches
/// its limit; else find the next fire time after `last_scheduled_at` and go on
/// as `plan_after_next_fire` does. A cron failure is returned as the error.
pub fn plan_spawn(template: Option<&Job>, last_scheduled_at: i64) -> (r: Result<SpawnAction, CronError>)
    requires
        spawns(template) ==> template.unwrap().occurrences_completed < i32::MAX,
        spawns(template) && !reaches_max(*template.unwrap()) ==> valid_timestamp(
            last_scheduled_at as int,
        ) && last_scheduled_at <= MAX_TIMESTAMP_MICROS - MICROS_PER_SEC,
    ensures
        !spawns(template) ==> r matches Ok(SpawnAction::Stop),
        spawns(template) && reaches_max(*template.unwrap()) ==> r matches Ok(SpawnAction::CompleteTemplate),
        spawns(template) && !reaches_max(*template.unwrap()) ==> {
            let t = *template.unwrap();
            let norm = normalized_cron(t.cron_expr.unwrap()@);
            if !cron_parses(norm) {
                r matches Err(CronError::Invalid(_))
            } else {
                match cron_next_after(norm, last_scheduled_at as int) {
                    Some(next_fire) => r == Ok::<SpawnAction, CronError>(after_next_fire(t, next_fire)),
                    None => r matches Err(CronError::NoNextFire),
                }
            }
        },
        r matches Ok(SpawnAction::CountSiblings { next_fire }) ==> valid_timestamp(next_fire as int),
{
    let t = match template {
        Some(t) => t,
        None => {
            return Ok(SpawnAction::Stop);
        },
    };
    if !(t.is_template && t.is_recurring) {
        return Ok(SpawnAction::Stop);
    }
    if t.state == JobState::Cancelled {
        return Ok(SpawnAction::Stop);
    }
    let cron_expr = match &t.cron_expr {
        Some(expr) => expr,
        None => {
            return Ok(SpawnAction::Stop);
        },
    };
    let next_occurrences = t.occurrences_completed + 1;
    match t.max_occurrences {
        Some(max) => {
            if next_occurrences >= max {
                return Ok(SpawnAction::CompleteTemplate);
            }
        },
        None => {},
    }
    let next_fire = next_fire_after(cron_expr.as_str(), last_scheduled_at)?;
    Ok(plan_after_next_fire(t, next_fire))
}

/// Whether an occurrence is skipped: some instances are still pending and the
/// policy is not `Allow`.
pub open spec fn skips_occurrence(policy: ConcurrencyPolicy, active: int) -> bool {
    active > 0 && policy != ConcurrencyPolicy::Allow
}

/// One pending instance is enough to skip an occurrence under `skip` and under
/// `queue_once` alike, the two policies never differ, and `allow` never skips;
/// with nothing pending no policy skips.
pub proof fn lemma_pending_instance_blocks_unless_allow(policy: ConcurrencyPolicy, active: int)
    ensures
        skips_occurrence(ConcurrencyPolicy::Skip, active) == skips_occurrence(ConcurrencyPolicy::QueueOnce, active),
        active >= 1 ==> skips_occurrence(ConcurrencyPolicy::Skip, active),
        active >= 1 ==> skips_occurrence(ConcurrencyPolicy::QueueOnce, active),
        !skips_occurrence(ConcurrencyPolicy::Allow, active),
        active <= 0 ==> !skips_occurrence(policy, active),
{
}

/// Decides the step after counting the template's pending instances: skip this
/// occurrence, or look for an instance already stored under the key of `next_fire`.
pub fn plan_after_siblings(template_id: u128, policy: ConcurrencyPolicy, active: i64, next_fire: i64) -> (r: SpawnAction)
    requires
        valid_timestamp(next_fire as int),
    ensures
        skips_occurrence(policy, active as int) ==> r == (SpawnAction::SkipOccurrence { next_fire }),
        !skips_occurrence(policy, active as int) ==> (r matches SpawnAction::CheckKey { next_fire: f, key } && f == next_fire
            && key@ == instance_key_text(template_id, next_fire as int)),
        (r is SkipOccurrence) <==> (active > 0 && !(policy is Allow)),
        r is SkipOccurrence || r is CheckKey,
{
    if active > 0 && policy != ConcurrencyPolicy::Allow {
        SpawnAction::SkipOccurrence { next_fire }
    } else {
        SpawnAction::CheckKey { next_fire, key: instance_key(template_id, next_fire) }
    }
}

/// Decides the step after looking up an instance key: stop when an instance
/// is already stored under it, else store the instance.
pub fn plan_after_key_check(found: bool, next_fire: i64, key: String) -> (r: SpawnAction)
    ensures
        found ==> r == SpawnAction::Stop,
        !found ==> r == (SpawnAction::InsertInstance { next_fire, key }),
{
    if found {
        SpawnAction::Stop
    } else {
        SpawnAction::InsertInstance { next_fire, key }
    }
}


/// The template of a new recurring job: its first fire time is the first one
/// after the requested time. A cron failure is returned as the error.
pub fn plan_recurring_template(client_id: u128, req: CreateJobRequest, recurrence: RecurrenceConfig) -> (r: Result<(NewJob, i64), CronError>)
    requires
        valid_timestamp(req.scheduled_at as int),
        req.scheduled_at <= MAX_TIMESTAMP_MICROS - MICROS_PER_SEC,
    ensures
        !cron_parses(normalized_cron(recurrence.cron_expr@)) ==> r matches Err(CronError::Invalid(_)),
        cron_parses(normalized_cron(recurrence.cron_expr@)) ==> match cron_next_after(normalized_cron(recurrence.cron_expr@), req.scheduled_at as int) {
            Some(t) => (r matches Ok((template, first_fire)) && first_fire == t && valid_timestamp(t)
                && template.takes_request(client_id, req) && template.scheduled_at == req.scheduled_at
                && template.is_recurring && template.is_template
                && template.cron_expr == Some(recurrence.cron_expr)
                && template.next_instance_at == Some(first_fire)
                && template.max_occurrences == recurrence.max_occurrences
                && template.recurrence_end_at == recurrence.end_at
                && template.parent_job_id is None
                && template.concurrency_policy == recurrence.concurrency_policy),
            None => r matches Err(CronError::NoNextFire),
        },
{
    let first_fire = next_fire_after(recurrence.cron_expr.as_str(), req.scheduled_at)?;
    Ok((NewJob::recurring_template(client_id, req, recurrence, first_fire), first_fire))
}

/// The first instance of a stored recurring template, due at `first_fire`
/// and keyed by the template and that time.
pub fn plan_first_instance(template: &Job, first_fire: i64) -> (r: NewJob)
    requires
        valid_timestamp(first_fire as int),
    ensures
        r.idempotency_key@ == instance_key_text(template.id, first_fire as int),
        r.scheduled_at == first_fire,
        r.parent_job_id == Some(template.id),
        r.payload.same_as(template.payload),
        r.client_id == (match template.client_id {
            Some(c) => c,
            None => 0,
        }),
        r.expires_at == template.expires_at,
        r.max_retries == template.max_retries,
        r.retry_delay_sec == template.retry_delay_sec,
        r.webhook_url == template.webhook_url,
        !r.is_recurring && !r.is_template,
        r.cron_expr is None && r.next_instance_at is None,
        r.max_occurrences is None && r.recurrence_end_at is None,
        r.concurrency_policy == template.concurrency_policy,
{
    let key = instance_key(template.id, first_fire);
    NewJob::instance(template, first_fire, key)
}

} // verus!
