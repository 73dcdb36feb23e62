//! Task
//! It is a basic periodic task execution unit.
use vstd::prelude::*;
use vstd::string::*;

use crate::entity::get_timestamp;
use crate::error::FrequencyAnalyzeError;
use crate::timer::runtime_trace::state;
use crate::timer::runtime_trace::task_instance::{Instance, TaskInstancesChainMaintainer};
use crate::utils::convenience::cron_expression_grammatical_candy::{CandyCronStr, CandyFrequency};



use cron_clock::{FixedOffset, Local, Schedule, TimeZone, Utc};

verus! {

/// One second.
pub const ONE_SECOND: u64 = 1;

/// One minute in seconds.
pub const ONE_MINUTE: u64 = ONE_SECOND * 60;

/// One hour in seconds.
pub const ONE_HOUR: u64 = ONE_MINUTE * 60;

/// One day in seconds.
pub const ONE_DAY: u64 = ONE_HOUR * 24;

/// Capacity of the cache of analyzed cron expressions.
pub const CRON_EXPRESSION_CACHE_CAPACITY: usize = 256;

#[verifier::external_type_specification]
#[verifier::external_body]
pub struct ExSchedule(Schedule);

#[verifier::external_type_specification]
#[verifier::external_body]
pub struct ExFixedOffset(FixedOffset);

#[verifier::external_type_specification]
#[verifier::external_body]
pub struct ExLruHasher(lru::DefaultHasher);

#[verifier::external_type_specification]
#[verifier::external_body]
#[verifier::reject_recursive_types(K)]
#[verifier::reject_recursive_types(V)]
#[verifier::reject_recursive_types(S)]
pub struct ExLruCache<K, V, S>(lru::LruCache<K, V, S>);

/// Enumerated values of repeating types based on the string of cron-expression.
#[derive(Debug, Copy, Clone)]
pub enum FrequencyCronStr<'a> {
    /// Repeat once.
    Once(&'a str),
    /// Repeat ad infinitum.
    Repeated(&'a str),
    /// Type of countdown.
    CountDown(u64, &'a str),
}

impl<'a> Default for FrequencyCronStr<'a> {
    fn default() -> (r: FrequencyCronStr<'a>)
        ensures
            r == FrequencyCronStr::<'a>::Once("@minutely"),
    {
        FrequencyCronStr::Once("@minutely")
    }
}

/// Enumerated values of repeating types based on the number of seconds.
#[derive(Debug, Copy, Clone)]
pub enum FrequencySeconds {
    /// Repeat once.
    Once(u64),
    /// Repeat ad infinitum.
    Repeated(u64),
    /// Type of countdown: `CountDown(count_down, seconds)`.
    CountDown(u64, u64),
}

impl Default for FrequencySeconds {
    fn default() -> (r: FrequencySeconds)
        ensures
            r == FrequencySeconds::Once(ONE_MINUTE),
    {
        FrequencySeconds::Once(ONE_MINUTE)
    }
}

/// The frequency a builder was given: by cron expression or by seconds.
#[derive(Debug, Copy, Clone)]
pub enum FrequencyUnify<'a> {
    /// Set by cron expression.
    FrequencyCronStr(FrequencyCronStr<'a>),
    /// Set by a period in seconds.
    FrequencySeconds(FrequencySeconds),
}

impl<'a> Default for FrequencyUnify<'a> {
    fn default() -> (r: FrequencyUnify<'a>)
        ensures
            r == FrequencyUnify::<'a>::FrequencySeconds(FrequencySeconds::Once(ONE_MINUTE)),
    {
        FrequencyUnify::FrequencySeconds(FrequencySeconds::Once(ONE_MINUTE))
    }
}

/// Set the time zone for the time of the expression iteration.
#[derive(Debug, Clone, Copy, Hash, PartialEq, Eq)]
pub enum ScheduleIteratorTimeZone {
    /// Utc specifies the UTC time zone. It is most efficient.
    Utc,
    /// Local specifies the system local time zone.
    Local,
    /// FixedOffset specifies an arbitrary, fixed time zone such as UTC+09:00 or UTC-10:30.
    FixedOffset(FixedOffset),
}

impl Default for ScheduleIteratorTimeZone {
    fn default() -> (r: Self)
        ensures
            r == ScheduleIteratorTimeZone::Local,
    {
        ScheduleIteratorTimeZone::Local
    }
}

/// The time zone has no fixed offset to give.
#[derive(Debug)]
pub struct NoFixedOffsetError;

impl ScheduleIteratorTimeZone {
    /// The fixed offset of the `FixedOffset` variant.
    pub fn get_fixed_offset(&self) -> (r: Result<FixedOffset, NoFixedOffsetError>)
        ensures
            match *self {
                ScheduleIteratorTimeZone::FixedOffset(offset) => r matches Ok(o) && o == offset,
                _ => r is Err,
            },
    {
        match self {
            ScheduleIteratorTimeZone::FixedOffset(offset) => Ok(*offset),
            _ => Err(NoFixedOffsetError),
        }
    }
}

/// The state of a schedule by a period of seconds: the next instant to give
/// (`None` once that instant would lie beyond `u64::MAX`) and the period.
#[derive(Debug, Clone, Copy)]
pub struct SecondsState {
    /// The next instant, in seconds since the Unix epoch.
    pub upcoming: Option<u64>,
    /// The period in seconds.
    pub step: u64,
}

/// `start + step`, or `None` where it does not fit in a `u64`.
pub open spec fn checked_add_spec(start: u64, step: u64) -> Option<u64> {
    if start + step <= u64::MAX {
        Some((start + step) as u64)
    } else {
        None
    }
}

impl SecondsState {
    /// The first instant is one period after `now`.
    pub open spec fn starting(now: u64, step: u64) -> SecondsState {
        SecondsState { upcoming: checked_add_spec(now, step), step }
    }

    /// The state after one instant was given.
    pub open spec fn advanced(self) -> SecondsState {
        SecondsState {
            upcoming: match self.upcoming {
                Some(t) => checked_add_spec(t, self.step),
                None => None,
            },
            step: self.step,
        }
    }

    /// Build the state whose first instant is `now + step`.
    pub fn new(now: u64, step: u64) -> (r: SecondsState)
        ensures
            r == SecondsState::starting(now, step),
    {
        SecondsState { upcoming: now.checked_add(step), step }
    }

    /// Give the next instant and move on by one period.
    pub fn next(&mut self) -> (r: Option<u64>)
        ensures
            r == old(self).upcoming,
            *final(self) == old(self).advanced(),
    {
        let r = self.upcoming;
        self.upcoming = match r {
            Some(t) => t.checked_add(self.step),
            None => None,
        };
        r
    }
}

/// The state of a schedule by seconds after `k` instants were given.
pub open spec fn advanced_times(state: SecondsState, k: nat) -> SecondsState
    decreases k,
{
    if k == 0 {
        state
    } else {
        advanced_times(state, (k - 1) as nat).advanced()
    }
}

/// A schedule by a period of `step` seconds started at `now` gives, as its
/// instant number `k` (counted from zero), `now + (k + 1) * step`, as long
/// as that fits in a `u64`: the task runs every `step` seconds.
pub proof fn lemma_seconds_instants(now: u64, step: u64, k: nat)
    requires
        now + (k + 1) * step <= u64::MAX,
    ensures
        advanced_times(SecondsState::starting(now, step), k).upcoming == Some(
            (now + (k + 1) * step) as u64,
        ),
        advanced_times(SecondsState::starting(now, step), k).step == step,
    decreases k,
{
    if k > 0 {
        let j = (k - 1) as nat;
        assert(j + 1 == k);
        assert((j + 1) * step <= (k + 1) * step) by (nonlinear_arith)
            requires
                j + 1 == k,
        ;
        lemma_seconds_instants(now, step, j);
        assert((j + 1) * step + step == (k + 1) * step) by (nonlinear_arith)
            requires
                j + 1 == k,
        ;
    } else {
        assert((k + 1) * step == step) by (nonlinear_arith)
            requires
                k == 0,
        ;
    }
}

/// Whether the cron grammar accepts an expression (name for the outcome of
/// `Schedule::from_str`).
pub uninterp spec fn cron_expression_parses(expression: Seq<char>) -> bool;

/// Whether a character is white space to the cron grammar (space, tab,
/// carriage return, line feed).
pub open spec fn is_cron_space(c: char) -> bool {
    c == ' ' || c == '\t' || c == '\r' || c == '\n'
}

/// Whether a character is an ASCII digit.
pub open spec fn is_ascii_digit(c: char) -> bool {
    '0' <= c && c <= '9'
}

/// A period step of zero starts at `i`: a `/`, then white space up to `j`,
/// then a number made of zeros alone from `j` up to `k`.
pub open spec fn zero_step_at(s: Seq<char>, i: int, j: int, k: int) -> bool {
    &&& 0 <= i < j < k <= s.len()
    &&& s[i] == '/'
    &&& forall|p: int| i < p < j ==> is_cron_space(#[trigger] s[p])
    &&& forall|p: int| j <= p < k ==> #[trigger] s[p] == '0'
    &&& (k == s.len() || !is_ascii_digit(s[k]))
}

/// Whether an expression holds a period step of zero anywhere.
pub open spec fn has_zero_step(s: Seq<char>) -> bool {
    exists|i: int, j: int, k: int| zero_step_at(s, i, j, k)
}

/// Whether a character is white space to the cron grammar.
fn is_cron_space_char(c: char) -> (r: bool)
    ensures
        r == is_cron_space(c),
{
    c == ' ' || c == '\t' || c == '\r' || c == '\n'
}

/// Whether an expression holds a period step of zero anywhere.
pub fn contains_zero_step(s: &str) -> (r: bool)
    ensures
        r == has_zero_step(s@),
{
    let n = s.unicode_len();
    let mut i: usize = 0;
    while i < n
        invariant
            n == s@.len(),
            i <= n,
            forall|a: int, b: int, c: int| a < i ==> !#[trigger] zero_step_at(s@, a, b, c),
        decreases n - i,
    {
        if s.get_char(i) == '/' {
            let mut j: usize = i + 1;
            while j < n && is_cron_space_char(s.get_char(j))
                invariant
                    n == s@.len(),
                    i < j <= n,
                    forall|p: int| i < p < j ==> is_cron_space(#[trigger] s@[p]),
                decreases n - j,
            {
                j = j + 1;
            }
            let mut k: usize = j;
            while k < n && s.get_char(k) == '0'
                invariant
                    n == s@.len(),
                    j <= k <= n,
                    forall|p: int| j <= p < k ==> #[trigger] s@[p] == '0',
                decreases n - k,
            {
                k = k + 1;
            }
            if k > j && (k == n || !('0' <= s.get_char(k) && s.get_char(k) <= '9')) {
                assert(zero_step_at(s@, i as int, j as int, k as int));
                return true;
            }
            assert forall|b: int, c: int| !#[trigger] zero_step_at(s@, i as int, b, c) by {
                if zero_step_at(s@, i as int, b, c) {
                    if b < j {
                        assert(is_cron_space(s@[b]));
                    } else if b > j {
                        assert(is_cron_space(s@[j as int]));
                    } else if c < k {
                        assert(s@[c] == '0');
                    } else if c > k {
                        assert(s@[k as int] == '0');
                    }
                }
            }
        }
        i = i + 1;
    }
    false
}

/// Whether an expression, once trimmed of spaces at both ends, holds a
/// period step of zero.
pub fn cron_expression_has_zero_step(expression: &str) -> (r: bool)
    ensures
        r == has_zero_step(trim_spaces(expression@)),
{
    let trimmed = trim_space_matches(expression);
    contains_zero_step(trimmed.as_str())
}

/// `Schedule::from_str`: claimed to succeed exactly on the expressions that
/// `cron_expression_parses` names; the parsed schedule is opaque. An
/// expression with a period step of zero is left out: the crate steps
/// through the ordinals of such a period with `step_by(0)`, which panics.
#[verifier::external_body]
fn parse_cron_schedule(expression: &str) -> (r: Result<Schedule, cron_clock::error::Error>)
    requires
        !has_zero_step(expression@),
    ensures
        r is Ok <==> cron_expression_parses(expression@),
{
    <Schedule as std::str::FromStr>::from_str(expression)
}

/// The last whole second that chrono can hold (the end of its last year).
/// The cron crate searches from one second after the given instant, and that
/// addition overflows, and panics, from this second on.
pub const CRON_SEARCH_LIMIT: i64 = 8210266876799;

/// The first instant strictly after `after` that the schedule of
/// `expression` matches in `zone` (UTC or a fixed offset), as a Unix
/// timestamp: name for the outcome of `Schedule::after(..).next()`.
pub uninterp spec fn cron_next_after(
    expression: Seq<char>,
    zone: ScheduleIteratorTimeZone,
    after: i64,
) -> Option<i64>;

/// `Schedule::from_str` then `Schedule::after(..).next()` in UTC: claimed to
/// give the instant that `cron_next_after` names, a function of the text
/// and `after` alone; the search starts one second after `after` and only
/// moves forward, so an instant found lies after `after`.
#[verifier::external_body]
fn cron_next_after_utc(expression: &str, after: i64) -> (r: Option<i64>)
    requires
        cron_expression_parses(expression@),
        !has_zero_step(expression@),
        after < CRON_SEARCH_LIMIT,
    ensures
        r == cron_next_after(expression@, ScheduleIteratorTimeZone::Utc, after),
        r matches Some(t) ==> t > after,
{
    let schedule = match <Schedule as std::str::FromStr>::from_str(expression) {
        Ok(schedule) => schedule,
        Err(_) => return None,
    };
    match Utc.timestamp_opt(after, 0).single() {
        Some(start) => match schedule.after(&start).next() {
            Some(instant) => Some(instant.timestamp()),
            None => None,
        },
        None => None,
    }
}

/// `Schedule::from_str` then `Schedule::after(..).next()` at a fixed offset
/// from UTC: claimed to give the instant that `cron_next_after` names, a
/// function of the text, the offset and `after` alone; the search starts one
/// second after `after` and only moves forward, so an instant found lies
/// after `after`.
#[verifier::external_body]
fn cron_next_after_fixed_offset(expression: &str, offset: FixedOffset, after: i64) -> (r: Option<
    i64,
>)
    requires
        cron_expression_parses(expression@),
        !has_zero_step(expression@),
        after < CRON_SEARCH_LIMIT,
    ensures
        r == cron_next_after(expression@, ScheduleIteratorTimeZone::FixedOffset(offset), after),
        r matches Some(t) ==> t > after,
{
    let schedule = match <Schedule as std::str::FromStr>::from_str(expression) {
        Ok(schedule) => schedule,
        Err(_) => return None,
    };
    match offset.timestamp_opt(after, 0).single() {
        Some(start) => match schedule.after(&start).next() {
            Some(instant) => Some(instant.timestamp()),
            None => None,
        },
        None => None,
    }
}

/// The offset from UTC, in seconds, that the machine's local zone gives at
/// the wall-clock time `wall` (seconds since the epoch on the local clock):
/// the earliest of the offsets where that time occurs twice, none where it
/// is skipped or out of chrono's range. The offset depends on the machine, so
/// it gets no name; a `FixedOffset` always lies strictly within a day.
#[verifier::external_body]
fn local_offset_at_wall(wall: i64) -> (r: Option<i32>)
    ensures
        r matches Some(o) ==> -86_400 < o < 86_400,
{
    match Utc.timestamp_opt(wall, 0).single() {
        Some(naive) => match Local.offset_from_local_datetime(&naive.naive_utc()).earliest() {
            Some(offset) => Some(offset.local_minus_utc()),
            None => None,
        },
        None => None,
    }
}

/// The instant, as a Unix timestamp, at which the machine's local clock
/// shows `wall`, where it shows it exactly once; none where that wall-clock
/// time is skipped, repeated or out of chrono's range. It depends on the
/// machine, so nothing more is stated.
#[verifier::external_body]
fn local_instant_at_wall(wall: i64) -> Option<i64> {
    match Utc.timestamp_opt(wall, 0).single() {
        Some(naive) => match Local.from_local_datetime(&naive.naive_utc()).single() {
            Some(instant) => Some(instant.timestamp()),
            None => None,
        },
        None => None,
    }
}

/// The first instant after `after` at which the machine's local clock shows
/// a wall-clock time that the schedule of `expression` matches. The cron
/// crate reads the fields on the wall-clock timeline (searched as UTC), and
/// each match is taken to the instant at which the local clock shows it;
/// wall-clock times that the local zone skips or repeats are passed over,
/// as the cron crate does for the local zone.
fn cron_next_after_local(expression: &str, after: i64) -> (r: Option<i64>)
    requires
        cron_expression_parses(expression@),
        !has_zero_step(expression@),
    ensures
        r matches Some(t) ==> t > after,
{
    // The wall-clock time of `after`, from the offset at its wall-clock
    // reading, corrected once by the instant that wall-clock time has.
    let guess: i64 = match local_offset_at_wall(after) {
        Some(offset) => offset as i64,
        None => 0,
    };
    let mut wall: i64 = match after.checked_add(guess) {
        Some(w) => w,
        None => {
            return None;
        },
    };
    if let Some(t) = local_instant_at_wall(wall) {
        if let Some(d) = after.checked_sub(t) {
            if let Some(w) = wall.checked_add(d) {
                wall = w;
            }
        }
    }
    while wall < CRON_SEARCH_LIMIT
        invariant
            cron_expression_parses(expression@),
            !has_zero_step(expression@),
        decreases if wall < CRON_SEARCH_LIMIT { CRON_SEARCH_LIMIT - wall } else { 0 },
    {
        let candidate = match cron_next_after_utc(expression, wall) {
            Some(c) => c,
            None => {
                return None;
            },
        };
        if let Some(t) = local_instant_at_wall(candidate) {
            if t > after {
                return Some(t);
            }
        }
        wall = candidate;
    }
    None
}

/// The next instant that a schedule read in UTC or at a fixed offset gives
/// after `after`; from the last second chrono holds on, there is none.
pub open spec fn next_match(expression: Seq<char>, zone: ScheduleIteratorTimeZone, after: i64) -> Option<
    i64,
> {
    if after < CRON_SEARCH_LIMIT {
        cron_next_after(expression, zone, after)
    } else {
        None
    }
}

/// The cron-expression schedule of a task: the expression (trimmed), the
/// time zone in which its fields are read, the instant after which the next
/// match is searched, and whether the schedule has run out of matches. The
/// expression is kept as text, and the cron crate reads it again at each
/// step, so that each instant given is tied to the text.
#[derive(Debug)]
pub struct DelayTimerScheduleIteratorOwned {
    time_zone: ScheduleIteratorTimeZone,
    expression: String,
    previous_timestamp: i64,
    is_done: bool,
}

impl DelayTimerScheduleIteratorOwned {
    /// The expression is one the cron grammar accepts, with no step of
    /// zero.
    #[verifier::type_invariant]
    closed spec fn inv(self) -> bool {
        &&& cron_expression_parses(self.expression@)
        &&& !has_zero_step(self.expression@)
    }

    /// The time zone in which the schedule is read.
    pub closed spec fn zone(&self) -> ScheduleIteratorTimeZone {
        self.time_zone
    }

    /// The expression of the schedule.
    pub closed spec fn expression(&self) -> Seq<char> {
        self.expression@
    }

    /// The instant after which the next match is searched.
    pub closed spec fn previous(&self) -> i64 {
        self.previous_timestamp
    }

    /// Whether the schedule has run out of matches.
    pub closed spec fn done(&self) -> bool {
        self.is_done
    }

    /// What asking a schedule for its next instant gives, and leaves: once
    /// done, nothing; otherwise an instant after the previous one, which
    /// becomes the previous instant (in UTC or at a fixed offset, the next
    /// match of the expression); with none, the schedule is done.
    pub open spec fn advanced_by(self, after: Self, r: Option<i64>) -> bool {
        &&& after.zone() == self.zone()
        &&& after.expression() == self.expression()
        &&& if self.done() {
            r is None && after == self
        } else {
            &&& match r {
                Some(t) => after.previous() == t && !after.done() && t > self.previous(),
                None => after.done() && after.previous() == self.previous(),
            }
            &&& self.zone() !is Local ==> r == next_match(
                self.expression(),
                self.zone(),
                self.previous(),
            )
        }
    }

    /// A copy of the schedule and its position.
    pub fn duplicate(&self) -> (r: DelayTimerScheduleIteratorOwned)
        ensures
            r == *self,
    {
        proof {
            use_type_invariant(self);
        }
        let expression = self.expression.clone();
        proof {
            assert(expression@ == self.expression@);
        }
        let r = DelayTimerScheduleIteratorOwned {
            time_zone: self.time_zone,
            expression,
            previous_timestamp: self.previous_timestamp,
            is_done: self.is_done,
        };
        r
    }

    /// Parse a cron expression and start its schedule at `now`.
    pub fn new(query: &ScheduleIteratorTimeZoneQuery, now: u64) -> (r: Result<
        DelayTimerScheduleIteratorOwned,
        FrequencyAnalyzeError,
    >)
        requires
            !has_zero_step(query.cron_expression@),
        ensures
            r is Ok <==> cron_expression_parses(query.cron_expression@),
            r matches Ok(it) ==> it.zone() == query.time_zone && it.expression()
                == query.cron_expression@ && it.previous() == now as i64 && !it.done(),
            r matches Err(e) ==> e is DisParse,
    {
        match parse_cron_schedule(query.cron_expression.as_str()) {
            Ok(_) => {
                let expression = query.cron_expression.clone();
                Ok(
                    DelayTimerScheduleIteratorOwned {
                        time_zone: query.time_zone,
                        expression,
                        previous_timestamp: now as i64,
                        is_done: false,
                    },
                )
            },
            Err(e) => Err(FrequencyAnalyzeError::DisParse(e)),
        }
    }

    /// Restart the search for matches at `now`. A schedule at a fixed offset
    /// takes the offset of `time_zone` where it has one, and is left as it
    /// is where it has none.
    pub fn refresh_previous_datetime(&mut self, time_zone: ScheduleIteratorTimeZone, now: u64)
        ensures
            final(self).expression() == old(self).expression(),
            final(self).done() == old(self).done(),
            match (old(self).zone(), time_zone) {
                (ScheduleIteratorTimeZone::FixedOffset(_), ScheduleIteratorTimeZone::FixedOffset(
                    offset,
                )) => final(self).zone() == time_zone && final(self).previous() == now as i64,
                (ScheduleIteratorTimeZone::FixedOffset(_), _) => final(self).zone() == old(self).zone() && final(self).previous() == old(self).previous(),
                _ => final(self).zone() == old(self).zone() && final(self).previous() == now as i64,
            },
    {
        proof {
            use_type_invariant(&*self);
        }
        match self.time_zone {
            ScheduleIteratorTimeZone::FixedOffset(_) => {
                if let Ok(offset) = time_zone.get_fixed_offset() {
                    self.time_zone = ScheduleIteratorTimeZone::FixedOffset(offset);
                    self.previous_timestamp = now as i64;
                }
            },
            _ => {
                self.previous_timestamp = now as i64;
            },
        }
    }

    /// The next instant that the schedule matches, as a Unix timestamp.
    /// Once there is none, there is none ever after.
    pub fn next(&mut self) -> (r: Option<i64>)
        ensures
            old(self).advanced_by(*final(self), r),
    {
        proof {
            use_type_invariant(&*self);
        }
        if self.is_done {
            return None;
        }
        let after = self.previous_timestamp;
        let next = if after < CRON_SEARCH_LIMIT {
            match self.time_zone {
                ScheduleIteratorTimeZone::Utc => cron_next_after_utc(self.expression.as_str(), after),
                ScheduleIteratorTimeZone::Local => cron_next_after_local(
                    self.expression.as_str(),
                    after,
                ),
                ScheduleIteratorTimeZone::FixedOffset(offset) => cron_next_after_fixed_offset(
                    self.expression.as_str(),
                    offset,
                    after,
                ),
            }
        } else {
            None
        };
        match next {
            Some(t) => {
                self.previous_timestamp = t;
                Some(t)
            },
            None => {
                self.is_done = true;
                None
            },
        }
    }
}

/// The instants a cron schedule gives strictly increase, in every time
/// zone.
pub proof fn lemma_cron_instants_increase(
    a: DelayTimerScheduleIteratorOwned,
    b: DelayTimerScheduleIteratorOwned,
    c: DelayTimerScheduleIteratorOwned,
    first: i64,
    second: i64,
)
    requires
        a.advanced_by(b, Some(first)),
        b.advanced_by(c, Some(second)),
    ensures
        first < second,
{
}

/// The key of the cache of analyzed cron expressions.
#[derive(Debug, Hash, PartialEq, Eq)]
pub struct ScheduleIteratorTimeZoneQuery {
    /// Time zone of the schedule.
    pub time_zone: ScheduleIteratorTimeZone,
    /// The cron expression, trimmed of spaces at both ends.
    pub cron_expression: String,
}

impl ScheduleIteratorTimeZoneQuery {
    /// The key as a plain value.
    pub open spec fn key(&self) -> (ScheduleIteratorTimeZone, Seq<char>) {
        (self.time_zone, self.cron_expression@)
    }
}

/// The lru cache type that holds analyzed cron expressions.
pub type CronLruCache = lru::LruCache<ScheduleIteratorTimeZoneQuery, DelayTimerScheduleIteratorOwned>;

/// What an lru cache of analyzed cron expressions holds, by key.
pub uninterp spec fn cron_cache_contents(cache: lru::LruCache<ScheduleIteratorTimeZoneQuery, DelayTimerScheduleIteratorOwned>) -> Map<
    (ScheduleIteratorTimeZone, Seq<char>),
    DelayTimerScheduleIteratorOwned,
>;

/// The capacity an lru cache of analyzed cron expressions was made with.
pub uninterp spec fn cron_cache_capacity(cache: lru::LruCache<ScheduleIteratorTimeZoneQuery, DelayTimerScheduleIteratorOwned>) -> nat;

/// `LruCache::new`: an empty cache of the given capacity.
#[verifier::external_body]
fn cron_cache_new(cap: usize) -> (r: CronLruCache)
    ensures
        cron_cache_contents(r).dom().is_empty(),
        cron_cache_capacity(r) == cap,
{
    lru::LruCache::new(cap)
}

/// `LruCache::get` followed by a clone of the value found: it gives the
/// value held under the key, if any, and changes only the recency order,
/// not what the cache holds.
#[verifier::external_body]
fn cron_cache_get(cache: &mut CronLruCache, key: &ScheduleIteratorTimeZoneQuery) -> (r: Option<
    DelayTimerScheduleIteratorOwned,
>)
    ensures
        cron_cache_contents(*final(cache)) == cron_cache_contents(*old(cache)),
        cron_cache_capacity(*final(cache)) == cron_cache_capacity(*old(cache)),
        r is Some <==> cron_cache_contents(*old(cache)).contains_key(key.key()),
        r matches Some(v) ==> v == cron_cache_contents(*old(cache))[key.key()],
{
    cache.get(key).map(|v| v.duplicate())
}

/// `LruCache::put`: in a cache of positive capacity, the key then holds the
/// value; any other key holds what it held before or has been evicted.
#[verifier::external_body]
fn cron_cache_put(
    cache: &mut CronLruCache,
    key: ScheduleIteratorTimeZoneQuery,
    value: DelayTimerScheduleIteratorOwned,
)
    requires
        cron_cache_capacity(*old(cache)) > 0,
    ensures
        cron_cache_capacity(*final(cache)) == cron_cache_capacity(*old(cache)),
        cron_cache_contents(*final(cache)).contains_key(key.key()),
        cron_cache_contents(*final(cache))[key.key()] == value,
        forall|k: (ScheduleIteratorTimeZone, Seq<char>)|
            k != key.key() && #[trigger] cron_cache_contents(*final(cache)).contains_key(k) ==> {
                &&& cron_cache_contents(*old(cache)).contains_key(k)
                &&& cron_cache_contents(*final(cache))[k] == cron_cache_contents(*old(cache))[k]
            },
{
    cache.put(key, value);
}

/// Parsing cache for cron expressions.
pub struct CronExpressionCache {
    inner: CronLruCache,
}

impl CronExpressionCache {
    /// Every cached schedule was parsed from its key's expression and is
    /// read in its key's time zone.
    pub closed spec fn wf(&self) -> bool {
        &&& cron_cache_capacity(self.inner) > 0
        &&& forall|k: (ScheduleIteratorTimeZone, Seq<char>)| #[trigger]
            cron_cache_contents(self.inner).contains_key(k) ==> {
                &&& cron_expression_parses(k.1)
                &&& cron_cache_contents(self.inner)[k].zone() == k.0
                &&& cron_cache_contents(self.inner)[k].expression() == k.1
                &&& !cron_cache_contents(self.inner)[k].done()
            }
    }

    /// An empty cache that holds at most 256 analyzed expressions.
    pub fn new() -> (r: CronExpressionCache)
        ensures
            r.wf(),
    {
        CronExpressionCache { inner: cron_cache_new(CRON_EXPRESSION_CACHE_CAPACITY) }
    }
}

/// The expression without leading spaces.
pub open spec fn trim_leading_spaces(s: Seq<char>) -> Seq<char>
    decreases s.len(),
{
    if s.len() > 0 && s[0] == ' ' {
        trim_leading_spaces(s.drop_first())
    } else {
        s
    }
}

/// The expression without trailing spaces.
pub open spec fn trim_trailing_spaces(s: Seq<char>) -> Seq<char>
    decreases s.len(),
{
    if s.len() > 0 && s.last() == ' ' {
        trim_trailing_spaces(s.drop_last())
    } else {
        s
    }
}

/// The expression without spaces at either end (`trim_matches(' ')`).
pub open spec fn trim_spaces(s: Seq<char>) -> Seq<char> {
    trim_trailing_spaces(trim_leading_spaces(s))
}

/// Remove the spaces at both ends of an expression.
pub fn trim_space_matches(s: &str) -> (r: String)
    ensures
        r@ == trim_spaces(s@),
{
    let n = s.unicode_len();
    let mut i: usize = 0;
    assert(s@.subrange(0, n as int) =~= s@);
    while i < n && s.get_char(i) == ' '
        invariant
            n == s@.len(),
            i <= n,
            trim_leading_spaces(s@) == trim_leading_spaces(s@.subrange(i as int, n as int)),
        decreases n - i,
    {
        assert(s@.subrange(i as int, n as int).drop_first() =~= s@.subrange(
            i + 1,
            n as int,
        ));
        i = i + 1;
    }
    assert(trim_leading_spaces(s@.subrange(i as int, n as int)) == s@.subrange(
        i as int,
        n as int,
    ));
    let mut j: usize = n;
    while j > i && s.get_char(j - 1) == ' '
        invariant
            n == s@.len(),
            i <= j <= n,
            trim_spaces(s@) == trim_trailing_spaces(s@.subrange(i as int, j as int)),
        decreases j,
    {
        assert(s@.subrange(i as int, j as int).drop_last() =~= s@.subrange(
            i as int,
            j - 1,
        ));
        j = j - 1;
    }
    let t = s.substring_char(i, j);
    t.to_owned()
}

impl DelayTimerScheduleIteratorOwned {
    /// Analyze an expression: parse it, or take the schedule cached under
    /// the same time zone and trimmed expression, restarted at `now`.
    pub fn analyze_cron_expression(
        cache: &mut CronExpressionCache,
        time_zone: ScheduleIteratorTimeZone,
        cron_expression: &str,
        now: u64,
    ) -> (r: Result<DelayTimerScheduleIteratorOwned, FrequencyAnalyzeError>)
        requires
            old(cache).wf(),
            !has_zero_step(trim_spaces(cron_expression@)),
        ensures
            final(cache).wf(),
            r is Ok <==> cron_expression_parses(trim_spaces(cron_expression@)),
            r matches Err(e) ==> e is DisParse,
            r matches Ok(it) ==> it.zone() == time_zone && it.expression() == trim_spaces(
                cron_expression@,
            ) && it.previous() == now as i64 && !it.done(),
    {
        let indiscriminate_expression = trim_space_matches(cron_expression);
        let query = ScheduleIteratorTimeZoneQuery {
            cron_expression: indiscriminate_expression,
            time_zone,
        };
        if let Some(schedule_iterator) = cron_cache_get(&mut cache.inner, &query) {
            let mut schedule_iterator_copy = schedule_iterator;
            // Reset the internal base time to avoid expiration time during internal iterations.
            schedule_iterator_copy.refresh_previous_datetime(time_zone, now);
            assert(cache.wf());
            return Ok(schedule_iterator_copy);
        }
        let new_result = DelayTimerScheduleIteratorOwned::new(&query, now);
        match new_result {
            Ok(task_schedule) => {
                let kept = task_schedule.duplicate();
                cron_cache_put(&mut cache.inner, query, kept);
                Ok(task_schedule)
            },
            Err(e) => Err(e),
        }
    }
}


/// Iterator for task internal control of execution time.
#[derive(Debug)]
pub enum FrequencyInner {
    /// Unlimited repetition types for cron-expression.
    CronExpressionRepeated(DelayTimerScheduleIteratorOwned),
    /// Type of countdown for cron-expression.
    CronExpressionCountDown(u64, DelayTimerScheduleIteratorOwned),
    /// Unlimited repetition types for seconds-duration.
    SecondsRepeated(SecondsState),
    /// Type of countdown for SecondsState: `SecondsCountDown(count_down, state)`.
    SecondsCountDown(u64, SecondsState),
}

/// Whether the cron expression of a frequency, once trimmed, holds a period
/// step of zero (the cron crate panics on such an expression).
pub open spec fn frequency_has_zero_step(frequency: FrequencyUnify) -> bool {
    match frequency {
        FrequencyUnify::FrequencyCronStr(FrequencyCronStr::Once(s)) => has_zero_step(
            trim_spaces(s@),
        ),
        FrequencyUnify::FrequencyCronStr(FrequencyCronStr::Repeated(s)) => has_zero_step(
            trim_spaces(s@),
        ),
        FrequencyUnify::FrequencyCronStr(FrequencyCronStr::CountDown(_, s)) => has_zero_step(
            trim_spaces(s@),
        ),
        FrequencyUnify::FrequencySeconds(_) => false,
    }
}

/// What analyzing a frequency gives at `now`: a schedule that starts at
/// `now`, in the given time zone, with the given number of runs.
pub open spec fn frequency_analysis(
    frequency: FrequencyUnify,
    time_zone: ScheduleIteratorTimeZone,
    now: u64,
    r: Result<FrequencyInner, FrequencyAnalyzeError>,
) -> bool {
    let fresh = |it: DelayTimerScheduleIteratorOwned, expression: &str|
        it.zone() == time_zone && it.expression() == trim_spaces(expression@) && it.previous()
            == now as i64 && !it.done();
    match frequency {
        FrequencyUnify::FrequencyCronStr(cron) => {
            let (expression, count): (&str, Option<u64>) = match cron {
                FrequencyCronStr::Once(s) => (s, Some(1u64)),
                FrequencyCronStr::Repeated(s) => (s, None),
                FrequencyCronStr::CountDown(n, s) => (s, Some(n)),
            };
            &&& (r is Ok <==> cron_expression_parses(trim_spaces(expression@)))
            &&& (r matches Err(e) ==> e is DisParse)
            &&& (r matches Ok(f) ==> match (f, count) {
                (FrequencyInner::CronExpressionCountDown(m, it), Some(n)) => m == n && fresh(
                    it,
                    expression,
                ),
                (FrequencyInner::CronExpressionRepeated(it), None) => fresh(it, expression),
                _ => false,
            })
        },
        FrequencyUnify::FrequencySeconds(seconds) => {
            let (period, count): (u64, Option<u64>) = match seconds {
                FrequencySeconds::Once(p) => (p, Some(1u64)),
                FrequencySeconds::Repeated(p) => (p, None),
                FrequencySeconds::CountDown(n, p) => (p, Some(n)),
            };
            if period == 0 {
                r matches Err(e) && e is DisInitTime
            } else {
                r matches Ok(f) && match (f, count) {
                    (FrequencyInner::SecondsCountDown(m, st), Some(n)) => m == n && st
                        == SecondsState::starting(now, period),
                    (FrequencyInner::SecondsRepeated(st), None) => st == SecondsState::starting(
                        now,
                        period,
                    ),
                    _ => false,
                }
            }
        },
    }
}

impl FrequencyInner {
    /// How many more runs are owed: `None` for unlimited repetition.
    pub open spec fn remaining(&self) -> Option<u64> {
        match *self {
            FrequencyInner::CronExpressionCountDown(n, _) => Some(n),
            FrequencyInner::SecondsCountDown(n, _) => Some(n),
            _ => None,
        }
    }

    /// The frequency after one run was counted.
    pub open spec fn down_counted(self) -> FrequencyInner {
        match self {
            FrequencyInner::CronExpressionCountDown(n, it) => FrequencyInner::CronExpressionCountDown(
                (n - 1) as u64,
                it,
            ),
            FrequencyInner::SecondsCountDown(n, st) => FrequencyInner::SecondsCountDown(
                (n - 1) as u64,
                st,
            ),
            other => other,
        }
    }

    /// The same kind of frequency with the same count.
    pub open spec fn same_count(self, other: FrequencyInner) -> bool {
        match (self, other) {
            (FrequencyInner::CronExpressionCountDown(n, _), FrequencyInner::CronExpressionCountDown(m, _)) => n == m,
            (FrequencyInner::CronExpressionRepeated(_), FrequencyInner::CronExpressionRepeated(_)) => true,
            (FrequencyInner::SecondsCountDown(n, _), FrequencyInner::SecondsCountDown(m, _)) => n == m,
            (FrequencyInner::SecondsRepeated(_), FrequencyInner::SecondsRepeated(_)) => true,
            _ => false,
        }
    }

    /// What giving the next alarm does to a frequency, and gives.
    pub open spec fn next_alarm_spec(self, after: FrequencyInner, r: Option<i64>) -> bool {
        &&& self.same_count(after)
        &&& match (self, after) {
            (FrequencyInner::SecondsCountDown(_, st), FrequencyInner::SecondsCountDown(_, st2)) => {
                &&& r == (match st.upcoming { Some(t) => Some(t as i64), None => None::<i64> })
                &&& st2 == st.advanced()
            },
            (FrequencyInner::SecondsRepeated(st), FrequencyInner::SecondsRepeated(st2)) => {
                &&& r == (match st.upcoming { Some(t) => Some(t as i64), None => None::<i64> })
                &&& st2 == st.advanced()
            },
            (FrequencyInner::CronExpressionCountDown(_, it), FrequencyInner::CronExpressionCountDown(_, it2)) =>
                it.advanced_by(it2, r),
            (FrequencyInner::CronExpressionRepeated(it), FrequencyInner::CronExpressionRepeated(it2)) =>
                it.advanced_by(it2, r),
            _ => false,
        }
    }

    /// Analyze a frequency and its time zone at `now`.
    pub fn try_from(
        frequency: FrequencyUnify,
        time_zone: ScheduleIteratorTimeZone,
        cache: &mut CronExpressionCache,
        now: u64,
    ) -> (r: Result<FrequencyInner, FrequencyAnalyzeError>)
        requires
            old(cache).wf(),
            !frequency_has_zero_step(frequency),
        ensures
            final(cache).wf(),
            frequency_analysis(frequency, time_zone, now, r),
    {
        match frequency {
            FrequencyUnify::FrequencyCronStr(FrequencyCronStr::Once(cron_str)) => {
                match DelayTimerScheduleIteratorOwned::analyze_cron_expression(
                    cache,
                    time_zone,
                    cron_str,
                    now,
                ) {
                    Ok(task_schedule) => Ok(FrequencyInner::CronExpressionCountDown(1, task_schedule)),
                    Err(e) => Err(e),
                }
            },
            FrequencyUnify::FrequencyCronStr(FrequencyCronStr::Repeated(cron_str)) => {
                match DelayTimerScheduleIteratorOwned::analyze_cron_expression(
                    cache,
                    time_zone,
                    cron_str,
                    now,
                ) {
                    Ok(task_schedule) => Ok(FrequencyInner::CronExpressionRepeated(task_schedule)),
                    Err(e) => Err(e),
                }
            },
            FrequencyUnify::FrequencyCronStr(FrequencyCronStr::CountDown(count_down, cron_str)) => {
                match DelayTimerScheduleIteratorOwned::analyze_cron_expression(
                    cache,
                    time_zone,
                    cron_str,
                    now,
                ) {
                    Ok(task_schedule) => Ok(
                        FrequencyInner::CronExpressionCountDown(count_down, task_schedule),
                    ),
                    Err(e) => Err(e),
                }
            },
            FrequencyUnify::FrequencySeconds(FrequencySeconds::Once(seconds)) => {
                if seconds == 0 {
                    return Err(FrequencyAnalyzeError::DisInitTime);
                }
                Ok(FrequencyInner::SecondsCountDown(1, SecondsState::new(now, seconds)))
            },
            FrequencyUnify::FrequencySeconds(FrequencySeconds::Repeated(seconds)) => {
                if seconds == 0 {
                    return Err(FrequencyAnalyzeError::DisInitTime);
                }
                Ok(FrequencyInner::SecondsRepeated(SecondsState::new(now, seconds)))
            },
            FrequencyUnify::FrequencySeconds(FrequencySeconds::CountDown(count_down, seconds)) => {
                if seconds == 0 {
                    return Err(FrequencyAnalyzeError::DisInitTime);
                }
                Ok(FrequencyInner::SecondsCountDown(count_down, SecondsState::new(now, seconds)))
            },
        }
    }

    /// How many times the acquisition needs to be performed.
    pub fn residual_time(&self) -> (r: u64)
        ensures
            r == match self.remaining() {
                Some(n) => n,
                None => u64::MAX,
            },
    {
        match self {
            FrequencyInner::CronExpressionRepeated(_) => u64::MAX,
            FrequencyInner::SecondsRepeated(_) => u64::MAX,
            FrequencyInner::CronExpressionCountDown(time, _) => *time,
            FrequencyInner::SecondsCountDown(time, _) => *time,
        }
    }

    /// The next instant at which the task is due.
    pub fn next_alarm_timestamp(&mut self) -> (r: Option<i64>)
        ensures
            old(self).next_alarm_spec(*final(self), r),
    {
        match self {
            FrequencyInner::CronExpressionCountDown(_, clock) => clock.next(),
            FrequencyInner::CronExpressionRepeated(clock) => clock.next(),
            FrequencyInner::SecondsRepeated(seconds_state) => {
                match seconds_state.next() {
                    Some(s) => Some(s as i64),
                    None => None,
                }
            },
            FrequencyInner::SecondsCountDown(_, seconds_state) => {
                match seconds_state.next() {
                    Some(s) => Some(s as i64),
                    None => None,
                }
            },
        }
    }

    /// Count one run.
    pub fn down_count(&mut self)
        requires
            old(self).remaining() != Some(0u64),
        ensures
            *final(self) == old(self).down_counted(),
    {
        match self {
            FrequencyInner::CronExpressionRepeated(_) => {},
            FrequencyInner::SecondsRepeated(_) => {},
            FrequencyInner::CronExpressionCountDown(exec_count, _) => *exec_count = *exec_count - 1,
            FrequencyInner::SecondsCountDown(count_down, _) => *count_down = *count_down - 1,
        }
    }

    /// Whether all owed runs have been counted.
    pub fn is_down_over(&self) -> (r: bool)
        ensures
            r == (self.remaining() == Some(0u64)),
    {
        match self {
            FrequencyInner::CronExpressionCountDown(n, _) => *n == 0,
            FrequencyInner::SecondsCountDown(n, _) => *n == 0,
            _ => false,
        }
    }
}


/// A frequency after `k` runs were counted.
pub open spec fn down_counted_times(frequency: FrequencyInner, k: nat) -> FrequencyInner
    decreases k,
{
    if k == 0 {
        frequency
    } else {
        down_counted_times(frequency, (k - 1) as nat).down_counted()
    }
}

/// A frequency that owes `n` runs owes `n - k` after `k` of them were
/// counted: a task of a count-down of `n` runs stays valid for exactly `n`
/// runs. An unlimited one stays unlimited.
pub proof fn lemma_count_down_runs(frequency: FrequencyInner, k: nat)
    ensures
        frequency.remaining() matches Some(n) ==> (k <= n ==> down_counted_times(
            frequency,
            k,
        ).remaining() == Some((n - k) as u64)),
        frequency.remaining() is None ==> down_counted_times(frequency, k).remaining() is None,
    decreases k,
{
    if k > 0 {
        lemma_count_down_runs(frequency, (k - 1) as nat);
    }
}

/// Cycle plan task builder.
#[derive(Debug, Copy, Clone)]
pub struct TaskBuilder<'a> {
    /// Repeat type.
    frequency: FrequencyUnify<'a>,
    /// Task_id should unique.
    task_id: u64,
    /// Maximum execution time (optional).
    /// it can be use to deadline (excution-time + maximum_running_time).
    maximum_running_time: Option<u64>,
    /// Maximum parallel runnable num (optional).
    maximum_parallel_runnable_num: Option<u64>,
    /// If it is built by set_frequency_by_candy, set the tag separately.
    build_by_candy_str: bool,
    /// Time zone for cron-expression iteration time.
    schedule_iterator_time_zone: ScheduleIteratorTimeZone,
}

/// The settings a task builder holds.
pub struct TaskBuilderView<'a> {
    /// Repeat type.
    pub frequency: FrequencyUnify<'a>,
    /// Task id.
    pub task_id: u64,
    /// Maximum execution time.
    pub maximum_running_time: Option<u64>,
    /// Maximum parallel runnable num.
    pub maximum_parallel_runnable_num: Option<u64>,
    /// Whether the expression was leaked from a candy string.
    pub build_by_candy_str: bool,
    /// Time zone for cron-expression iteration time.
    pub schedule_iterator_time_zone: ScheduleIteratorTimeZone,
}

impl<'a> View for TaskBuilder<'a> {
    type V = TaskBuilderView<'a>;

    closed spec fn view(&self) -> TaskBuilderView<'a> {
        TaskBuilderView {
            frequency: self.frequency,
            task_id: self.task_id,
            maximum_running_time: self.maximum_running_time,
            maximum_parallel_runnable_num: self.maximum_parallel_runnable_num,
            build_by_candy_str: self.build_by_candy_str,
            schedule_iterator_time_zone: self.schedule_iterator_time_zone,
        }
    }
}

impl<'a> Default for TaskBuilder<'a> {
    fn default() -> (r: TaskBuilder<'a>)
        ensures
            r@ == (TaskBuilderView::<'a> {
                frequency: FrequencyUnify::FrequencySeconds(FrequencySeconds::Once(ONE_MINUTE)),
                task_id: 0,
                maximum_running_time: None,
                maximum_parallel_runnable_num: None,
                build_by_candy_str: false,
                schedule_iterator_time_zone: ScheduleIteratorTimeZone::Local,
            }),
    {
        TaskBuilder {
            frequency: FrequencyUnify::default(),
            task_id: 0,
            maximum_running_time: None,
            maximum_parallel_runnable_num: None,
            build_by_candy_str: false,
            schedule_iterator_time_zone: ScheduleIteratorTimeZone::default(),
        }
    }
}

/// Whether a frequency owes at least one run: a count-down of zero runs
/// owes none.
pub open spec fn owes_a_run(frequency: FrequencyUnify) -> bool {
    match frequency {
        FrequencyUnify::FrequencyCronStr(FrequencyCronStr::CountDown(n, _)) => n != 0,
        FrequencyUnify::FrequencySeconds(FrequencySeconds::CountDown(n, _)) => n != 0,
        _ => true,
    }
}

/// The seconds from `now` until `timestamp_seconds`, or one second where
/// that instant has passed.
pub open spec fn duration_until(timestamp_seconds: u64, now: u64) -> u64 {
    if timestamp_seconds >= now {
        (timestamp_seconds - now) as u64
    } else {
        ONE_SECOND
    }
}

/// The content of a task, without its routine.
pub struct TaskView {
    /// Unique task-id.
    pub task_id: u64,
    /// Iter of frequencies and executive clocks.
    pub frequency: FrequencyInner,
    /// Maximum execution time.
    pub maximum_running_time: Option<u64>,
    /// How many more full turns of the wheel before the task is due.
    pub cylinder_line: u64,
    /// Validity.
    pub valid: bool,
    /// Maximum parallel runnable num.
    pub maximum_parallel_runnable_num: Option<u64>,
}

/// Periodic Task Structures.
#[derive(Debug)]
pub struct Task<R> {
    /// Unique task-id.
    pub task_id: u64,
    /// Routine is the soul of the task, including the execution instructions of the task.
    routine: R,
    /// Iter of frequencies and executive clocks.
    frequency: FrequencyInner,
    /// Maximum execution time (optional).
    maximum_running_time: Option<u64>,
    /// Loop the line and check how many more clock cycles it will take to execute it.
    cylinder_line: u64,
    /// Validity.
    /// Any `Task` can set `valid` for that stop.
    valid: bool,
    /// Maximum parallel runnable num (optional).
    maximum_parallel_runnable_num: Option<u64>,
}

impl<R> View for Task<R> {
    type V = TaskView;

    closed spec fn view(&self) -> TaskView {
        TaskView {
            task_id: self.task_id,
            frequency: self.frequency,
            maximum_running_time: self.maximum_running_time,
            cylinder_line: self.cylinder_line,
            valid: self.valid,
            maximum_parallel_runnable_num: self.maximum_parallel_runnable_num,
        }
    }
}

/// A routine whose body is a future (an async closure).
#[derive(Debug, Clone)]
pub struct AsyncFn<F>(pub F);

/// A routine whose body is a blocking closure.
#[derive(Debug, Clone)]
pub struct SyncFn<F>(pub F);

/// What spawning a task from a builder at `now` gives.
pub open spec fn task_spawned<R>(
    builder: TaskBuilderView,
    now: u64,
    routine: R,
    r: Result<Task<R>, FrequencyAnalyzeError>,
) -> bool {
    match r {
        Ok(task) => {
            &&& frequency_analysis(
                builder.frequency,
                builder.schedule_iterator_time_zone,
                now,
                Ok(task@.frequency),
            )
            &&& task@.task_id == builder.task_id
            &&& task@.maximum_running_time == builder.maximum_running_time
            &&& task@.maximum_parallel_runnable_num == builder.maximum_parallel_runnable_num
            &&& task@.cylinder_line == 0
            &&& task@.valid
            &&& task.spec_routine() == routine
            &&& (task.wf() <==> owes_a_run(builder.frequency))
        },
        Err(e) => frequency_analysis(
            builder.frequency,
            builder.schedule_iterator_time_zone,
            now,
            Err(e),
        ),
    }
}

/// `String::leak`: the text of the string, kept for the rest of the
/// program.
#[verifier::external_body]
fn leak_string(s: String) -> (r: &'static str)
    ensures
        r@ == s@,
{
    s.leak()
}

/// Converting `candy` into an expression may give `text`.
pub open spec fn candy_gives<T: Into<CandyCronStr>>(candy: T, text: Seq<char>) -> bool {
    exists|c: CandyCronStr| #[trigger] call_ensures(T::into, (candy,), c) && c.0@ == text
}

/// A builder set by a candy frequency: the frequency is of the candy's kind
/// and count, over the expression the candy converts into, and the builder
/// is marked as built from a candy; nothing else changes.
pub open spec fn candy_frequency_set<'a, T: Into<CandyCronStr>>(
    old: TaskBuilderView<'a>,
    new: TaskBuilderView<'a>,
    frequency: CandyFrequency<T>,
) -> bool {
    &&& new == (TaskBuilderView { frequency: new.frequency, build_by_candy_str: true, ..old })
    &&& match (frequency, new.frequency) {
        (
            CandyFrequency::Once(c),
            FrequencyUnify::FrequencyCronStr(FrequencyCronStr::Once(s)),
        ) => candy_gives(c, s@),
        (
            CandyFrequency::Repeated(c),
            FrequencyUnify::FrequencyCronStr(FrequencyCronStr::Repeated(s)),
        ) => candy_gives(c, s@),
        (
            CandyFrequency::CountDown(n, c),
            FrequencyUnify::FrequencyCronStr(FrequencyCronStr::CountDown(m, s)),
        ) => m == n && candy_gives(c, s@),
        _ => false,
    }
}

impl<'a> TaskBuilder<'a> {
    /// Set task Frequency.
    /// This api will be deprecated in the future, please use `set_frequency_once_*` | `set_frequency_count_down_*` | `set_frequency_repeated_*` etc.
    pub fn set_frequency(&mut self, frequency: FrequencyCronStr<'a>) -> (r: &mut Self)
        ensures
            *final(self) == *final(r),
            (*r)@ == (TaskBuilderView {
                frequency: FrequencyUnify::FrequencyCronStr(frequency),
                ..old(self)@
            }),
    {
        self.frequency = FrequencyUnify::FrequencyCronStr(frequency);
        self
    }

    /// Set the frequency from a candy: the expression it converts into is
    /// kept for the rest of the program.
    pub fn set_frequency_by_candy<T: Into<CandyCronStr>>(
        &mut self,
        frequency: CandyFrequency<T>,
    ) -> (r: &mut Self)
        ensures
            *final(self) == *final(r),
            candy_frequency_set(old(self)@, (*r)@, frequency),
    {
        self.build_by_candy_str = true;
        let frequency = match frequency {
            CandyFrequency::Once(candy_cron_middle_str) => {
                let candy: CandyCronStr = candy_cron_middle_str.into();
                FrequencyCronStr::Once(leak_string(candy.0))
            },
            CandyFrequency::Repeated(candy_cron_middle_str) => {
                let candy: CandyCronStr = candy_cron_middle_str.into();
                FrequencyCronStr::Repeated(leak_string(candy.0))
            },
            CandyFrequency::CountDown(exec_count, candy_cron_middle_str) => {
                let candy: CandyCronStr = candy_cron_middle_str.into();
                FrequencyCronStr::CountDown(exec_count as u64, leak_string(candy.0))
            },
        };
        self.frequency = FrequencyUnify::FrequencyCronStr(frequency);
        self
    }

    /// The cron expression of the frequency, if it is set by one.
    pub fn get_cron_expression(&self) -> (r: Option<&'a str>)
        ensures
            r == match self@.frequency {
                FrequencyUnify::FrequencyCronStr(FrequencyCronStr::Once(s)) => Some(s),
                FrequencyUnify::FrequencyCronStr(FrequencyCronStr::Repeated(s)) => Some(s),
                FrequencyUnify::FrequencyCronStr(FrequencyCronStr::CountDown(_, s)) => Some(s),
                FrequencyUnify::FrequencySeconds(_) => None::<&'a str>,
            },
    {
        match self.frequency {
            FrequencyUnify::FrequencyCronStr(FrequencyCronStr::Once(s)) => Some(s),
            FrequencyUnify::FrequencyCronStr(FrequencyCronStr::Repeated(s)) => Some(s),
            FrequencyUnify::FrequencyCronStr(FrequencyCronStr::CountDown(_, s)) => Some(s),
            FrequencyUnify::FrequencySeconds(_) => None,
        }
    }

    /// Whether the frequency's cron expression holds a period step of zero,
    /// on which the cron crate panics.
    pub fn has_zero_cron_step(&self) -> (r: bool)
        ensures
            r == frequency_has_zero_step(self@.frequency),
    {
        match self.frequency {
            FrequencyUnify::FrequencyCronStr(FrequencyCronStr::Once(s)) => {
                cron_expression_has_zero_step(s)
            },
            FrequencyUnify::FrequencyCronStr(FrequencyCronStr::Repeated(s)) => {
                cron_expression_has_zero_step(s)
            },
            FrequencyUnify::FrequencyCronStr(FrequencyCronStr::CountDown(_, s)) => {
                cron_expression_has_zero_step(s)
            },
            FrequencyUnify::FrequencySeconds(_) => false,
        }
    }

    /// Set task-id.
    pub fn set_task_id(&mut self, task_id: u64) -> (r: &mut Self)
        ensures
            *final(self) == *final(r),
            (*r)@ == (TaskBuilderView { task_id, ..old(self)@ }),
    {
        self.task_id = task_id;
        self
    }

    /// Set maximum execution time (optional).
    pub fn set_maximum_running_time(&mut self, maximum_running_time: u64) -> (r: &mut Self)
        ensures
            *final(self) == *final(r),
            (*r)@ == (TaskBuilderView {
                maximum_running_time: Some(maximum_running_time),
                ..old(self)@
            }),
    {
        self.maximum_running_time = Some(maximum_running_time);
        self
    }

    /// Set a task with the maximum number of parallel runs (optional).
    pub fn set_maximum_parallel_runnable_num(&mut self, maximum_parallel_runnable_num: u64) -> (r:
        &mut Self)
        ensures
            *final(self) == *final(r),
            (*r)@ == (TaskBuilderView {
                maximum_parallel_runnable_num: Some(maximum_parallel_runnable_num),
                ..old(self)@
            }),
    {
        self.maximum_parallel_runnable_num = Some(maximum_parallel_runnable_num);
        self
    }

    /// Set time zone for cron-expression iteration time.
    pub fn set_schedule_iterator_time_zone(
        &mut self,
        schedule_iterator_time_zone: ScheduleIteratorTimeZone,
    ) -> (r: &mut Self)
        ensures
            *final(self) == *final(r),
            (*r)@ == (TaskBuilderView { schedule_iterator_time_zone, ..old(self)@ }),
    {
        self.schedule_iterator_time_zone = schedule_iterator_time_zone;
        self
    }

    /// Build a task from the builder's settings and a routine, with its
    /// schedule starting at `now`.
    pub fn build_task<R>(self, routine: R, cache: &mut CronExpressionCache, now: u64) -> (r:
        Result<Task<R>, FrequencyAnalyzeError>)
        requires
            old(cache).wf(),
            !frequency_has_zero_step(self@.frequency),
        ensures
            final(cache).wf(),
            task_spawned(self@, now, routine, r),
    {
        let frequency_inner = FrequencyInner::try_from(
            self.frequency,
            self.schedule_iterator_time_zone,
            cache,
            now,
        );
        match frequency_inner {
            Ok(frequency) => Ok(
                Task {
                    task_id: self.task_id,
                    routine,
                    frequency,
                    maximum_running_time: self.maximum_running_time,
                    cylinder_line: 0,
                    valid: true,
                    maximum_parallel_runnable_num: self.maximum_parallel_runnable_num,
                },
            ),
            Err(e) => Err(e),
        }
    }

    /// Spawn a task with async-routine, its schedule starting at the current
    /// time.
    pub fn spawn_async_routine<F>(self, routine: F, cache: &mut CronExpressionCache) -> (r: Result<
        Task<AsyncFn<F>>,
        FrequencyAnalyzeError,
    >)
        requires
            old(cache).wf(),
            !frequency_has_zero_step(self@.frequency),
        ensures
            final(cache).wf(),
            exists|now: u64| task_spawned(self@, now, AsyncFn(routine), r),
    {
        let now = get_timestamp();
        self.build_task(AsyncFn(routine), cache, now)
    }

    /// Spawn a task with sync-routine, its schedule starting at the current
    /// time.
    pub fn spawn_routine<F>(self, routine: F, cache: &mut CronExpressionCache) -> (r: Result<
        Task<SyncFn<F>>,
        FrequencyAnalyzeError,
    >)
        requires
            old(cache).wf(),
            !frequency_has_zero_step(self@.frequency),
        ensures
            final(cache).wf(),
            exists|now: u64| task_spawned(self@, now, SyncFn(routine), r),
    {
        let now = get_timestamp();
        self.build_task(SyncFn(routine), cache, now)
    }

    /// Task execution frequency: execute only once, set by cron expression.
    pub fn set_frequency_once_by_cron_str(&mut self, cron_str: &'a str) -> (r: &mut Self)
        ensures
            *final(self) == *final(r),
            (*r)@ == (TaskBuilderView {
                frequency: FrequencyUnify::FrequencyCronStr(FrequencyCronStr::Once(cron_str)),
                ..old(self)@
            }),
    {
        self.frequency = FrequencyUnify::FrequencyCronStr(FrequencyCronStr::Once(cron_str));
        self
    }

    /// Task execution frequency: execute repeatedly, set by cron expression.
    pub fn set_frequency_repeated_by_cron_str(&mut self, cron_str: &'a str) -> (r: &mut Self)
        ensures
            *final(self) == *final(r),
            (*r)@ == (TaskBuilderView {
                frequency: FrequencyUnify::FrequencyCronStr(FrequencyCronStr::Repeated(cron_str)),
                ..old(self)@
            }),
    {
        self.frequency = FrequencyUnify::FrequencyCronStr(FrequencyCronStr::Repeated(cron_str));
        self
    }

    /// Task execution frequency: countdown execution, set by cron expression.
    pub fn set_frequency_count_down_by_cron_str(&mut self, cron_str: &'a str, count_down: u64) -> (r:
        &mut Self)
        ensures
            *final(self) == *final(r),
            (*r)@ == (TaskBuilderView {
                frequency: FrequencyUnify::FrequencyCronStr(
                    FrequencyCronStr::CountDown(count_down, cron_str),
                ),
                ..old(self)@
            }),
    {
        self.frequency =
            FrequencyUnify::FrequencyCronStr(FrequencyCronStr::CountDown(count_down, cron_str));
        self
    }

    /// Task execution frequency: execute only once, set by seconds num.
    pub fn set_frequency_once_by_seconds(&mut self, seconds: u64) -> (r: &mut Self)
        ensures
            *final(self) == *final(r),
            (*r)@ == (TaskBuilderView {
                frequency: FrequencyUnify::FrequencySeconds(FrequencySeconds::Once(seconds)),
                ..old(self)@
            }),
    {
        self.frequency = FrequencyUnify::FrequencySeconds(FrequencySeconds::Once(seconds));
        self
    }

    /// Task execution frequency: execute repeatedly, set by seconds num.
    pub fn set_frequency_repeated_by_seconds(&mut self, seconds: u64) -> (r: &mut Self)
        ensures
            *final(self) == *final(r),
            (*r)@ == (TaskBuilderView {
                frequency: FrequencyUnify::FrequencySeconds(FrequencySeconds::Repeated(seconds)),
                ..old(self)@
            }),
    {
        self.frequency = FrequencyUnify::FrequencySeconds(FrequencySeconds::Repeated(seconds));
        self
    }

    /// Task execution frequency: countdown execution, set by seconds num.
    pub fn set_frequency_count_down_by_seconds(&mut self, seconds: u64, count_down: u64) -> (r:
        &mut Self)
        ensures
            *final(self) == *final(r),
            (*r)@ == (TaskBuilderView {
                frequency: FrequencyUnify::FrequencySeconds(
                    FrequencySeconds::CountDown(count_down, seconds),
                ),
                ..old(self)@
            }),
    {
        self.frequency =
            FrequencyUnify::FrequencySeconds(FrequencySeconds::CountDown(count_down, seconds));
        self
    }

    /// Task execution frequency: execute only once, set by minutes num.
    pub fn set_frequency_once_by_minutes(&mut self, minutes: u64) -> (r: &mut Self)
        requires
            ONE_MINUTE * minutes <= u64::MAX,
        ensures
            *final(self) == *final(r),
            (*r)@ == (TaskBuilderView {
                frequency: FrequencyUnify::FrequencySeconds(
                    FrequencySeconds::Once((ONE_MINUTE * minutes) as u64),
                ),
                ..old(self)@
            }),
    {
        self.frequency =
            FrequencyUnify::FrequencySeconds(FrequencySeconds::Once(ONE_MINUTE * minutes));
        self
    }

    /// Task execution frequency: execute repeatedly, set by minutes num.
    pub fn set_frequency_repeated_by_minutes(&mut self, minutes: u64) -> (r: &mut Self)
        requires
            ONE_MINUTE * minutes <= u64::MAX,
        ensures
            *final(self) == *final(r),
            (*r)@ == (TaskBuilderView {
                frequency: FrequencyUnify::FrequencySeconds(
                    FrequencySeconds::Repeated((ONE_MINUTE * minutes) as u64),
                ),
                ..old(self)@
            }),
    {
        self.frequency =
            FrequencyUnify::FrequencySeconds(FrequencySeconds::Repeated(ONE_MINUTE * minutes));
        self
    }

    /// Task execution frequency: countdown execution, set by minutes num.
    pub fn set_frequency_count_down_by_minutes(&mut self, minutes: u64, count_down: u64) -> (r:
        &mut Self)
        requires
            ONE_MINUTE * minutes <= u64::MAX,
        ensures
            *final(self) == *final(r),
            (*r)@ == (TaskBuilderView {
                frequency: FrequencyUnify::FrequencySeconds(
                    FrequencySeconds::CountDown(count_down, (ONE_MINUTE * minutes) as u64),
                ),
                ..old(self)@
            }),
    {
        self.frequency =
            FrequencyUnify::FrequencySeconds(
            FrequencySeconds::CountDown(count_down, ONE_MINUTE * minutes),
        );
        self
    }

    /// Task execution frequency: execute only once, set by hours num.
    pub fn set_frequency_once_by_hours(&mut self, hours: u64) -> (r: &mut Self)
        requires
            ONE_HOUR * hours <= u64::MAX,
        ensures
            *final(self) == *final(r),
            (*r)@ == (TaskBuilderView {
                frequency: FrequencyUnify::FrequencySeconds(
                    FrequencySeconds::Once((ONE_HOUR * hours) as u64),
                ),
                ..old(self)@
            }),
    {
        self.frequency = FrequencyUnify::FrequencySeconds(FrequencySeconds::Once(ONE_HOUR * hours));
        self
    }

    /// Task execution frequency: execute repeatedly, set by hours num.
    pub fn set_frequency_repeated_by_hours(&mut self, hours: u64) -> (r: &mut Self)
        requires
            ONE_HOUR * hours <= u64::MAX,
        ensures
            *final(self) == *final(r),
            (*r)@ == (TaskBuilderView {
                frequency: FrequencyUnify::FrequencySeconds(
                    FrequencySeconds::Repeated((ONE_HOUR * hours) as u64),
                ),
                ..old(self)@
            }),
    {
        self.frequency =
            FrequencyUnify::FrequencySeconds(FrequencySeconds::Repeated(ONE_HOUR * hours));
        self
    }

    /// Task execution frequency: countdown execution, set by hours num.
    pub fn set_frequency_count_down_by_hours(&mut self, hours: u64, count_down: u64) -> (r:
        &mut Self)
        requires
            ONE_HOUR * hours <= u64::MAX,
        ensures
            *final(self) == *final(r),
            (*r)@ == (TaskBuilderView {
                frequency: FrequencyUnify::FrequencySeconds(
                    FrequencySeconds::CountDown(count_down, (ONE_HOUR * hours) as u64),
                ),
                ..old(self)@
            }),
    {
        self.frequency =
            FrequencyUnify::FrequencySeconds(
            FrequencySeconds::CountDown(count_down, ONE_HOUR * hours),
        );
        self
    }

    /// Task execution frequency: execute only once, set by days num.
    pub fn set_frequency_once_by_days(&mut self, days: u64) -> (r: &mut Self)
        requires
            ONE_DAY * days <= u64::MAX,
        ensures
            *final(self) == *final(r),
            (*r)@ == (TaskBuilderView {
                frequency: FrequencyUnify::FrequencySeconds(
                    FrequencySeconds::Once((ONE_DAY * days) as u64),
                ),
                ..old(self)@
            }),
    {
        self.frequency = FrequencyUnify::FrequencySeconds(FrequencySeconds::Once(ONE_DAY * days));
        self
    }

    /// Task execution frequency: execute repeatedly, set by days num.
    pub fn set_frequency_repeated_by_days(&mut self, days: u64) -> (r: &mut Self)
        requires
            ONE_DAY * days <= u64::MAX,
        ensures
            *final(self) == *final(r),
            (*r)@ == (TaskBuilderView {
                frequency: FrequencyUnify::FrequencySeconds(
                    FrequencySeconds::Repeated((ONE_DAY * days) as u64),
                ),
                ..old(self)@
            }),
    {
        self.frequency =
            FrequencyUnify::FrequencySeconds(FrequencySeconds::Repeated(ONE_DAY * days));
        self
    }

    /// Task execution frequency: countdown execution, set by days num.
    pub fn set_frequency_count_down_by_days(&mut self, days: u64, count_down: u64) -> (r:
        &mut Self)
        requires
            ONE_DAY * days <= u64::MAX,
        ensures
            *final(self) == *final(r),
            (*r)@ == (TaskBuilderView {
                frequency: FrequencyUnify::FrequencySeconds(
                    FrequencySeconds::CountDown(count_down, (ONE_DAY * days) as u64),
                ),
                ..old(self)@
            }),
    {
        self.frequency =
            FrequencyUnify::FrequencySeconds(FrequencySeconds::CountDown(count_down, ONE_DAY * days));
        self
    }

    /// Task execution frequency: execute only once, at `timestamp_seconds`
    /// as seen from `now` (one second from now where that instant has
    /// passed).
    pub fn set_frequency_once_by_timestamp_seconds_from(
        &mut self,
        timestamp_seconds: u64,
        now: u64,
    ) -> (r: &mut Self)
        ensures
            *final(self) == *final(r),
            (*r)@ == (TaskBuilderView {
                frequency: FrequencyUnify::FrequencySeconds(
                    FrequencySeconds::Once(
                        duration_until(timestamp_seconds, now),
                    ),
                ),
                ..old(self)@
            }),
    {
        let duration = match timestamp_seconds.checked_sub(now) {
            Some(d) => d,
            None => ONE_SECOND,
        };
        self.frequency = FrequencyUnify::FrequencySeconds(FrequencySeconds::Once(duration));
        self
    }

    /// Task execution frequency: execute only once, set by timestamp-seconds num.
    pub fn set_frequency_once_by_timestamp_seconds(&mut self, timestamp_seconds: u64) -> (r:
        &mut Self)
        ensures
            *final(self) == *final(r),
            exists|now: u64|
                (*r)@ == (TaskBuilderView {
                    frequency: FrequencyUnify::FrequencySeconds(
                        FrequencySeconds::Once(
                            #[trigger] duration_until(timestamp_seconds, now),
                        ),
                    ),
                    ..old(self)@
                }),
    {
        let now = get_timestamp();
        self.set_frequency_once_by_timestamp_seconds_from(timestamp_seconds, now)
    }
}

/// What taking the next instant `r` at which `before` is due leaves: `after`
/// differs from `before` in the state of its frequency alone, and `r` is the
/// instant the frequency gave, read as an unsigned number of seconds.
pub open spec fn next_exec_taken<R>(before: Task<R>, after: Task<R>, r: Option<u64>) -> bool {
    &&& exists|alarm: Option<i64>|
        before@.frequency.next_alarm_spec(after@.frequency, alarm) && r == (match alarm {
            Some(i) => Some(i as u64),
            None => None::<u64>,
        })
    &&& after@ == (TaskView { frequency: after@.frequency, ..before@ })
    &&& after.spec_routine() == before.spec_routine()
}

impl<R> Task<R> {
    /// The routine of the task.
    pub closed spec fn spec_routine(&self) -> R {
        self.routine
    }

    /// A task that is still valid owes at least one more run.
    pub open spec fn wf(&self) -> bool {
        self@.valid ==> self@.frequency.remaining() != Some(0u64)
    }

    /// The id of the task.
    pub fn task_id(&self) -> (r: u64)
        ensures
            r == self@.task_id,
    {
        self.task_id
    }

    /// Two tasks with the same content and routine are the same task.
    pub proof fn lemma_task_ext(a: Task<R>, b: Task<R>)
        requires
            a@ == b@,
            a.spec_routine() == b.spec_routine(),
        ensures
            a == b,
    {
    }

    /// The routine of the task.
    pub fn routine(&self) -> (r: &R)
        ensures
            *r == self.spec_routine(),
    {
        &self.routine
    }

    /// The same task with its routine converted by `convert`.
    pub fn map_routine<S, G: FnOnce(R) -> S>(self, convert: G) -> (r: Task<S>)
        requires
            convert.requires((self.spec_routine(),)),
        ensures
            r@ == self@,
            convert.ensures((self.spec_routine(),), r.spec_routine()),
    {
        let routine = convert(self.routine);
        Task {
            task_id: self.task_id,
            routine,
            frequency: self.frequency,
            maximum_running_time: self.maximum_running_time,
            cylinder_line: self.cylinder_line,
            valid: self.valid,
            maximum_parallel_runnable_num: self.maximum_parallel_runnable_num,
        }
    }

    /// Whether the task is well formed: a valid task owes a run.
    pub fn is_well_formed(&self) -> (r: bool)
        ensures
            r == self.wf(),
    {
        !self.valid || self.frequency.residual_time() != 0
    }

    /// The maximum running time of an instance, if any.
    pub fn maximum_running_time(&self) -> (r: Option<u64>)
        ensures
            r == self@.maximum_running_time,
    {
        self.maximum_running_time
    }

    /// The limit of parallel running instances, if any.
    pub fn maximum_parallel_runnable_num(&self) -> (r: Option<u64>)
        ensures
            r == self@.maximum_parallel_runnable_num,
    {
        self.maximum_parallel_runnable_num
    }

    /// Count one run and set the validity accordingly; gives the new
    /// validity.
    pub fn down_count_and_set_vaild(&mut self) -> (r: bool)
        requires
            old(self)@.frequency.remaining() != Some(0u64),
        ensures
            final(self)@ == run_counted(old(self)@),
            final(self).spec_routine() == old(self).spec_routine(),
            r == final(self)@.valid,
    {
        self.down_count();
        self.set_valid_by_count_down();
        self.is_valid()
    }

    fn down_count(&mut self)
        requires
            old(self)@.frequency.remaining() != Some(0u64),
        ensures
            final(self)@ == (TaskView {
                frequency: old(self)@.frequency.down_counted(),
                ..old(self)@
            }),
            final(self).spec_routine() == old(self).spec_routine(),
    {
        self.frequency.down_count();
    }

    fn set_valid_by_count_down(&mut self)
        ensures
            final(self)@ == (TaskView {
                valid: old(self)@.frequency.remaining() != Some(0u64),
                ..old(self)@
            }),
            final(self).spec_routine() == old(self).spec_routine(),
    {
        self.valid = !self.frequency.is_down_over();
    }

    /// After task initialization or handled
    /// Redefine `cylinder_line`.
    pub fn set_cylinder_line(&mut self, cylinder_line: u64)
        ensures
            final(self)@ == (TaskView { cylinder_line, ..old(self)@ }),
            final(self).spec_routine() == old(self).spec_routine(),
    {
        self.cylinder_line = cylinder_line;
    }

    /// Get the maximum running time of the task: its deadline when started
    /// at `start_time`.
    pub fn get_maximum_running_time(&self, start_time: u64) -> (r: Option<u64>)
        requires
            self@.maximum_running_time matches Some(t) ==> t + start_time <= u64::MAX,
        ensures
            r == match self@.maximum_running_time {
                Some(t) => Some((t + start_time) as u64),
                None => None::<u64>,
            },
    {
        match self.maximum_running_time {
            Some(t) => Some(t + start_time),
            None => None,
        }
    }

    fn sub_cylinder_line(&mut self)
        requires
            old(self)@.cylinder_line > 0,
        ensures
            final(self)@ == (TaskView {
                cylinder_line: (old(self)@.cylinder_line - 1) as u64,
                ..old(self)@
            }),
            final(self).spec_routine() == old(self).spec_routine(),
    {
        self.cylinder_line = self.cylinder_line - 1;
    }

    /// The task is due at once.
    pub fn clear_cylinder_line(&mut self)
        ensures
            final(self)@ == (TaskView { cylinder_line: 0, ..old(self)@ }),
            final(self).spec_routine() == old(self).spec_routine(),
    {
        self.cylinder_line = 0;
    }

    /// check if task has arrived: at the end of its turns it has arrived if
    /// it is valid; otherwise one turn is counted off.
    pub fn check_arrived(&mut self) -> (r: bool)
        ensures
            old(self)@.cylinder_line == 0 ==> *final(self) == *old(self) && r == old(self)@.valid,
            old(self)@.cylinder_line > 0 ==> !r && final(self)@ == (TaskView {
                cylinder_line: (old(self)@.cylinder_line - 1) as u64,
                ..old(self)@
            }),
            final(self).spec_routine() == old(self).spec_routine(),
    {
        if self.cylinder_line == 0 {
            return self.is_can_running();
        }
        self.sub_cylinder_line();
        false
    }

    /// check if task has already.
    pub fn is_already(&self) -> (r: bool)
        ensures
            r == (self@.cylinder_line == 0),
    {
        self.cylinder_line == 0
    }

    /// check if task has runnable status.
    pub fn is_can_running(&self) -> (r: bool)
        ensures
            r == (self@.valid && self@.cylinder_line == 0),
    {
        if self.is_valid() {
            return self.is_already();
        }
        false
    }

    /// check if task has valid status.
    pub fn is_valid(&self) -> (r: bool)
        ensures
            r == self@.valid,
    {
        self.valid
    }

    /// Take the next instant at which the task is due.
    pub fn get_next_exec_timestamp(&mut self) -> (r: Option<u64>)
        ensures
            next_exec_taken(*old(self), *final(self), r),
    {
        match self.frequency.next_alarm_timestamp() {
            Some(i) => Some(i as u64),
            None => None,
        }
    }
}


/// A task after one more run is counted: its frequency counts the run,
/// and it stays valid while it owes more runs.
pub open spec fn run_counted(t: TaskView) -> TaskView {
    TaskView {
        frequency: t.frequency.down_counted(),
        valid: t.frequency.down_counted().remaining() != Some(0u64),
        ..t
    }
}

/// A task after `k` more runs are counted.
pub open spec fn runs_counted(t: TaskView, k: nat) -> TaskView
    decreases k,
{
    if k == 0 {
        t
    } else {
        run_counted(runs_counted(t, (k - 1) as nat))
    }
}

/// Counting runs counts down the frequency, one run at a time.
proof fn lemma_runs_counted_frequency(t: TaskView, k: nat)
    ensures
        runs_counted(t, k).frequency == down_counted_times(t.frequency, k),
    decreases k,
{
    if k > 0 {
        lemma_runs_counted_frequency(t, (k - 1) as nat);
    }
}

/// A task that owes `n` runs stays valid for its first `n - 1` runs and is
/// no longer valid once the `n`-th is counted; a task of unlimited runs
/// stays valid after each of them.
pub proof fn lemma_task_valid_while_runs_are_owed(t: TaskView, k: nat)
    requires
        1 <= k,
    ensures
        t.frequency.remaining() matches Some(n) ==> (k <= n ==> {
            &&& runs_counted(t, k).frequency.remaining() == Some((n - k) as u64)
            &&& runs_counted(t, k).valid == (k < n)
        }),
        t.frequency.remaining() is None ==> runs_counted(t, k).valid,
{
    lemma_runs_counted_frequency(t, k);
    lemma_runs_counted_frequency(t, (k - 1) as nat);
    lemma_count_down_runs(t.frequency, k);
    assert(down_counted_times(t.frequency, k) == down_counted_times(t.frequency, (k - 1) as nat).down_counted());
}

/// The schedule by seconds that a frequency follows, if it follows one.
pub open spec fn seconds_state_of(frequency: FrequencyInner) -> Option<SecondsState> {
    match frequency {
        FrequencyInner::SecondsRepeated(st) => Some(st),
        FrequencyInner::SecondsCountDown(_, st) => Some(st),
        _ => None,
    }
}

/// A task on a schedule by a period of `step` seconds started at `now`
/// gives, at its `i`-th asking (counted from zero), the instant
/// `now + (i + 1) * step`, as long as that instant fits in an `i64`.
pub proof fn lemma_seconds_task_instants<R>(
    tasks: Seq<Task<R>>,
    instants: Seq<Option<u64>>,
    now: u64,
    step: u64,
)
    requires
        tasks.len() == instants.len() + 1,
        forall|i: int|
            0 <= i < instants.len() ==> #[trigger] next_exec_taken(tasks[i], tasks[i + 1], instants[i]),
        seconds_state_of(tasks[0]@.frequency) == Some(SecondsState::starting(now, step)),
    ensures
        forall|i: int|
            0 <= i < instants.len() && now + (i + 1) * step <= i64::MAX ==> #[trigger] instants[i]
                == Some((now + (i + 1) * step) as u64),
{
    assert forall|i: int| 0 <= i < instants.len() && now + (i + 1) * step <= i64::MAX implies #[trigger] instants[i]
        == Some((now + (i + 1) * step) as u64) by {
        lemma_seconds_task_states(tasks, instants, now, step, i as nat);
        lemma_seconds_instants(now, step, i as nat);
        assert(next_exec_taken(tasks[i], tasks[i + 1], instants[i]));
        let st = advanced_times(SecondsState::starting(now, step), i as nat);
        let alarm = choose|alarm: Option<i64>|
            #[trigger] tasks[i]@.frequency.next_alarm_spec(tasks[i + 1]@.frequency, alarm) && instants[i] == (
            match alarm {
                Some(a) => Some(a as u64),
                None => None::<u64>,
            });
        let t = st.upcoming->0;
        assert(alarm == Some(t as i64));
        assert(((t as i64) as u64) == t);
    }
}

/// The schedule by seconds of the `i`-th task of such a sequence is the
/// starting one advanced `i` times.
proof fn lemma_seconds_task_states<R>(
    tasks: Seq<Task<R>>,
    instants: Seq<Option<u64>>,
    now: u64,
    step: u64,
    i: nat,
)
    requires
        tasks.len() == instants.len() + 1,
        forall|j: int|
            0 <= j < instants.len() ==> #[trigger] next_exec_taken(tasks[j], tasks[j + 1], instants[j]),
        seconds_state_of(tasks[0]@.frequency) == Some(SecondsState::starting(now, step)),
        i <= instants.len(),
    ensures
        seconds_state_of(tasks[i as int]@.frequency) == Some(
            advanced_times(SecondsState::starting(now, step), i),
        ),
    decreases i,
{
    if i > 0 {
        let j = (i - 1) as int;
        lemma_seconds_task_states(tasks, instants, now, step, (i - 1) as nat);
        assert(next_exec_taken(tasks[j], tasks[j + 1], instants[j]));
    }
}

/// TaskMark is used to maintain the status of running tasks.
#[derive(Debug)]
pub struct TaskMark {
    /// The id of task.
    pub task_id: u64,
    /// The wheel slot where the task is located.
    pub slot_mark: u64,
    /// Number of tasks running in parallel.
    pub parallel_runnable_num: u64,
    /// Chain of task run instances.
    /// For inner maintain to Running-Task's instance.
    pub task_instances_chain_maintainer: Option<TaskInstancesChainMaintainer>,
}

/// Why a running instance could not be reported to its chain.
#[derive(Debug)]
pub enum TaskMarkError {
    /// No task-instances-chain-maintainer found.
    NoChainMaintainer(i64, usize),
    /// No instance with that record id is kept.
    NoInstance(i64),
}

/// What reporting the end of the running instance `record_id` (in `state`)
/// does to a task mark: the mark keeps its id, slot and count; a chain the
/// user dropped is let go (then the error says there is none); otherwise the
/// first kept instance of the record leaves the chain and is given back, or
/// the error says none is kept.
pub open spec fn cancel_notified(
    old: TaskMark,
    new: TaskMark,
    record_id: i64,
    state: usize,
    r: Result<Instance, TaskMarkError>,
) -> bool {
    &&& new.task_id == old.task_id
    &&& new.slot_mark == old.slot_mark
    &&& new.parallel_runnable_num == old.parallel_runnable_num
    &&& match new.task_instances_chain_maintainer {
        None => r matches Err(TaskMarkError::NoChainMaintainer(rid, st)) && rid == record_id && st
            == state,
        Some(c) => old.task_instances_chain_maintainer matches Some(c0) && match r {
            Ok(instance) => instance.spec_record_id() == record_id && exists|i: int|
                0 <= i < c0.instances().len() && c0.instances()[i] == instance && c.instances()
                    == c0.instances().remove(i) && forall|j: int|
                    0 <= j < i ==> #[trigger] c0.instances()[j].spec_record_id() != record_id,
            Err(e) => e matches TaskMarkError::NoInstance(rid) && rid == record_id
                && c.instances() == c0.instances() && forall|j: int|
                0 <= j < c0.instances().len() ==> #[trigger] c0.instances()[j].spec_record_id()
                    != record_id,
        },
    }
}

impl Default for TaskMark {
    fn default() -> (r: TaskMark)
        ensures
            r.task_id == 0,
            r.slot_mark == 0,
            r.parallel_runnable_num == 0,
            r.task_instances_chain_maintainer is None,
    {
        TaskMark {
            task_id: 0,
            slot_mark: 0,
            parallel_runnable_num: 0,
            task_instances_chain_maintainer: None,
        }
    }
}

impl TaskMark {
    /// Set the task id.
    pub fn set_task_id(&mut self, task_id: u64) -> (r: &mut Self)
        ensures
            *final(self) == *final(r),
            *r == (TaskMark { task_id, ..*old(self) }),
    {
        self.task_id = task_id;
        self
    }

    /// The wheel slot where the task is located.
    pub fn get_slot_mark(&self) -> (r: u64)
        ensures
            r == self.slot_mark,
    {
        self.slot_mark
    }

    /// Set the wheel slot where the task is located.
    pub fn set_slot_mark(&mut self, slot_mark: u64) -> (r: &mut Self)
        ensures
            *final(self) == *final(r),
            *r == (TaskMark { slot_mark, ..*old(self) }),
    {
        self.slot_mark = slot_mark;
        self
    }

    /// Number of instances running in parallel.
    pub fn get_parallel_runnable_num(&self) -> (r: u64)
        ensures
            r == self.parallel_runnable_num,
    {
        self.parallel_runnable_num
    }

    /// Set the number of instances running in parallel.
    pub fn set_parallel_runnable_num(&mut self, parallel_runnable_num: u64) -> (r: &mut Self)
        ensures
            *final(self) == *final(r),
            *r == (TaskMark { parallel_runnable_num, ..*old(self) }),
    {
        self.parallel_runnable_num = parallel_runnable_num;
        self
    }

    /// One more instance runs (the count stays at `u64::MAX` once there).
    pub fn inc_parallel_runnable_num(&mut self)
        ensures
            *final(self) == (TaskMark {
                parallel_runnable_num: if old(self).parallel_runnable_num < u64::MAX {
                    (old(self).parallel_runnable_num + 1) as u64
                } else {
                    u64::MAX
                },
                ..*old(self)
            }),
    {
        let parallel_runnable_num = self.parallel_runnable_num.saturating_add(1);
        self.set_parallel_runnable_num(parallel_runnable_num);
    }

    /// One instance less runs (the count stays at zero once there).
    pub fn dec_parallel_runnable_num(&mut self)
        ensures
            *final(self) == (TaskMark {
                parallel_runnable_num: if old(self).parallel_runnable_num > 0 {
                    (old(self).parallel_runnable_num - 1) as u64
                } else {
                    0
                },
                ..*old(self)
            }),
    {
        let parallel_runnable_num = match self.parallel_runnable_num.checked_sub(1) {
            Some(n) => n,
            None => 0,
        };
        self.set_parallel_runnable_num(parallel_runnable_num);
    }

    /// Keep a chain maintainer for the task.
    pub fn set_task_instances_chain_maintainer(
        &mut self,
        task_instances_chain_maintainer: TaskInstancesChainMaintainer,
    ) -> (r: &mut Self)
        ensures
            *final(self) == *final(r),
            *r == (TaskMark {
                task_instances_chain_maintainer: Some(task_instances_chain_maintainer),
                ..*old(self)
            }),
    {
        self.task_instances_chain_maintainer = Some(task_instances_chain_maintainer);
        self
    }

    /// Let the chain maintainer go once its chain has been dropped by the
    /// user; the maintainer then marks the chain as abandoned.
    pub fn refresh_task_instances_chain_maintainer(&mut self)
        ensures
            final(self).task_id == old(self).task_id,
            final(self).slot_mark == old(self).slot_mark,
            final(self).parallel_runnable_num == old(self).parallel_runnable_num,
            final(self).task_instances_chain_maintainer == old(self).task_instances_chain_maintainer || final(self).task_instances_chain_maintainer is None,
    {
        let dropped = match &self.task_instances_chain_maintainer {
            Some(c) => c.get_state() == state::instance_chain::DROPPED,
            None => false,
        };
        if dropped {
            if let Some(c) = self.task_instances_chain_maintainer.take() {
                c.abandon();
            }
        }
    }

    /// Let the mark go: a chain maintainer it holds marks its chain as
    /// abandoned.
    pub fn abandon_chain(self) {
        if let Some(c) = self.task_instances_chain_maintainer {
            c.abandon();
        }
    }

    /// Take the kept instance of a running record out of the chain and
    /// report its final state to those who wait on it.
    pub fn notify_cancel_finish(&mut self, record_id: i64, state: usize) -> (r: Result<
        Instance,
        TaskMarkError,
    >)
        ensures
            cancel_notified(*old(self), *final(self), record_id, state, r),
    {
        self.refresh_task_instances_chain_maintainer();
        match &mut self.task_instances_chain_maintainer {
            None => Err(TaskMarkError::NoChainMaintainer(record_id, state)),
            Some(task_instances_chain_maintainer) => {
                match task_instances_chain_maintainer.take_instance(record_id) {
                    Some(remove_instance) => {
                        remove_instance.notify_cancel_finish(state);
                        Ok(remove_instance)
                    },
                    None => Err(TaskMarkError::NoInstance(record_id)),
                }
            },
        }
    }
}

} // verus!
