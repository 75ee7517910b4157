//! The local activity log: per-day message counts and per-day token counts
//! by model, as the log file holds them.

use vstd::prelude::*;
use vstd::string::StringExecFns;
use crate::text::text_eq;

verus! {

/// The name of the log file, in the provider's directory below the user's
/// home directory.
pub const LOG_FILE: &'static str = "stats-cache.json";

pub const NO_HOME_MESSAGE: &'static str = "Could not find home directory";

pub const READ_FAILURE_PREFIX: &'static str = "Failed to read stats cache: ";

pub const PARSE_FAILURE_PREFIX: &'static str = "Failed to parse stats cache: ";

/// One day's activity counts.
#[derive(Debug, Clone)]
pub struct DailyActivity {
    /// The day, as `YYYY-MM-DD`.
    pub date: String,
    pub message_count: i64,
    pub session_count: i64,
    pub tool_call_count: i64,
}

/// What a `DailyActivity` holds.
pub struct DailyActivityView {
    pub date: Seq<char>,
    pub message_count: int,
    pub session_count: int,
    pub tool_call_count: int,
}

impl View for DailyActivity {
    type V = DailyActivityView;

    open spec fn view(&self) -> DailyActivityView {
        DailyActivityView {
            date: self.date@,
            message_count: self.message_count as int,
            session_count: self.session_count as int,
            tool_call_count: self.tool_call_count as int,
        }
    }
}

/// The tokens that one model used on one day.
#[derive(Debug, Clone)]
pub struct ModelTokens {
    pub model: String,
    pub tokens: i64,
}

/// What a `ModelTokens` holds.
pub struct ModelTokensView {
    pub model: Seq<char>,
    pub tokens: int,
}

impl View for ModelTokens {
    type V = ModelTokensView;

    open spec fn view(&self) -> ModelTokensView {
        ModelTokensView { model: self.model@, tokens: self.tokens as int }
    }
}

/// One day's token counts, one entry for each model that was used.
///
/// The entries stand for a mapping from model name to token count: in a
/// well-formed value no model occurs twice. Values built with `new` and
/// `record` are well formed.
#[derive(Debug, Clone)]
pub struct DailyTokens {
    /// The day, as `YYYY-MM-DD`.
    pub date: String,
    pub tokens_by_model: Vec<ModelTokens>,
}

/// What a `DailyTokens` holds.
pub struct DailyTokensView {
    pub date: Seq<char>,
    pub tokens_by_model: Seq<ModelTokensView>,
}

impl View for DailyTokens {
    type V = DailyTokensView;

    open spec fn view(&self) -> DailyTokensView {
        DailyTokensView {
            date: self.date@,
            tokens_by_model: self.tokens_by_model@.map_values(|m: ModelTokens| m@),
        }
    }
}

/// The nearest value to `x` that an `i64` can hold.
pub open spec fn clamp_i64(x: int) -> int {
    if x < i64::MIN {
        i64::MIN as int
    } else if x > i64::MAX {
        i64::MAX as int
    } else {
        x
    }
}

/// The sum of the token counts of all entries.
pub open spec fn model_sum(entries: Seq<ModelTokensView>) -> int
    decreases entries.len(),
{
    if entries.len() == 0 {
        0
    } else {
        model_sum(entries.drop_last()) + entries.last().tokens
    }
}

/// A day's token total: the sum over all its models, kept within `i64`.
pub open spec fn day_total(day: DailyTokensView) -> int {
    clamp_i64(model_sum(day.tokens_by_model))
}

/// The count recorded for `model`, if any: that of its first entry.
pub open spec fn tokens_of(entries: Seq<ModelTokensView>, model: Seq<char>) -> Option<int>
    decreases entries.len(),
{
    if entries.len() == 0 {
        None
    } else if entries[0].model == model {
        Some(entries[0].tokens)
    } else {
        tokens_of(entries.drop_first(), model)
    }
}

/// No model occurs twice.
pub open spec fn distinct_models(entries: Seq<ModelTokensView>) -> bool {
    forall|i: int, j: int|
        0 <= i < j < entries.len() ==> (#[trigger] entries[i]).model != (#[trigger] entries[j]).model
}

/// Replacing one entry changes the sum by the difference of the two counts.
proof fn lemma_sum_after_replace(entries: Seq<ModelTokensView>, at: int, entry: ModelTokensView)
    requires
        0 <= at < entries.len(),
    ensures
        model_sum(entries.update(at, entry)) == model_sum(entries) - entries[at].tokens
            + entry.tokens,
    decreases entries.len(),
{
    if at == entries.len() - 1 {
        assert(entries.update(at, entry).drop_last() =~= entries.drop_last());
    } else {
        assert(entries.update(at, entry).drop_last() =~= entries.drop_last().update(at, entry));
        lemma_sum_after_replace(entries.drop_last(), at, entry);
    }
}

/// Replacing the first entry of a model changes the count of that model and
/// of no other, and brings no model in twice.
proof fn lemma_replace_entry(
    entries: Seq<ModelTokensView>,
    at: int,
    entry: ModelTokensView,
    other: Seq<char>,
)
    requires
        0 <= at < entries.len(),
        entries[at].model == entry.model,
        forall|j: int| 0 <= j < at ==> (#[trigger] entries[j]).model != entry.model,
    ensures
        tokens_of(entries, entry.model) == Some(entries[at].tokens),
        tokens_of(entries.update(at, entry), entry.model) == Some(entry.tokens),
        other != entry.model ==> tokens_of(entries.update(at, entry), other) == tokens_of(
            entries,
            other,
        ),
        distinct_models(entries) ==> distinct_models(entries.update(at, entry)),
    decreases at,
{
    if at == 0 {
        assert(entries.update(0, entry).drop_first() =~= entries.drop_first());
    } else {
        let rest = entries.drop_first();
        assert(entries.update(at, entry).drop_first() =~= rest.update(at - 1, entry));
        assert forall|j: int| 0 <= j < at - 1 implies (#[trigger] rest[j]).model
            != entry.model by {
            assert(rest[j] == entries[j + 1]);
        }
        lemma_replace_entry(rest, at - 1, entry, other);
    }
    if distinct_models(entries) {
        let updated = entries.update(at, entry);
        assert forall|i: int, j: int| 0 <= i < j < updated.len() implies (#[trigger] updated[i]).model
            != (#[trigger] updated[j]).model by {
            assert(updated[i].model == entries[i].model);
            assert(updated[j].model == entries[j].model);
        }
    }
}

/// Adding an entry for a model that has none gives that model its count,
/// changes the count of no other, and brings no model in twice.
proof fn lemma_add_entry(entries: Seq<ModelTokensView>, entry: ModelTokensView, other: Seq<char>)
    requires
        forall|j: int| 0 <= j < entries.len() ==> (#[trigger] entries[j]).model != entry.model,
    ensures
        tokens_of(entries, entry.model) is None,
        tokens_of(entries.push(entry), entry.model) == Some(entry.tokens),
        other != entry.model ==> tokens_of(entries.push(entry), other) == tokens_of(
            entries,
            other,
        ),
        distinct_models(entries) ==> distinct_models(entries.push(entry)),
    decreases entries.len(),
{
    if entries.len() == 0 {
        assert(entries.push(entry).drop_first() =~= entries);
    } else {
        let rest = entries.drop_first();
        assert(entries.push(entry).drop_first() =~= rest.push(entry));
        assert forall|j: int| 0 <= j < rest.len() implies (#[trigger] rest[j]).model
            != entry.model by {
            assert(rest[j] == entries[j + 1]);
        }
        lemma_add_entry(rest, entry, other);
    }
    if distinct_models(entries) {
        let added = entries.push(entry);
        assert forall|i: int, j: int| 0 <= i < j < added.len() implies (#[trigger] added[i]).model
            != (#[trigger] added[j]).model by {
            if j < entries.len() {
                assert(added[i] == entries[i] && added[j] == entries[j]);
            } else {
                assert(added[i] == entries[i]);
            }
        }
    }
}

/// Narrows a sum to `i64`, staying at the nearest bound where it does not fit.
pub fn saturate(x: i128) -> (r: i64)
    ensures
        r as int == clamp_i64(x as int),
{
    if x < i64::MIN as i128 {
        i64::MIN
    } else if x > i64::MAX as i128 {
        i64::MAX
    } else {
        x as i64
    }
}

impl DailyTokens {
    /// The invariant of the mapping: no model occurs twice.
    pub open spec fn well_formed(&self) -> bool {
        distinct_models(self@.tokens_by_model)
    }

    /// A day on which no model was used yet.
    pub fn new(date: String) -> (day: DailyTokens)
        ensures
            day.date == date,
            day.tokens_by_model@.len() == 0,
            day.well_formed(),
    {
        DailyTokens { date, tokens_by_model: Vec::new() }
    }

    /// Records the count of a model, in place of the count that the model
    /// had, if it had one. The counts of all other models stay.
    pub fn record(&mut self, model: String, tokens: i64)
        ensures
            final(self).date == old(self).date,
            tokens_of(final(self)@.tokens_by_model, model@) == Some(tokens as int),
            forall|other: Seq<char>|
                other != model@ ==> #[trigger] tokens_of(final(self)@.tokens_by_model, other)
                    == tokens_of(old(self)@.tokens_by_model, other),
            model_sum(final(self)@.tokens_by_model) == model_sum(old(self)@.tokens_by_model)
                - (match tokens_of(old(self)@.tokens_by_model, model@) {
                Some(count) => count,
                None => 0,
            }) + tokens,
            old(self).well_formed() ==> final(self).well_formed(),
    {
        let ghost before = self@.tokens_by_model;
        let ghost entry = ModelTokensView { model: model@, tokens: tokens as int };
        let mut i: usize = 0;
        while i < self.tokens_by_model.len()
            invariant
                *self == *old(self),
                before == self@.tokens_by_model,
                entry == (ModelTokensView { model: model@, tokens: tokens as int }),
                i <= self.tokens_by_model.len(),
                forall|j: int| 0 <= j < i ==> (#[trigger] before[j]).model != model@,
            decreases self.tokens_by_model.len() - i,
        {
            if self.tokens_by_model[i].model == model {
                proof {
                    assert(before[i as int] == self.tokens_by_model@[i as int]@);
                }
                self.tokens_by_model.set(i, ModelTokens { model, tokens });
                proof {
                    assert(self@.tokens_by_model =~= before.update(i as int, entry));
                    assert forall|other: Seq<char>| other != entry.model implies #[trigger] tokens_of(
                        self@.tokens_by_model,
                        other,
                    ) == tokens_of(before, other) by {
                        lemma_replace_entry(before, i as int, entry, other);
                    }
                    lemma_replace_entry(before, i as int, entry, entry.model);
                    lemma_sum_after_replace(before, i as int, entry);
                }
                return ;
            }
            i = i + 1;
        }
        self.tokens_by_model.push(ModelTokens { model, tokens });
        proof {
            assert(self@.tokens_by_model =~= before.push(entry));
            assert forall|other: Seq<char>| other != entry.model implies #[trigger] tokens_of(
                self@.tokens_by_model,
                other,
            ) == tokens_of(before, other) by {
                lemma_add_entry(before, entry, other);
            }
            lemma_add_entry(before, entry, entry.model);
            assert(before.push(entry).drop_last() =~= before);
        }
    }

    /// The count recorded for a model: that of its first entry, or `None`
    /// where the model has no entry.
    pub fn tokens_for(&self, model: &str) -> (count: Option<i64>)
        ensures
            match count {
                Some(tokens) => tokens_of(self@.tokens_by_model, model@) == Some(tokens as int),
                None => tokens_of(self@.tokens_by_model, model@) is None,
            },
    {
        let ghost entries = self@.tokens_by_model;
        proof {
            assert(entries.skip(0) =~= entries);
        }
        let mut i: usize = 0;
        while i < self.tokens_by_model.len()
            invariant
                entries == self@.tokens_by_model,
                i <= self.tokens_by_model.len(),
                tokens_of(entries, model@) == tokens_of(entries.skip(i as int), model@),
            decreases self.tokens_by_model.len() - i,
        {
            proof {
                assert(entries.skip(i as int).drop_first() =~= entries.skip(i + 1));
            }
            if text_eq(self.tokens_by_model[i].model.as_str(), model) {
                return Some(self.tokens_by_model[i].tokens);
            }
            i = i + 1;
        }
        None
    }

    /// The day's token total over all models, kept within `i64`.
    pub fn total(&self) -> (r: i64)
        ensures
            r as int == day_total(self@),
    {
        let ghost entries = self@.tokens_by_model;
        let mut acc: i128 = 0;
        let mut i: usize = 0;
        while i < self.tokens_by_model.len()
            invariant
                entries == self@.tokens_by_model,
                i <= self.tokens_by_model.len(),
                acc as int == model_sum(entries.take(i as int)),
                -(i as int) * 0x8000_0000_0000_0000 <= acc <= (i as int) * 0x7fff_ffff_ffff_ffff,
            decreases self.tokens_by_model.len() - i,
        {
            proof {
                assert(entries.take(i + 1).drop_last() =~= entries.take(i as int));
                assert(entries.take(i + 1).last() == self.tokens_by_model@[i as int]@);
            }
            acc = acc + self.tokens_by_model[i].tokens as i128;
            i = i + 1;
        }
        proof {
            assert(entries.take(i as int) =~= entries);
        }
        saturate(acc)
    }
}

/// The activity log. Each list is absent where the log does not hold it.
#[derive(Debug, Clone)]
pub struct StatsCache {
    pub daily_activity: Option<Vec<DailyActivity>>,
    pub daily_model_tokens: Option<Vec<DailyTokens>>,
    /// When the log was last computed; no total depends on it.
    pub last_computed_date: Option<String>,
}

/// What a `StatsCache` holds.
pub struct StatsCacheView {
    pub daily_activity: Option<Seq<DailyActivityView>>,
    pub daily_model_tokens: Option<Seq<DailyTokensView>>,
    pub last_computed_date: Option<Seq<char>>,
}

impl View for StatsCache {
    type V = StatsCacheView;

    open spec fn view(&self) -> StatsCacheView {
        StatsCacheView {
            daily_activity: match self.daily_activity {
                Some(days) => Some(days@.map_values(|d: DailyActivity| d@)),
                None => None,
            },
            daily_model_tokens: match self.daily_model_tokens {
                Some(days) => Some(days@.map_values(|d: DailyTokens| d@)),
                None => None,
            },
            last_computed_date: match self.last_computed_date {
                Some(date) => Some(date@),
                None => None,
            },
        }
    }
}

/// The log with nothing in it: what stands for a log file that is missing
/// or cannot be used.
pub open spec fn empty_log() -> StatsCacheView {
    StatsCacheView { daily_activity: None, daily_model_tokens: None, last_computed_date: None }
}

impl StatsCache {
    /// The log with nothing in it.
    pub fn empty() -> (log: StatsCache)
        ensures
            log@ == empty_log(),
    {
        StatsCache { daily_activity: None, daily_model_tokens: None, last_computed_date: None }
    }
}

/// What an attempt to read the log file came to.
#[derive(Debug, Clone)]
pub enum LogRead {
    /// The user has no home directory to look in.
    NoHomeDirectory,
    /// There is no log file.
    Missing,
    /// The file is there but could not be read; `cause` says why.
    Unreadable { cause: String },
    /// The file was read but does not hold a log; `cause` says why.
    Unparsable { cause: String },
    /// The log that the file holds.
    Parsed(StatsCache),
}

/// The log that a read stands for: the log that was read, and the empty
/// log for every other outcome.
pub open spec fn log_of(read: LogRead) -> StatsCacheView {
    match read {
        LogRead::Parsed(log) => log@,
        _ => empty_log(),
    }
}

/// The log that a read gives. It never fails: a missing file is no failure,
/// and a file that cannot be read or does not hold a log never stops a
/// request. Each of them stands for the empty log.
pub fn read_stats_cache(read: LogRead) -> (log: StatsCache)
    ensures
        log@ == log_of(read),
        read matches LogRead::Parsed(parsed) ==> log == parsed,
{
    match read {
        LogRead::Parsed(parsed) => parsed,
        _ => StatsCache::empty(),
    }
}

/// What went wrong with a read, by what it holds: nothing for a log that
/// was read and for a missing file, else the message of the failure.
pub open spec fn failure_of(read: LogRead) -> Option<Seq<char>> {
    match read {
        LogRead::NoHomeDirectory => Some(NO_HOME_MESSAGE@),
        LogRead::Unreadable { cause } => Some(READ_FAILURE_PREFIX@ + cause@),
        LogRead::Unparsable { cause } => Some(PARSE_FAILURE_PREFIX@ + cause@),
        LogRead::Missing => None,
        LogRead::Parsed(_) => None,
    }
}

/// What went wrong with a read, for the caller's own record: no response
/// shows it.
pub fn read_failure_message(read: &LogRead) -> (message: Option<String>)
    ensures
        match message {
            Some(text) => failure_of(*read) == Some(text@),
            None => failure_of(*read) is None,
        },
{
    match read {
        LogRead::NoHomeDirectory => Some(String::from_str(NO_HOME_MESSAGE)),
        LogRead::Unreadable { cause } => {
            let mut message = String::from_str(READ_FAILURE_PREFIX);
            message.append(cause.as_str());
            Some(message)
        },
        LogRead::Unparsable { cause } => {
            let mut message = String::from_str(PARSE_FAILURE_PREFIX);
            message.append(cause.as_str());
            Some(message)
        },
        LogRead::Missing => None,
        LogRead::Parsed(_) => None,
    }
}

} // verus!
