//! Totals of the activity log for one day and for the window of days that
//! ends with it.

use vstd::prelude::*;
use crate::activity::clamp_i64;
use crate::activity::day_total;
use crate::activity::model_sum;
use crate::activity::ModelTokensView;
use crate::activity::saturate;
use crate::activity::DailyActivity;
use crate::activity::DailyActivityView;
use crate::activity::DailyTokens;
use crate::activity::DailyTokensView;
use crate::activity::StatsCache;
use crate::activity::StatsCacheView;
use crate::calendar::date_text_before;
use crate::calendar::local_today;
use crate::calendar::text_days_before;
use crate::calendar::CalendarDate;
use crate::text::lemma_lex_le_antisymmetric;
use crate::text::lemma_lex_le_reflexive;
use crate::text::lex_le;
use crate::text::text_le;

verus! {

/// Token and message totals for one day and for the trailing week.
#[derive(Debug, Clone, Copy, PartialEq, Eq)]
pub struct TokenStats {
    pub today_tokens: i64,
    pub week_tokens: i64,
    pub today_messages: i64,
    pub week_messages: i64,
}

/// An amount recorded under a date.
pub struct Dated {
    pub date: Seq<char>,
    pub amount: int,
}

/// A day's token total under its date.
pub open spec fn token_entry(day: DailyTokensView) -> Dated {
    Dated { date: day.date, amount: day_total(day) }
}

/// A day's message count under its date.
pub open spec fn message_entry(day: DailyActivityView) -> Dated {
    Dated { date: day.date, amount: day.message_count }
}

/// The log's token totals, day by day, in the log's order; none where the
/// log holds no token list.
pub open spec fn token_entries(log: StatsCacheView) -> Seq<Dated> {
    match log.daily_model_tokens {
        Some(days) => days.map_values(|d: DailyTokensView| token_entry(d)),
        None => Seq::empty(),
    }
}

/// The log's message counts, day by day, in the log's order; none where the
/// log holds no activity list.
pub open spec fn message_entries(log: StatsCacheView) -> Seq<Dated> {
    match log.daily_activity {
        Some(days) => days.map_values(|d: DailyActivityView| message_entry(d)),
        None => Seq::empty(),
    }
}

/// Whether `date` lies in the window from `start` to `today`, both included,
/// in the order of texts.
pub open spec fn in_window(date: Seq<char>, start: Seq<char>, today: Seq<char>) -> bool {
    lex_le(start, date) && lex_le(date, today)
}

/// The amount of the last entry dated `today`; 0 where there is none.
pub open spec fn latest_on(entries: Seq<Dated>, today: Seq<char>) -> int
    decreases entries.len(),
{
    if entries.len() == 0 {
        0
    } else if entries.last().date == today {
        entries.last().amount
    } else {
        latest_on(entries.drop_last(), today)
    }
}

/// The sum of the amounts of all entries dated within the window.
pub open spec fn window_sum(entries: Seq<Dated>, start: Seq<char>, today: Seq<char>) -> int
    decreases entries.len(),
{
    if entries.len() == 0 {
        0
    } else {
        window_sum(entries.drop_last(), start, today) + if in_window(
            entries.last().date,
            start,
            today,
        ) {
            entries.last().amount
        } else {
            0
        }
    }
}

/// The totals of a log for the day `today` and the window that runs from
/// `start` to `today`.
///
/// The day's figures are those of the last entry dated `today`. The window's
/// figures are sums over every entry dated within the window, an entry for
/// each time a date occurs, kept within `i64`.
pub open spec fn stats_between(log: StatsCacheView, start: Seq<char>, today: Seq<char>) -> TokenStats {
    TokenStats {
        today_tokens: latest_on(token_entries(log), today) as i64,
        week_tokens: clamp_i64(window_sum(token_entries(log), start, today)) as i64,
        today_messages: latest_on(message_entries(log), today) as i64,
        week_messages: clamp_i64(window_sum(message_entries(log), start, today)) as i64,
    }
}

/// The day's figure and the window's sum of the token list.
fn token_totals(days: &Vec<DailyTokens>, start: &str, today: &String) -> (r: (i64, i64))
    ensures
        r.0 as int == latest_on(days@.map_values(|d: DailyTokens| token_entry(d@)), today@),
        r.1 as int == clamp_i64(
            window_sum(days@.map_values(|d: DailyTokens| token_entry(d@)), start@, today@),
        ),
{
    let ghost entries = days@.map_values(|d: DailyTokens| token_entry(d@));
    let mut latest: i64 = 0;
    let mut sum: i128 = 0;
    let mut i: usize = 0;
    while i < days.len()
        invariant
            entries == days@.map_values(|d: DailyTokens| token_entry(d@)),
            i <= days.len(),
            latest as int == latest_on(entries.take(i as int), today@),
            sum as int == window_sum(entries.take(i as int), start@, today@),
            -(i as int) * 0x8000_0000_0000_0000 <= sum <= (i as int) * 0x7fff_ffff_ffff_ffff,
        decreases days.len() - i,
    {
        proof {
            assert(entries.take(i + 1).drop_last() =~= entries.take(i as int));
            assert(entries.take(i + 1).last() == token_entry(days@[i as int]@));
        }
        let day = &days[i];
        let total: i64 = day.total();
        if day.date == *today {
            latest = total;
        }
        if text_le(start, day.date.as_str()) && text_le(day.date.as_str(), today.as_str()) {
            sum = sum + total as i128;
        }
        i = i + 1;
    }
    proof {
        assert(entries.take(i as int) =~= entries);
    }
    (latest, saturate(sum))
}

/// The day's figure and the window's sum of the activity list.
fn message_totals(days: &Vec<DailyActivity>, start: &str, today: &String) -> (r: (i64, i64))
    ensures
        r.0 as int == latest_on(days@.map_values(|d: DailyActivity| message_entry(d@)), today@),
        r.1 as int == clamp_i64(
            window_sum(days@.map_values(|d: DailyActivity| message_entry(d@)), start@, today@),
        ),
{
    let ghost entries = days@.map_values(|d: DailyActivity| message_entry(d@));
    let mut latest: i64 = 0;
    let mut sum: i128 = 0;
    let mut i: usize = 0;
    while i < days.len()
        invariant
            entries == days@.map_values(|d: DailyActivity| message_entry(d@)),
            i <= days.len(),
            latest as int == latest_on(entries.take(i as int), today@),
            sum as int == window_sum(entries.take(i as int), start@, today@),
            -(i as int) * 0x8000_0000_0000_0000 <= sum <= (i as int) * 0x7fff_ffff_ffff_ffff,
        decreases days.len() - i,
    {
        proof {
            assert(entries.take(i + 1).drop_last() =~= entries.take(i as int));
            assert(entries.take(i + 1).last() == message_entry(days@[i as int]@));
        }
        let day = &days[i];
        if day.date == *today {
            latest = day.message_count;
        }
        if text_le(start, day.date.as_str()) && text_le(day.date.as_str(), today.as_str()) {
            sum = sum + day.message_count as i128;
        }
        i = i + 1;
    }
    proof {
        assert(entries.take(i as int) =~= entries);
    }
    (latest, saturate(sum))
}

/// The totals of `log` for the day `today` and the window of dates from
/// `window_start` to `today`, both included. Dates are matched as texts; a
/// list that the log does not hold counts as empty.
pub fn window_stats(log: &StatsCache, window_start: &str, today: &str) -> (stats: TokenStats)
    ensures
        stats == stats_between(log@, window_start@, today@),
{
    let day: String = today.to_owned();
    let (today_tokens, week_tokens) = match &log.daily_model_tokens {
        Some(days) => {
            proof {
                assert(days@.map_values(|d: DailyTokens| token_entry(d@)) =~= token_entries(log@));
            }
            token_totals(days, window_start, &day)
        },
        None => (0, 0),
    };
    let (today_messages, week_messages) = match &log.daily_activity {
        Some(days) => {
            proof {
                assert(days@.map_values(|d: DailyActivity| message_entry(d@)) =~= message_entries(
                    log@,
                ));
            }
            message_totals(days, window_start, &day)
        },
        None => (0, 0),
    };
    TokenStats { today_tokens, week_tokens, today_messages, week_messages }
}

/// The totals in which every figure is 0.
pub open spec fn zero_stats() -> TokenStats {
    TokenStats { today_tokens: 0, week_tokens: 0, today_messages: 0, week_messages: 0 }
}

/// A log with no entries has all-zero totals, whatever the day and the
/// window.
pub proof fn lemma_empty_log_zero_stats(log: StatsCacheView, start: Seq<char>, today: Seq<char>)
    requires
        token_entries(log).len() == 0,
        message_entries(log).len() == 0,
    ensures
        stats_between(log, start, today) == zero_stats(),
{
}

/// Where several entries are dated today, the last of them gives the day's
/// figure, while the window's sum counts every one of them: a further entry
/// dated today replaces the day's figure and adds to the window's sum.
pub proof fn lemma_today_last_wins_window_sums(
    entries: Seq<Dated>,
    extra: Dated,
    start: Seq<char>,
    today: Seq<char>,
)
    requires
        extra.date == today,
        lex_le(start, today),
    ensures
        latest_on(entries.push(extra), today) == extra.amount,
        window_sum(entries.push(extra), start, today) == window_sum(entries, start, today)
            + extra.amount,
{
    lemma_lex_le_reflexive(today);
    assert(entries.push(extra).drop_last() =~= entries);
}

/// An entry of another day leaves the day's figure as it was, and adds to
/// the window's sum exactly where its date is within the window.
pub proof fn lemma_other_day_entry(
    entries: Seq<Dated>,
    extra: Dated,
    start: Seq<char>,
    today: Seq<char>,
)
    requires
        extra.date != today,
    ensures
        latest_on(entries.push(extra), today) == latest_on(entries, today),
        window_sum(entries.push(extra), start, today) == window_sum(entries, start, today) + if
            in_window(extra.date, start, today) {
            extra.amount
        } else {
            0
        },
{
    assert(entries.push(extra).drop_last() =~= entries);
}

/// The window includes its first and its last day, and no date before the
/// first or after the last.
pub proof fn lemma_window_bounds(date: Seq<char>, start: Seq<char>, today: Seq<char>)
    ensures
        lex_le(start, today) ==> in_window(start, start, today) && in_window(today, start, today),
        lex_le(date, start) && date != start ==> !in_window(date, start, today),
        lex_le(today, date) && date != today ==> !in_window(date, start, today),
{
    lemma_lex_le_reflexive(start);
    lemma_lex_le_reflexive(today);
    if lex_le(date, start) && lex_le(start, date) {
        lemma_lex_le_antisymmetric(date, start);
    }
    if lex_le(today, date) && lex_le(date, today) {
        lemma_lex_le_antisymmetric(date, today);
    }
}

/// Amounts that all lie between 0 and `bound` give a day's figure between 0
/// and `bound`, and a window's sum that is at least 0.
proof fn lemma_nonnegative_entries(
    entries: Seq<Dated>,
    start: Seq<char>,
    today: Seq<char>,
    bound: int,
)
    requires
        0 <= bound,
        forall|i: int| 0 <= i < entries.len() ==> 0 <= (#[trigger] entries[i]).amount <= bound,
    ensures
        0 <= latest_on(entries, today) <= bound,
        window_sum(entries, start, today) >= 0,
    decreases entries.len(),
{
    if entries.len() > 0 {
        lemma_nonnegative_entries(entries.drop_last(), start, today, bound);
    }
}

/// Token counts that are all at least 0 have a sum that is at least 0.
proof fn lemma_nonnegative_models(entries: Seq<ModelTokensView>)
    requires
        forall|i: int| 0 <= i < entries.len() ==> (#[trigger] entries[i]).tokens >= 0,
    ensures
        model_sum(entries) >= 0,
    decreases entries.len(),
{
    if entries.len() > 0 {
        lemma_nonnegative_models(entries.drop_last());
    }
}

/// Whether no count of a log is below 0: no message count and no token
/// count of any model.
pub open spec fn counts_nonnegative(log: StatsCacheView) -> bool {
    &&& log.daily_activity matches Some(days) ==> forall|i: int|
        0 <= i < days.len() ==> (#[trigger] days[i]).message_count >= 0
    &&& log.daily_model_tokens matches Some(days) ==> forall|i: int, j: int|
        0 <= i < days.len() && 0 <= j < days[i].tokens_by_model.len() ==> (
        #[trigger] days[i].tokens_by_model[j]).tokens >= 0
}

/// A log in which no count is below 0 has totals of which none is below 0,
/// whatever the day and the window.
pub proof fn lemma_nonnegative_log(log: StatsCache, start: Seq<char>, today: Seq<char>)
    requires
        counts_nonnegative(log@),
    ensures
        stats_between(log@, start, today).today_tokens >= 0,
        stats_between(log@, start, today).week_tokens >= 0,
        stats_between(log@, start, today).today_messages >= 0,
        stats_between(log@, start, today).week_messages >= 0,
{
    let tokens = token_entries(log@);
    assert forall|i: int| 0 <= i < tokens.len() implies 0 <= (#[trigger] tokens[i]).amount
        <= i64::MAX by {
        let days = log@.daily_model_tokens->Some_0;
        assert forall|j: int| 0 <= j < days[i].tokens_by_model.len() implies (
        #[trigger] days[i].tokens_by_model[j]).tokens >= 0 by {}
        lemma_nonnegative_models(days[i].tokens_by_model);
    }
    lemma_nonnegative_entries(tokens, start, today, i64::MAX as int);
    let messages = message_entries(log@);
    assert forall|i: int| 0 <= i < messages.len() implies 0 <= (#[trigger] messages[i]).amount
        <= i64::MAX by {
        let days = log@.daily_activity->Some_0;
        assert(days[i].message_count >= 0);
    }
    lemma_nonnegative_entries(messages, start, today, i64::MAX as int);
}

/// How many days before the current one the trailing week begins: the week
/// is the current day and the six before it.
pub const TRAILING_DAYS: u64 = 6;

/// The text under which the log holds entries for the day `now`; `None`
/// where `now` is no day of the calendar.
pub open spec fn today_text(now: CalendarDate) -> Option<Seq<char>> {
    date_text_before(now.year as int, now.month as int, now.day as int, 0)
}

/// The text of the first day of the trailing week that ends with `now`.
/// Where the calendar does not reach that far back it is the empty text,
/// which is before every date: the week then has no first day.
pub open spec fn week_start_text(now: CalendarDate) -> Seq<char> {
    match date_text_before(
        now.year as int,
        now.month as int,
        now.day as int,
        TRAILING_DAYS as int,
    ) {
        Some(text) => text,
        None => Seq::empty(),
    }
}

/// The totals of a log on the day `now`: the day's own figures and those of
/// the trailing week; `None` where `now` is no day of the calendar.
pub open spec fn stats_on(log: StatsCacheView, now: CalendarDate) -> Option<TokenStats> {
    match today_text(now) {
        Some(today) => Some(stats_between(log, week_start_text(now), today)),
        None => None,
    }
}

/// On every day of the calendar a log with no entries has all-zero totals.
pub proof fn lemma_empty_log_zero_on_any_day(log: StatsCacheView, now: CalendarDate)
    requires
        token_entries(log).len() == 0,
        message_entries(log).len() == 0,
        today_text(now) is Some,
    ensures
        stats_on(log, now) == Some(zero_stats()),
{
}

/// The totals of `log` on the day `now`: today's figures and those of the
/// seven days that end with today. Returns `None` where `now` is no day of
/// the calendar.
pub fn aggregate(log: &StatsCache, now: CalendarDate) -> (stats: Option<TokenStats>)
    ensures
        stats == stats_on(log@, now),
{
    match text_days_before(now, 0) {
        Some(today) => {
            let start: String = match text_days_before(now, TRAILING_DAYS) {
                Some(text) => text,
                None => String::new(),
            };
            Some(window_stats(log, start.as_str(), today.as_str()))
        },
        None => None,
    }
}

/// The totals of `cache` on the current day of the local time zone.
///
/// The day is read from the clock, so the contract says only that the
/// totals are those of some day of the calendar; `aggregate` says which
/// totals belong to which day.
pub fn calculate_token_stats(cache: &StatsCache) -> (stats: TokenStats)
    ensures
        exists|now: CalendarDate| stats_on(cache@, now) == Some(stats),
{
    let now = local_today();
    let stats = aggregate(cache, now);
    stats.unwrap()
}

} // verus!
