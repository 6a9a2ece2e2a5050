//! Edit distance between texts, the similarity score derived from it, and
//! calendar dates.

use crate::text::{chars_of, push_text};
use chrono::Datelike;
use std::fmt::Write;
use vstd::prelude::*;

verus! {

/// The least of three numbers.
pub open spec fn min3(x: nat, y: nat, z: nat) -> nat {
    if x <= y && x <= z {
        x
    } else if y <= z {
        y
    } else {
        z
    }
}

/// The edit distance of two texts: the least number of insertions, deletions
/// and substitutions of single characters that turns `a` into `b`.
///
/// Turning `a` into the empty text deletes all of `a`. Otherwise the last
/// character of `a` is deleted, the last of `b` inserted, or the one turned
/// into the other, which is free when they agree. That this is the length
/// of the shortest script of edits is proved in `edits`.
pub open spec fn edit_distance(a: Seq<char>, b: Seq<char>) -> nat
    decreases a.len() + b.len(),
{
    if a.len() == 0 {
        b.len()
    } else if b.len() == 0 {
        a.len()
    } else {
        let deletion = edit_distance(a.drop_last(), b) + 1;
        let insertion = edit_distance(a, b.drop_last()) + 1;
        let substitution = edit_distance(a.drop_last(), b.drop_last()) + if a.last() == b.last() {
            0nat
        } else {
            1nat
        };
        min3(deletion, insertion, substitution)
    }
}

/// The length of the longer of two texts.
pub open spec fn longer_len(a: Seq<char>, b: Seq<char>) -> nat {
    if a.len() >= b.len() {
        a.len()
    } else {
        b.len()
    }
}

/// The edit distance never exceeds the length of the longer text.
pub proof fn lemma_distance_at_most_longer(a: Seq<char>, b: Seq<char>)
    ensures
        edit_distance(a, b) <= longer_len(a, b),
    decreases a.len() + b.len(),
{
    if a.len() > 0 && b.len() > 0 {
        lemma_distance_at_most_longer(a.drop_last(), b.drop_last());
    }
}

/// The edit distance is at least the difference of the two lengths.
pub proof fn law_distance_at_least_length_gap(a: Seq<char>, b: Seq<char>)
    ensures
        edit_distance(a, b) >= a.len() - b.len(),
        edit_distance(a, b) >= b.len() - a.len(),
    decreases a.len() + b.len(),
{
    if a.len() > 0 && b.len() > 0 {
        law_distance_at_least_length_gap(a.drop_last(), b);
        law_distance_at_least_length_gap(a, b.drop_last());
        law_distance_at_least_length_gap(a.drop_last(), b.drop_last());
    }
}

/// A text is at distance zero from itself.
pub proof fn lemma_distance_to_self(a: Seq<char>)
    ensures
        edit_distance(a, a) == 0,
    decreases a.len(),
{
    if a.len() > 0 {
        lemma_distance_to_self(a.drop_last());
    }
}

/// Only equal texts are at distance zero.
pub proof fn lemma_distance_zero_means_equal(a: Seq<char>, b: Seq<char>)
    requires
        edit_distance(a, b) == 0,
    ensures
        a == b,
    decreases a.len() + b.len(),
{
    if a.len() == 0 || b.len() == 0 {
        assert(a =~= b);
    } else {
        lemma_distance_zero_means_equal(a.drop_last(), b.drop_last());
        assert(a =~= a.drop_last().push(a.last()));
        assert(b =~= b.drop_last().push(b.last()));
    }
}

/// The edit distance is the same in both directions.
pub proof fn lemma_distance_symmetric(a: Seq<char>, b: Seq<char>)
    ensures
        edit_distance(a, b) == edit_distance(b, a),
    decreases a.len() + b.len(),
{
    if a.len() > 0 && b.len() > 0 {
        lemma_distance_symmetric(a.drop_last(), b);
        lemma_distance_symmetric(a, b.drop_last());
        lemma_distance_symmetric(a.drop_last(), b.drop_last());
    }
}

/// The distance between the first `i` characters of `a` and the first `j`
/// characters of `b`.
pub open spec fn prefix_distance(a: Seq<char>, b: Seq<char>, i: int, j: int) -> nat {
    edit_distance(a.take(i), b.take(j))
}

proof fn lemma_prefix_step(a: Seq<char>, b: Seq<char>, i: int, j: int)
    requires
        0 <= i < a.len(),
        0 <= j < b.len(),
    ensures
        prefix_distance(a, b, i + 1, j + 1) == min3(
            prefix_distance(a, b, i, j + 1) + 1,
            prefix_distance(a, b, i + 1, j) + 1,
            prefix_distance(a, b, i, j) + if a[i] == b[j] {
                0nat
            } else {
                1nat
            },
        ),
        prefix_distance(a, b, i, j) <= if i >= j {
            i
        } else {
            j
        },
        prefix_distance(a, b, i, j + 1) <= if i >= j + 1 {
            i
        } else {
            j + 1
        },
        prefix_distance(a, b, i + 1, j) <= if i + 1 >= j {
            i + 1
        } else {
            j
        },
{
    assert(a.take(i + 1).drop_last() =~= a.take(i));
    assert(b.take(j + 1).drop_last() =~= b.take(j));
    lemma_distance_at_most_longer(a.take(i), b.take(j));
    lemma_distance_at_most_longer(a.take(i), b.take(j + 1));
    lemma_distance_at_most_longer(a.take(i + 1), b.take(j));
}

/// Computes the edit distance of two texts, counted in characters.
pub fn levenshtein_dist(s1: &str, s2: &str) -> (dist: usize)
    ensures
        dist == edit_distance(s1@, s2@),
{
    let a = chars_of(s1);
    let b = chars_of(s2);
    let n = a.len();
    let m = b.len();
    // row[j] holds the distance from the first i characters of `a` to the
    // first j + 1 characters of `b`; the distance to the empty prefix is i.
    let mut row: Vec<usize> = Vec::new();
    let mut j: usize = 0;
    while j < m
        invariant
            j <= m,
            m == b.len(),
            row.len() == j,
            forall|k: int| 0 <= k < j ==> row@[k] == prefix_distance(a@, b@, 0, k + 1),
        decreases m - j,
    {
        row.push(j + 1);
        j += 1;
    }
    let mut i: usize = 0;
    while i < n
        invariant
            i <= n,
            n == a.len(),
            m == b.len(),
            row.len() == m,
            forall|k: int| 0 <= k < m ==> row@[k] == prefix_distance(a@, b@, i as int, k + 1),
        decreases n - i,
    {
        let mut diagonal: usize = i;
        let mut left: usize = i + 1;
        let mut j: usize = 0;
        while j < m
            invariant
                j <= m,
                i < n,
                n == a.len(),
                m == b.len(),
                row.len() == m,
                diagonal == prefix_distance(a@, b@, i as int, j as int),
                left == prefix_distance(a@, b@, i + 1, j as int),
                forall|k: int| 0 <= k < j ==> row@[k] == prefix_distance(a@, b@, i + 1, k + 1),
                forall|k: int| j <= k < m ==> row@[k] == prefix_distance(a@, b@, i as int, k + 1),
            decreases m - j,
        {
            proof {
                lemma_prefix_step(a@, b@, i as int, j as int);
            }
            let up = row[j];
            let mut best = if a[i] == b[j] {
                diagonal
            } else {
                diagonal + 1
            };
            if up < best {
                best = up + 1;
            }
            if left < best {
                best = left + 1;
            }
            row.set(j, best);
            diagonal = up;
            left = best;
            j += 1;
        }
        i += 1;
    }
    proof {
        assert(a@.take(n as int) =~= a@);
        assert(b@.take(m as int) =~= b@);
    }
    if m == 0 {
        n
    } else {
        row[m - 1]
    }
}

/// The numerator of the similarity score of two texts.
///
/// The score is `1 / (1 + distance / longer)`, that is
/// `longer / (longer + distance)`; two empty texts, which have no longer
/// length to divide by, count as a length of one.
pub open spec fn score_numer(a: Seq<char>, b: Seq<char>) -> nat {
    if longer_len(a, b) == 0 {
        1
    } else {
        longer_len(a, b)
    }
}

/// The denominator of the similarity score of two texts.
pub open spec fn score_denom(a: Seq<char>, b: Seq<char>) -> nat {
    score_numer(a, b) + edit_distance(a, b)
}

/// A text is as similar to itself as can be: the score is one.
pub proof fn law_similarity_of_equal_texts(a: Seq<char>)
    ensures
        score_numer(a, a) == score_denom(a, a),
{
    lemma_distance_to_self(a);
}

/// The score does not depend on the order of the two texts.
pub proof fn law_similarity_symmetric(a: Seq<char>, b: Seq<char>)
    ensures
        score_numer(a, b) == score_numer(b, a),
        score_denom(a, b) == score_denom(b, a),
{
    lemma_distance_symmetric(a, b);
}

/// The score is above zero and at most one; it is never below one half,
/// since the distance is at most the longer length.
pub proof fn law_similarity_range(a: Seq<char>, b: Seq<char>)
    ensures
        0 < score_numer(a, b) <= score_denom(a, b),
        score_denom(a, b) <= 2 * score_numer(a, b),
{
    lemma_distance_at_most_longer(a, b);
}

/// The score is one only for equal texts.
pub proof fn law_similarity_one_means_equal(a: Seq<char>, b: Seq<char>)
    requires
        score_numer(a, b) == score_denom(a, b),
    ensures
        a == b,
{
    lemma_distance_zero_means_equal(a, b);
}

/// How similar two texts are: the score `1 / (1 + distance / longer)`, held
/// exactly by the two numbers it is made of.
#[derive(Clone, Copy, Debug, PartialEq, Eq, Structural)]
pub struct Similarity {
    /// The edit distance of the two texts.
    pub distance: usize,
    /// The length of the longer text, in characters.
    pub longer: usize,
}

impl Similarity {
    /// The numerator of the score: the longer length, or one where it is zero.
    pub open spec fn numer(self) -> nat {
        if self.longer == 0 {
            1
        } else {
            self.longer as nat
        }
    }

    /// The denominator of the score.
    pub open spec fn denom(self) -> nat {
        self.numer() + self.distance as nat
    }

    /// Whether the score is at least `p / q`.
    pub open spec fn at_least(self, p: nat, q: nat) -> bool {
        self.numer() * q >= p * self.denom()
    }

    /// Whether the score is strictly above that of `other`.
    pub open spec fn exceeds(self, other: Similarity) -> bool {
        self.numer() * other.denom() > other.numer() * self.denom()
    }

    /// Whether the score reaches the threshold of nine tenths, at which a
    /// candidate counts as the same publication.
    pub open spec fn accepted(self) -> bool {
        self.at_least(9, 10)
    }

    /// The score of the given distance and longer length.
    pub fn new(distance: usize, longer: usize) -> (score: Similarity)
        ensures
            score.distance == distance,
            score.longer == longer,
    {
        Similarity { distance, longer }
    }

    /// The numerator of the score.
    pub fn numerator(&self) -> (n: u128)
        ensures
            n == self.numer(),
    {
        if self.longer == 0 {
            1
        } else {
            self.longer as u128
        }
    }

    /// The denominator of the score.
    pub fn denominator(&self) -> (n: u128)
        ensures
            n == self.denom(),
    {
        self.numerator() + self.distance as u128
    }

    /// Whether the score is at least nine tenths.
    pub fn is_accepted(&self) -> (yes: bool)
        ensures
            yes == self.accepted(),
    {
        let n = self.numerator();
        let d = self.distance as u128;
        n >= 9 * d
    }

    /// Whether the score is strictly above that of `other`.
    pub fn is_above(&self, other: &Similarity) -> (yes: bool)
        ensures
            yes == self.exceeds(*other),
    {
        let n1 = self.numerator();
        let d1 = self.distance as u128;
        let n2 = other.numerator();
        let d2 = other.distance as u128;
        proof {
            let top: int = 0xffff_ffff_ffff_ffff;
            assert(n1 * d2 <= top * top) by (nonlinear_arith)
                requires
                    0 <= n1 <= top,
                    0 <= d2 <= top,
            ;
            assert(n2 * d1 <= top * top) by (nonlinear_arith)
                requires
                    0 <= n2 <= top,
                    0 <= d1 <= top,
            ;
            assert(n1 * (n2 + d2) == n1 * n2 + n1 * d2) by (nonlinear_arith);
            assert(n2 * (n1 + d1) == n1 * n2 + n2 * d1) by (nonlinear_arith);
        }
        n1 * d2 > n2 * d1
    }
}

/// Computes the edit distance of two texts relative to the longer one, as
/// the fraction `(distance, longer length)`. For two empty texts this is
/// `(0, 0)`, which stands for zero.
pub fn levenshtein_dist_normalized(s1: &str, s2: &str) -> (ratio: (usize, usize))
    ensures
        ratio.0 == edit_distance(s1@, s2@),
        ratio.1 == longer_len(s1@, s2@),
        ratio.0 <= ratio.1,
{
    let len1 = s1.unicode_len();
    let len2 = s2.unicode_len();
    let dist = levenshtein_dist(s1, s2);
    proof {
        lemma_distance_at_most_longer(s1@, s2@);
    }
    let longer = if len1 >= len2 {
        len1
    } else {
        len2
    };
    (dist, longer)
}

/// Computes the similarity score of two texts.
pub fn levenshtein_similarity(s1: &str, s2: &str) -> (score: Similarity)
    ensures
        score.distance == edit_distance(s1@, s2@),
        score.longer == longer_len(s1@, s2@),
        score.numer() == score_numer(s1@, s2@),
        score.denom() == score_denom(s1@, s2@),
{
    let ratio = levenshtein_dist_normalized(s1, s2);
    Similarity { distance: ratio.0, longer: ratio.1 }
}

/// Returns an owned copy of the given text.
pub fn s(str: &str) -> (owned: String)
    ensures
        owned@ == str@,
{
    str.to_owned()
}

/// A calendar day in UTC.
#[derive(Clone, Copy, Debug, PartialEq, Eq, Structural)]
pub struct Date {
    pub year: i32,
    pub month: u32,
    pub day: u32,
}

/// The first day of 1970, which stands for an unknown date.
pub open spec fn epoch() -> Date {
    Date { year: 1970, month: 1, day: 1 }
}

impl Date {
    /// The year of the day.
    pub fn year(&self) -> (year: i32)
        ensures
            year == self.year,
    {
        self.year
    }

    /// The month of the day, counted from one.
    pub fn month(&self) -> (month: u32)
        ensures
            month == self.month,
    {
        self.month
    }

    /// The day of the month, counted from one.
    pub fn day(&self) -> (day: u32)
        ensures
            day == self.day,
    {
        self.day
    }
}

impl Default for Date {
    fn default() -> (date: Date)
        ensures
            date == epoch(),
    {
        Date { year: 1970, month: 1, day: 1 }
    }
}

/// The date that stands for an unknown one: 1970-01-01.
pub fn default_datetime() -> (date: Date)
    ensures
        date == epoch(),
{
    Date { year: 1970, month: 1, day: 1 }
}

/// The year, month and day in UTC of the moment that `text` denotes under
/// the format `format`, as `chrono::DateTime::parse_from_str` reads it, or
/// `None` where it rejects the text.
pub uninterp spec fn parsed_datetime(text: Seq<char>, format: Seq<char>) -> Option<(i32, u32, u32)>;

/// Calls `chrono::DateTime::parse_from_str` and hands back the UTC calendar
/// day of the moment it read, `None` where it returned an error. The contract
/// only gives the result the name [`parsed_datetime`].
#[verifier::external_body]
fn parse_datetime(text: &str, format: &str) -> (parsed: Option<(i32, u32, u32)>)
    ensures
        parsed == parsed_datetime(text@, format@),
{
    match chrono::DateTime::parse_from_str(text, format) {
        Ok(moment) => {
            let utc = moment.with_timezone(&chrono::Utc);
            Some((utc.year(), utc.month(), utc.day()))
        },
        Err(_) => None,
    }
}

/// The date that a parse result stands for: the day read, or the epoch
/// where nothing was read.
pub open spec fn date_of(parsed: Option<(i32, u32, u32)>) -> Date {
    match parsed {
        Some(ymd) => Date { year: ymd.0, month: ymd.1, day: ymd.2 },
        None => epoch(),
    }
}

/// Turns a parse result into a date, falling back to the epoch.
pub fn date_or_default(parsed: Option<(i32, u32, u32)>) -> (date: Date)
    ensures
        date == date_of(parsed),
{
    match parsed {
        Some(ymd) => Date { year: ymd.0, month: ymd.1, day: ymd.2 },
        None => default_datetime(),
    }
}

/// The text handed to the parser for a day written as `YYYY-MM-DD`:
/// midnight UTC of that day.
pub open spec fn midnight_of(date_str: Seq<char>) -> Seq<char> {
    date_str + " 00:00:00+0000"@
}

/// The format under which [`midnight_of`] is read.
pub open spec fn datetime_format() -> Seq<char> {
    "%Y-%m-%d %H:%M:%S%z"@
}

/// Reads a day written as `YYYY-MM-DD`. A text that cannot be read gives the
/// epoch, 1970-01-01.
pub fn datetime_from_str(date_str: &str) -> (date: Date)
    ensures
        date == date_of(parsed_datetime(midnight_of(date_str@), datetime_format())),
{
    let mut text = date_str.to_owned();
    push_text(&mut text, " 00:00:00+0000");
    let parsed = parse_datetime(text.as_str(), "%Y-%m-%d %H:%M:%S%z");
    date_or_default(parsed)
}

/// The day written under the pattern `pattern`, as `chrono::NaiveDate::format`
/// writes it, or `None` where the three numbers are no day of the calendar
/// or the pattern cannot be written.
pub uninterp spec fn formatted_date(year: i32, month: u32, day: u32, pattern: Seq<char>) -> Option<
    Seq<char>,
>;

/// Calls `chrono::NaiveDate::from_ymd_opt` and, on the day it made,
/// `chrono::NaiveDate::format`, and writes the result into a text. The
/// contract only gives the result the name [`formatted_date`].
#[verifier::external_body]
fn format_date(date: Date, pattern: &str) -> (text: Option<String>)
    ensures
        text is Some == formatted_date(date.year, date.month, date.day, pattern@) is Some,
        text is Some ==> text->0@ == formatted_date(date.year, date.month, date.day, pattern@)->0,
{
    let day = chrono::NaiveDate::from_ymd_opt(date.year, date.month, date.day)?;
    let mut text = String::new();
    match write!(text, "{}", day.format(pattern)) {
        Ok(()) => Some(text),
        Err(_) => None,
    }
}

/// The pattern of the first minute of a day, as the first metadata source
/// writes moments: year, month and day without separators, then `0000`.
pub open spec fn first_minute_pattern() -> Seq<char> {
    "%Y%m%d0000"@
}

/// The pattern of the last minute of a day: the day, then `2359`.
pub open spec fn last_minute_pattern() -> Seq<char> {
    "%Y%m%d2359"@
}

/// The first and the last minute of a day, written as the first metadata
/// source writes moments; `None` where the day cannot be written.
pub open spec fn day_window(date: Date) -> Option<(Seq<char>, Seq<char>)> {
    let first = formatted_date(date.year, date.month, date.day, first_minute_pattern());
    let last = formatted_date(date.year, date.month, date.day, last_minute_pattern());
    if first is Some && last is Some {
        Some((first->0, last->0))
    } else {
        None
    }
}

/// The bounds of a window of time, as texts.
pub open spec fn window_view(window: Option<(String, String)>) -> Option<(Seq<char>, Seq<char>)> {
    match window {
        Some(bounds) => Some((bounds.0@, bounds.1@)),
        None => None,
    }
}

/// Writes the first and the last minute of a day.
pub fn window_of(date: Date) -> (window: Option<(String, String)>)
    ensures
        window_view(window) == day_window(date),
{
    let first = format_date(date, "%Y%m%d0000");
    let last = format_date(date, "%Y%m%d2359");
    match (first, last) {
        (Some(from), Some(to)) => Some((from, to)),
        _ => None,
    }
}

} // verus!
