//! The index label decoder.
//!
//! An index label is an underscore-delimited string
//! `prefix_serviceType_coverageToken_dateToken_timeToken[_...]`.
//! The second token is the service type; the third carries the privacy
//! tier (a `priv.` marker) and the coverage region; the fourth and fifth
//! are a `YYYYMMDD` date and a `HHMMSS` time, each defaulting
//! independently when malformed. Tokens beyond the fifth are ignored.
//! A label with fewer than five tokens is malformed: decoding it fails,
//! and an enumeration skips such an entry rather than dropping the rest.

use crate::status::{
    ElasticsearchIndexInfo, ElasticsearchIndexInfoDetails, IndexInfoView, PrivateStatus,
};
use crate::text::{
    all_digits, digits_val, lemma_digits_val_bound, parse_digits, parse_i32, parse_i32_spec,
    pow10, split_char, split_spec, has_prefix,
};
use crate::time::Timestamp;
use vstd::prelude::*;
use vstd::string::*;

verus! {

/// Is `y` a leap year in the proleptic Gregorian calendar?
pub open spec fn leap_year(y: int) -> bool {
    y % 4 == 0 && (y % 100 != 0 || y % 400 == 0)
}

/// Number of days in month `m` of year `y`.
pub open spec fn days_in_month_spec(y: int, m: int) -> int {
    if m == 2 {
        if leap_year(y) {
            29
        } else {
            28
        }
    } else if m == 4 || m == 6 || m == 9 || m == 11 {
        30
    } else {
        31
    }
}

/// Number of days in month `m` of year `y`.
pub fn days_in_month(y: u32, m: u32) -> (r: u32)
    ensures
        r == days_in_month_spec(y as int, m as int),
{
    if m == 2 {
        if y % 4 == 0 && (y % 100 != 0 || y % 400 == 0) {
            29
        } else {
            28
        }
    } else if m == 4 || m == 6 || m == 9 || m == 11 {
        30
    } else {
        31
    }
}

/// The date a token denotes: exactly eight digits `YYYYMMDD` naming a
/// valid calendar day, or nothing.
pub open spec fn parse_date_spec(s: Seq<char>) -> Option<(u32, u32, u32)> {
    if s.len() == 8 && all_digits(s) {
        let y = digits_val(s.subrange(0, 4));
        let m = digits_val(s.subrange(4, 6));
        let d = digits_val(s.subrange(6, 8));
        if 1 <= m <= 12 && 1 <= d <= days_in_month_spec(y as int, m as int) {
            Some((y as u32, m as u32, d as u32))
        } else {
            None
        }
    } else {
        None
    }
}

/// The time a token denotes: exactly six digits `HHMMSS` naming a valid
/// clock time, or nothing.
pub open spec fn parse_time_spec(s: Seq<char>) -> Option<(u32, u32, u32)> {
    if s.len() == 6 && all_digits(s) {
        let h = digits_val(s.subrange(0, 2));
        let m = digits_val(s.subrange(2, 4));
        let sec = digits_val(s.subrange(4, 6));
        if h <= 23 && m <= 59 && sec <= 59 {
            Some((h as u32, m as u32, sec as u32))
        } else {
            None
        }
    } else {
        None
    }
}

/// Digits of a full string stay digits on a part of it.
proof fn lemma_all_digits_subrange(s: Seq<char>, a: int, b: int)
    requires
        all_digits(s),
        0 <= a <= b <= s.len(),
    ensures
        all_digits(s.subrange(a, b)),
{
    assert forall|i: int| 0 <= i < b - a implies crate::text::is_digit(
        #[trigger] s.subrange(a, b)[i],
    ) by {
        assert(s.subrange(a, b)[i] == s[i + a]);
    }
}

/// Parses a `YYYYMMDD` date token.
pub fn parse_date(s: &str) -> (r: Option<(u32, u32, u32)>)
    ensures
        r == parse_date_spec(s@),
{
    let len = s.unicode_len();
    if len != 8 {
        return None;
    }
    let y = match parse_digits(s.substring_char(0, 4)) {
        Some(v) => v,
        None => {
            proof {
                if all_digits(s@) {
                    lemma_all_digits_subrange(s@, 0, 4);
                }
            }
            return None;
        },
    };
    let m = match parse_digits(s.substring_char(4, 6)) {
        Some(v) => v,
        None => {
            proof {
                if all_digits(s@) {
                    lemma_all_digits_subrange(s@, 4, 6);
                }
            }
            return None;
        },
    };
    let d = match parse_digits(s.substring_char(6, 8)) {
        Some(v) => v,
        None => {
            proof {
                if all_digits(s@) {
                    lemma_all_digits_subrange(s@, 6, 8);
                }
            }
            return None;
        },
    };
    proof {
        if !all_digits(s@) {
            let bad = choose|i: int| 0 <= i < s@.len() && !crate::text::is_digit(s@[i]);
            if bad < 4 {
                assert(s@.subrange(0, 4)[bad] == s@[bad]);
            } else if bad < 6 {
                assert(s@.subrange(4, 6)[bad - 4] == s@[bad]);
            } else {
                assert(s@.subrange(6, 8)[bad - 6] == s@[bad]);
            }
        }
    }
    if 1 <= m && m <= 12 && 1 <= d && d <= days_in_month(y, m) {
        Some((y, m, d))
    } else {
        None
    }
}

/// Parses a `HHMMSS` time token.
pub fn parse_time(s: &str) -> (r: Option<(u32, u32, u32)>)
    ensures
        r == parse_time_spec(s@),
{
    let len = s.unicode_len();
    if len != 6 {
        return None;
    }
    let h = match parse_digits(s.substring_char(0, 2)) {
        Some(v) => v,
        None => {
            proof {
                if all_digits(s@) {
                    lemma_all_digits_subrange(s@, 0, 2);
                }
            }
            return None;
        },
    };
    let m = match parse_digits(s.substring_char(2, 4)) {
        Some(v) => v,
        None => {
            proof {
                if all_digits(s@) {
                    lemma_all_digits_subrange(s@, 2, 4);
                }
            }
            return None;
        },
    };
    let sec = match parse_digits(s.substring_char(4, 6)) {
        Some(v) => v,
        None => {
            proof {
                if all_digits(s@) {
                    lemma_all_digits_subrange(s@, 4, 6);
                }
            }
            return None;
        },
    };
    proof {
        if !all_digits(s@) {
            let bad = choose|i: int| 0 <= i < s@.len() && !crate::text::is_digit(s@[i]);
            if bad < 2 {
                assert(s@.subrange(0, 2)[bad] == s@[bad]);
            } else if bad < 4 {
                assert(s@.subrange(2, 4)[bad - 2] == s@[bad]);
            } else {
                assert(s@.subrange(4, 6)[bad - 4] == s@[bad]);
            }
        }
    }
    if h <= 23 && m <= 59 && sec <= 59 {
        Some((h, m, sec))
    } else {
        None
    }
}

/// The creation moment decoded from the date and time tokens. Each
/// component defaults independently: a malformed date token becomes
/// 1970-01-01 while the time is kept, and a malformed time token
/// becomes 00:01:01 while the date is kept.
pub open spec fn created_at_spec(date_tok: Seq<char>, time_tok: Seq<char>) -> Timestamp {
    let date = match parse_date_spec(date_tok) {
        Some(d) => d,
        None => (1970u32, 1u32, 1u32),
    };
    let time = match parse_time_spec(time_tok) {
        Some(t) => t,
        None => (0u32, 1u32, 1u32),
    };
    Timestamp {
        year: date.0 as i32,
        month: date.1,
        day: date.2,
        hour: time.0,
        minute: time.1,
        second: time.2,
    }
}

/// Decodes the creation moment from the date and time tokens.
pub fn decode_created_at(date_tok: &str, time_tok: &str) -> (r: Timestamp)
    ensures
        r == created_at_spec(date_tok@, time_tok@),
{
    let mut year: u32 = 1970;
    let mut month: u32 = 1;
    let mut day: u32 = 1;
    match parse_date(date_tok) {
        Some(d) => {
            year = d.0;
            month = d.1;
            day = d.2;
        },
        None => {},
    }
    let mut hour: u32 = 0;
    let mut minute: u32 = 1;
    let mut second: u32 = 1;
    match parse_time(time_tok) {
        Some(t) => {
            hour = t.0;
            minute = t.1;
            second = t.2;
        },
        None => {},
    }
    proof {
        if parse_date_spec(date_tok@) is Some {
            lemma_digits_val_bound(date_tok@.subrange(0, 4));
            reveal_with_fuel(pow10, 5);
        }
    }
    Timestamp { year: year as i32, month, day, hour, minute, second }
}

/// The document count a reported value denotes: the parsed number, or
/// zero when the value is not a well-formed 32-bit count.
pub open spec fn count_val_spec(s: Seq<char>) -> int {
    match parse_i32_spec(s) {
        Some(v) => v as int,
        None => 0,
    }
}

/// The metadata one listing entry decodes to: nothing when the label has
/// fewer than five tokens, otherwise the fields drawn from the tokens,
/// the document count, and the moment of observation.
pub open spec fn decode_spec(label: Seq<char>, count: Seq<char>, now: Timestamp) -> Option<
    IndexInfoView,
> {
    let toks = split_spec(label, '_');
    if toks.len() < 5 {
        None
    } else {
        let cov = toks[2];
        let is_priv = cov.len() >= 5 && cov.subrange(0, 5) == "priv."@;
        Some(
            IndexInfoView {
                label: label,
                place_type: toks[1],
                coverage: if is_priv {
                    cov.subrange(5, cov.len() as int)
                } else {
                    cov
                },
                private: if is_priv {
                    PrivateStatus::Private
                } else {
                    PrivateStatus::Public
                },
                created_at: created_at_spec(toks[3], toks[4]),
                count: count_val_spec(count),
                updated_at: now,
            },
        )
    }
}

/// Decodes one listing entry: the label's tokens, the privacy tier and
/// coverage region, the creation moment, and the document count.
/// Returns `None` exactly when the label is malformed.
pub fn decode_index(details: &ElasticsearchIndexInfoDetails, now: Timestamp) -> (r: Option<
    ElasticsearchIndexInfo,
>)
    ensures
        (r is Some) == (decode_spec(details.index@, details.count@, now) is Some),
        r matches Some(v) ==> Some(v@) == decode_spec(details.index@, details.count@, now),
{
    let toks = split_char(details.index.as_str(), '_');
    if toks.len() < 5 {
        return None;
    }
    proof {
        reveal_strlit("priv.");
    }
    let cov_tok = &toks[2];
    let is_priv = has_prefix(cov_tok.as_str(), "priv.");
    let private = if is_priv {
        PrivateStatus::Private
    } else {
        PrivateStatus::Public
    };
    let coverage = if is_priv {
        let cl = cov_tok.as_str().unicode_len();
        cov_tok.as_str().substring_char(5, cl).to_owned()
    } else {
        cov_tok.clone()
    };
    let created_at = decode_created_at(toks[3].as_str(), toks[4].as_str());
    let count = match parse_i32(details.count.as_str()) {
        Some(v) => v,
        None => 0,
    };
    let r = ElasticsearchIndexInfo {
        label: details.index.clone(),
        place_type: toks[1].clone(),
        coverage,
        private,
        created_at,
        count,
        updated_at: now,
    };
    Some(r)
}

/// A reported document count that does not parse as a 32-bit number
/// decodes to zero on every entry whose label is well formed — a bad
/// count never fails the decode.
pub proof fn lemma_non_numeric_count_is_zero(label: Seq<char>, count: Seq<char>, now: Timestamp)
    requires
        parse_i32_spec(count) is None,
        decode_spec(label, count, now) is Some,
    ensures
        decode_spec(label, count, now)->0.count == 0,
{
}

/// The decoded metadata of a whole listing, in the order reported, with
/// malformed entries skipped.
pub open spec fn decode_all_spec(
    entries: Seq<ElasticsearchIndexInfoDetails>,
    now: Timestamp,
) -> Seq<IndexInfoView>
    decreases entries.len(),
{
    if entries.len() == 0 {
        Seq::<IndexInfoView>::empty()
    } else {
        decode_all_spec(entries.drop_last(), now) + match decode_spec(
            entries.last().index@,
            entries.last().count@,
            now,
        ) {
            Some(v) => seq![v],
            None => Seq::<IndexInfoView>::empty(),
        }
    }
}

/// Decodes every entry of a listing, in order, skipping each entry whose
/// label is malformed so that one bad label never drops the rest.
pub fn decode_indices(entries: &Vec<ElasticsearchIndexInfoDetails>, now: Timestamp) -> (r: Vec<
    ElasticsearchIndexInfo,
>)
    ensures
        r@.map_values(|x: ElasticsearchIndexInfo| x@) == decode_all_spec(entries@, now),
{
    let mut out: Vec<ElasticsearchIndexInfo> = Vec::new();
    proof {
        assert(out@.map_values(|x: ElasticsearchIndexInfo| x@) =~= decode_all_spec(
            entries@.subrange(0, 0),
            now,
        ));
    }
    let mut i: usize = 0;
    while i < entries.len()
        invariant
            0 <= i <= entries@.len(),
            out@.map_values(|x: ElasticsearchIndexInfo| x@) == decode_all_spec(
                entries@.subrange(0, i as int),
                now,
            ),
        decreases entries@.len() - i,
    {
        let ghost pre = entries@.subrange(0, i as int);
        let ghost post = entries@.subrange(0, i as int + 1);
        proof {
            assert(post.drop_last() =~= pre);
            assert(post.last() == entries@[i as int]);
        }
        match decode_index(&entries[i], now) {
            Some(v) => {
                let ghost old_out = out@;
                out.push(v);
                proof {
                    assert(out@.map_values(|x: ElasticsearchIndexInfo| x@) =~= old_out.map_values(
                        |x: ElasticsearchIndexInfo| x@,
                    ) + seq![v@]);
                }
            },
            None => {},
        }
        i += 1;
    }
    proof {
        assert(entries@.subrange(0, entries@.len() as int) =~= entries@);
    }
    out
}

} // verus!
