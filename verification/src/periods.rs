//! Forecast periods and the pairing of day and night entries into aligned
//! render rows: even-positioned periods contribute a label, an emoji and a
//! high temperature; odd-positioned periods contribute a low temperature.

use vstd::prelude::*;
use crate::icons::classify;
use crate::icons::emoji_spec;
use crate::text::str_eq_str;

verus! {

/// One time slice of a forecast: a sequence number, a human-readable name,
/// a temperature, an icon-hint URL (unused downstream) and a short textual
/// description of the conditions.
pub struct ForecastPeriod {
    pub number: u8,
    pub name: String,
    pub temperature: u8,
    pub icon: String,
    pub short_forecast: String,
}

/// The two-character day label derived from a period name: the literal
/// name "Today" becomes two blanks, a long enough name is truncated to its
/// first two characters, and a shorter name is padded with blanks rather
/// than read out of bounds.
pub open spec fn label_spec(name: Seq<char>) -> Seq<char> {
    if name == "Today"@ {
        "  "@
    } else if name.len() >= 2 {
        name.subrange(0, 2)
    } else if name.len() == 1 {
        name.push(' ')
    } else {
        "  "@
    }
}

/// Derives the two-character day label of a period name.
pub fn label_of(name: &str) -> (r: String)
    ensures
        r@ == label_spec(name@),
{
    if str_eq_str(name, "Today") {
        String::from_str("  ")
    } else {
        let n = name.unicode_len();
        if n >= 2 {
            String::from_str(name.substring_char(0, 2))
        } else if n == 1 {
            let s = String::from_str(name);
            let r = s.concat(" ");
            proof {
                reveal_strlit(" ");
                assert(r@ =~= name@.push(' '));
            }
            r
        } else {
            String::from_str("  ")
        }
    }
}

/// The four aligned render rows; index `i` in every row refers to the same
/// day. The lows row is one shorter when the period count is odd.
pub struct Rows {
    pub labels: Vec<String>,
    pub emojis: Vec<String>,
    pub highs: Vec<u8>,
    pub lows: Vec<u8>,
}

/// Splits a period sequence by parity of position into aligned rows: entry
/// `i` of the labels, emojis and highs rows comes from period `2i`, and
/// entry `i` of the lows row from period `2i + 1`. An odd-length sequence
/// yields one more high than lows and raises no error.
pub fn build_rows(periods: &Vec<ForecastPeriod>) -> (r: Rows)
    ensures
        r.highs@.len() == (periods@.len() + 1) / 2,
        r.labels@.len() == r.highs@.len(),
        r.emojis@.len() == r.highs@.len(),
        r.lows@.len() == periods@.len() / 2,
        periods@.len() % 2 == 0 ==> r.lows@.len() == r.highs@.len(),
        periods@.len() % 2 == 1 ==> r.highs@.len() == r.lows@.len() + 1,
        forall|i: int|
            0 <= i < r.highs@.len() ==> r.highs@[i] == periods@[2 * i].temperature,
        forall|i: int|
            0 <= i < r.labels@.len() ==> r.labels@[i]@ == label_spec(periods@[2 * i].name@),
        forall|i: int|
            0 <= i < r.emojis@.len() ==> r.emojis@[i]@ == emoji_spec(
                periods@[2 * i].short_forecast@,
            ),
        forall|i: int|
            0 <= i < r.lows@.len() ==> r.lows@[i] == periods@[2 * i + 1].temperature,
{
    let mut labels: Vec<String> = Vec::new();
    let mut emojis: Vec<String> = Vec::new();
    let mut highs: Vec<u8> = Vec::new();
    let mut lows: Vec<u8> = Vec::new();
    let mut i: usize = 0;
    while i < periods.len()
        invariant
            i <= periods@.len(),
            highs@.len() == (i + 1) / 2,
            labels@.len() == highs@.len(),
            emojis@.len() == highs@.len(),
            lows@.len() == i / 2,
            forall|j: int| 0 <= j < highs@.len() ==> highs@[j] == periods@[2 * j].temperature,
            forall|j: int|
                0 <= j < labels@.len() ==> labels@[j]@ == label_spec(periods@[2 * j].name@),
            forall|j: int|
                0 <= j < emojis@.len() ==> emojis@[j]@ == emoji_spec(
                    periods@[2 * j].short_forecast@,
                ),
            forall|j: int| 0 <= j < lows@.len() ==> lows@[j] == periods@[2 * j + 1].temperature,
        decreases periods@.len() - i,
    {
        let p = &periods[i];
        if i % 2 == 0 {
            highs.push(p.temperature);
            labels.push(label_of(p.name.as_str()));
            emojis.push(classify(p.short_forecast.as_str()));
        } else {
            lows.push(p.temperature);
        }
        i += 1;
    }
    Rows { labels, emojis, highs, lows }
}

} // verus!
