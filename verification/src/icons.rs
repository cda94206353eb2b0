//! Icon classification: each short forecast description is matched,
//! case-insensitively, against a fixed priority list of patterns, and the
//! last matching rule decides the emoji. A description matching no rule
//! gets the default sun emoji.

use vstd::prelude::*;

verus! {

/// ASCII lower-casing of one character; everything else is left alone.
pub open spec fn lower_char(c: char) -> char {
    if 65 <= c as int <= 90 {
        ((c as int) + 32) as char
    } else {
        c
    }
}

/// Whether the pattern occurs in the text at position `i`, comparing
/// characters ASCII-case-insensitively.
pub open spec fn matches_at(text: Seq<char>, pat: Seq<char>, i: int) -> bool {
    &&& 0 <= i
    &&& i + pat.len() <= text.len()
    &&& forall|j: int| 0 <= j < pat.len() ==> lower_char(text[i + j]) == lower_char(pat[j])
}

/// Whether the pattern occurs anywhere in the text, case-insensitively.
pub open spec fn ci_contains(text: Seq<char>, pat: Seq<char>) -> bool {
    exists|i: int| matches_at(text, pat, i)
}

/// The default clear-sky emoji.
pub open spec fn sun_emoji() -> Seq<char> {
    "\u{2600}\u{fe0f}"@
}

/// The rain emoji.
pub open spec fn rain_emoji() -> Seq<char> {
    "\u{1f327}"@
}

/// The thunderstorm emoji.
pub open spec fn thunder_emoji() -> Seq<char> {
    "\u{26c8}"@
}

/// The mostly-cloudy emoji.
pub open spec fn mostly_cloudy_emoji() -> Seq<char> {
    "\u{2601}\u{fe0f}"@
}

/// The partly-cloudy emoji.
pub open spec fn partly_cloudy_emoji() -> Seq<char> {
    "\u{26c5}\u{fe0f}"@
}

/// The mostly-sunny emoji.
pub open spec fn mostly_sunny_emoji() -> Seq<char> {
    "\u{1f324}"@
}

/// The rules in evaluation order, numbered 1 (earliest) to 5 (latest):
/// whether rule `k` matches a description. Later rules override earlier
/// ones.
pub open spec fn rule_matches(k: int, text: Seq<char>) -> bool {
    if k == 1 {
        ci_contains(text, "showers"@) || ci_contains(text, "rain"@)
    } else if k == 2 {
        ci_contains(text, "thunder"@)
    } else if k == 3 {
        ci_contains(text, "mostly cloudy"@)
    } else if k == 4 {
        ci_contains(text, "partly cloudy"@)
    } else {
        ci_contains(text, "mostly sunny"@)
    }
}

/// The emoji that each rule assigns; rule 0 is the default.
pub open spec fn rule_emoji(k: int) -> Seq<char> {
    if k == 1 {
        rain_emoji()
    } else if k == 2 {
        thunder_emoji()
    } else if k == 3 {
        mostly_cloudy_emoji()
    } else if k == 4 {
        partly_cloudy_emoji()
    } else if k == 5 {
        mostly_sunny_emoji()
    } else {
        sun_emoji()
    }
}

/// The emoji a description is classified to: the last matching rule wins,
/// and the sun emoji stands where no rule matches.
pub open spec fn emoji_spec(d: Seq<char>) -> Seq<char> {
    if rule_matches(5, d) {
        mostly_sunny_emoji()
    } else if rule_matches(4, d) {
        partly_cloudy_emoji()
    } else if rule_matches(3, d) {
        mostly_cloudy_emoji()
    } else if rule_matches(2, d) {
        thunder_emoji()
    } else if rule_matches(1, d) {
        rain_emoji()
    } else {
        sun_emoji()
    }
}

/// ASCII lower-casing of one character.
fn lower_char_exec(c: char) -> (r: char)
    ensures
        r == lower_char(c),
{
    let u = c as u32;
    if 65 <= u && u <= 90 {
        ((u + 32) as u8) as char
    } else {
        c
    }
}

/// Whether the pattern occurs in the text at position `i`, comparing
/// characters case-insensitively.
fn match_at(text: &str, pat: &str, i: usize) -> (r: bool)
    requires
        i + pat@.len() <= text@.len(),
    ensures
        r == matches_at(text@, pat@, i as int),
{
    let tn = text.unicode_len();
    let pn = pat.unicode_len();
    let mut j: usize = 0;
    while j < pn
        invariant
            tn == text@.len(),
            pn == pat@.len(),
            i + pn <= text@.len(),
            j <= pn,
            forall|j2: int| 0 <= j2 < j ==> lower_char(text@[i + j2]) == lower_char(pat@[j2]),
        decreases pn - j,
    {
        if lower_char_exec(text.get_char(i + j)) != lower_char_exec(pat.get_char(j)) {
            return false;
        }
        j += 1;
    }
    true
}

/// Whether the pattern occurs anywhere in the text, case-insensitively.
fn contains_ci(text: &str, pat: &str) -> (r: bool)
    ensures
        r == ci_contains(text@, pat@),
{
    let tn = text.unicode_len();
    let pn = pat.unicode_len();
    if pn > tn {
        proof {
            assert(forall|i: int| !matches_at(text@, pat@, i));
        }
        return false;
    }
    let mut i: usize = 0;
    while i <= tn - pn
        invariant
            tn == text@.len(),
            pn == pat@.len(),
            pn <= tn,
            i <= tn - pn + 1,
            forall|i2: int| 0 <= i2 < i ==> !matches_at(text@, pat@, i2),
        decreases tn + 1 - pn - i,
    {
        if match_at(text, pat, i) {
            return true;
        }
        i += 1;
    }
    proof {
        assert forall|i2: int| !(#[trigger] matches_at(text@, pat@, i2)) by {
            if 0 <= i2 <= tn - pn {
                assert(!matches_at(text@, pat@, i2));
            }
        }
    }
    false
}

/// Classifies one short forecast description, applying every rule in order
/// and keeping the last match.
pub fn classify(desc: &str) -> (r: String)
    ensures
        r@ == emoji_spec(desc@),
{
    let mut e: String = String::from_str("\u{2600}\u{fe0f}");
    if contains_ci(desc, "showers") || contains_ci(desc, "rain") {
        e = String::from_str("\u{1f327}");
    }
    if contains_ci(desc, "thunder") {
        e = String::from_str("\u{26c8}");
    }
    if contains_ci(desc, "mostly cloudy") {
        e = String::from_str("\u{2601}\u{fe0f}");
    }
    if contains_ci(desc, "partly cloudy") {
        e = String::from_str("\u{26c5}\u{fe0f}");
    }
    if contains_ci(desc, "mostly sunny") {
        e = String::from_str("\u{1f324}");
    }
    e
}

/// Classifies a whole column of descriptions, one emoji per entry, in order.
pub fn get_emojis(ind: Vec<String>) -> (r: Vec<String>)
    ensures
        r@.len() == ind@.len(),
        forall|i: int| 0 <= i < ind@.len() ==> r@[i]@ == emoji_spec(ind@[i]@),
{
    let mut emojis: Vec<String> = Vec::new();
    let mut idx: usize = 0;
    while idx < ind.len()
        invariant
            idx <= ind@.len(),
            emojis@.len() == idx,
            forall|i: int| 0 <= i < idx ==> emojis@[i]@ == emoji_spec(ind@[i]@),
        decreases ind@.len() - idx,
    {
        let e = classify(ind[idx].as_str());
        emojis.push(e);
        idx += 1;
    }
    emojis
}

/// Law: the rules are an ordered override chain. If rule `k` matches a
/// description and no later rule does, the classifier yields rule `k`'s
/// emoji — in particular a description matching an earlier and a later
/// rule gets the later rule's emoji.
pub proof fn lemma_last_match_wins(d: Seq<char>, k: int)
    requires
        1 <= k <= 5,
        rule_matches(k, d),
        forall|j: int| k < j <= 5 ==> !(#[trigger] rule_matches(j, d)),
    ensures
        emoji_spec(d) == rule_emoji(k),
{
    if k < 5 {
        assert(!rule_matches(5, d));
    }
    if k < 4 {
        assert(!rule_matches(4, d));
    }
    if k < 3 {
        assert(!rule_matches(3, d));
    }
    if k < 2 {
        assert(!rule_matches(2, d));
    }
}

/// Law: a description containing rain or showers, and matching none of the
/// later rules, is classified as rain.
pub proof fn lemma_rain_wins(d: Seq<char>)
    requires
        rule_matches(1, d),
        !rule_matches(2, d),
        !rule_matches(3, d),
        !rule_matches(4, d),
        !rule_matches(5, d),
    ensures
        emoji_spec(d) == rain_emoji(),
{
}

/// Law: a description matching none of the five rules gets the default
/// sun emoji.
pub proof fn lemma_default_sun(d: Seq<char>)
    requires
        forall|j: int| 1 <= j <= 5 ==> !(#[trigger] rule_matches(j, d)),
    ensures
        emoji_spec(d) == sun_emoji(),
{
    assert(!rule_matches(1, d));
    assert(!rule_matches(2, d));
    assert(!rule_matches(3, d));
    assert(!rule_matches(4, d));
    assert(!rule_matches(5, d));
}

} // verus!
