//! Extraction of one-time passcodes (2FA / OTP codes) from SMS bodies.
//!
//! The patterns are tried in order; the first one that matches supplies group 1 as the
//! code, unless that group is a four-digit year in a message that mentions neither
//! "code" nor "pin".

use vstd::prelude::*;
use crate::text::{chars_of, contains, string_from_chars, trim_str};

verus! {

/// Group 1 of the first match of the regular expression `pattern` in `haystack`, as
/// `regex::Regex::new(pattern)`, `Regex::captures` and `Captures::get(1)` compute it; `None`
/// when the pattern does not compile, does not match, or group 1 did not take part.
pub uninterp spec fn first_match_group(pattern: Seq<char>, haystack: Seq<char>) -> Option<Seq<char>>;

/// The lowercase form of `s`, as `str::to_lowercase` computes it.
pub uninterp spec fn lowercase(s: Seq<char>) -> Seq<char>;

/// Calls `regex::Regex::new`, `Regex::captures` and `Captures::get(1)`. The contract claims
/// that the result is `first_match_group` of the arguments, and, as `Match::as_str` documents,
/// that the group's text is a contiguous part of the haystack.
#[verifier::external_body]
fn capture_group_one(pattern: &str, haystack: &str) -> (r: Option<String>)
    ensures
        crate::db::query::opt_view(r) == first_match_group(pattern@, haystack@),
        r matches Some(g) ==> exists|i: int, j: int|
            0 <= i <= j <= haystack@.len() && #[trigger] haystack@.subrange(i, j) == g@,
{
    let re = regex::Regex::new(pattern).ok()?;
    let caps = re.captures(haystack)?;
    caps.get(1).map(|m| m.as_str().to_string())
}

/// Calls `str::to_lowercase`; the contract claims that the result is `lowercase(s@)`.
#[verifier::external_body]
fn to_lowercase(s: &str) -> (r: String)
    ensures
        r@ == lowercase(s@),
{
    s.to_lowercase()
}

/// The patterns, in the order they are tried.
pub open spec fn otp_pattern(i: int) -> Seq<char> {
    if i == 0 {
        r"(?i)(?:code|verification\s+code|security\s+code|pin|otp|passcode|secret)[\s:=#\-is]+(?:is\s+)?([0-9]{4,8})\b"@
    } else if i == 1 {
        r"(?i)(?:code|pin|otp|verification)[\s:=#\-]+([0-9]{3}-[0-9]{3})\b"@
    } else if i == 2 {
        r"\b([A-Z]-[0-9]{4,8})\b"@
    } else if i == 3 {
        r"(?i)(?:use|enter|type|input)\s+([0-9]{4,8})\s+(?:to|as|for|in)\b"@
    } else if i == 4 {
        r"(?i)\b([0-9]{4,8})\s+is\s+your\b"@
    } else if i == 5 {
        r"(?i)(?:verify|authenticate|login|account|confirmation).{0,30}?\b([0-9]{4,8})\b"@
    } else {
        r"(?i)(?:code|verif|confirm|passcode|token).{0,40}?\b([0-9]{6})\b"@
    }
}

/// The number of patterns.
pub open spec fn pattern_count() -> int {
    7
}

fn pattern(i: usize) -> (p: &'static str)
    requires
        i < 7,
    ensures
        p@ == otp_pattern(i as int),
{
    if i == 0 {
        r"(?i)(?:code|verification\s+code|security\s+code|pin|otp|passcode|secret)[\s:=#\-is]+(?:is\s+)?([0-9]{4,8})\b"
    } else if i == 1 {
        r"(?i)(?:code|pin|otp|verification)[\s:=#\-]+([0-9]{3}-[0-9]{3})\b"
    } else if i == 2 {
        r"\b([A-Z]-[0-9]{4,8})\b"
    } else if i == 3 {
        r"(?i)(?:use|enter|type|input)\s+([0-9]{4,8})\s+(?:to|as|for|in)\b"
    } else if i == 4 {
        r"(?i)\b([0-9]{4,8})\s+is\s+your\b"
    } else if i == 5 {
        r"(?i)(?:verify|authenticate|login|account|confirmation).{0,30}?\b([0-9]{4,8})\b"
    } else {
        r"(?i)(?:code|verif|confirm|passcode|token).{0,40}?\b([0-9]{6})\b"
    }
}

/// A four-byte code that starts with "19" or "20", which may be a year.
pub open spec fn looks_like_year(code: Seq<char>) -> bool {
    &&& vstd::utf8::encode_utf8(code).len() == 4
    &&& (crate::text::starts_with_chars(code, seq!['1', '9']) || crate::text::starts_with_chars(code, seq!['2', '0']))
}

/// Whether the lowercased body mentions "code" or "pin".
pub open spec fn mentions_code_or_pin(body: Seq<char>) -> bool {
    crate::text::contains_chars(lowercase(body), "code"@) || crate::text::contains_chars(lowercase(body), "pin"@)
}

/// The code chosen from the patterns' group-1 captures, taken in pattern order from `i` on:
/// the first capture, trimmed, unless it looks like a year and the body mentions neither
/// "code" nor "pin" (`keyword`), in which case the search goes on.
pub open spec fn code_from(groups: Seq<Option<Seq<char>>>, keyword: bool, i: int) -> Option<Seq<char>>
    decreases groups.len() - i,
{
    if i < 0 || i >= groups.len() {
        None
    } else {
        match groups[i] {
            Some(g) => {
                let code = crate::text::trim(g);
                if looks_like_year(code) && !keyword {
                    code_from(groups, keyword, i + 1)
                } else {
                    Some(code)
                }
            },
            None => code_from(groups, keyword, i + 1),
        }
    }
}

/// The group-1 capture of each pattern in `body`, in pattern order.
pub open spec fn pattern_groups(body: Seq<char>) -> Seq<Option<Seq<char>>> {
    Seq::new(pattern_count() as nat, |i: int| first_match_group(otp_pattern(i), body))
}

/// The code `extract_otp` finds in `body`.
pub open spec fn spec_extract_otp(body: Seq<char>) -> Option<Seq<char>> {
    code_from(pattern_groups(body), mentions_code_or_pin(body), 0)
}

pub open spec fn groups_view(groups: Seq<Option<String>>) -> Seq<Option<Seq<char>>> {
    groups.map_values(|g: Option<String>| crate::db::query::opt_view(g))
}

fn starts_19_or_20(code: &[char]) -> (r: bool)
    ensures
        r == (crate::text::starts_with_chars(code@, seq!['1', '9'])
            || crate::text::starts_with_chars(code@, seq!['2', '0'])),
{
    if code.len() < 2 {
        return false;
    }
    let r = (code[0] == '1' && code[1] == '9') || (code[0] == '2' && code[1] == '0');
    assert(r ==> (code@.subrange(0, 2) =~= seq!['1', '9'] || code@.subrange(0, 2) =~= seq!['2', '0']));
    r
}

fn mentions(body: &str) -> (r: bool)
    ensures
        r == mentions_code_or_pin(body@),
{
    let lower = chars_of(to_lowercase(body).as_str());
    if contains(lower.as_slice(), chars_of("code").as_slice()) {
        return true;
    }
    let lower2 = chars_of(to_lowercase(body).as_str());
    contains(lower2.as_slice(), chars_of("pin").as_slice())
}

/// Chooses the code from the patterns' group-1 captures, given in pattern order, and from
/// whether the body mentions "code" or "pin" (see `code_from`). The code is always one of
/// the captures, trimmed.
pub fn pick_code(groups: &Vec<Option<String>>, keyword: bool) -> (r: Option<String>)
    ensures
        crate::db::query::opt_view(r) == code_from(groups_view(groups@), keyword, 0),
        r matches Some(c) ==> exists|i: int|
            0 <= i < groups@.len() && (#[trigger] groups@[i] matches Some(g) && c@ == crate::text::trim(g@)),
{
    let ghost gv = groups_view(groups@);
    let mut i: usize = 0;
    while i < groups.len()
        invariant
            i <= groups@.len(),
            gv == groups_view(groups@),
            code_from(gv, keyword, 0) == code_from(gv, keyword, i as int),
        decreases groups@.len() - i,
    {
        assert(gv[i as int] == crate::db::query::opt_view(groups@[i as int]));
        if let Some(group) = &groups[i] {
            let code = trim_str(group.as_str());
            let code_chars = chars_of(code.as_str());
            let year_like = code.as_str().as_bytes().len() == 4 && starts_19_or_20(code_chars.as_slice());
            if !(year_like && !keyword) {
                assert(groups@[i as int] matches Some(g) && code@ == crate::text::trim(g@));
                return Some(code);
            }
        }
        i = i + 1;
    }
    None
}

/// Extracts potential 2FA / OTP verification codes from an SMS message body.
/// Returns the first high-confidence matching code, which is always a contiguous part
/// of the body.
pub fn extract_otp(body: &str) -> (r: Option<String>)
    ensures
        crate::db::query::opt_view(r) == spec_extract_otp(body@),
        r matches Some(c) ==> exists|i: int, j: int|
            0 <= i <= j <= body@.len() && #[trigger] body@.subrange(i, j) == c@,
{
    let mut groups: Vec<Option<String>> = Vec::new();
    let mut i: usize = 0;
    while i < 7
        invariant
            i <= 7,
            groups@.len() == i,
            forall|k: int| 0 <= k < i ==> #[trigger] crate::db::query::opt_view(groups@[k])
                == first_match_group(otp_pattern(k), body@),
            forall|k: int| 0 <= k < i ==> (#[trigger] groups@[k] matches Some(g) ==> exists|a: int, b: int|
                0 <= a <= b <= body@.len() && #[trigger] body@.subrange(a, b) == g@),
        decreases 7 - i,
    {
        let group = capture_group_one(pattern(i), body);
        groups.push(group);
        i = i + 1;
    }
    assert(groups_view(groups@) =~= pattern_groups(body@));
    let keyword = mentions(body);
    let r = pick_code(&groups, keyword);
    proof {
        if r is Some {
            let c = r->0;
            let k = choose|k: int| 0 <= k < groups@.len() && (#[trigger] groups@[k] matches Some(g) && c@ == crate::text::trim(g@));
            let g = groups@[k]->0;
            let (a, b) = choose|a: int, b: int| 0 <= a <= b <= body@.len() && #[trigger] body@.subrange(a, b) == g@;
            crate::text::lemma_trim_is_subrange(g@);
            let (x, y) = choose|x: int, y: int|
                0 <= x <= y <= g@.len() && #[trigger] g@.subrange(x, y) == crate::text::trim(g@);
            assert(body@.subrange(a + x, a + y) =~= g@.subrange(x, y));
        }
    }
    r
}


/// `w1|w2|…`: the words, separated by bars.
pub open spec fn joined(words: Seq<Seq<char>>) -> Seq<char>
    decreases words.len(),
{
    if words.len() == 0 {
        seq![]
    } else if words.len() == 1 {
        words[0]
    } else {
        joined(words.drop_last()) + seq!['|'] + words.last()
    }
}

/// `(?:w1|w2|…)`: a group that matches any one of the words.
pub open spec fn any_word(words: Seq<Seq<char>>) -> Seq<char> {
    "(?:"@ + joined(words) + ")"@
}

/// `[0-9]{lo}` when `lo == hi`, else `[0-9]{lo,hi}`: a run of `lo` to `hi` decimal digits
/// (the counts written in decimal).
pub open spec fn digit_run(lo: Seq<char>, hi: Seq<char>) -> Seq<char> {
    "[0-9]{"@ + lo + (if lo == hi { seq![] } else { seq![','] + hi }) + "}"@
}

/// `\b(…)\b`: the captured code, standing as a whole word.
pub open spec fn standalone(code: Seq<char>) -> Seq<char> {
    r"\b("@ + code + r")\b"@
}

/// Pattern 0: case-insensitively, one of the keywords `code`, `verification code`,
/// `security code`, `pin`, `otp`, `passcode` or `secret`, then separators (spaces, `:`,
/// `=`, `#`, `-`, `i`, `s`) and an optional `is`, then a captured run of 4 to 8 digits
/// ending a word.
pub proof fn law_first_pattern_captures_a_code_after_a_keyword()
    ensures
        otp_pattern(0) == r"(?i)"@ + any_word(seq![r"code"@, r"verification\s+code"@, r"security\s+code"@, r"pin"@, r"otp"@, r"passcode"@, r"secret"@]) + r"[\s:=#\-is]+(?:is\s+)?("@ + digit_run(r"4"@, r"8"@) + r")\b"@,
{
    reveal_with_fuel(joined, 8);
    reveal_strlit(r"(?:");
    reveal_strlit(r"(?i)");
    reveal_strlit(r"(?i)(?:code|verification\s+code|security\s+code|pin|otp|passcode|secret)[\s:=#\-is]+(?:is\s+)?([0-9]{4,8})\b");
    reveal_strlit(r")");
    reveal_strlit(r")\b");
    reveal_strlit(r",");
    reveal_strlit(r"4");
    reveal_strlit(r"8");
    reveal_strlit(r"[0-9]{");
    reveal_strlit(r"[0-9]{4,8}");
    reveal_strlit(r"[\s:=#\-is]+(?:is\s+)?(");
    reveal_strlit(r"code");
    reveal_strlit(r"code|verification\s+code|security\s+code|pin|otp|passcode|secret");
    reveal_strlit(r"otp");
    reveal_strlit(r"passcode");
    reveal_strlit(r"pin");
    reveal_strlit(r"secret");
    reveal_strlit(r"security\s+code");
    reveal_strlit(r"verification\s+code");
    reveal_strlit(r"}");
    assert(joined(seq![r"code"@, r"verification\s+code"@, r"security\s+code"@, r"pin"@, r"otp"@, r"passcode"@, r"secret"@]) =~= r"code|verification\s+code|security\s+code|pin|otp|passcode|secret"@);
    assert(r"4"@[0] != r"8"@[0]);
    assert(digit_run(r"4"@, r"8"@) =~= r"[0-9]{4,8}"@);
    assert(otp_pattern(0) =~= r"(?i)"@ + any_word(seq![r"code"@, r"verification\s+code"@, r"security\s+code"@, r"pin"@, r"otp"@, r"passcode"@, r"secret"@]) + r"[\s:=#\-is]+(?:is\s+)?("@ + digit_run(r"4"@, r"8"@) + r")\b"@);
}

/// Pattern 1: case-insensitively, one of `code`, `pin`, `otp` or `verification`, then
/// separators, then a captured code of three digits, a hyphen and three digits, ending a
/// word.
pub proof fn law_second_pattern_captures_a_hyphenated_code()
    ensures
        otp_pattern(1) == r"(?i)"@ + any_word(seq![r"code"@, r"pin"@, r"otp"@, r"verification"@]) + r"[\s:=#\-]+("@ + digit_run(r"3"@, r"3"@) + r"-"@ + digit_run(r"3"@, r"3"@) + r")\b"@,
{
    reveal_with_fuel(joined, 8);
    reveal_strlit(r"(?:");
    reveal_strlit(r"(?i)");
    reveal_strlit(r"(?i)(?:code|pin|otp|verification)[\s:=#\-]+([0-9]{3}-[0-9]{3})\b");
    reveal_strlit(r")");
    reveal_strlit(r")\b");
    reveal_strlit(r",");
    reveal_strlit(r"-");
    reveal_strlit(r"3");
    reveal_strlit(r"[0-9]{");
    reveal_strlit(r"[0-9]{3}");
    reveal_strlit(r"[\s:=#\-]+(");
    reveal_strlit(r"code");
    reveal_strlit(r"code|pin|otp|verification");
    reveal_strlit(r"otp");
    reveal_strlit(r"pin");
    reveal_strlit(r"verification");
    reveal_strlit(r"}");
    assert(joined(seq![r"code"@, r"pin"@, r"otp"@, r"verification"@]) =~= r"code|pin|otp|verification"@);
    assert(digit_run(r"3"@, r"3"@) =~= r"[0-9]{3}"@);
    assert(digit_run(r"3"@, r"3"@) =~= r"[0-9]{3}"@);
    assert(otp_pattern(1) =~= r"(?i)"@ + any_word(seq![r"code"@, r"pin"@, r"otp"@, r"verification"@]) + r"[\s:=#\-]+("@ + digit_run(r"3"@, r"3"@) + r"-"@ + digit_run(r"3"@, r"3"@) + r")\b"@);
}

/// Pattern 2: case-sensitively, a captured code standing as a whole word: one capital
/// letter, a hyphen and 4 to 8 digits (as in `G-123456`).
pub proof fn law_third_pattern_captures_a_letter_prefixed_code()
    ensures
        otp_pattern(2) == r"\b("@ + r"[A-Z]-"@ + digit_run(r"4"@, r"8"@) + r")\b"@,
{
    reveal_with_fuel(joined, 8);
    reveal_strlit(r")\b");
    reveal_strlit(r",");
    reveal_strlit(r"4");
    reveal_strlit(r"8");
    reveal_strlit(r"[0-9]{");
    reveal_strlit(r"[0-9]{4,8}");
    reveal_strlit(r"[A-Z]-");
    reveal_strlit(r"\b(");
    reveal_strlit(r"\b([A-Z]-[0-9]{4,8})\b");
    reveal_strlit(r"}");
    assert(r"4"@[0] != r"8"@[0]);
    assert(digit_run(r"4"@, r"8"@) =~= r"[0-9]{4,8}"@);
    assert(otp_pattern(2) =~= r"\b("@ + r"[A-Z]-"@ + digit_run(r"4"@, r"8"@) + r")\b"@);
}

/// Pattern 3: case-insensitively, one of `use`, `enter`, `type` or `input`, white space, a
/// captured run of 4 to 8 digits, white space, and one of `to`, `as`, `for` or `in` ending
/// a word.
pub proof fn law_fourth_pattern_captures_a_code_to_enter()
    ensures
        otp_pattern(3) == r"(?i)"@ + any_word(seq![r"use"@, r"enter"@, r"type"@, r"input"@]) + r"\s+("@ + digit_run(r"4"@, r"8"@) + r")\s+"@ + any_word(seq![r"to"@, r"as"@, r"for"@, r"in"@]) + r"\b"@,
{
    reveal_with_fuel(joined, 8);
    reveal_strlit(r"(?:");
    reveal_strlit(r"(?i)");
    reveal_strlit(r"(?i)(?:use|enter|type|input)\s+([0-9]{4,8})\s+(?:to|as|for|in)\b");
    reveal_strlit(r")");
    reveal_strlit(r")\s+");
    reveal_strlit(r",");
    reveal_strlit(r"4");
    reveal_strlit(r"8");
    reveal_strlit(r"[0-9]{");
    reveal_strlit(r"[0-9]{4,8}");
    reveal_strlit(r"\b");
    reveal_strlit(r"\s+(");
    reveal_strlit(r"as");
    reveal_strlit(r"enter");
    reveal_strlit(r"for");
    reveal_strlit(r"in");
    reveal_strlit(r"input");
    reveal_strlit(r"to");
    reveal_strlit(r"to|as|for|in");
    reveal_strlit(r"type");
    reveal_strlit(r"use");
    reveal_strlit(r"use|enter|type|input");
    reveal_strlit(r"}");
    assert(joined(seq![r"use"@, r"enter"@, r"type"@, r"input"@]) =~= r"use|enter|type|input"@);
    assert(r"4"@[0] != r"8"@[0]);
    assert(digit_run(r"4"@, r"8"@) =~= r"[0-9]{4,8}"@);
    assert(joined(seq![r"to"@, r"as"@, r"for"@, r"in"@]) =~= r"to|as|for|in"@);
    assert(otp_pattern(3) =~= r"(?i)"@ + any_word(seq![r"use"@, r"enter"@, r"type"@, r"input"@]) + r"\s+("@ + digit_run(r"4"@, r"8"@) + r")\s+"@ + any_word(seq![r"to"@, r"as"@, r"for"@, r"in"@]) + r"\b"@);
}

/// Pattern 4: case-insensitively, a captured run of 4 to 8 digits starting a word, then `is
/// your` as words.
pub proof fn law_fifth_pattern_captures_a_code_that_is_yours()
    ensures
        otp_pattern(4) == r"(?i)"@ + r"\b("@ + digit_run(r"4"@, r"8"@) + r")\s+is\s+your\b"@,
{
    reveal_with_fuel(joined, 8);
    reveal_strlit(r"(?i)");
    reveal_strlit(r"(?i)\b([0-9]{4,8})\s+is\s+your\b");
    reveal_strlit(r")\s+is\s+your\b");
    reveal_strlit(r",");
    reveal_strlit(r"4");
    reveal_strlit(r"8");
    reveal_strlit(r"[0-9]{");
    reveal_strlit(r"[0-9]{4,8}");
    reveal_strlit(r"\b(");
    reveal_strlit(r"}");
    assert(r"4"@[0] != r"8"@[0]);
    assert(digit_run(r"4"@, r"8"@) =~= r"[0-9]{4,8}"@);
    assert(otp_pattern(4) =~= r"(?i)"@ + r"\b("@ + digit_run(r"4"@, r"8"@) + r")\s+is\s+your\b"@);
}

/// Pattern 5: case-insensitively, one of `verify`, `authenticate`, `login`, `account` or
/// `confirmation`, then within at most 30 characters a captured run of 4 to 8 digits
/// standing as a whole word.
pub proof fn law_sixth_pattern_captures_a_code_near_an_account_word()
    ensures
        otp_pattern(5) == r"(?i)"@ + any_word(seq![r"verify"@, r"authenticate"@, r"login"@, r"account"@, r"confirmation"@]) + r".{0,30}?"@ + standalone(digit_run(r"4"@, r"8"@)),
{
    reveal_with_fuel(joined, 8);
    reveal_strlit(r"(?:");
    reveal_strlit(r"(?i)");
    reveal_strlit(r"(?i)(?:verify|authenticate|login|account|confirmation).{0,30}?\b([0-9]{4,8})\b");
    reveal_strlit(r")");
    reveal_strlit(r")\b");
    reveal_strlit(r",");
    reveal_strlit(r".{0,30}?");
    reveal_strlit(r"4");
    reveal_strlit(r"8");
    reveal_strlit(r"[0-9]{");
    reveal_strlit(r"[0-9]{4,8}");
    reveal_strlit(r"\b(");
    reveal_strlit(r"account");
    reveal_strlit(r"authenticate");
    reveal_strlit(r"confirmation");
    reveal_strlit(r"login");
    reveal_strlit(r"verify");
    reveal_strlit(r"verify|authenticate|login|account|confirmation");
    reveal_strlit(r"}");
    assert(joined(seq![r"verify"@, r"authenticate"@, r"login"@, r"account"@, r"confirmation"@]) =~= r"verify|authenticate|login|account|confirmation"@);
    assert(r"4"@[0] != r"8"@[0]);
    assert(digit_run(r"4"@, r"8"@) =~= r"[0-9]{4,8}"@);
    assert(otp_pattern(5) =~= r"(?i)"@ + any_word(seq![r"verify"@, r"authenticate"@, r"login"@, r"account"@, r"confirmation"@]) + r".{0,30}?"@ + standalone(digit_run(r"4"@, r"8"@)));
}

/// Pattern 6, the fallback: case-insensitively, one of the keywords `code`, `verif`,
/// `confirm`, `passcode` or `token`, then within at most 40 characters a captured code of
/// exactly six digits standing as a whole word.
pub proof fn law_fallback_pattern_captures_six_digits_after_a_keyword()
    ensures
        otp_pattern(6) == r"(?i)"@ + any_word(seq![r"code"@, r"verif"@, r"confirm"@, r"passcode"@, r"token"@]) + r".{0,40}?"@ + standalone(digit_run(r"6"@, r"6"@)),
{
    reveal_with_fuel(joined, 8);
    reveal_strlit(r"(?:");
    reveal_strlit(r"(?i)");
    reveal_strlit(r"(?i)(?:code|verif|confirm|passcode|token).{0,40}?\b([0-9]{6})\b");
    reveal_strlit(r")");
    reveal_strlit(r")\b");
    reveal_strlit(r",");
    reveal_strlit(r".{0,40}?");
    reveal_strlit(r"6");
    reveal_strlit(r"[0-9]{");
    reveal_strlit(r"[0-9]{6}");
    reveal_strlit(r"\b(");
    reveal_strlit(r"code");
    reveal_strlit(r"code|verif|confirm|passcode|token");
    reveal_strlit(r"confirm");
    reveal_strlit(r"passcode");
    reveal_strlit(r"token");
    reveal_strlit(r"verif");
    reveal_strlit(r"}");
    assert(joined(seq![r"code"@, r"verif"@, r"confirm"@, r"passcode"@, r"token"@]) =~= r"code|verif|confirm|passcode|token"@);
    assert(digit_run(r"6"@, r"6"@) =~= r"[0-9]{6}"@);
    assert(otp_pattern(6) =~= r"(?i)"@ + any_word(seq![r"code"@, r"verif"@, r"confirm"@, r"passcode"@, r"token"@]) + r".{0,40}?"@ + standalone(digit_run(r"6"@, r"6"@)));
}


/// Whether a capture supplies the code: it took part, and its trimmed text is not a year
/// in a body that mentions neither "code" nor "pin".
pub open spec fn usable(group: Option<Seq<char>>, keyword: bool) -> bool {
    group is Some && !(looks_like_year(crate::text::trim(group->0)) && !keyword)
}

proof fn lemma_code_from(groups: Seq<Option<Seq<char>>>, keyword: bool, i: int)
    requires
        0 <= i,
    ensures
        code_from(groups, keyword, i) matches Some(c) ==> exists|k: int|
            i <= k < groups.len() && #[trigger] usable(groups[k], keyword) && c == crate::text::trim(groups[k]->0)
                && forall|j: int| i <= j < k ==> !usable(groups[j], keyword),
        code_from(groups, keyword, i) is None ==> forall|j: int| i <= j < groups.len() ==> !#[trigger] usable(groups[j], keyword),
    decreases groups.len() - i,
{
    if i < groups.len() {
        lemma_code_from(groups, keyword, i + 1);
        if !usable(groups[i], keyword) {
            if code_from(groups, keyword, i) is Some {
                let c = code_from(groups, keyword, i)->0;
                let k = choose|k: int|
                    i + 1 <= k < groups.len() && #[trigger] usable(groups[k], keyword) && c == crate::text::trim(groups[k]->0)
                        && forall|j: int| i + 1 <= j < k ==> !usable(groups[j], keyword);
                assert forall|j: int| i <= j < k implies !usable(groups[j], keyword) by {
                    if j > i {
                        assert(i + 1 <= j < k);
                    }
                }
            }
        } else {
            assert(usable(groups[i], keyword));
        }
    }
}

/// The code chosen is the trimmed text of the first usable capture, in pattern order: every
/// capture before it took no part or was a year skipped for want of "code" or "pin"; and
/// no code is chosen exactly when no capture is usable.
pub proof fn law_code_is_the_first_usable_capture(groups: Seq<Option<Seq<char>>>, keyword: bool)
    ensures
        code_from(groups, keyword, 0) matches Some(c) ==> exists|k: int|
            0 <= k < groups.len() && #[trigger] usable(groups[k], keyword) && c == crate::text::trim(groups[k]->0)
                && forall|j: int| 0 <= j < k ==> !usable(groups[j], keyword),
        code_from(groups, keyword, 0) is None <==> forall|j: int| 0 <= j < groups.len() ==> !#[trigger] usable(groups[j], keyword),
{
    lemma_code_from(groups, keyword, 0);
}

} // verus!
