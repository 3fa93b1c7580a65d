use vstd::prelude::*;
use vstd::string::StrSliceExecFns;
use vstd::string::StringExecFns;

verus! {

/// ASCII lower-casing of one character; characters outside `'A'..='Z'`
/// are unchanged.
pub open spec fn spec_lower_char(c: char) -> char {
    if 'A' <= c && c <= 'Z' {
        ((c as u8) + 32) as char
    } else {
        c
    }
}

/// ASCII lower-casing of one character.
pub fn lower_char(c: char) -> (r: char)
    ensures
        r == spec_lower_char(c),
{
    if 'A' <= c && c <= 'Z' {
        ((c as u8) + 32) as char
    } else {
        c
    }
}

/// True when `s` ends with `suffix`, comparing characters ASCII
/// case-insensitively (`suffix` is given in lower case).
pub open spec fn spec_has_suffix_ci(s: Seq<char>, suffix: Seq<char>) -> bool {
    s.len() >= suffix.len() && forall|j: int|
        0 <= j < suffix.len() ==> spec_lower_char(s[s.len() - suffix.len() + j]) == suffix[j]
}

/// Case-insensitive suffix test; `suffix` is expected in lower case.
pub fn has_suffix_ci(s: &str, suffix: &str) -> (r: bool)
    ensures
        r == spec_has_suffix_ci(s@, suffix@),
{
    let n = s.unicode_len();
    let m = suffix.unicode_len();
    if m > n {
        return false;
    }
    let mut j: usize = 0;
    while j < m
        invariant
            j <= m,
            m <= n,
            n == s@.len(),
            m == suffix@.len(),
            forall|k: int| 0 <= k < j ==> spec_lower_char(s@[n - m + k]) == suffix@[k],
        decreases m - j,
    {
        let c = s.get_char(n - m + j);
        let d = suffix.get_char(j);
        if lower_char(c) != d {
            assert(spec_lower_char(s@[n - m + j]) != suffix@[j as int]);
            return false;
        }
        j += 1;
    }
    true
}

/// True when `s` starts with `prefix`, comparing characters exactly.
pub open spec fn spec_has_prefix(s: Seq<char>, prefix: Seq<char>) -> bool {
    s.len() >= prefix.len() && forall|j: int| 0 <= j < prefix.len() ==> s[j] == prefix[j]
}

/// Exact prefix test.
pub fn has_prefix(s: &str, prefix: &str) -> (r: bool)
    ensures
        r == spec_has_prefix(s@, prefix@),
{
    let n = s.unicode_len();
    let m = prefix.unicode_len();
    if m > n {
        return false;
    }
    let mut j: usize = 0;
    while j < m
        invariant
            j <= m,
            m <= n,
            n == s@.len(),
            m == prefix@.len(),
            forall|k: int| 0 <= k < j ==> s@[k] == prefix@[k],
        decreases m - j,
    {
        let c = s.get_char(j);
        let d = prefix.get_char(j);
        if c != d {
            assert(s@[j as int] != prefix@[j as int]);
            return false;
        }
        j += 1;
    }
    true
}

/// A location denotes a remote resource exactly when it starts with an
/// HTTP or HTTPS scheme; classification is by prefix match, not by
/// validation of the rest of the string.
pub open spec fn spec_is_remote(s: Seq<char>) -> bool {
    spec_has_prefix(s, "http://"@) || spec_has_prefix(s, "https://"@)
}

/// Classifies a location string: remote (HTTP or HTTPS URL) or local.
pub fn location_is_remote(location: &str) -> (r: bool)
    ensures
        r == spec_is_remote(location@),
{
    has_prefix(location, "http://") || has_prefix(location, "https://")
}

/// The character for one decimal digit.
pub open spec fn spec_digit_char(d: int) -> char
    recommends
        0 <= d < 10,
{
    ((48 + d) as u8) as char
}

/// The decimal rendering of a natural number, most significant digit
/// first, with no leading zeros (except for zero itself).
pub open spec fn spec_decimal(n: nat) -> Seq<char>
    decreases n,
{
    if n < 10 {
        seq![spec_digit_char(n as int)]
    } else {
        spec_decimal(n / 10) + seq![spec_digit_char((n % 10) as int)]
    }
}

/// One decimal digit as a string slice.
fn digit_str(d: u8) -> (r: &'static str)
    requires
        d < 10,
    ensures
        r@ == seq![spec_digit_char(d as int)],
{
    proof {
        reveal_strlit("0");
        reveal_strlit("1");
        reveal_strlit("2");
        reveal_strlit("3");
        reveal_strlit("4");
        reveal_strlit("5");
        reveal_strlit("6");
        reveal_strlit("7");
        reveal_strlit("8");
        reveal_strlit("9");
    }
    let r = match d {
        0 => "0",
        1 => "1",
        2 => "2",
        3 => "3",
        4 => "4",
        5 => "5",
        6 => "6",
        7 => "7",
        8 => "8",
        _ => "9",
    };
    assert(r@ =~= seq![spec_digit_char(d as int)]);
    r
}

/// Relies on `String::from_utf8`: it succeeds on exactly the buffers
/// that are valid UTF-8, decoding them to the text they encode; the
/// failure value describes the defect.
#[verifier::external_body]
pub fn string_from_utf8(bytes: Vec<u8>) -> (r: Result<String, String>)
    ensures
        (match r {
            Ok(s) => vstd::utf8::valid_utf8(bytes@) && s@ == vstd::utf8::decode_utf8(bytes@),
            Err(_) => !vstd::utf8::valid_utf8(bytes@),
        }),
{
    String::from_utf8(bytes).map_err(|e| e.to_string())
}

/// Renders a number in decimal.
pub fn u64_to_decimal(n: u64) -> (s: String)
    ensures
        s@ == spec_decimal(n as nat),
    decreases n,
{
    if n < 10 {
        let s = String::from_str(digit_str(n as u8));
        assert(s@ =~= spec_decimal(n as nat));
        s
    } else {
        let mut s = u64_to_decimal(n / 10);
        s.append(digit_str((n % 10) as u8));
        assert(s@ =~= spec_decimal(n as nat));
        s
    }
}

} // verus!
