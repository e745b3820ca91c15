use crate::flags::split_lines;
use crate::text::{concat, contains, contains_spec, owned, push_char, trim, trimmed};
use base64::Engine;
use vstd::prelude::*;
use vstd::string::*;

verus! {

/// Seconds in a day.
pub const SECONDS_PER_DAY: u64 = 86400;

/// Body of a key validation request.
#[derive(Debug)]
pub struct KeyValidationRequest {
    pub key: String,
    pub mac_uuid: String,
}

/// Answer of the key validation service.
#[derive(Debug)]
pub struct KeyValidationResponse {
    pub success: bool,
    pub token: Option<String>,
}

/// Claims carried by the session token.
#[derive(Debug)]
pub struct JwtPayload {
    pub mac_uuid: String,
    pub session_id: String,
    pub key_expires_at: u64,
    pub iat: u64,
    pub exp: u64,
    pub jti: String,
}

/// Outcome of a key check, as reported to the UI.
#[derive(Debug)]
pub struct KeyStatus {
    pub success: bool,
    pub key_found: bool,
    pub valid: bool,
    pub expires_at: Option<u64>,
    pub current_time: u64,
    pub days_remaining: Option<i64>,
    pub error: Option<String>,
}

/// Whole days from `current_time` until `expires_at`, 0 once expired.
pub open spec fn days_remaining_spec(expires_at: u64, current_time: u64) -> int {
    if expires_at <= current_time {
        0
    } else {
        (expires_at - current_time) / (SECONDS_PER_DAY as int)
    }
}

pub fn calculate_days_remaining(expires_at: u64, current_time: u64) -> (r: i64)
    ensures
        r == days_remaining_spec(expires_at, current_time),
{
    if expires_at <= current_time {
        0
    } else {
        let diff = expires_at - current_time;
        (diff / SECONDS_PER_DAY) as i64
    }
}

impl KeyStatus {
    /// The status of a key whose token says it expires at `key_expires_at`:
    /// valid while at least one whole day remains.
    pub fn from_expiry(key_expires_at: u64, current_time: u64) -> (r: KeyStatus)
        ensures
            r.success && r.key_found,
            r.valid == (days_remaining_spec(key_expires_at, current_time) > 0),
            r.expires_at == Some(key_expires_at),
            r.current_time == current_time,
            r.days_remaining == Some(days_remaining_spec(key_expires_at, current_time) as i64),
            r.error is None,
    {
        let days = calculate_days_remaining(key_expires_at, current_time);
        KeyStatus {
            success: true,
            key_found: true,
            valid: days > 0,
            expires_at: Some(key_expires_at),
            current_time,
            days_remaining: Some(days),
            error: None,
        }
    }

    /// The status of a check that failed with `error`.
    pub fn failure(current_time: u64, key_found: bool, error: String) -> (r: KeyStatus)
        ensures
            !r.success && !r.valid,
            r.key_found == key_found,
            r.expires_at is None && r.days_remaining is None,
            r.current_time == current_time,
            r.error == Some(error),
    {
        KeyStatus {
            success: false,
            key_found,
            valid: false,
            expires_at: None,
            current_time,
            days_remaining: None,
            error: Some(error),
        }
    }
}

/// The base64url alphabet's `-` and `_` written as standard `+` and `/`.
pub open spec fn to_standard_alphabet(c: char) -> char {
    if c == '-' {
        '+'
    } else if c == '_' {
        '/'
    } else {
        c
    }
}

/// How many `=` bring a text of `len` characters to a multiple of four.
pub open spec fn padding_len(len: nat) -> nat {
    ((4 - (len % 4) as int) % 4) as nat
}

/// A base64url text in the standard alphabet, padded with `=`.
pub open spec fn padded_base64(s: Seq<char>) -> Seq<char> {
    s.map_values(|c: char| to_standard_alphabet(c)) + Seq::new(padding_len(s.len()), |i: int| '=')
}

pub fn pad_base64(s: &str) -> (r: String)
    ensures
        r@ == padded_base64(s@),
{
    let n = s.unicode_len();
    let mut out = String::new();
    let mut i: usize = 0;
    while i < n
        invariant
            n == s@.len(),
            0 <= i <= n,
            out@ =~= s@.subrange(0, i as int).map_values(|c: char| to_standard_alphabet(c)),
        decreases n - i,
    {
        let c = s.get_char(i);
        let d = if c == '-' {
            '+'
        } else if c == '_' {
            '/'
        } else {
            c
        };
        push_char(&mut out, d);
        assert(s@.subrange(0, i + 1) =~= s@.subrange(0, i as int).push(c));
        i = i + 1;
    }
    assert(s@.subrange(0, n as int) =~= s@);
    let pad = (4 - n % 4) % 4;
    let ghost mapped = out@;
    let mut k: usize = 0;
    while k < pad
        invariant
            0 <= k <= pad,
            pad == padding_len(s@.len()),
            out@ =~= mapped + Seq::new(k as nat, |i: int| '='),
        decreases pad - k,
    {
        push_char(&mut out, '=');
        k = k + 1;
    }
    out
}

/// What the standard padded base64 engine decodes a text to, if anything.
pub uninterp spec fn base64_standard(s: Seq<char>) -> Option<Seq<u8>>;

/// What the standard unpadded base64 engine decodes a text to, if anything.
pub uninterp spec fn base64_standard_no_pad(s: Seq<char>) -> Option<Seq<u8>>;

/// Relies on `base64::engine::general_purpose::STANDARD.decode`: the bytes
/// a text decodes to, or the decoder's error message.
#[verifier::external_body]
fn decode_standard(s: &str) -> (r: Result<Vec<u8>, String>)
    ensures
        r is Ok <==> base64_standard(s@) is Some,
        r matches Ok(v) ==> base64_standard(s@) == Some(v@),
{
    base64::engine::general_purpose::STANDARD.decode(s).map_err(|e| e.to_string())
}

/// Relies on `base64::engine::general_purpose::STANDARD_NO_PAD.decode`: the
/// bytes a text decodes to, or the decoder's error message.
#[verifier::external_body]
fn decode_standard_no_pad(s: &str) -> (r: Result<Vec<u8>, String>)
    ensures
        r is Ok <==> base64_standard_no_pad(s@) is Some,
        r matches Ok(v) ==> base64_standard_no_pad(s@) == Some(v@),
{
    base64::engine::general_purpose::STANDARD_NO_PAD.decode(s).map_err(|e| e.to_string())
}

/// Positions of `c` in `s`, ascending.
pub open spec fn positions_of(s: Seq<char>, c: char) -> Seq<int>
    decreases s.len(),
{
    if s.len() == 0 {
        Seq::empty()
    } else if s.last() == c {
        positions_of(s.drop_last(), c).push(s.len() - 1)
    } else {
        positions_of(s.drop_last(), c)
    }
}

/// A token is well formed when it has exactly three dot-separated segments.
pub open spec fn is_three_segments(token: Seq<char>) -> bool {
    positions_of(token, '.').len() == 2
}

/// The middle segment of a three-segment token.
pub open spec fn middle_segment(token: Seq<char>) -> Seq<char> {
    token.subrange(positions_of(token, '.')[0] + 1, positions_of(token, '.')[1])
}

proof fn lemma_positions_bounds(s: Seq<char>, c: char)
    ensures
        forall|k: int| 0 <= k < positions_of(s, c).len() ==> 0 <= #[trigger] positions_of(s, c)[k] < s.len() && s[positions_of(s, c)[k]] == c,
        forall|k: int, m: int|
            0 <= k < m < positions_of(s, c).len() ==> #[trigger] positions_of(s, c)[k]
                < #[trigger] positions_of(s, c)[m],
    decreases s.len(),
{
    if s.len() > 0 {
        let d = s.drop_last();
        lemma_positions_bounds(d, c);
        assert forall|k: int| 0 <= k < positions_of(d, c).len() implies s[#[trigger] positions_of(d, c)[k]] == c by {
            assert(s[positions_of(d, c)[k]] == d[positions_of(d, c)[k]]);
        }
        let ps = positions_of(s, c);
        let pd = positions_of(d, c);
        assert forall|k: int, m: int| 0 <= k < m < ps.len() implies #[trigger] ps[k] < #[trigger] ps[m] by {
            if s.last() == c {
                assert(ps == pd.push(s.len() - 1));
                if m == ps.len() - 1 {
                    assert(ps[k] == pd[k]);
                } else {
                    assert(ps[k] == pd[k] && ps[m] == pd[m]);
                }
            } else {
                assert(ps == pd);
            }
        }
    }
}

/// The bytes carried by the payload segment of a JWT, decoded from
/// base64url: the standard padded decoding is tried first, then the
/// unpadded one. Refused when the token does not have three segments or the
/// payload decodes under neither.
pub fn decode_jwt_payload(token: &str) -> (r: Result<Vec<u8>, String>)
    ensures
        !is_three_segments(token@) ==> (r matches Err(e) && e@ == "Invalid JWT format"@),
        is_three_segments(token@) ==> ({
            let p = middle_segment(token@);
            let padded = padded_base64(p);
            match base64_standard(padded) {
                Some(v) => r matches Ok(w) && w@ == v,
                None => match base64_standard_no_pad(padded) {
                    Some(v) => r matches Ok(w) && w@ == v,
                    None => r is Err,
                },
            }
        }),
{
    let n = token.unicode_len();
    let mut count: usize = 0;
    let mut first: usize = 0;
    let mut second: usize = 0;
    let mut i: usize = 0;
    while i < n
        invariant
            n == token@.len(),
            0 <= i <= n,
            count == positions_of(token@.subrange(0, i as int), '.').len(),
            count <= i,
            count >= 1 ==> first as int == positions_of(token@.subrange(0, i as int), '.')[0],
            count >= 2 ==> second as int == positions_of(token@.subrange(0, i as int), '.')[1],
        decreases n - i,
    {
        assert(token@.subrange(0, i + 1).drop_last() =~= token@.subrange(0, i as int));
        if token.get_char(i) == '.' {
            if count == 0 {
                first = i;
            } else if count == 1 {
                second = i;
            }
            count = count + 1;
        }
        i = i + 1;
    }
    assert(token@.subrange(0, n as int) =~= token@);
    if count != 2 {
        return Err(owned("Invalid JWT format"));
    }
    proof { lemma_positions_bounds(token@, '.'); }
    let payload = token.substring_char(first + 1, second);
    let padded = pad_base64(payload);
    match decode_standard(padded.as_str()) {
        Ok(v) => Ok(v),
        Err(_) => match decode_standard_no_pad(padded.as_str()) {
            Ok(v) => Ok(v),
            Err(e) => Err(concat("Failed to decode base64: ", e.as_str())),
        },
    }
}

/// Label of the system profiler line that carries the hardware UUID.
pub const HARDWARE_UUID_LABEL: &'static str = "Hardware UUID";

/// Index of the first `c` in `s`, or -1.
pub open spec fn first_index(s: Seq<char>, c: char) -> int
    decreases s.len(),
{
    if s.len() == 0 {
        -1
    } else if first_index(s.drop_last(), c) >= 0 {
        first_index(s.drop_last(), c)
    } else if s.last() == c {
        s.len() - 1
    } else {
        -1
    }
}

/// Whether a profiler line carries the hardware UUID.
pub open spec fn is_uuid_line(line: Seq<char>) -> bool {
    contains_spec(line, HARDWARE_UUID_LABEL@) && first_index(line, ':') >= 0
}

/// The trimmed text after the first `:` of a line.
pub open spec fn uuid_of_line(line: Seq<char>) -> Seq<char> {
    trimmed(line.subrange(first_index(line, ':') + 1, line.len() as int))
}

/// The UUID of the first line of `lines` that carries one.
pub open spec fn first_uuid(lines: Seq<Seq<char>>) -> Option<Seq<char>>
    decreases lines.len(),
{
    if lines.len() == 0 {
        None
    } else {
        match first_uuid(lines.drop_last()) {
            Some(u) => Some(u),
            None => if is_uuid_line(lines.last()) {
                Some(uuid_of_line(lines.last()))
            } else {
                None
            },
        }
    }
}

proof fn lemma_first_index(s: Seq<char>, c: char)
    ensures
        -1 <= first_index(s, c) < s.len(),
        first_index(s, c) >= 0 ==> s[first_index(s, c)] == c,
        forall|k: int| 0 <= k < s.len() && (first_index(s, c) < 0 || k < first_index(s, c)) ==> s[k] != c,
    decreases s.len(),
{
    if s.len() > 0 {
        let d = s.drop_last();
        lemma_first_index(d, c);
        assert forall|k: int| 0 <= k < s.len() && (first_index(s, c) < 0 || k < first_index(s, c)) implies s[k] != c by {
            if k < s.len() - 1 {
                assert(s[k] == d[k]);
            } else {
                assert(s[k] == s.last());
            }
        }
        if first_index(s, c) >= 0 && first_index(d, c) >= 0 {
            assert(s[first_index(d, c)] == d[first_index(d, c)]);
        }
    }
}

/// The index of the first `c` in `s`, if any.
fn find_char(s: &str, c: char) -> (r: Option<usize>)
    ensures
        match r {
            Some(i) => first_index(s@, c) == i,
            None => first_index(s@, c) < 0,
        },
{
    proof { lemma_first_index(s@, c); }
    let n = s.unicode_len();
    let mut i: usize = 0;
    while i < n
        invariant
            n == s@.len(),
            0 <= i <= n,
            forall|k: int| 0 <= k < i ==> s@[k] != c,
            -1 <= first_index(s@, c) < s@.len(),
            first_index(s@, c) >= 0 ==> s@[first_index(s@, c)] == c,
            forall|k: int| 0 <= k < s@.len() && (first_index(s@, c) < 0 || k < first_index(s@, c)) ==> s@[k] != c,
        decreases n - i,
    {
        if s.get_char(i) == c {
            return Some(i);
        }
        i = i + 1;
    }
    None
}

/// The UUID that `line` carries, if it carries one.
fn uuid_in_line(line: &str) -> (r: Option<String>)
    ensures
        is_uuid_line(line@) ==> (r matches Some(u) && u@ == uuid_of_line(line@)),
        !is_uuid_line(line@) ==> r is None,
{
    if !contains(line, HARDWARE_UUID_LABEL) {
        return None;
    }
    proof { lemma_first_index(line@, ':'); }
    match find_char(line, ':') {
        None => None,
        Some(i) => {
            let n = line.unicode_len();
            let rest = line.substring_char(i + 1, n);
            Some(trim(rest))
        },
    }
}

/// The hardware UUID reported by the system profiler: the trimmed text after
/// the first `:` of the first line that mentions it.
pub fn hardware_uuid(output: &str) -> (r: Result<String, String>)
    ensures
        match first_uuid(split_lines(output@)) {
            Some(u) => r matches Ok(v) && v@ == u,
            None => r matches Err(e) && e@ == "Could not find Hardware UUID"@,
        },
{
    let n = output.unicode_len();
    let mut found: Option<String> = None;
    let mut line = String::new();
    let mut i: usize = 0;
    while i < n
        invariant
            n == output@.len(),
            0 <= i <= n,
            split_lines(output@.subrange(0, i as int)).len() >= 1,
            line@ == split_lines(output@.subrange(0, i as int)).last(),
            match first_uuid(split_lines(output@.subrange(0, i as int)).drop_last()) {
                Some(u) => found matches Some(f) && f@ == u,
                None => found is None,
            },
        decreases n - i,
    {
        let ghost pre = output@.subrange(0, i as int);
        let ghost next = output@.subrange(0, i + 1);
        assert(next.drop_last() =~= pre);
        let c = output.get_char(i);
        if c == '\n' {
            assert(split_lines(next) == split_lines(pre).push(Seq::empty()));
            assert(split_lines(next).drop_last() =~= split_lines(pre));
            if found.is_none() {
                found = uuid_in_line(line.as_str());
            }
            line = String::new();
        } else {
            push_char(&mut line, c);
            assert(split_lines(next) == split_lines(pre).update(split_lines(pre).len() - 1, split_lines(pre).last().push(c)));
            assert(split_lines(next).drop_last() =~= split_lines(pre).drop_last());
        }
        i = i + 1;
    }
    assert(output@.subrange(0, n as int) =~= output@);
    if found.is_none() {
        found = uuid_in_line(line.as_str());
    }
    match found {
        Some(u) => Ok(u),
        None => Err(owned("Could not find Hardware UUID")),
    }
}

} // verus!
