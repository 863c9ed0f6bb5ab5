use vstd::prelude::*;

verus! {

/// An opaque random identifier minted per login challenge.  It binds a
/// client's subsequent verify-2fa call to one specific challenge instance,
/// so a stale id/code pair from a superseded challenge cannot be replayed.
#[derive(Debug)]
pub struct LoginAttemptId(String);

/// Relies on `uuid::Uuid::new_v4` and its `Display` form: a random
/// version-4 UUID, formatted as 36 hyphenated characters.
#[verifier::external_body]
fn mint_uuid_string() -> (r: String)
    ensures
        r@.len() == 36,
{
    uuid::Uuid::new_v4().to_string()
}

impl LoginAttemptId {
    /// Wraps an identifier received back from a client, to be compared
    /// against the stored challenge.
    pub fn new(s: String) -> (r: LoginAttemptId)
        ensures
            r@ == s@,
    {
        LoginAttemptId(s)
    }

    /// The identifier as a string slice.
    pub fn as_ref(&self) -> (r: &str)
        ensures
            r@ == self@,
    {
        self.0.as_str()
    }
}

impl Default for LoginAttemptId {
    /// Mints a fresh random attempt id.
    fn default() -> (r: Self)
        ensures
            r@.len() == 36,
    {
        LoginAttemptId(mint_uuid_string())
    }
}

impl View for LoginAttemptId {
    type V = Seq<char>;

    closed spec fn view(&self) -> Seq<char> {
        self.0@
    }
}

impl Clone for LoginAttemptId {
    fn clone(&self) -> (r: Self)
        ensures
            r == *self,
    {
        LoginAttemptId(self.0.clone())
    }
}

impl PartialEq for LoginAttemptId {
    fn eq(&self, other: &Self) -> (r: bool) {
        self.0 == other.0
    }
}

impl vstd::std_specs::cmp::PartialEqSpecImpl for LoginAttemptId {
    open spec fn obeys_eq_spec() -> bool {
        true
    }

    open spec fn eq_spec(&self, other: &Self) -> bool {
        self@ == other@
    }
}

/// A two-factor code value is a six-digit number without a leading zero.
pub open spec fn is_valid_two_fa_code(v: u32) -> bool {
    100000 <= v <= 999999
}

/// A fixed-width numeric one-time code, randomly generated per challenge and
/// compared by exact equality.
#[derive(Clone, Copy, Debug, PartialEq, Eq, Structural)]
pub struct TwoFACode(u32);

/// Relies on `rand::Rng::gen_range` over `lo..=hi`: the sample always lies
/// within the requested (non-empty) range.
#[verifier::external_body]
fn random_in_range(lo: u32, hi: u32) -> (r: u32)
    requires
        lo <= hi,
    ensures
        lo <= r <= hi,
{
    rand::Rng::gen_range(&mut rand::thread_rng(), lo..=hi)
}

/// Whether `c` is a decimal digit character.
pub open spec fn is_dec_digit(c: char) -> bool {
    c == '0' || c == '1' || c == '2' || c == '3' || c == '4' || c == '5' || c == '6' || c == '7'
        || c == '8' || c == '9'
}

/// The value of a decimal digit character (0 for anything else).
pub open spec fn dec_digit_val(c: char) -> u32 {
    if c == '1' {
        1
    } else if c == '2' {
        2
    } else if c == '3' {
        3
    } else if c == '4' {
        4
    } else if c == '5' {
        5
    } else if c == '6' {
        6
    } else if c == '7' {
        7
    } else if c == '8' {
        8
    } else if c == '9' {
        9
    } else {
        0
    }
}

/// The numeric value of the first `i` characters of `s`, read as decimal
/// digits.
pub open spec fn dec_prefix_val(s: Seq<char>, i: int) -> int
    decreases i,
{
    if i <= 0 {
        0
    } else {
        10 * dec_prefix_val(s, i - 1) + dec_digit_val(s[i - 1]) as int
    }
}

/// The value of a six-character decimal string, or `None` if `s` is not one.
pub open spec fn two_fa_code_val(s: Seq<char>) -> Option<int> {
    if s.len() == 6 && (forall|j: int| 0 <= j < 6 ==> is_dec_digit(#[trigger] s[j])) {
        Some(dec_prefix_val(s, 6))
    } else {
        None
    }
}

/// The value of a decimal digit character, if it is one.
fn dec_digit_of(c: char) -> (r: Option<u32>)
    ensures
        r is Some <==> is_dec_digit(c),
        r matches Some(d) ==> d == dec_digit_val(c) && d < 10,
{
    match c {
        '0' => Some(0),
        '1' => Some(1),
        '2' => Some(2),
        '3' => Some(3),
        '4' => Some(4),
        '5' => Some(5),
        '6' => Some(6),
        '7' => Some(7),
        '8' => Some(8),
        '9' => Some(9),
        _ => None,
    }
}

impl TwoFACode {
    /// The numeric value of the code.
    pub fn value(&self) -> (r: u32)
        ensures
            r == self@,
    {
        self.0
    }

    /// Whether the string a client sent back is exactly this code: six
    /// decimal digits with this value.
    pub fn code_matches(&self, s: &str) -> (r: bool)
        ensures
            r == (two_fa_code_val(s@) == Some(self@ as int)),
    {
        match code_value_of(s) {
            Some(v) => v == self.0,
            None => false,
        }
    }

    /// Reads a stored or transmitted code back: six decimal digits whose
    /// value is a valid code.
    pub fn parse(s: &str) -> (r: Option<TwoFACode>)
        ensures
            r matches Some(c) ==> two_fa_code_val(s@) == Some(c@ as int) && is_valid_two_fa_code(
                c@,
            ),
            r is None ==> !(exists|v: u32|
                two_fa_code_val(s@) == Some(v as int) && #[trigger] is_valid_two_fa_code(v)),
    {
        match code_value_of(s) {
            Some(v) => if 100000 <= v && v <= 999999 {
                Some(TwoFACode(v))
            } else {
                None
            },
            None => None,
        }
    }
}

/// The value of a six-digit decimal string, if it is one.
fn code_value_of(s: &str) -> (r: Option<u32>)
    ensures
        r matches Some(v) ==> two_fa_code_val(s@) == Some(v as int),
        r is None ==> two_fa_code_val(s@) is None,
{
    if s.unicode_len() != 6 {
        return None;
    }
    let mut acc: u32 = 0;
    let mut i: usize = 0;
    while i < 6
        invariant
            i <= 6,
            s@.len() == 6,
            forall|j: int| 0 <= j < i ==> is_dec_digit(#[trigger] s@[j]),
            acc as int == dec_prefix_val(s@, i as int),
            acc <= 999999,
        decreases 6 - i,
    {
        let c = s.get_char(i);
        match dec_digit_of(c) {
            Some(d) => {
                proof {
                    lemma_dec_prefix_bound(s@, i as int);
                    lemma_pow10_increases(i as int, 5);
                    assert(pow10(5) == 100000) by {
                        reveal_with_fuel(pow10, 6);
                    }
                }
                acc = acc * 10 + d;
                i = i + 1;
            },
            None => {
                assert(!is_dec_digit(s@[i as int]));
                return None;
            },
        }
    }
    Some(acc)
}

/// Ten to the power `i`.
spec fn pow10(i: int) -> int
    decreases i,
{
    if i <= 0 {
        1
    } else {
        10 * pow10(i - 1)
    }
}

/// The value of an `i`-digit decimal prefix is below `10^i`.
proof fn lemma_dec_prefix_bound(s: Seq<char>, i: int)
    ensures
        0 <= dec_prefix_val(s, i) < pow10(i),
    decreases i,
{
    if i > 0 {
        lemma_dec_prefix_bound(s, i - 1);
    }
}

proof fn lemma_pow10_pos(i: int)
    ensures
        pow10(i) >= 1,
    decreases i,
{
    if i > 0 {
        lemma_pow10_pos(i - 1);
    }
}

proof fn lemma_pow10_increases(a: int, b: int)
    requires
        a <= b,
    ensures
        pow10(a) <= pow10(b),
    decreases b - a,
{
    if a < b && b > 0 {
        lemma_pow10_increases(a, b - 1);
        lemma_pow10_pos(b - 1);
    }
}

impl Default for TwoFACode {
    /// Mints a fresh random six-digit code.
    fn default() -> (r: Self)
        ensures
            is_valid_two_fa_code(r@),
    {
        TwoFACode(random_in_range(100000, 999999))
    }
}

impl View for TwoFACode {
    type V = u32;

    closed spec fn view(&self) -> u32 {
        self.0
    }
}

} // verus!
