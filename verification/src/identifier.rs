//! Region-network identifiers and their textual form
//! `region-group:group:group`.

use vstd::prelude::*;
use crate::error::ProbeError;
use crate::outside::{match_pattern, pattern_verdict};

verus! {

/// A region (16 bits) and a network number (48 bits).
#[derive(Debug, Clone, Copy, PartialEq, Eq, Structural)]
pub struct RegionNetworkId {
    pub region: u16,
    pub network: u64,
}

/// Code point of `c`.
pub open spec fn code(c: char) -> int {
    c as u32 as int
}

pub open spec fn is_dec_digit(c: char) -> bool {
    0x30 <= code(c) <= 0x39
}

pub open spec fn is_hex_letter(c: char) -> bool {
    0x61 <= code(c) <= 0x66 || 0x41 <= code(c) <= 0x46
}

/// Whether `c` is a digit of base ten, or of base sixteen where `hex` holds.
pub open spec fn is_digit(c: char, hex: bool) -> bool {
    is_dec_digit(c) || (hex && is_hex_letter(c))
}

/// The value of a digit of base sixteen, upper or lower case.
pub open spec fn digit_value(c: char) -> nat {
    if is_dec_digit(c) {
        (code(c) - 0x30) as nat
    } else if 0x61 <= code(c) <= 0x66 {
        (code(c) - 0x61 + 10) as nat
    } else {
        (code(c) - 0x41 + 10) as nat
    }
}

/// The number that the digits of `s` write in the given base, highest digit first.
pub open spec fn number(s: Seq<char>, base: nat) -> nat
    decreases s.len(),
{
    if s.len() == 0 {
        0
    } else {
        number(s.drop_last(), base) * base + digit_value(s.last())
    }
}

pub open spec fn all_digits(s: Seq<char>, hex: bool) -> bool {
    forall|i: int| 0 <= i < s.len() ==> is_digit(#[trigger] s[i], hex)
}

/// A region in text: one to five decimal digits, no leading zero but in `0`
/// itself, at most 65535.
pub open spec fn region_text(s: Seq<char>) -> bool {
    &&& 1 <= s.len() <= 5
    &&& all_digits(s, false)
    &&& (s.len() > 1 ==> s[0] != '0')
    &&& number(s, 10) <= 65535
}

/// A network group in text: one to four hexadecimal digits.
pub open spec fn group_text(s: Seq<char>) -> bool {
    &&& 1 <= s.len() <= 4
    &&& all_digits(s, true)
}

/// The first position at or after `from` at which `s` holds `c`, or the
/// length of `s` where there is none.
pub open spec fn first_index(s: Seq<char>, c: char, from: int) -> int
    decreases s.len() - from,
{
    if from >= s.len() {
        s.len() as int
    } else if s[from] == c {
        from
    } else {
        first_index(s, c, from + 1)
    }
}

pub open spec fn dash_at(s: Seq<char>) -> int {
    first_index(s, '-', 0)
}

pub open spec fn first_colon_at(s: Seq<char>) -> int {
    first_index(s, ':', dash_at(s) + 1)
}

pub open spec fn second_colon_at(s: Seq<char>) -> int {
    first_index(s, ':', first_colon_at(s) + 1)
}

pub open spec fn region_part(s: Seq<char>) -> Seq<char> {
    s.subrange(0, dash_at(s))
}

pub open spec fn high_part(s: Seq<char>) -> Seq<char> {
    s.subrange(dash_at(s) + 1, first_colon_at(s))
}

pub open spec fn middle_part(s: Seq<char>) -> Seq<char> {
    s.subrange(first_colon_at(s) + 1, second_colon_at(s))
}

pub open spec fn low_part(s: Seq<char>) -> Seq<char> {
    s.subrange(second_colon_at(s) + 1, s.len() as int)
}

/// The grammar of an identifier: a region, a dash, and three groups with a
/// colon between them.
pub open spec fn is_identifier(s: Seq<char>) -> bool {
    &&& dash_at(s) < s.len()
    &&& first_colon_at(s) < s.len()
    &&& second_colon_at(s) < s.len()
    &&& region_text(region_part(s))
    &&& group_text(high_part(s))
    &&& group_text(middle_part(s))
    &&& group_text(low_part(s))
}

/// Three 16-bit groups set side by side, the first one highest.
pub open spec fn compose_network(high: nat, middle: nat, low: nat) -> nat {
    high * 0x1_0000_0000 + middle * 0x1_0000 + low
}

/// What an identifier in text stands for.
pub open spec fn identifier_value(s: Seq<char>) -> RegionNetworkId {
    RegionNetworkId {
        region: number(region_part(s), 10) as u16,
        network: compose_network(
            number(high_part(s), 16),
            number(middle_part(s), 16),
            number(low_part(s), 16),
        ) as u64,
    }
}

/// A digit is worth less than sixteen, and less than ten where it is decimal.
pub proof fn lemma_digit_value_bound(c: char, hex: bool)
    requires
        is_digit(c, hex),
    ensures
        digit_value(c) < 16,
        !hex ==> digit_value(c) < 10,
{
}

/// The value of `c` as a digit, where it is one.
fn read_digit(c: char, hex: bool) -> (r: Option<u32>)
    ensures
        r.is_some() <==> is_digit(c, hex),
        r matches Some(v) ==> v == digit_value(c),
{
    let k: u32 = c as u32;
    if 0x30 <= k && k <= 0x39 {
        Some(k - 0x30)
    } else if hex && 0x61 <= k && k <= 0x66 {
        Some(k - 0x61 + 10)
    } else if hex && 0x41 <= k && k <= 0x46 {
        Some(k - 0x41 + 10)
    } else {
        None
    }
}

/// Reads the one to five digits that stand between `from` and `to`.
fn read_number(text: &str, from: usize, to: usize, hex: bool) -> (r: Option<u32>)
    requires
        from <= to <= text@.len(),
    ensures
        r.is_some() <==> (1 <= to - from <= 5 && all_digits(
            text@.subrange(from as int, to as int),
            hex,
        )),
        r matches Some(v) ==> v == number(
            text@.subrange(from as int, to as int),
            if hex { 16 } else { 10 },
        ),
        r matches Some(v) ==> (to - from <= 4 ==> v < 0x1_0000),
{
    if to - from < 1 || to - from > 5 {
        return None;
    }
    let ghost whole = text@.subrange(from as int, to as int);
    let ghost base: nat = if hex { 16 } else { 10 };
    let mut acc: u32 = 0;
    let mut i: usize = from;
    while i < to
        invariant
            from <= i <= to <= text@.len(),
            to - from <= 5,
            whole == text@.subrange(from as int, to as int),
            base == (if hex { 16nat } else { 10nat }),
            all_digits(text@.subrange(from as int, i as int), hex),
            acc == number(text@.subrange(from as int, i as int), base),
            i - from <= 0 ==> acc < 1,
            i - from <= 1 ==> acc < 0x10,
            i - from <= 2 ==> acc < 0x100,
            i - from <= 3 ==> acc < 0x1000,
            i - from <= 4 ==> acc < 0x1_0000,
            acc < 0x10_0000,
        decreases to - i,
    {
        let c = text.get_char(i);
        let ghost before = text@.subrange(from as int, i as int);
        let ghost after = text@.subrange(from as int, i + 1);
        proof {
            assert(after.drop_last() =~= before);
            assert(after.last() == c);
            assert(whole[i - from] == c);
        }
        match read_digit(c, hex) {
            None => {
                return None;
            },
            Some(d) => {
                proof {
                    lemma_digit_value_bound(c, hex);
                    assert forall|j: int| 0 <= j < after.len() implies is_digit(
                        #[trigger] after[j],
                        hex,
                    ) by {
                        if j < before.len() {
                            assert(after[j] == before[j]);
                        }
                    }
                }
                if hex {
                    acc = acc * 16 + d;
                } else {
                    acc = acc * 10 + d;
                }
            },
        }
        i = i + 1;
    }
    proof {
        assert(text@.subrange(from as int, i as int) =~= whole);
    }
    Some(acc)
}

/// Finds the first `c` at or after `from`.
fn find_char(text: &str, c: char, from: usize, len: usize) -> (r: usize)
    requires
        len == text@.len(),
        from <= len,
    ensures
        r == first_index(text@, c, from as int),
        from <= r <= len,
        r < len ==> text@[r as int] == c,
{
    let mut i: usize = from;
    while i < len
        invariant
            from <= i <= len,
            len == text@.len(),
            first_index(text@, c, from as int) == first_index(text@, c, i as int),
        decreases len - i,
    {
        if text.get_char(i) == c {
            return i;
        }
        i = i + 1;
    }
    i
}

impl RegionNetworkId {
    /// The network number fits in 48 bits.
    pub open spec fn well_formed(&self) -> bool {
        self.network < 0x1_0000_0000_0000
    }

    /// The identifier as one 64-bit number: the region above the network.
    pub open spec fn packed(&self) -> nat {
        (self.region as nat * 0x1_0000_0000_0000 + self.network) as nat
    }

    /// The three 16-bit groups of the network number, highest first.
    pub open spec fn groups(&self) -> (nat, nat, nat) {
        (
            self.network as nat / 0x1_0000_0000,
            (self.network as nat / 0x1_0000) % 0x1_0000,
            self.network as nat % 0x1_0000,
        )
    }

    /// Puts a region and three groups together.
    pub fn from_groups(region: u16, high: u16, middle: u16, low: u16) -> (id: RegionNetworkId)
        ensures
            id.region == region,
            id.network == compose_network(high as nat, middle as nat, low as nat),
            id.well_formed(),
            id.groups() == (high as nat, middle as nat, low as nat),
    {
        let h: u64 = high as u64;
        let m: u64 = middle as u64;
        let l: u64 = low as u64;
        let network: u64 = (h << 32) | (m << 16) | l;
        proof {
            assert(((h << 32) | (m << 16) | l) == h * 0x1_0000_0000 + m * 0x1_0000 + l)
                by (bit_vector)
                requires
                    h < 0x1_0000,
                    m < 0x1_0000,
                    l < 0x1_0000,
            ;
        }
        RegionNetworkId { region, network }
    }

    /// Takes the network number apart into its three groups.
    pub fn hextets(&self) -> (g: (u16, u16, u16))
        requires
            self.well_formed(),
        ensures
            (g.0 as nat, g.1 as nat, g.2 as nat) == self.groups(),
            self.network == compose_network(g.0 as nat, g.1 as nat, g.2 as nat),
    {
        let n: u64 = self.network;
        proof {
            assert(n >> 32 == n / 0x1_0000_0000 && (n >> 16) & 0xffff == (n / 0x1_0000) % 0x1_0000
                && n & 0xffff == n % 0x1_0000) by (bit_vector);
            assert(n >> 32 < 0x1_0000) by (bit_vector)
                requires
                    n < 0x1_0000_0000_0000,
            ;
            lemma_groups_compose(*self);
        }
        ((n >> 32) as u16, ((n >> 16) & 0xffff) as u16, (n & 0xffff) as u16)
    }

    /// The identifier as one 64-bit number.
    pub fn to_u64(&self) -> (v: u64)
        requires
            self.well_formed(),
        ensures
            v == self.packed(),
    {
        let r: u64 = self.region as u64;
        let n: u64 = self.network;
        proof {
            assert(((r << 48) | n) == r * 0x1_0000_0000_0000 + n) by (bit_vector)
                requires
                    r < 0x1_0000,
                    n < 0x1_0000_0000_0000,
            ;
        }
        (r << 48) | n
    }

    /// Reads an identifier, or says that the text is none.
    pub fn parse(text: &str) -> (r: Result<RegionNetworkId, ProbeError>)
        ensures
            r.is_ok() <==> is_identifier(text@),
            r matches Ok(id) ==> id == identifier_value(text@) && id.well_formed(),
            r matches Err(e) ==> e matches ProbeError::MalformedIdentifier(t) && t@ == text@,
    {
        let len = text.unicode_len();
        let dash = find_char(text, '-', 0, len);
        if dash >= len {
            return Err(ProbeError::MalformedIdentifier(text.to_owned()));
        }
        let first = find_char(text, ':', dash + 1, len);
        if first >= len {
            return Err(ProbeError::MalformedIdentifier(text.to_owned()));
        }
        let second = find_char(text, ':', first + 1, len);
        if second >= len {
            return Err(ProbeError::MalformedIdentifier(text.to_owned()));
        }
        let region = read_number(text, 0, dash, false);
        let high = read_number(text, dash + 1, first, true);
        let middle = read_number(text, first + 1, second, true);
        let low = read_number(text, second + 1, len, true);
        if first - dash > 5 || second - first > 5 || len - second > 5 {
            return Err(ProbeError::MalformedIdentifier(text.to_owned()));
        }
        match (region, high, middle, low) {
            (Some(r), Some(h), Some(m), Some(l)) => {
                let leading_zero = dash > 1 && text.get_char(0) == '0';
                proof {
                    assert(region_part(text@)[0] == text@[0]);
                }
                if r > 65535 || leading_zero {
                    return Err(ProbeError::MalformedIdentifier(text.to_owned()));
                }
                Ok(RegionNetworkId::from_groups(r as u16, h as u16, m as u16, l as u16))
            },
            _ => Err(ProbeError::MalformedIdentifier(text.to_owned())),
        }
    }
}

/// The text `region-high:middle:low`.
pub open spec fn identifier_text(
    region: Seq<char>,
    high: Seq<char>,
    middle: Seq<char>,
    low: Seq<char>,
) -> Seq<char> {
    region + seq!['-'] + high + seq![':'] + middle + seq![':'] + low
}

/// Where `c` stands at `at` and nowhere between `from` and `at`, `at` is
/// where it is first found.
pub proof fn lemma_first_index_found(s: Seq<char>, c: char, from: int, at: int)
    requires
        0 <= from <= at < s.len(),
        s[at] == c,
        forall|j: int| from <= j < at ==> s[j] != c,
    ensures
        first_index(s, c, from) == at,
    decreases at - from,
{
    if from < at {
        lemma_first_index_found(s, c, from + 1, at);
    }
}

/// Where `c` is first found at or after `from`: not before `from`, at a
/// place that holds `c` unless the text has ended, and past none.
pub proof fn lemma_first_index_bounds(s: Seq<char>, c: char, from: int)
    requires
        0 <= from <= s.len(),
    ensures
        from <= first_index(s, c, from) <= s.len(),
        first_index(s, c, from) < s.len() ==> s[first_index(s, c, from)] == c,
        forall|j: int| from <= j < first_index(s, c, from) ==> s[j] != c,
    decreases s.len() - from,
{
    if from < s.len() && s[from] != c {
        lemma_first_index_bounds(s, c, from + 1);
    }
}

/// Every identifier is a region, a dash and three groups with a colon
/// between them.
pub proof fn lemma_identifier_has_form(s: Seq<char>)
    requires
        is_identifier(s),
    ensures
        s == identifier_text(region_part(s), high_part(s), middle_part(s), low_part(s)),
        region_text(region_part(s)),
        group_text(high_part(s)),
        group_text(middle_part(s)),
        group_text(low_part(s)),
{
    lemma_first_index_bounds(s, '-', 0);
    lemma_first_index_bounds(s, ':', dash_at(s) + 1);
    lemma_first_index_bounds(s, ':', first_colon_at(s) + 1);
    assert(s =~= identifier_text(region_part(s), high_part(s), middle_part(s), low_part(s)));
}

/// Up to four hexadecimal digits write a number below 65536.
pub proof fn lemma_group_fits(s: Seq<char>)
    requires
        s.len() <= 4,
        all_digits(s, true),
    ensures
        s.len() <= 0 ==> number(s, 16) < 1,
        s.len() <= 1 ==> number(s, 16) < 0x10,
        s.len() <= 2 ==> number(s, 16) < 0x100,
        s.len() <= 3 ==> number(s, 16) < 0x1000,
        number(s, 16) < 0x1_0000,
    decreases s.len(),
{
    if s.len() > 0 {
        let front = s.drop_last();
        assert forall|i: int| 0 <= i < front.len() implies is_digit(#[trigger] front[i], true) by {
            assert(front[i] == s[i]);
        }
        lemma_group_fits(front);
        lemma_digit_value_bound(s.last(), true);
    }
}

/// The groups of a network number, set side by side again, are that number.
pub proof fn lemma_groups_compose(id: RegionNetworkId)
    ensures
        compose_network(id.groups().0, id.groups().1, id.groups().2) == id.network,
        id.well_formed() ==> id.groups().0 < 0x1_0000,
        id.groups().1 < 0x1_0000,
        id.groups().2 < 0x1_0000,
{
}

/// Three groups set side by side fall apart into the same three groups.
pub proof fn lemma_compose_groups(region: u16, high: nat, middle: nat, low: nat)
    requires
        high < 0x1_0000,
        middle < 0x1_0000,
        low < 0x1_0000,
    ensures
        compose_network(high, middle, low) < 0x1_0000_0000_0000,
        (RegionNetworkId {
            region,
            network: compose_network(high, middle, low) as u64,
        }).groups() == (high, middle, low),
{
    let n = compose_network(high, middle, low) as int;
    let upper = high * 0x1_0000 + middle;
    vstd::arithmetic::div_mod::lemma_fundamental_div_mod_converse(
        n,
        0x1_0000_0000,
        high as int,
        (middle * 0x1_0000 + low) as int,
    );
    vstd::arithmetic::div_mod::lemma_fundamental_div_mod_converse(
        n,
        0x1_0000,
        upper as int,
        low as int,
    );
    vstd::arithmetic::div_mod::lemma_fundamental_div_mod_converse(
        upper as int,
        0x1_0000,
        high as int,
        middle as int,
    );
}

/// A region and three groups, written out with a dash and two colons, are an
/// identifier, and reading it gives back the region and the three groups,
/// the first group highest.
pub proof fn lemma_text_is_read_back(
    region: Seq<char>,
    high: Seq<char>,
    middle: Seq<char>,
    low: Seq<char>,
)
    requires
        region_text(region),
        group_text(high),
        group_text(middle),
        group_text(low),
    ensures
        is_identifier(identifier_text(region, high, middle, low)),
        identifier_value(identifier_text(region, high, middle, low)).region == number(region, 10),
        identifier_value(identifier_text(region, high, middle, low)).network == compose_network(
            number(high, 16),
            number(middle, 16),
            number(low, 16),
        ),
        identifier_value(identifier_text(region, high, middle, low)).groups() == (
            number(high, 16),
            number(middle, 16),
            number(low, 16),
        ),
        identifier_value(identifier_text(region, high, middle, low)).well_formed(),
{
    let t = identifier_text(region, high, middle, low);
    let dash = region.len() as int;
    let first = dash + 1 + high.len();
    let second = first + 1 + middle.len();
    assert(t.len() == second + 1 + low.len());
    assert forall|j: int| 0 <= j < dash implies t[j] != '-' by {
        assert(t[j] == region[j]);
        assert(is_digit(region[j], false));
    }
    assert(t[dash] == '-');
    lemma_first_index_found(t, '-', 0, dash);
    assert forall|j: int| dash + 1 <= j < first implies t[j] != ':' by {
        assert(t[j] == high[j - dash - 1]);
        assert(is_digit(high[j - dash - 1], true));
    }
    assert(t[first] == ':');
    lemma_first_index_found(t, ':', dash + 1, first);
    assert forall|j: int| first + 1 <= j < second implies t[j] != ':' by {
        assert(t[j] == middle[j - first - 1]);
        assert(is_digit(middle[j - first - 1], true));
    }
    assert(t[second] == ':');
    lemma_first_index_found(t, ':', first + 1, second);
    assert(region_part(t) =~= region);
    assert(high_part(t) =~= high);
    assert(middle_part(t) =~= middle);
    assert(low_part(t) =~= low);
    lemma_group_fits(high);
    lemma_group_fits(middle);
    lemma_group_fits(low);
    lemma_compose_groups(number(region, 10) as u16, number(high, 16), number(middle, 16), number(low, 16));
}

/// The pattern that an identifier is held against before it is read.
pub open spec fn pattern_text() -> Seq<char> {
    "^(0|[1-9][0-9]{0,4}|[1-5][0-9]{5}|6[0-4][0-9]{4}|65[0-4][0-9]{3}|6553[0-5])-([0-9a-fA-F]{1,4}):([0-9a-fA-F]{1,4}):([0-9a-fA-F]{1,4})$"@
}

/// The pattern that an identifier is held against before it is read.
pub fn identifier_pattern() -> (p: &'static str)
    ensures
        p@ == pattern_text(),
{
    "^(0|[1-9][0-9]{0,4}|[1-5][0-9]{5}|6[0-4][0-9]{4}|65[0-4][0-9]{3}|6553[0-5])-([0-9a-fA-F]{1,4}):([0-9a-fA-F]{1,4}):([0-9a-fA-F]{1,4})$"
}

/// Reads an identifier that has been held against the pattern: one that did
/// not pass is refused unread, one that passed is read and refused where it
/// is no identifier all the same.
pub fn parse_screened(passed: bool, text: &str) -> (r: Result<RegionNetworkId, ProbeError>)
    ensures
        r.is_ok() <==> passed && is_identifier(text@),
        r matches Ok(id) ==> id == identifier_value(text@) && id.well_formed(),
        r matches Err(e) ==> e matches ProbeError::MalformedIdentifier(t) && t@ == text@,
{
    if !passed {
        return Err(ProbeError::MalformedIdentifier(text.to_owned()));
    }
    RegionNetworkId::parse(text)
}

/// A text that passes the pattern and is an identifier.
pub open spec fn accepted(text: Seq<char>) -> bool {
    pattern_verdict(pattern_text(), text) == Some(true) && is_identifier(text)
}

/// Holds the text against the pattern, then reads it.
pub fn parse_identifier(text: &str) -> (r: Result<RegionNetworkId, ProbeError>)
    ensures
        r.is_ok() <==> accepted(text@),
        r matches Ok(id) ==> id == identifier_value(text@) && id.well_formed(),
        r matches Err(e) ==> e matches ProbeError::MalformedIdentifier(t) && t@ == text@,
{
    let passed = match match_pattern(identifier_pattern(), text) {
        Ok(found) => found,
        Err(_) => false,
    };
    parse_screened(passed, text)
}

/// Reads the source identifier, then the destination identifier; the first
/// that is refused is the one reported.
pub fn parse_pair(source: &str, destination: &str) -> (r: Result<
    (RegionNetworkId, RegionNetworkId),
    ProbeError,
>)
    ensures
        r.is_ok() <==> accepted(source@) && accepted(destination@),
        r matches Ok(ids) ==> {
            &&& ids.0 == identifier_value(source@)
            &&& ids.1 == identifier_value(destination@)
            &&& ids.0.well_formed()
            &&& ids.1.well_formed()
        },
        r matches Err(e) ==> e matches ProbeError::MalformedIdentifier(t) && t@ == (if accepted(
            source@,
        ) {
            destination@
        } else {
            source@
        }),
{
    let first = match parse_identifier(source) {
        Ok(id) => id,
        Err(e) => {
            return Err(e);
        },
    };
    match parse_identifier(destination) {
        Ok(second) => Ok((first, second)),
        Err(e) => Err(e),
    }
}

} // verus!
