//! Semantic versions of modules and the rule that decides whether two
//! versions of one module can stand in for each other.

use crate::text::chars_of;
use core::cmp::Ordering;
use vstd::arithmetic::div_mod::{lemma_breakdown, lemma_div_denominator};
use vstd::pervasive::unreached;
use vstd::prelude::*;
use vstd::string::StringExecFns;

verus! {

/// A semantic version `major.minor.patch`.
#[derive(Debug, PartialEq, Eq, Structural, Clone, Copy)]
pub struct EffectiveVersion {
    pub major: u16,
    pub minor: u16,
    pub patch: u16,
}

/// How one version of a module relates to another version of the same module.
#[derive(Debug, PartialEq, Eq, Structural, Clone, Copy)]
pub enum VersionCompatibility {
    Equals,
    GreaterThan,
    LessThan,
    Conflict,
}

/// Whether `c` is one of the decimal digits `0` to `9`.
pub open spec fn is_digit(c: char) -> bool {
    '0' <= c && c <= '9'
}

/// The number that a run of decimal digits denotes; leading zeros do not count.
pub open spec fn decimal_value(digits: Seq<char>) -> nat
    decreases digits.len(),
{
    if digits.len() == 0 {
        0
    } else {
        decimal_value(digits.drop_last()) * 10 + (digits.last() as nat - '0' as nat) as nat
    }
}

/// The decimal digit that stands for `digit`.
pub open spec fn digit_char(digit: nat) -> char {
    ('0' as nat + digit) as char
}

/// `n` written in decimal digits, without leading zeros.
pub open spec fn decimal_text(n: nat) -> Seq<char>
    decreases n,
{
    if n < 10 {
        seq![digit_char(n)]
    } else {
        decimal_text(n / 10).push(digit_char(n % 10))
    }
}

/// Whether `text` holds decimal digits only.
pub open spec fn all_digits(text: Seq<char>) -> bool {
    forall|i: int| 0 <= i < text.len() ==> is_digit(#[trigger] text[i])
}

/// `text` without its leading `+`, if it has one.
pub open spec fn without_sign(text: Seq<char>) -> Seq<char> {
    if text.len() > 0 && text[0] == '+' {
        text.drop_first()
    } else {
        text
    }
}

/// What one component of a version string denotes: an optional `+`, then one
/// or more decimal digits whose value fits in 16 bits. Any other text denotes
/// nothing.
pub open spec fn component_value(text: Seq<char>) -> Option<u16> {
    let digits = without_sign(text);
    if digits.len() > 0 && all_digits(digits) && decimal_value(digits) <= u16::MAX {
        Some(decimal_value(digits) as u16)
    } else {
        None
    }
}

/// The index of the first `.` of `text` at or after `from`, or the length of
/// `text` if there is none.
pub open spec fn component_end(text: Seq<char>, from: int) -> int
    decreases text.len() - from,
{
    if from >= text.len() {
        text.len() as int
    } else if text[from] == '.' {
        from
    } else {
        component_end(text, from + 1)
    }
}

impl EffectiveVersion {
    /// The version that `text` denotes: three components separated by two
    /// dots, with no third dot. Any other text denotes no version.
    pub open spec fn parse(text: Seq<char>) -> Option<EffectiveVersion> {
        let first = component_end(text, 0);
        let second = component_end(text, first + 1);
        let third = component_end(text, second + 1);
        if first < text.len() && second < text.len() && third == text.len() {
            match (
                component_value(text.subrange(0, first)),
                component_value(text.subrange(first + 1, second)),
                component_value(text.subrange(second + 1, third)),
            ) {
                (Some(major), Some(minor), Some(patch)) => Some(
                    EffectiveVersion { major, minor, patch },
                ),
                _ => None,
            }
        } else {
            None
        }
    }

    /// The version written as `major.minor.patch` in decimal digits.
    pub open spec fn text(self) -> Seq<char> {
        decimal_text(self.major as nat) + seq!['.'] + decimal_text(self.minor as nat) + seq!['.']
            + decimal_text(self.patch as nat)
    }

    /// The version packed into 48 bits: major, minor and patch from the most
    /// significant to the least significant 16 bits.
    pub open spec fn packed(self) -> int {
        self.major as int * 0x1_0000_0000 + self.minor as int * 0x1_0000 + self.patch as int
    }

    /// The version whose packed form is the low 48 bits of `value`.
    pub open spec fn from_packed(value: int) -> EffectiveVersion {
        EffectiveVersion {
            major: ((value / 0x1_0000_0000) % 0x1_0000) as u16,
            minor: ((value / 0x1_0000) % 0x1_0000) as u16,
            patch: (value % 0x1_0000) as u16,
        }
    }

    /// Two versions conflict when neither can replace the other: their major
    /// versions differ, or both are pre-release (major 0) with different minors.
    pub open spec fn conflicts_with(self, other: EffectiveVersion) -> bool {
        self.major != other.major || (self.major == 0 && self.minor != other.minor)
    }

    /// The relation of `self` to `other`.
    pub open spec fn compatibility(self, other: EffectiveVersion) -> VersionCompatibility {
        if self.conflicts_with(other) {
            VersionCompatibility::Conflict
        } else if self.packed() > other.packed() {
            VersionCompatibility::GreaterThan
        } else if self.packed() < other.packed() {
            VersionCompatibility::LessThan
        } else {
            VersionCompatibility::Equals
        }
    }

    pub fn new(major: u16, minor: u16, patch: u16) -> (version: Self)
        ensures
            version.major == major,
            version.minor == minor,
            version.patch == patch,
    {
        Self { major, minor, patch }
    }

    /// Unpacks the low 48 bits of `value`; the high 16 bits are ignored.
    pub fn from_u64(value: u64) -> (version: Self)
        ensures
            version == Self::from_packed(value as int),
    {
        let patch: u16 = (value % 0x1_0000) as u16;
        let minor: u16 = ((value / 0x1_0000) % 0x1_0000) as u16;
        let major: u16 = ((value / 0x1_0000_0000) % 0x1_0000) as u16;
        Self { major, minor, patch }
    }

    /// Parses a version string in the format `x.y.z`, or says that `version`
    /// is not in that format.
    pub fn parse_version_string(version: &str) -> (parsed: Option<EffectiveVersion>)
        ensures
            parsed == Self::parse(version@),
    {
        let chars = chars_of(version);
        let first = find_component_end(&chars, 0);
        if first >= chars.len() {
            return None;
        }
        let second = find_component_end(&chars, first + 1);
        if second >= chars.len() {
            return None;
        }
        let third = find_component_end(&chars, second + 1);
        if third != chars.len() {
            return None;
        }
        let major = parse_component(&chars, 0, first);
        let minor = parse_component(&chars, first + 1, second);
        let patch = parse_component(&chars, second + 1, third);
        match (major, minor, patch) {
            (Some(major), Some(minor), Some(patch)) => Some(EffectiveVersion { major, minor, patch }),
            _ => None,
        }
    }

    /// Parses a version string in the format `x.y.z`.
    pub fn from_version_string(version: &str) -> (parsed: Self)
        requires
            Self::parse(version@) is Some,
        ensures
            Some(parsed) == Self::parse(version@),
    {
        match Self::parse_version_string(version) {
            Some(parsed) => parsed,
            None => unreached(),
        }
    }

    pub fn to_u64(&self) -> (value: u64)
        ensures
            value as int == self.packed(),
    {
        let major: u64 = self.major as u64;
        let minor: u64 = self.minor as u64;
        let patch: u64 = self.patch as u64;
        major * 0x1_0000_0000 + minor * 0x1_0000 + patch
    }

    pub fn to_string(&self) -> (text: String)
        ensures
            text@ == self.text(),
    {
        let mut text = String::new();
        append_decimal(&mut text, self.major);
        text.append(".");
        append_decimal(&mut text, self.minor);
        text.append(".");
        append_decimal(&mut text, self.patch);
        proof {
            reveal_strlit(".");
            assert("."@ == seq!['.']);
        }
        text
    }

    pub fn compatible(&self, other: &EffectiveVersion) -> (result: VersionCompatibility)
        ensures
            result == self.compatibility(*other),
    {
        if self.major != other.major {
            VersionCompatibility::Conflict
        } else if self.major == 0 {
            if self.minor != other.minor {
                VersionCompatibility::Conflict
            } else if self.patch > other.patch {
                VersionCompatibility::GreaterThan
            } else if self.patch < other.patch {
                VersionCompatibility::LessThan
            } else {
                VersionCompatibility::Equals
            }
        } else {
            if self.minor > other.minor {
                VersionCompatibility::GreaterThan
            } else if self.minor < other.minor {
                VersionCompatibility::LessThan
            } else if self.patch > other.patch {
                VersionCompatibility::GreaterThan
            } else if self.patch < other.patch {
                VersionCompatibility::LessThan
            } else {
                VersionCompatibility::Equals
            }
        }
    }
}

fn digit_text(digit: u16) -> (text: &'static str)
    requires
        digit < 10,
    ensures
        text@ == seq![digit_char(digit as nat)],
{
    proof {
        reveal_strlit("0");
        reveal_strlit("1");
        reveal_strlit("2");
        reveal_strlit("3");
        reveal_strlit("4");
        reveal_strlit("5");
        reveal_strlit("6");
        reveal_strlit("7");
        reveal_strlit("8");
        reveal_strlit("9");
    }
    let text = match digit {
        0 => "0",
        1 => "1",
        2 => "2",
        3 => "3",
        4 => "4",
        5 => "5",
        6 => "6",
        7 => "7",
        8 => "8",
        _ => "9",
    };
    assert(text@ =~= seq![digit_char(digit as nat)]);
    text
}

fn append_decimal(text: &mut String, n: u16)
    ensures
        final(text)@ == old(text)@ + decimal_text(n as nat),
    decreases n,
{
    if n >= 10 {
        append_decimal(text, n / 10);
    }
    text.append(digit_text(n % 10));
}

fn find_component_end(chars: &Vec<char>, from: usize) -> (end: usize)
    requires
        from <= chars.len(),
    ensures
        end == component_end(chars@, from as int),
        from <= end <= chars.len(),
{
    let mut end = from;
    while end < chars.len() && chars[end] != '.'
        invariant
            from <= end <= chars.len(),
            component_end(chars@, from as int) == component_end(chars@, end as int),
        decreases chars.len() - end,
    {
        end += 1;
    }
    end
}

/// A prefix of a run of digits denotes no more than the whole run.
proof fn lemma_decimal_value_prefix(digits: Seq<char>, n: int)
    requires
        0 <= n <= digits.len(),
    ensures
        decimal_value(digits.take(n)) <= decimal_value(digits),
    decreases digits.len() - n,
{
    if n < digits.len() {
        lemma_decimal_value_prefix(digits, n + 1);
        assert(digits.take(n + 1).drop_last() == digits.take(n));
    } else {
        assert(digits.take(n) == digits);
    }
}

fn parse_component(chars: &Vec<char>, start: usize, end: usize) -> (value: Option<u16>)
    requires
        start <= end <= chars.len(),
    ensures
        value == component_value(chars@.subrange(start as int, end as int)),
{
    let ghost text = chars@.subrange(start as int, end as int);
    let begin = if start < end && chars[start] == '+' {
        start + 1
    } else {
        start
    };
    let ghost digits = chars@.subrange(begin as int, end as int);
    assert(digits == without_sign(text));
    if begin == end {
        return None;
    }
    let mut value: u32 = 0;
    let mut i = begin;
    while i < end
        invariant
            start <= begin <= i <= end <= chars.len(),
            text == chars@.subrange(start as int, end as int),
            digits == chars@.subrange(begin as int, end as int),
            digits == without_sign(text),
            forall|k: int| 0 <= k < i - begin ==> is_digit(#[trigger] digits[k]),
            value == decimal_value(digits.take(i - begin)),
            value <= u16::MAX,
        decreases end - i,
    {
        let c = chars[i];
        assert(c == digits[i - begin]);
        if c < '0' || c > '9' {
            assert(!is_digit(digits[i - begin]));
            return None;
        }
        let digit: u32 = c as u32 - '0' as u32;
        let next: u32 = value * 10 + digit;
        proof {
            assert(digits.take(i - begin + 1).drop_last() == digits.take(i - begin));
            assert(next == decimal_value(digits.take(i - begin + 1)));
            lemma_decimal_value_prefix(digits, i - begin + 1);
        }
        if next > 0xffff {
            return None;
        }
        value = next;
        i += 1;
    }
    assert(digits.take(end - begin) == digits);
    assert(all_digits(digits));
    Some(value as u16)
}

/// Versions are ordered by major, then minor, then patch.
impl PartialOrd for EffectiveVersion {
    fn partial_cmp(&self, other: &Self) -> (result: Option<Ordering>) {
        let left = self.to_u64();
        let right = other.to_u64();
        if left < right {
            Some(Ordering::Less)
        } else if left > right {
            Some(Ordering::Greater)
        } else {
            Some(Ordering::Equal)
        }
    }
}

impl vstd::std_specs::cmp::PartialOrdSpecImpl for EffectiveVersion {
    open spec fn obeys_partial_cmp_spec() -> bool {
        true
    }

    open spec fn partial_cmp_spec(&self, other: &Self) -> Option<Ordering> {
        if self.packed() < other.packed() {
            Some(Ordering::Less)
        } else if self.packed() > other.packed() {
            Some(Ordering::Greater)
        } else {
            Some(Ordering::Equal)
        }
    }
}

/// The decimal text of a number is a run of digits that denotes the number.
proof fn lemma_decimal_text(n: nat)
    ensures
        decimal_text(n).len() > 0,
        all_digits(decimal_text(n)),
        decimal_value(decimal_text(n)) == n,
    decreases n,
{
    let text = decimal_text(n);
    assert(digit_char(n % 10) as nat - '0' as nat == n % 10);
    if n < 10 {
        assert(text.drop_last() =~= Seq::<char>::empty());
        assert(decimal_value(text.drop_last()) == 0);
    } else {
        lemma_decimal_text(n / 10);
        assert(text.drop_last() =~= decimal_text(n / 10));
    }
    assert(text.last() == digit_char(n % 10));
    assert(decimal_value(text) == decimal_value(text.drop_last()) * 10 + n % 10);
}

/// A component ends at the first dot after its start.
proof fn lemma_component_end(text: Seq<char>, from: int, dot: int)
    requires
        0 <= from <= dot <= text.len(),
        forall|i: int| from <= i < dot ==> text[i] != '.',
        dot < text.len() ==> text[dot] == '.',
    ensures
        component_end(text, from) == dot,
    decreases dot - from,
{
    if from < dot {
        lemma_component_end(text, from + 1, dot);
    }
}

/// The decimal text of a 16-bit number is a component that denotes the number.
proof fn lemma_component_of_decimal_text(n: u16)
    ensures
        component_value(decimal_text(n as nat)) == Some(n),
        forall|i: int| 0 <= i < decimal_text(n as nat).len() ==> decimal_text(n as nat)[i] != '.',
{
    let text = decimal_text(n as nat);
    lemma_decimal_text(n as nat);
    assert(is_digit(text[0]));
    assert(without_sign(text) == text);
    assert forall|i: int| 0 <= i < text.len() implies text[i] != '.' by {
        assert(is_digit(text[i]));
    }
}

/// Parsing the text of a version gives the version back.
pub proof fn lemma_parse_text(version: EffectiveVersion)
    ensures
        EffectiveVersion::parse(version.text()) == Some(version),
{
    let major = decimal_text(version.major as nat);
    let minor = decimal_text(version.minor as nat);
    let patch = decimal_text(version.patch as nat);
    let text = version.text();
    let first = major.len() as int;
    let second = first + 1 + minor.len();
    let third = second + 1 + patch.len();
    lemma_component_of_decimal_text(version.major);
    lemma_component_of_decimal_text(version.minor);
    lemma_component_of_decimal_text(version.patch);
    assert(text.len() == third);
    assert forall|i: int| 0 <= i < first implies text[i] != '.' by {
        assert(text[i] == major[i]);
    }
    assert forall|i: int| first + 1 <= i < second implies text[i] != '.' by {
        assert(text[i] == minor[i - first - 1]);
    }
    assert forall|i: int| second + 1 <= i < third implies text[i] != '.' by {
        assert(text[i] == patch[i - second - 1]);
    }
    lemma_component_end(text, 0, first);
    lemma_component_end(text, first + 1, second);
    lemma_component_end(text, second + 1, third);
    assert(text.subrange(0, first) =~= major);
    assert(text.subrange(first + 1, second) =~= minor);
    assert(text.subrange(second + 1, third) =~= patch);
}

/// A version equals itself and nothing else, conflicts are mutual, and one
/// version is greater than another exactly when the other is less.
pub proof fn lemma_compatibility_mirrored(a: EffectiveVersion, b: EffectiveVersion)
    ensures
        a.compatibility(b) == VersionCompatibility::Equals <==> a == b,
        a.compatibility(b) == VersionCompatibility::Conflict <==> b.compatibility(a)
            == VersionCompatibility::Conflict,
        a.compatibility(b) == VersionCompatibility::GreaterThan <==> b.compatibility(a)
            == VersionCompatibility::LessThan,
{
    lemma_packed_order(a, b);
    lemma_packed_order(b, a);
}

/// Packing a version and unpacking it again gives the version back.
pub proof fn lemma_unpack_packed(version: EffectiveVersion)
    ensures
        EffectiveVersion::from_packed(version.packed()) == version,
{
}

/// Unpacking a number and packing the version again keeps its low 48 bits.
pub proof fn lemma_pack_unpacked(value: int)
    requires
        0 <= value,
    ensures
        EffectiveVersion::from_packed(value).packed() == value % 0x1_0000_0000_0000,
{
    let high = value / 0x1_0000;
    lemma_breakdown(value, 0x1_0000, 0x1_0000_0000);
    lemma_breakdown(high, 0x1_0000, 0x1_0000);
    lemma_div_denominator(value, 0x1_0000, 0x1_0000);
    assert(0x1_0000 * 0x1_0000_0000 == 0x1_0000_0000_0000) by (nonlinear_arith);
    assert(0x1_0000 * 0x1_0000 == 0x1_0000_0000) by (nonlinear_arith);
}

/// The packed form orders versions by major, then minor, then patch.
pub proof fn lemma_packed_order(a: EffectiveVersion, b: EffectiveVersion)
    ensures
        a.packed() < b.packed() <==> (a.major < b.major || (a.major == b.major && (a.minor
            < b.minor || (a.minor == b.minor && a.patch < b.patch)))),
        a.packed() == b.packed() <==> a == b,
{
}

} // verus!
