//! The `Version` triple: construction, total lexicographic order,
//! strict parsing from a string, and canonical rendering.

use vstd::prelude::*;
use vstd::string::StrSliceExecFns;
use vstd::string::StringExecFns;

use crate::decimal::dec_digits;
use crate::decimal::dec_val;
use crate::decimal::is_digit;
use crate::decimal::lemma_dec_digits_are_digits;
use crate::decimal::lemma_dec_val_of_digits;
use crate::decimal::parse_field;
use crate::decimal::parseable_u64;
use crate::decimal::push_decimal;
use crate::split::count_dots;
use crate::split::lemma_count_dots_push;
use crate::split::lemma_split_dots_len;
use crate::split::lemma_split_dots_two_dots;
use crate::split::split_dots;

verus! {

/// A version in a SemVer-like shape: an immutable ordered triple of
/// non-negative 64-bit components. Ordered lexicographically by
/// `(major, minor, patch)`.
#[derive(PartialEq, Eq, Structural, Ord, Hash, Debug, Clone, Copy)]
pub struct Version {
    pub major: u64,
    pub minor: u64,
    pub patch: u64,
}

/// Why a version string failed to parse.
#[derive(PartialEq, Eq, Structural, Debug, Clone, Copy)]
pub enum VersionParseError {
    /// The string does not split into exactly three dot-separated fields.
    FormatWrong,
    /// The major field is not a valid unsigned 64-bit decimal number.
    MajorParseError,
    /// Reserved for a scanning strategy that looks fields up one by one;
    /// the strict parser reports a missing field as `FormatWrong`.
    MajorNotFound,
    /// The minor field is not a valid unsigned 64-bit decimal number.
    MinorParseError,
    /// Reserved, as `MajorNotFound`.
    MinorNotFound,
    /// The patch field is not a valid unsigned 64-bit decimal number.
    PatchParseError,
    /// Reserved, as `MajorNotFound`.
    PatchNotFound,
}

impl VersionParseError {
    /// What the error says, as text.
    pub open spec fn spec_message(self) -> Seq<char> {
        match self {
            VersionParseError::FormatWrong => "Format of version string is wrong"@,
            VersionParseError::MajorParseError => "Parsing error in major"@,
            VersionParseError::MajorNotFound => "Major element was not found"@,
            VersionParseError::MinorParseError => "Minor Parse Error"@,
            VersionParseError::MinorNotFound => "Minor element was not found"@,
            VersionParseError::PatchParseError => "Patch Parse Error"@,
            VersionParseError::PatchNotFound => "Patch element was not found"@,
        }
    }

    /// A human-readable description of the error.
    pub fn message(&self) -> (r: &'static str)
        ensures
            r@ == self.spec_message(),
    {
        match self {
            VersionParseError::FormatWrong => "Format of version string is wrong",
            VersionParseError::MajorParseError => "Parsing error in major",
            VersionParseError::MajorNotFound => "Major element was not found",
            VersionParseError::MinorParseError => "Minor Parse Error",
            VersionParseError::MinorNotFound => "Minor element was not found",
            VersionParseError::PatchParseError => "Patch Parse Error",
            VersionParseError::PatchNotFound => "Patch element was not found",
        }
    }
}

/// The strict lexicographic order on versions: the first unequal
/// component decides.
pub open spec fn spec_lt(a: Version, b: Version) -> bool {
    ||| a.major < b.major
    ||| (a.major == b.major && a.minor < b.minor)
    ||| (a.major == b.major && a.minor == b.minor && a.patch < b.patch)
}

impl Version {
    /// What the strict parser yields on `s`: exactly three dot-separated
    /// decimal fields, each a `u64`, or the first error in detection
    /// order.
    pub open spec fn spec_parse(s: Seq<char>) -> Result<Version, VersionParseError> {
        let fields = split_dots(s);
        if fields.len() != 3 {
            Err(VersionParseError::FormatWrong)
        } else if !parseable_u64(fields[0]) {
            Err(VersionParseError::MajorParseError)
        } else if !parseable_u64(fields[1]) {
            Err(VersionParseError::MinorParseError)
        } else if !parseable_u64(fields[2]) {
            Err(VersionParseError::PatchParseError)
        } else {
            Ok(Version {
                major: dec_val(fields[0]) as u64,
                minor: dec_val(fields[1]) as u64,
                patch: dec_val(fields[2]) as u64,
            })
        }
    }

    /// The canonical rendering `"major.minor.patch"`, each component in
    /// decimal without leading zeros.
    pub open spec fn spec_display(self) -> Seq<char> {
        dec_digits(self.major as nat) + seq!['.'] + dec_digits(self.minor as nat) + seq!['.']
            + dec_digits(self.patch as nat)
    }

    /// Creates a version from its three components.
    #[inline]
    pub fn new(major: u64, minor: u64, patch: u64) -> (r: Self)
        ensures
            r == (Version { major, minor, patch }),
    {
        Version { major, minor, patch }
    }

    /// Parses a version string strictly: exactly three dot-separated
    /// unsigned decimal fields and nothing else.
    pub fn new_from_str(input: &str) -> (r: Result<Self, VersionParseError>)
        ensures
            r == Self::spec_parse(input@),
    {
        let len = input.unicode_len();
        let mut i: usize = 0;
        let mut dots: usize = 0;
        let mut d1: usize = 0;
        let mut d2: usize = 0;
        while i < len
            invariant
                i <= len,
                len == input@.len(),
                dots <= i,
                dots == count_dots(input@.subrange(0, i as int)),
                dots >= 1 ==> d1 < i && input@[d1 as int] == '.',
                dots >= 2 ==> d1 < d2 < i && input@[d2 as int] == '.',
                forall|k: int|
                    0 <= k < i && input@[k] == '.' ==> (dots >= 1 && k == d1) || (dots >= 2 && k
                        == d2) || dots >= 3,
            decreases len - i,
        {
            let c = input.get_char(i);
            if c == '.' {
                if dots == 0 {
                    d1 = i;
                } else if dots == 1 {
                    d2 = i;
                }
                dots = dots + 1;
            }
            proof {
                assert(input@.subrange(0, i + 1) =~= input@.subrange(0, i as int).push(
                    input@[i as int],
                ));
                lemma_count_dots_push(input@.subrange(0, i as int), input@[i as int]);
            }
            i = i + 1;
        }
        proof {
            assert(input@.subrange(0, len as int) =~= input@);
            lemma_split_dots_len(input@);
        }
        if dots != 2 {
            return Err(VersionParseError::FormatWrong);
        }
        proof {
            lemma_split_dots_two_dots(input@, d1 as int, d2 as int);
        }
        let major = match parse_field(input, 0, d1) {
            Some(v) => v,
            None => {
                return Err(VersionParseError::MajorParseError);
            },
        };
        let minor = match parse_field(input, d1 + 1, d2) {
            Some(v) => v,
            None => {
                return Err(VersionParseError::MinorParseError);
            },
        };
        let patch = match parse_field(input, d2 + 1, len) {
            Some(v) => v,
            None => {
                return Err(VersionParseError::PatchParseError);
            },
        };
        Ok(Version { major, minor, patch })
    }

    /// Renders the version as `"major.minor.patch"`.
    pub fn to_string(&self) -> (r: String)
        ensures
            r@ == self.spec_display(),
    {
        let mut s = String::new();
        push_decimal(&mut s, self.major);
        s.append(".");
        push_decimal(&mut s, self.minor);
        s.append(".");
        push_decimal(&mut s, self.patch);
        proof {
            reveal_strlit(".");
            assert("."@ =~= seq!['.']);
            assert(s@ =~= self.spec_display());
        }
        s
    }
}

impl core::cmp::PartialOrd for Version {
    /// Compares lexicographically: major first, then minor, then patch.
    fn partial_cmp(&self, other: &Self) -> (r: Option<core::cmp::Ordering>) {
        if self.major < other.major {
            Some(core::cmp::Ordering::Less)
        } else if self.major > other.major {
            Some(core::cmp::Ordering::Greater)
        } else if self.minor < other.minor {
            Some(core::cmp::Ordering::Less)
        } else if self.minor > other.minor {
            Some(core::cmp::Ordering::Greater)
        } else if self.patch < other.patch {
            Some(core::cmp::Ordering::Less)
        } else if self.patch > other.patch {
            Some(core::cmp::Ordering::Greater)
        } else {
            Some(core::cmp::Ordering::Equal)
        }
    }
}

impl vstd::std_specs::cmp::PartialOrdSpecImpl for Version {
    open spec fn obeys_partial_cmp_spec() -> bool {
        true
    }

    open spec fn partial_cmp_spec(&self, other: &Self) -> Option<core::cmp::Ordering> {
        if spec_lt(*self, *other) {
            Some(core::cmp::Ordering::Less)
        } else if spec_lt(*other, *self) {
            Some(core::cmp::Ordering::Greater)
        } else {
            Some(core::cmp::Ordering::Equal)
        }
    }
}

impl core::str::FromStr for Version {
    type Err = VersionParseError;

    /// Parses with the strict grammar, as [`Version::new_from_str`].
    fn from_str(s: &str) -> Result<Self, Self::Err> {
        Self::new_from_str(s)
    }
}

/// Law: the order on versions is total — for any two versions exactly one
/// of `a < b`, `a == b`, `b < a` holds.
pub proof fn lemma_order_trichotomy(a: Version, b: Version)
    ensures
        spec_lt(a, b) || a == b || spec_lt(b, a),
        spec_lt(a, b) ==> a != b && !spec_lt(b, a),
        a == b ==> !spec_lt(a, b) && !spec_lt(b, a),
{
}

/// Law: rendering a version and parsing the result gives the version
/// back — the canonical rendering is in the strict grammar.
pub proof fn lemma_display_parse_roundtrip(v: Version)
    ensures
        Version::spec_parse(v.spec_display()) == Ok::<Version, VersionParseError>(v),
{
    let a = dec_digits(v.major as nat);
    let b = dec_digits(v.minor as nat);
    let c = dec_digits(v.patch as nat);
    let s = v.spec_display();
    lemma_dec_digits_are_digits(v.major as nat);
    lemma_dec_digits_are_digits(v.minor as nat);
    lemma_dec_digits_are_digits(v.patch as nat);
    let d1 = a.len() as int;
    let d2 = a.len() as int + 1 + b.len() as int;
    assert(s.len() == a.len() + 1 + b.len() + 1 + c.len());
    assert(s[d1] == '.');
    assert(s[d2] == '.');
    assert forall|k: int| 0 <= k < s.len() && k != d1 && k != d2 implies s[k] != '.' by {
        if k < d1 {
            assert(s[k] == a[k]);
            assert(is_digit(a[k]));
        } else if d1 < k < d2 {
            assert(s[k] == b[k - d1 - 1]);
            assert(is_digit(b[k - d1 - 1]));
        } else if d2 < k {
            assert(s[k] == c[k - d2 - 1]);
            assert(is_digit(c[k - d2 - 1]));
        }
    }
    lemma_split_dots_two_dots(s, d1, d2);
    assert(s.subrange(0, d1) =~= a);
    assert(s.subrange(d1 + 1, d2) =~= b);
    assert(s.subrange(d2 + 1, s.len() as int) =~= c);
    lemma_dec_val_of_digits(v.major as nat);
    lemma_dec_val_of_digits(v.minor as nat);
    lemma_dec_val_of_digits(v.patch as nat);
}

} // verus!
