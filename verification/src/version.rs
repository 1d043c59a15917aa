use vstd::prelude::*;
use vstd::utf8::is_ascii_chars;

verus! {

/// A parsed semantic version `major.minor.patch`, optionally carrying a
/// pre-release tag (`major.minor.patch-pre`).
pub struct Version {
    pub major: u64,
    pub minor: u64,
    pub patch: u64,
    pub pre: Option<String>,
}

impl View for Version {
    type V = (u64, u64, u64, Option<Seq<char>>);

    open spec fn view(&self) -> Self::V {
        (
            self.major,
            self.minor,
            self.patch,
            match self.pre {
                Option::Some(p) => Option::Some(p@),
                Option::None => Option::None,
            },
        )
    }
}

/// The bytes of an ASCII character sequence, character by character.
pub open spec fn ascii_view(s: Seq<char>) -> Seq<u8> {
    Seq::new(s.len(), |i: int| s[i] as u8)
}

pub open spec fn is_digit(b: u8) -> bool {
    48 <= b <= 57
}

pub open spec fn all_digits(s: Seq<u8>) -> bool {
    forall|i: int| 0 <= i < s.len() ==> is_digit(#[trigger] s[i])
}

/// The number written by a sequence of decimal digit bytes.
pub open spec fn digits_val(s: Seq<u8>) -> int
    decreases s.len(),
{
    if s.len() == 0 {
        0
    } else {
        digits_val(s.drop_last()) * 10 + (s.last() - 48)
    }
}

/// A valid numeric version component: a non-empty run of digits, no leading
/// zero, small enough for a `u64`.
pub open spec fn is_numeric_component(s: Seq<u8>) -> bool {
    &&& s.len() > 0
    &&& all_digits(s)
    &&& (s.len() > 1 ==> s[0] != 48)
    &&& digits_val(s) <= u64::MAX
}

/// Bytes allowed inside a pre-release tag: ASCII alphanumerics, `-` and `.`.
pub open spec fn is_pre_byte(b: u8) -> bool {
    ||| is_digit(b)
    ||| 65 <= b <= 90
    ||| 97 <= b <= 122
    ||| b == 45
    ||| b == 46
}

/// A valid pre-release tag: non-empty, allowed bytes only, and every
/// dot-separated identifier in it non-empty.
pub open spec fn is_pre_component(s: Seq<u8>) -> bool {
    &&& s.len() > 0
    &&& (forall|i: int| 0 <= i < s.len() ==> is_pre_byte(#[trigger] s[i]))
    &&& s[0] != 46
    &&& s[s.len() - 1] != 46
    &&& (forall|i: int| 0 <= i < s.len() - 1 ==> !(s[i] == 46 && #[trigger] s[i + 1] == 46))
}

/// The least index at or after `from` holding byte `b`, if any.
pub open spec fn find_from(s: Seq<u8>, from: int, b: u8) -> Option<int>
    decreases s.len() - from,
{
    if from < 0 || from >= s.len() {
        Option::None
    } else if s[from] == b {
        Option::Some(from)
    } else {
        find_from(s, from + 1, b)
    }
}

/// Parses `major.minor.patch[-pre]` from bytes: split at the first two dots,
/// then at the first `-` after them; every numeric part must be a plain
/// decimal number and any pre-release tag must be well formed.
pub open spec fn spec_parse_bytes(s: Seq<u8>) -> Option<(u64, u64, u64, Option<Seq<u8>>)> {
    match find_from(s, 0, 46) {
        Option::None => Option::None,
        Option::Some(i) => match find_from(s, i + 1, 46) {
            Option::None => Option::None,
            Option::Some(j) => {
                let major = s.subrange(0, i);
                let minor = s.subrange(i + 1, j);
                let split = find_from(s, j + 1, 45);
                let patch = match split {
                    Option::None => s.subrange(j + 1, s.len() as int),
                    Option::Some(h) => s.subrange(j + 1, h),
                };
                let pre = match split {
                    Option::None => Option::None,
                    Option::Some(h) => Option::Some(s.subrange(h + 1, s.len() as int)),
                };
                if is_numeric_component(major) && is_numeric_component(minor)
                    && is_numeric_component(patch) && (pre is Some ==> is_pre_component(
                    pre->Some_0,
                )) {
                    Option::Some(
                        (
                            digits_val(major) as u64,
                            digits_val(minor) as u64,
                            digits_val(patch) as u64,
                            pre,
                        ),
                    )
                } else {
                    Option::None
                }
            },
        },
    }
}

/// What a version string means: `None` when it is not a valid semantic
/// version, else its numeric triple and the text of its pre-release tag.
pub open spec fn spec_version_of(s: Seq<char>) -> Option<(u64, u64, u64, Option<Seq<char>>)> {
    if !is_ascii_chars(s) {
        Option::None
    } else {
        match spec_parse_bytes(ascii_view(s)) {
            Option::None => Option::None,
            Option::Some((ma, mi, pa, pre)) => Option::Some(
                (
                    ma,
                    mi,
                    pa,
                    match pre {
                        Option::None => Option::None,
                        Option::Some(pb) => Option::Some(
                            s.subrange(s.len() - pb.len(), s.len() as int),
                        ),
                    },
                ),
            ),
        }
    }
}

pub open spec fn is_valid_version(s: Seq<char>) -> bool {
    spec_version_of(s) is Some
}

pub(crate) proof fn lemma_digits_val_nonneg(s: Seq<u8>)
    requires
        all_digits(s),
    ensures
        digits_val(s) >= 0,
    decreases s.len(),
{
    if s.len() > 0 {
        assert(all_digits(s.drop_last()));
        lemma_digits_val_nonneg(s.drop_last());
    }
}

pub(crate) proof fn lemma_digits_val_monotone(s: Seq<u8>, k: int)
    requires
        0 <= k <= s.len(),
        all_digits(s),
    ensures
        digits_val(s.take(k)) <= digits_val(s),
    decreases s.len() - k,
{
    if k < s.len() {
        assert(s.take(k + 1).drop_last() =~= s.take(k));
        assert(s.take(k + 1).last() == s[k]);
        assert(all_digits(s.take(k)));
        lemma_digits_val_nonneg(s.take(k));
        assert(digits_val(s.take(k)) <= digits_val(s.take(k + 1)));
        lemma_digits_val_monotone(s, k + 1);
    } else {
        assert(s.take(k) =~= s);
    }
}

/// The least index at or after `from` holding `target`, scanning forward.
fn find_byte(b: &[u8], from: usize, target: u8) -> (r: Option<usize>)
    ensures
        (r is Some <==> find_from(b@, from as int, target) is Some),
        r is Some ==> find_from(b@, from as int, target) == Option::Some(r->Some_0 as int),
        r is Some ==> from <= r->Some_0 < b@.len(),
{
    let mut i: usize = from;
    while i < b.len()
        invariant
            from <= i,
            find_from(b@, from as int, target) == find_from(b@, i as int, target),
        decreases b@.len() - i,
    {
        if b[i] == target {
            return Option::Some(i);
        }
        assert(find_from(b@, i as int, target) == find_from(b@, i + 1 as int, target));
        i = i + 1;
    }
    Option::None
}

/// Parses the decimal number written at `b[start..end]`; `None` when that
/// range is not a valid numeric version component.
fn parse_num(b: &[u8], start: usize, end: usize) -> (r: Option<u64>)
    requires
        start <= end <= b@.len(),
    ensures
        (r is Some <==> is_numeric_component(b@.subrange(start as int, end as int))),
        r is Some ==> r->Some_0 == digits_val(b@.subrange(start as int, end as int)),
{
    let ghost comp = b@.subrange(start as int, end as int);
    if start == end {
        return Option::None;
    }
    if end - start > 1 && b[start] == 48 {
        return Option::None;
    }
    let mut val: u64 = 0;
    let mut i: usize = start;
    while i < end
        invariant
            start <= i <= end,
            end <= b@.len(),
            comp == b@.subrange(start as int, end as int),
            comp.len() == end - start,
            all_digits(comp.take(i - start)),
            val == digits_val(comp.take(i - start)),
        decreases end - i,
    {
        let c = b[i];
        assert(comp[i - start] == b@[i as int]);
        if c < 48 || c > 57 {
            return Option::None;
        }
        let d: u64 = (c - 48) as u64;
        proof {
            assert(comp.take(i - start + 1).drop_last() =~= comp.take(i - start));
            assert(comp.take(i - start + 1).last() == comp[i - start]);
            lemma_digits_val_nonneg(comp.take(i - start));
        }
        let next: Option<u64> = match val.checked_mul(10) {
            Option::Some(x) => x.checked_add(d),
            Option::None => Option::None,
        };
        match next {
            Option::None => {
                proof {
                    assert(digits_val(comp.take(i - start + 1)) > u64::MAX);
                    if all_digits(comp) {
                        lemma_digits_val_monotone(comp, i - start + 1);
                        assert(digits_val(comp) > u64::MAX);
                    }
                }
                return Option::None;
            },
            Option::Some(y) => {
                val = y;
            },
        }
        i = i + 1;
    }
    proof {
        assert(comp.take(comp.len() as int) =~= comp);
    }
    Option::Some(val)
}

/// True when `b[start..end]` is a well-formed pre-release tag.
fn check_pre(b: &[u8], start: usize, end: usize) -> (r: bool)
    requires
        start <= end <= b@.len(),
    ensures
        r == is_pre_component(b@.subrange(start as int, end as int)),
{
    let ghost comp = b@.subrange(start as int, end as int);
    if start == end {
        return false;
    }
    if b[start] == 46 || b[end - 1] == 46 {
        return false;
    }
    let mut i: usize = start;
    while i < end
        invariant
            start <= i <= end,
            start < end <= b@.len(),
            comp == b@.subrange(start as int, end as int),
            comp.len() == end - start,
            forall|k: int| 0 <= k < i - start ==> is_pre_byte(#[trigger] comp[k]),
            forall|k: int|
                0 <= k < i - start && k + 1 < comp.len() ==> !(comp[k] == 46 && #[trigger] comp[k
                    + 1] == 46),
        decreases end - i,
    {
        let c = b[i];
        assert(comp[i - start] == b@[i as int]);
        let is_ok = (48 <= c && c <= 57) || (65 <= c && c <= 90) || (97 <= c && c <= 122) || c == 45
            || c == 46;
        if !is_ok {
            assert(!is_pre_byte(comp[i - start]));
            return false;
        }
        if c == 46 && i + 1 < end && b[i + 1] == 46 {
            proof {
                assert(comp[i + 1 - start] == b@[i + 1 as int]);
                assert(comp[i - start] == 46 && comp[i - start + 1] == 46);
                assert(!is_pre_component(comp));
            }
            return false;
        }
        proof {
            if i + 1 < end {
                assert(comp[i + 1 - start] == b@[i + 1 as int]);
            }
        }
        i = i + 1;
    }
    true
}

/// Parses a semantic version `major.minor.patch[-pre]`. Returns `None`
/// exactly when the string is not a valid semantic version.
pub fn parse_version(s: &str) -> (r: Option<Version>)
    ensures
        match r {
            Option::Some(v) => spec_version_of(s@) == Option::Some(v@),
            Option::None => spec_version_of(s@) is None,
        },
{
    if !s.is_ascii() {
        return Option::None;
    }
    let b: &[u8] = s.as_bytes();
    proof {
        vstd::string::is_ascii_spec_bytes(s);
        assert(b@ =~= ascii_view(s@));
    }
    let n: usize = b.len();
    let i: usize = match find_byte(b, 0, 46) {
        Option::Some(i) => i,
        Option::None => {
            return Option::None;
        },
    };
    let j: usize = match find_byte(b, i + 1, 46) {
        Option::Some(j) => j,
        Option::None => {
            return Option::None;
        },
    };
    let h_opt = find_byte(b, j + 1, 45);
    let end_patch: usize = match h_opt {
        Option::Some(h) => h,
        Option::None => n,
    };
    let major: u64 = match parse_num(b, 0, i) {
        Option::Some(x) => x,
        Option::None => {
            return Option::None;
        },
    };
    let minor: u64 = match parse_num(b, i + 1, j) {
        Option::Some(x) => x,
        Option::None => {
            return Option::None;
        },
    };
    let patch: u64 = match parse_num(b, j + 1, end_patch) {
        Option::Some(x) => x,
        Option::None => {
            return Option::None;
        },
    };
    let pre: Option<String> = match h_opt {
        Option::Some(h) => {
            if !check_pre(b, h + 1, n) {
                return Option::None;
            }
            let ps = s.substring_ascii(h + 1, n);
            Option::Some(String::from_str(ps))
        },
        Option::None => Option::None,
    };
    Option::Some(Version { major, minor, patch, pre })
}

/// Strict lexicographic order on numeric version triples. Against a
/// threshold that is a plain release this agrees with semantic-version
/// precedence: a pre-release of the threshold itself shares the triple and
/// so does not exceed it.
pub open spec fn triple_exceeds(a0: u64, a1: u64, a2: u64, b0: u64, b1: u64, b2: u64) -> bool {
    ||| a0 > b0
    ||| (a0 == b0 && a1 > b1)
    ||| (a0 == b0 && a1 == b1 && a2 > b2)
}

impl Version {
    /// True when the numeric triple of `self` is strictly greater than
    /// `(major, minor, patch)`.
    pub open spec fn spec_exceeds(self, major: u64, minor: u64, patch: u64) -> bool {
        triple_exceeds(self.major, self.minor, self.patch, major, minor, patch)
    }

    pub fn exceeds(&self, major: u64, minor: u64, patch: u64) -> (r: bool)
        ensures
            r == self.spec_exceeds(major, minor, patch),
    {
        self.major > major
            || (self.major == major && self.minor > minor)
            || (self.major == major && self.minor == minor && self.patch > patch)
    }
}

} // verus!
