//! The grammars of the validated primitives, and the checks that decide
//! them.

use crate::text::between;
use vstd::prelude::*;

verus! {

/// The sets of characters that the grammars are built from.
#[derive(Debug, PartialEq, Eq, Clone, Copy)]
pub enum CharClass {
    /// `0` to `9`.
    Digit,
    /// `0` to `9` and `a` to `f`.
    LowerHex,
    /// `0` to `9`, `a` to `f` and `A` to `F`.
    Hex,
    /// `a` to `z` and `A` to `Z`.
    Letter,
    /// What a media type is made of on either side of the slash: `a` to
    /// `z`, `0` to `9`, `-`, `+` and `.`.
    MediaToken,
    /// What the type of a package URL is made of: letters, digits, `.`, `+`
    /// and `-`.
    PackageType,
    /// What stands after `cpe:/` in a CPE name in URI form: letters, digits,
    /// `.`, `_`, `-`, `~` and `%`, and the colon between components.
    CpeUri,
    /// Everything but white space and control characters.
    Visible,
}

/// Whether a character belongs to a class.
pub open spec fn in_class(class: CharClass, c: char) -> bool {
    match class {
        CharClass::Digit => between(c, '0', '9'),
        CharClass::LowerHex => between(c, '0', '9') || between(c, 'a', 'f'),
        CharClass::Hex => between(c, '0', '9') || between(c, 'a', 'f') || between(c, 'A', 'F'),
        CharClass::Letter => between(c, 'a', 'z') || between(c, 'A', 'Z'),
        CharClass::MediaToken => between(c, 'a', 'z') || between(c, '0', '9') || c == '-' || c
            == '+' || c == '.',
        CharClass::PackageType => between(c, 'a', 'z') || between(c, 'A', 'Z') || between(
            c,
            '0',
            '9',
        ) || c == '.' || c == '+' || c == '-',
        CharClass::CpeUri => between(c, 'a', 'z') || between(c, 'A', 'Z') || between(c, '0', '9')
            || c == '.' || c == '_' || c == '-' || c == '~' || c == '%' || c == ':',
        CharClass::Visible => c as u32 > 0x20 && !between(c, '\u{7f}', '\u{a0}') && c
            != '\u{2028}' && c != '\u{2029}',
    }
}

fn is_between(c: char, low: char, high: char) -> (r: bool)
    ensures
        r == between(c, low, high),
{
    low as u32 <= c as u32 && c as u32 <= high as u32
}

/// Decides whether a character belongs to a class.
pub fn char_in_class(class: CharClass, c: char) -> (r: bool)
    ensures
        r == in_class(class, c),
{
    match class {
        CharClass::Digit => is_between(c, '0', '9'),
        CharClass::LowerHex => is_between(c, '0', '9') || is_between(c, 'a', 'f'),
        CharClass::Hex => is_between(c, '0', '9') || is_between(c, 'a', 'f') || is_between(
            c,
            'A',
            'F',
        ),
        CharClass::Letter => is_between(c, 'a', 'z') || is_between(c, 'A', 'Z'),
        CharClass::MediaToken => is_between(c, 'a', 'z') || is_between(c, '0', '9') || c == '-'
            || c == '+' || c == '.',
        CharClass::PackageType => is_between(c, 'a', 'z') || is_between(c, 'A', 'Z')
            || is_between(c, '0', '9') || c == '.' || c == '+' || c == '-',
        CharClass::CpeUri => is_between(c, 'a', 'z') || is_between(c, 'A', 'Z') || is_between(
            c,
            '0',
            '9',
        ) || c == '.' || c == '_' || c == '-' || c == '~' || c == '%' || c == ':',
        CharClass::Visible => c as u32 > 0x20 && !is_between(c, '\u{7f}', '\u{a0}') && c
            != '\u{2028}' && c != '\u{2029}',
    }
}

/// The characters of a string, one for one.
pub fn to_chars(s: &str) -> (r: Vec<char>)
    ensures
        r@ == s@,
{
    let mut out: Vec<char> = Vec::new();
    for c in it: s.chars()
        invariant
            it.seq() == s@,
            out@ == s@.take(it.index()),
    {
        out.push(c);
        proof {
            assert(out@ =~= s@.take(it.index() + 1));
        }
    }
    proof {
        assert(s@.take(s@.len() as int) =~= s@);
    }
    out
}

/// Every character of `s` from `from` up to `to` belongs to the class.
pub open spec fn all_in_class(s: Seq<char>, from: int, to: int, class: CharClass) -> bool {
    forall|i: int| from <= i < to ==> in_class(class, #[trigger] s[i])
}

/// Decides whether every character of a range belongs to a class.
pub fn check_all_in_class(s: &Vec<char>, from: usize, to: usize, class: CharClass) -> (r: bool)
    requires
        from <= to <= s.len(),
    ensures
        r == all_in_class(s@, from as int, to as int, class),
{
    let mut i: usize = from;
    while i < to
        invariant
            from <= i <= to <= s.len(),
            all_in_class(s@, from as int, i as int, class),
        decreases to - i,
    {
        if !char_in_class(class, s[i]) {
            return false;
        }
        i += 1;
    }
    true
}

/// `s` starts with `prefix`.
pub open spec fn has_prefix(s: Seq<char>, prefix: Seq<char>) -> bool {
    s.len() >= prefix.len() && s.subrange(0, prefix.len() as int) == prefix
}

/// Decides whether text starts with a prefix.
pub fn check_prefix(s: &Vec<char>, prefix: &str) -> (r: bool)
    ensures
        r == has_prefix(s@, prefix@),
{
    let p = to_chars(prefix);
    if s.len() < p.len() {
        return false;
    }
    let mut i: usize = 0;
    while i < p.len()
        invariant
            i <= p.len() <= s.len(),
            p@ == prefix@,
            forall|j: int| 0 <= j < i ==> s[j] == p[j],
        decreases p.len() - i,
    {
        if s[i] != p[i] {
            proof {
                assert(s@.subrange(0, p.len() as int)[i as int] == s[i as int]);
            }
            return false;
        }
        i += 1;
    }
    proof {
        assert(s@.subrange(0, p.len() as int) =~= p@);
    }
    true
}

/// Finds the first `c` at or after `from`; the length of `s` where there is
/// none.
pub fn find_char(s: &Vec<char>, from: usize, c: char) -> (r: usize)
    requires
        from <= s.len(),
    ensures
        from <= r <= s.len(),
        forall|j: int| from <= j < r ==> s[j] != c,
        r < s.len() ==> s[r as int] == c,
{
    let mut i: usize = from;
    while i < s.len() && s[i] != c
        invariant
            from <= i <= s.len(),
            forall|j: int| from <= j < i ==> s[j] != c,
        decreases s.len() - i,
    {
        i += 1;
    }
    i
}

/// How often `c` stands in `s` from `from` up to `to`.
pub open spec fn count_char(s: Seq<char>, from: int, to: int, c: char) -> nat
    decreases to - from,
{
    if from >= to {
        0
    } else {
        count_char(s, from, to - 1, c) + if s[to - 1] == c {
            1nat
        } else {
            0nat
        }
    }
}

/// Counts how often `c` stands in a range.
pub fn count_in_range(s: &Vec<char>, from: usize, to: usize, c: char) -> (r: usize)
    requires
        from <= to <= s.len(),
    ensures
        r == count_char(s@, from as int, to as int, c),
        r <= to - from,
{
    let mut n: usize = 0;
    let mut i: usize = from;
    while i < to
        invariant
            from <= i <= to <= s.len(),
            n == count_char(s@, from as int, i as int, c),
            n <= i - from,
        decreases to - i,
    {
        if s[i] == c {
            n += 1;
        }
        i += 1;
    }
    n
}

/// A hash value: 32, 40, 64, 96 or 128 hexadecimal digits, which are the
/// lengths of the digests of the known algorithms.
pub open spec fn is_hash_value(s: Seq<char>) -> bool {
    &&& s.len() == 32 || s.len() == 40 || s.len() == 64 || s.len() == 96 || s.len() == 128
    &&& all_in_class(s, 0, s.len() as int, CharClass::Hex)
}

/// Decides whether text is a hash value.
pub fn check_hash_value(text: &str) -> (r: bool)
    ensures
        r == is_hash_value(text@),
{
    let s = to_chars(text);
    let n = s.len();
    (n == 32 || n == 40 || n == 64 || n == 96 || n == 128) && check_all_in_class(
        &s,
        0,
        n,
        CharClass::Hex,
    )
}

/// `s` is two media tokens with a slash at `p` between them.
pub open spec fn is_media_type_split_at(s: Seq<char>, p: int) -> bool {
    &&& 0 < p < s.len() - 1
    &&& s[p] == '/'
    &&& all_in_class(s, 0, p, CharClass::MediaToken)
    &&& all_in_class(s, p + 1, s.len() as int, CharClass::MediaToken)
}

/// A media type: a type and a subtype with a slash between them, each a
/// non-empty run of `a` to `z`, `0` to `9`, `-`, `+` and `.`.
pub open spec fn is_media_type(s: Seq<char>) -> bool {
    exists|p: int| is_media_type_split_at(s, p)
}

/// Decides whether text is a media type.
pub fn check_media_type(text: &str) -> (r: bool)
    ensures
        r == is_media_type(text@),
{
    let s = to_chars(text);
    let p = find_char(&s, 0, '/');
    let found = p < s.len() && 0 < p && p < s.len() - 1 && check_all_in_class(
        &s,
        0,
        p,
        CharClass::MediaToken,
    ) && check_all_in_class(&s, p + 1, s.len(), CharClass::MediaToken);
    proof {
        if found {
            assert(is_media_type_split_at(s@, p as int));
        } else {
            assert forall|q: int| !is_media_type_split_at(s@, q) by {
                if is_media_type_split_at(s@, q) {
                    if q > p {
                        assert(in_class(CharClass::MediaToken, s@[p as int]));
                    }
                }
            }
        }
    }
    found
}

/// `s` is a package URL whose type ends with the slash at `p`.
pub open spec fn is_purl_split_at(s: Seq<char>, p: int) -> bool {
    &&& 4 < p < s.len() - 1
    &&& s[p] == '/'
    &&& in_class(CharClass::Letter, s[4])
    &&& all_in_class(s, 4, p, CharClass::PackageType)
    &&& all_in_class(s, p + 1, s.len() as int, CharClass::Visible)
}

/// A package URL: the scheme `pkg:`, a type that starts with a letter and
/// goes on with letters, digits, `.`, `+` and `-`, a slash, and the
/// coordinates of the package. The coordinates are checked to be there and
/// to hold no white space or control character; their parts (namespace,
/// name, version, qualifiers and subpath) are not told apart.
pub open spec fn is_purl(s: Seq<char>) -> bool {
    has_prefix(s, "pkg:"@) && exists|p: int| is_purl_split_at(s, p)
}

/// Decides whether text is a package URL.
pub fn check_purl(text: &str) -> (r: bool)
    ensures
        r == is_purl(text@),
{
    let s = to_chars(text);
    if !check_prefix(&s, "pkg:") {
        return false;
    }
    proof {
        reveal_strlit("pkg:");
    }
    let p = find_char(&s, 4, '/');
    let found = p < s.len() && 4 < p && p < s.len() - 1 && char_in_class(CharClass::Letter, s[4])
        && check_all_in_class(&s, 4, p, CharClass::PackageType) && check_all_in_class(
        &s,
        p + 1,
        s.len(),
        CharClass::Visible,
    );
    proof {
        if found {
            assert(is_purl_split_at(s@, p as int));
        } else {
            assert forall|q: int| !is_purl_split_at(s@, q) by {
                if is_purl_split_at(s@, q) {
                    if q > p {
                        assert(in_class(CharClass::PackageType, s@[p as int]));
                    }
                }
            }
        }
    }
    found
}

/// The letter that names the part of a CPE name in URI form: `a`, `h` or
/// `o`, in either case.
pub open spec fn is_cpe_part(c: char) -> bool {
    c == 'a' || c == 'h' || c == 'o' || c == 'A' || c == 'H' || c == 'O'
}

/// A CPE name in the URI form of version 2.2: `cpe:/`, the letter of the
/// part if there is one, and at most six components, each after a colon
/// and made of letters, digits, `.`, `_`, `-`, `~` and `%`.
pub open spec fn is_cpe_uri(s: Seq<char>) -> bool {
    &&& has_prefix(s, "cpe:/"@)
    &&& all_in_class(s, 5, s.len() as int, CharClass::CpeUri)
    &&& count_char(s, 5, s.len() as int, ':') <= 6
    &&& s.len() > 5 && s[5] != ':' ==> is_cpe_part(s[5]) && (s.len() == 6 || s[6] == ':')
}

/// How many colons that no backslash escapes stand in `s` from `i` on;
/// `escaped` says that a backslash stands right before `i`.
pub open spec fn unescaped_colons(s: Seq<char>, i: int, escaped: bool) -> nat
    decreases s.len() - i,
{
    if i < 0 || i >= s.len() {
        0
    } else if escaped {
        unescaped_colons(s, i + 1, false)
    } else if s[i] == '\\' {
        unescaped_colons(s, i + 1, true)
    } else if s[i] == ':' {
        1 + unescaped_colons(s, i + 1, false)
    } else {
        unescaped_colons(s, i + 1, false)
    }
}

fn count_unescaped_colons(s: &Vec<char>, from: usize) -> (r: usize)
    requires
        from <= s.len(),
    ensures
        r == unescaped_colons(s@, from as int, false),
{
    let mut n: usize = 0;
    let mut escaped = false;
    let mut i: usize = from;
    while i < s.len()
        invariant
            from <= i <= s.len(),
            n <= i - from,
            unescaped_colons(s@, from as int, false) == n + unescaped_colons(
                s@,
                i as int,
                escaped,
            ),
        decreases s.len() - i,
    {
        if escaped {
            escaped = false;
        } else if s[i] == '\\' {
            escaped = true;
        } else if s[i] == ':' {
            n += 1;
        }
        i += 1;
    }
    n
}

/// The sign that names the part of a CPE name in formatted-string form:
/// `a`, `h` or `o`, or `*` or `-` for any or none.
pub open spec fn is_cpe_formatted_part(c: char) -> bool {
    c == 'a' || c == 'h' || c == 'o' || c == '*' || c == '-'
}

/// A CPE name in the formatted-string form of version 2.3: `cpe:2.3:`, the
/// sign of the part, and ten more components, each after a colon that no
/// backslash escapes. No component holds white space or a control
/// character; which other characters a component may hold is not checked.
pub open spec fn is_cpe_formatted(s: Seq<char>) -> bool {
    &&& has_prefix(s, "cpe:2.3:"@)
    &&& s.len() > 9
    &&& all_in_class(s, 8, s.len() as int, CharClass::Visible)
    &&& is_cpe_formatted_part(s[8])
    &&& s[9] == ':'
    &&& unescaped_colons(s, 8, false) == 10
}

/// A CPE name in either form.
pub open spec fn is_cpe(s: Seq<char>) -> bool {
    is_cpe_uri(s) || is_cpe_formatted(s)
}

/// Decides whether text is a CPE name.
pub fn check_cpe(text: &str) -> (r: bool)
    ensures
        r == is_cpe(text@),
{
    let s = to_chars(text);
    let n = s.len();
    proof {
        reveal_strlit("cpe:/");
        reveal_strlit("cpe:2.3:");
    }
    let uri = check_prefix(&s, "cpe:/") && check_all_in_class(&s, 5, n, CharClass::CpeUri)
        && count_in_range(&s, 5, n, ':') <= 6 && (n == 5 || s[5] == ':' || ((s[5] == 'a' || s[5]
        == 'h' || s[5] == 'o' || s[5] == 'A' || s[5] == 'H' || s[5] == 'O') && (n == 6 || s[6]
        == ':')));
    let formatted = check_prefix(&s, "cpe:2.3:") && n > 9 && check_all_in_class(
        &s,
        8,
        n,
        CharClass::Visible,
    ) && (s[8] == 'a' || s[8] == 'h' || s[8] == 'o' || s[8] == '*' || s[8] == '-') && s[9] == ':'
        && count_unescaped_colons(&s, 8) == 10;
    uri || formatted
}

/// A URI reference. It is checked to be there and to hold no white space or
/// control character; its parts (scheme, authority, path, query and
/// fragment) are not told apart.
pub open spec fn is_uri(s: Seq<char>) -> bool {
    s.len() > 0 && all_in_class(s, 0, s.len() as int, CharClass::Visible)
}

/// Decides whether text is a URI reference.
pub fn check_uri(text: &str) -> (r: bool)
    ensures
        r == is_uri(text@),
{
    let s = to_chars(text);
    s.len() > 0 && check_all_in_class(&s, 0, s.len(), CharClass::Visible)
}

/// The number that the two digits at `i` and `i + 1` write.
pub open spec fn two_digits(s: Seq<char>, i: int) -> int {
    (s[i] as u32 - 48) * 10 + (s[i + 1] as u32 - 48)
}

/// There are digits at `i` and `i + 1`, and the number they write is at
/// least `low` and at most `high`.
pub open spec fn is_number_at(s: Seq<char>, i: int, low: int, high: int) -> bool {
    &&& 0 <= i && i + 1 < s.len()
    &&& in_class(CharClass::Digit, s[i])
    &&& in_class(CharClass::Digit, s[i + 1])
    &&& low <= two_digits(s, i) <= high
}

fn check_number_at(s: &Vec<char>, i: usize, low: u32, high: u32) -> (r: bool)
    requires
        i + 1 < s.len(),
    ensures
        r == is_number_at(s@, i as int, low as int, high as int),
{
    if char_in_class(CharClass::Digit, s[i]) && char_in_class(CharClass::Digit, s[i + 1]) {
        let value: u32 = (s[i] as u32 - 48) * 10 + (s[i + 1] as u32 - 48);
        low <= value && value <= high
    } else {
        false
    }
}

/// Where the run of digits that starts at `from` ends.
pub open spec fn digits_end(s: Seq<char>, from: int) -> int
    decreases s.len() - from,
{
    if 0 <= from < s.len() && in_class(CharClass::Digit, s[from]) {
        digits_end(s, from + 1)
    } else {
        from
    }
}

fn find_digits_end(s: &Vec<char>, from: usize) -> (r: usize)
    requires
        from <= s.len(),
    ensures
        r == digits_end(s@, from as int),
        from <= r <= s.len(),
{
    let mut i: usize = from;
    while i < s.len() && char_in_class(CharClass::Digit, s[i])
        invariant
            from <= i <= s.len(),
            digits_end(s@, from as int) == digits_end(s@, i as int),
        decreases s.len() - i,
    {
        i += 1;
    }
    i
}

/// The zone of a date-time stands at `z` and ends the text: `Z`, or a sign
/// and an offset in hours and minutes.
pub open spec fn is_zone_at(s: Seq<char>, z: int) -> bool {
    ||| z + 1 == s.len() && s[z] == 'Z'
    ||| z + 6 == s.len() && (s[z] == '+' || s[z] == '-') && is_number_at(s, z + 1, 0, 23) && s[z
        + 3] == ':' && is_number_at(s, z + 4, 0, 59)
}

/// Where the zone of a date-time starts: after the seconds, or after the
/// fraction of a second where there is one.
pub open spec fn zone_start(s: Seq<char>) -> int {
    if s[19] == '.' {
        digits_end(s, 20)
    } else {
        19
    }
}

/// Whether a year of the Gregorian calendar is a leap year.
pub open spec fn is_leap_year(year: int) -> bool {
    year % 4 == 0 && (year % 100 != 0 || year % 400 == 0)
}

/// The number of days of a month of a year.
pub open spec fn days_in_month(year: int, month: int) -> int {
    if month == 2 {
        if is_leap_year(year) {
            29
        } else {
            28
        }
    } else if month == 4 || month == 6 || month == 9 || month == 11 {
        30
    } else {
        31
    }
}

/// The year that the four digits at the start of a date write.
pub open spec fn year_of(s: Seq<char>) -> int {
    two_digits(s, 0) * 100 + two_digits(s, 2)
}

/// An RFC 3339 date-time such as `2022-03-01T12:30:00Z`: a date, `T`, a
/// time with an optional fraction of a second, and a zone. The date is one
/// of the Gregorian calendar, the hour is below 24, the minute below 60,
/// and the second at most 60, which leaves room for a leap second.
pub open spec fn is_date_time(s: Seq<char>) -> bool {
    &&& s.len() >= 20
    &&& is_number_at(s, 0, 0, 99)
    &&& is_number_at(s, 2, 0, 99)
    &&& s[4] == '-'
    &&& is_number_at(s, 5, 1, 12)
    &&& s[7] == '-'
    &&& is_number_at(s, 8, 1, 31)
    &&& two_digits(s, 8) <= days_in_month(year_of(s), two_digits(s, 5))
    &&& s[10] == 'T'
    &&& is_number_at(s, 11, 0, 23)
    &&& s[13] == ':'
    &&& is_number_at(s, 14, 0, 59)
    &&& s[16] == ':'
    &&& is_number_at(s, 17, 0, 60)
    &&& s[19] == '.' ==> digits_end(s, 20) > 20
    &&& is_zone_at(s, zone_start(s))
}

fn number_at(s: &Vec<char>, i: usize) -> (r: u32)
    requires
        i + 1 < s.len(),
        in_class(CharClass::Digit, s[i as int]),
        in_class(CharClass::Digit, s[i + 1]),
    ensures
        r == two_digits(s@, i as int),
        r <= 99,
{
    (s[i] as u32 - 48) * 10 + (s[i + 1] as u32 - 48)
}

fn days_in(year: u32, month: u32) -> (r: u32)
    requires
        year <= 9999,
    ensures
        r == days_in_month(year as int, month as int),
{
    if month == 2 {
        if year % 4 == 0 && (year % 100 != 0 || year % 400 == 0) {
            29
        } else {
            28
        }
    } else if month == 4 || month == 6 || month == 9 || month == 11 {
        30
    } else {
        31
    }
}

/// Decides whether text is an RFC 3339 date-time.
pub fn check_date_time(text: &str) -> (r: bool)
    ensures
        r == is_date_time(text@),
{
    let s = to_chars(text);
    let n = s.len();
    if n < 20 {
        return false;
    }
    let front = check_number_at(&s, 0, 0, 99) && check_number_at(&s, 2, 0, 99) && s[4] == '-'
        && check_number_at(&s, 5, 1, 12) && s[7] == '-' && check_number_at(&s, 8, 1, 31) && s[10]
        == 'T' && check_number_at(&s, 11, 0, 23) && s[13] == ':' && check_number_at(
        &s,
        14,
        0,
        59,
    ) && s[16] == ':' && check_number_at(&s, 17, 0, 60);
    if !front {
        return false;
    }
    let year = number_at(&s, 0) * 100 + number_at(&s, 2);
    if number_at(&s, 8) > days_in(year, number_at(&s, 5)) {
        return false;
    }
    let z = if s[19] == '.' {
        let end = find_digits_end(&s, 20);
        if end == 20 {
            return false;
        }
        end
    } else {
        19
    };
    if z == n - 1 {
        s[z] == 'Z'
    } else if z == n - 6 {
        (s[z] == '+' || s[z] == '-') && check_number_at(&s, z + 1, 0, 23) && s[z + 3] == ':'
            && check_number_at(&s, z + 4, 0, 59)
    } else {
        false
    }
}

} // verus!
