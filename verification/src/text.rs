//! String helpers shared by the configuration, the key tables and the window
//! matching rules. Strings are modelled by their sequence of characters.

use vstd::prelude::*;
use vstd::string::StrSliceExecFns;
use vstd::string::StringExecFns;

verus! {

/// The lower-case form of a string: what `str::to_lowercase` returns for it.
/// The proofs know it by this name only.
pub uninterp spec fn lowercase(s: Seq<char>) -> Seq<char>;

/// `needle` stands in `hay` at position `at`.
pub open spec fn occurs_at(needle: Seq<char>, hay: Seq<char>, at: int) -> bool {
    0 <= at && at + needle.len() <= hay.len() && hay.subrange(at, at + needle.len()) == needle
}

/// `needle` occurs in `hay` as a contiguous run of characters.
pub open spec fn is_substring(needle: Seq<char>, hay: Seq<char>) -> bool {
    exists|at: int| occurs_at(needle, hay, at)
}

/// `at` is the first position at which `needle` stands in `hay`.
pub open spec fn is_first_occurrence(needle: Seq<char>, hay: Seq<char>, at: int) -> bool {
    occurs_at(needle, hay, at) && forall|j: int| 0 <= j < at ==> !occurs_at(needle, hay, j)
}

/// `at` is the last position at which `needle` stands in `hay`.
pub open spec fn is_last_occurrence(needle: Seq<char>, hay: Seq<char>, at: int) -> bool {
    occurs_at(needle, hay, at) && forall|j: int| at < j ==> !occurs_at(needle, hay, j)
}

/// The first position at which `needle` stands in `hay`, if it occurs there.
pub open spec fn first_occurrence(needle: Seq<char>, hay: Seq<char>) -> Option<int> {
    if exists|at: int| is_first_occurrence(needle, hay, at) {
        Some(choose|at: int| is_first_occurrence(needle, hay, at))
    } else {
        None
    }
}

/// The last position at which `needle` stands in `hay`, if it occurs there.
pub open spec fn last_occurrence(needle: Seq<char>, hay: Seq<char>) -> Option<int> {
    if exists|at: int| is_last_occurrence(needle, hay, at) {
        Some(choose|at: int| is_last_occurrence(needle, hay, at))
    } else {
        None
    }
}

/// `s` begins with `prefix`.
pub open spec fn has_prefix(s: Seq<char>, prefix: Seq<char>) -> bool {
    occurs_at(prefix, s, 0)
}

/// `s` ends with `suffix`.
pub open spec fn has_suffix(s: Seq<char>, suffix: Seq<char>) -> bool {
    occurs_at(suffix, s, s.len() - suffix.len())
}

/// The character is white space: a tab, a line feed, a vertical tab, a form
/// feed, a carriage return, a space, or one of the spaces and separators
/// beyond ASCII.
pub open spec fn is_whitespace_char(c: char) -> bool {
    let u = c as u32;
    ||| 0x09 <= u <= 0x0d
    ||| u == 0x20
    ||| u == 0x85
    ||| u == 0xa0
    ||| u == 0x1680
    ||| 0x2000 <= u <= 0x200a
    ||| u == 0x2028
    ||| u == 0x2029
    ||| u == 0x202f
    ||| u == 0x205f
    ||| u == 0x3000
}

/// `s` without the white space at its start.
pub open spec fn trim_start(s: Seq<char>) -> Seq<char>
    decreases s.len(),
{
    if s.len() > 0 && is_whitespace_char(s.first()) {
        trim_start(s.drop_first())
    } else {
        s
    }
}

/// `s` without the white space at its end.
pub open spec fn trim_end(s: Seq<char>) -> Seq<char>
    decreases s.len(),
{
    if s.len() > 0 && is_whitespace_char(s.last()) {
        trim_end(s.drop_last())
    } else {
        s
    }
}

/// `s` without the white space at its start and at its end.
pub open spec fn trimmed(s: Seq<char>) -> Seq<char> {
    trim_end(trim_start(s))
}

/// The strings of `parts` with `sep` between each two neighbours.
pub open spec fn joined(parts: Seq<Seq<char>>, sep: Seq<char>) -> Seq<char>
    decreases parts.len(),
{
    if parts.len() == 0 {
        Seq::empty()
    } else if parts.len() == 1 {
        parts[0]
    } else {
        joined(parts.drop_last(), sep) + sep + parts.last()
    }
}

/// The decimal digit `d` (below ten) as a character.
pub open spec fn digit_char(d: nat) -> char {
    if d == 0 {
        '0'
    } else if d == 1 {
        '1'
    } else if d == 2 {
        '2'
    } else if d == 3 {
        '3'
    } else if d == 4 {
        '4'
    } else if d == 5 {
        '5'
    } else if d == 6 {
        '6'
    } else if d == 7 {
        '7'
    } else if d == 8 {
        '8'
    } else {
        '9'
    }
}

/// Decimal notation of `n`, without leading zeros.
pub open spec fn decimal(n: nat) -> Seq<char>
    decreases n,
{
    if n < 10 {
        seq![digit_char(n)]
    } else {
        decimal(n / 10).push(digit_char(n % 10))
    }
}

/// Calls `str::to_lowercase`. The result depends on the argument alone; the
/// contract gives it the name `lowercase` and claims nothing else about it.
#[verifier::external_body]
pub(crate) fn to_lowercase(s: &str) -> (r: String)
    ensures
        r@ == lowercase(s@),
{
    s.to_lowercase()
}

/// Equality of two strings, decided on their UTF-8 encodings.
pub fn str_eq(a: &str, b: &str) -> (r: bool)
    ensures
        r == (a@ == b@),
{
    let x = a.as_bytes();
    let y = b.as_bytes();
    proof {
        vstd::utf8::encode_utf8_decode_utf8(a@);
        vstd::utf8::encode_utf8_decode_utf8(b@);
    }
    if x.len() != y.len() {
        return false;
    }
    let mut i: usize = 0;
    while i < x.len()
        invariant
            x@ == vstd::utf8::encode_utf8(a@),
            y@ == vstd::utf8::encode_utf8(b@),
            x@.len() == y@.len(),
            i <= x@.len(),
            forall|j: int| 0 <= j < i ==> x@[j] == y@[j],
        decreases x@.len() - i,
    {
        if x[i] != y[i] {
            return false;
        }
        i += 1;
    }
    assert(x@ =~= y@);
    true
}

/// The text of one decimal digit.
fn digit_str(d: u64) -> (r: &'static str)
    requires
        d < 10,
    ensures
        r@ == seq![digit_char(d as nat)],
{
    proof {
        reveal_strlit("0");
        reveal_strlit("1");
        reveal_strlit("2");
        reveal_strlit("3");
        reveal_strlit("4");
        reveal_strlit("5");
        reveal_strlit("6");
        reveal_strlit("7");
        reveal_strlit("8");
        reveal_strlit("9");
    }
    let r = if d == 0 {
        "0"
    } else if d == 1 {
        "1"
    } else if d == 2 {
        "2"
    } else if d == 3 {
        "3"
    } else if d == 4 {
        "4"
    } else if d == 5 {
        "5"
    } else if d == 6 {
        "6"
    } else if d == 7 {
        "7"
    } else if d == 8 {
        "8"
    } else {
        "9"
    };
    assert(r@ =~= seq![digit_char(d as nat)]);
    r
}

/// Decimal notation of a number.
pub fn u64_to_string(n: u64) -> (r: String)
    ensures
        r@ == decimal(n as nat),
    decreases n,
{
    if n < 10 {
        String::from_str(digit_str(n))
    } else {
        let mut head = u64_to_string(n / 10);
        head.append(digit_str(n % 10));
        assert(head@ =~= decimal(n as nat));
        head
    }
}

/// Decimal notation of a 16-bit number.
pub fn u16_to_string(n: u16) -> (r: String)
    ensures
        r@ == decimal(n as nat),
{
    u64_to_string(n as u64)
}

/// The characters of a string.
pub fn to_chars(s: &str) -> (r: Vec<char>)
    ensures
        r@ == s@,
{
    let mut chars: Vec<char> = Vec::new();
    for c in it: s.chars()
        invariant
            it.seq() == s@,
            chars@ == it.seq().take(it.index() as int),
    {
        chars.push(c);
        assert(it.seq().take(it.index() + 1) =~= it.seq().take(it.index() as int).push(c));
    }
    assert(s@.take(s@.len() as int) =~= s@);
    chars
}

/// Whether `needle` stands in `hay` at position `at`.
pub fn matches_at(hay: &[char], needle: &[char], at: usize) -> (r: bool)
    ensures
        r == occurs_at(needle@, hay@, at as int),
{
    if needle.len() > hay.len() || at > hay.len() - needle.len() {
        return false;
    }
    let mut k: usize = 0;
    while k < needle.len()
        invariant
            k <= needle.len(),
            at + needle.len() <= hay.len(),
            forall|j: int| 0 <= j < k ==> hay@[at + j] == needle@[j],
        decreases needle.len() - k,
    {
        if hay[at + k] != needle[k] {
            assert(hay@.subrange(at as int, at + needle.len())[k as int] != needle@[k as int]);
            return false;
        }
        k += 1;
    }
    assert(hay@.subrange(at as int, at + needle.len()) =~= needle@);
    true
}

/// The first position from `from` on at which `needle` stands in `hay`.
pub fn find_from(hay: &[char], needle: &[char], from: usize) -> (r: Option<usize>)
    ensures
        match r {
            Some(at) => {
                &&& from <= at
                &&& occurs_at(needle@, hay@, at as int)
                &&& forall|j: int| from <= j < at ==> !occurs_at(needle@, hay@, j)
            },
            None => forall|j: int| from <= j ==> !occurs_at(needle@, hay@, j),
        },
{
    if needle.len() > hay.len() {
        return None;
    }
    let last = hay.len() - needle.len();
    if from > last {
        return None;
    }
    let mut at: usize = from;
    loop
        invariant
            from <= at <= last,
            last == hay.len() - needle.len(),
            needle.len() <= hay.len(),
            forall|j: int| from <= j < at ==> !occurs_at(needle@, hay@, j),
        decreases last - at,
    {
        if matches_at(hay, needle, at) {
            return Some(at);
        }
        if at == last {
            return None;
        }
        at += 1;
    }
}

/// The last position at which `needle` stands in the first `end` characters
/// of `hay`.
pub fn rfind_before(hay: &[char], needle: &[char], end: usize) -> (r: Option<usize>)
    requires
        end <= hay.len(),
    ensures
        match r {
            Some(at) => {
                &&& at + needle.len() <= end
                &&& occurs_at(needle@, hay@, at as int)
                &&& forall|j: int| at < j && j + needle.len() <= end ==> !occurs_at(needle@, hay@, j)
            },
            None => forall|j: int| j + needle.len() <= end ==> !occurs_at(needle@, hay@, j),
        },
{
    if needle.len() > end {
        return None;
    }
    let mut at: usize = end - needle.len();
    loop
        invariant
            at + needle.len() <= end,
            end <= hay.len(),
            forall|j: int| at < j && j + needle.len() <= end ==> !occurs_at(needle@, hay@, j),
        decreases at,
    {
        if matches_at(hay, needle, at) {
            return Some(at);
        }
        if at == 0 {
            return None;
        }
        at -= 1;
    }
}

/// The first position at which `needle` stands in the part of `hay` from
/// `from` up to `to`, counted from `from`.
pub fn find_first(hay: &[char], needle: &[char], from: usize, to: usize) -> (r: Option<usize>)
    requires
        from <= to <= hay.len(),
    ensures
        match r {
            Some(at) => first_occurrence(needle@, hay@.subrange(from as int, to as int)) == Some(
                at as int,
            ) && from + at + needle.len() <= to,
            None => first_occurrence(needle@, hay@.subrange(from as int, to as int)) is None,
        },
{
    let ghost part = hay@.subrange(from as int, to as int);
    proof {
        assert forall|j: int| occurs_at(needle@, part, j) <==> (occurs_at(needle@, hay@, from + j)
            && 0 <= j && from + j + needle.len() <= to) by {
            if 0 <= j && j + needle.len() <= part.len() {
                assert(part.subrange(j, j + needle.len()) =~= hay@.subrange(
                    from + j,
                    from + j + needle.len(),
                ));
            }
        }
    }
    match find_from(hay, needle, from) {
        Some(at) => {
            if at <= to && needle.len() <= to - at {
                proof {
                    let here = at - from;
                    assert(is_first_occurrence(needle@, part, here));
                    let chosen = choose|x: int| is_first_occurrence(needle@, part, x);
                    assert(chosen == here) by {
                        if chosen < here {
                            assert(!occurs_at(needle@, part, chosen));
                        }
                        if here < chosen {
                            assert(!occurs_at(needle@, part, here));
                        }
                    }
                }
                Some(at - from)
            } else {
                proof {
                    assert forall|x: int| !is_first_occurrence(needle@, part, x) by {
                        if occurs_at(needle@, part, x) {
                            assert(occurs_at(needle@, hay@, from + x));
                            assert(from + x >= at);
                        }
                    }
                }
                None
            }
        },
        None => {
            proof {
                assert forall|x: int| !is_first_occurrence(needle@, part, x) by {
                    if occurs_at(needle@, part, x) {
                        assert(occurs_at(needle@, hay@, from + x));
                    }
                }
            }
            None
        },
    }
}

/// The last position at which `needle` stands in the first `end` characters
/// of `hay`.
pub fn find_last(hay: &[char], needle: &[char], end: usize) -> (r: Option<usize>)
    requires
        end <= hay.len(),
    ensures
        match r {
            Some(at) => last_occurrence(needle@, hay@.take(end as int)) == Some(at as int) && at
                + needle.len() <= end,
            None => last_occurrence(needle@, hay@.take(end as int)) is None,
        },
{
    let ghost part = hay@.take(end as int);
    proof {
        assert forall|j: int| occurs_at(needle@, part, j) <==> (occurs_at(needle@, hay@, j) && j
            + needle.len() <= end) by {
            if 0 <= j && j + needle.len() <= end {
                assert(part.subrange(j, j + needle.len()) =~= hay@.subrange(j, j + needle.len()));
            }
        }
    }
    match rfind_before(hay, needle, end) {
        Some(at) => {
            proof {
                assert(is_last_occurrence(needle@, part, at as int));
                let chosen = choose|x: int| is_last_occurrence(needle@, part, x);
                assert(chosen == at) by {
                    if chosen < at {
                        assert(!occurs_at(needle@, part, at as int));
                    }
                    if at < chosen {
                        assert(!occurs_at(needle@, part, chosen));
                    }
                }
            }
            Some(at)
        },
        None => {
            proof {
                assert forall|x: int| !is_last_occurrence(needle@, part, x) by {
                    if occurs_at(needle@, part, x) {
                        assert(occurs_at(needle@, hay@, x));
                    }
                }
            }
            None
        },
    }
}

/// Whether `needle` occurs in `hay`.
pub fn contains_chars(hay: &[char], needle: &[char]) -> (r: bool)
    ensures
        r == is_substring(needle@, hay@),
{
    match find_from(hay, needle, 0) {
        Some(_) => true,
        None => false,
    }
}

/// Whether the string `needle` occurs in the string `hay`.
pub fn str_contains(hay: &str, needle: &str) -> (r: bool)
    ensures
        r == is_substring(needle@, hay@),
{
    let hay_chars = to_chars(hay);
    let needle_chars = to_chars(needle);
    contains_chars(hay_chars.as_slice(), needle_chars.as_slice())
}

/// Whether `s` begins with `prefix`.
pub fn starts_with(s: &[char], prefix: &[char]) -> (r: bool)
    ensures
        r == has_prefix(s@, prefix@),
{
    matches_at(s, prefix, 0)
}

/// Whether `s` ends with `suffix`.
pub fn ends_with(s: &[char], suffix: &[char]) -> (r: bool)
    ensures
        r == has_suffix(s@, suffix@),
{
    if suffix.len() > s.len() {
        return false;
    }
    matches_at(s, suffix, s.len() - suffix.len())
}

/// Whether a character is white space.
pub fn is_whitespace(c: char) -> (r: bool)
    ensures
        r == is_whitespace_char(c),
{
    let u = c as u32;
    (0x09 <= u && u <= 0x0d) || u == 0x20 || u == 0x85 || u == 0xa0 || u == 0x1680 || (0x2000 <= u
        && u <= 0x200a) || u == 0x2028 || u == 0x2029 || u == 0x202f || u == 0x205f || u == 0x3000
}

/// Where the trimmed form of `s` begins and ends in `s`.
pub fn trim_bounds(s: &[char]) -> (r: (usize, usize))
    ensures
        r.0 <= r.1 <= s.len(),
        s@.subrange(r.0 as int, r.1 as int) == trimmed(s@),
{
    let n = s.len();
    let mut start: usize = 0;
    assert(s@.subrange(0, n as int) =~= s@);
    while start < n && is_whitespace(s[start])
        invariant
            start <= n,
            n == s.len(),
            trim_start(s@) == trim_start(s@.subrange(start as int, n as int)),
        decreases n - start,
    {
        assert(s@.subrange(start as int, n as int).drop_first() =~= s@.subrange(
            start + 1,
            n as int,
        ));
        start += 1;
    }
    let ghost rest = s@.subrange(start as int, n as int);
    assert(trim_start(s@) == rest);
    let mut end: usize = n;
    assert(rest.subrange(0, end - start) =~= rest);
    while end > start && is_whitespace(s[end - 1])
        invariant
            start <= end <= n,
            n == s.len(),
            rest == s@.subrange(start as int, n as int),
            trim_end(rest) == trim_end(rest.subrange(0, end - start)),
        decreases end,
    {
        assert(rest.subrange(0, end - start).drop_last() =~= rest.subrange(0, end - 1 - start));
        assert(rest.subrange(0, end - start).last() == s@[end - 1]);
        end -= 1;
    }
    assert(rest.subrange(0, end - start) =~= s@.subrange(start as int, end as int));
    (start, end)
}

/// `s` without the white space at its start and at its end.
pub fn trim(s: &str) -> (r: String)
    ensures
        r@ == trimmed(s@),
{
    let chars = to_chars(s);
    let (start, end) = trim_bounds(chars.as_slice());
    String::from_str(s.substring_char(start, end))
}

/// The characters of `s` from `from` up to `to`, as a string.
pub fn substring(s: &str, from: usize, to: usize) -> (r: String)
    requires
        from <= to <= s@.len(),
    ensures
        r@ == s@.subrange(from as int, to as int),
{
    String::from_str(s.substring_char(from, to))
}

/// Whether the string `s` begins with the string `prefix`.
pub fn str_starts_with(s: &str, prefix: &str) -> (r: bool)
    ensures
        r == has_prefix(s@, prefix@),
{
    let s_chars = to_chars(s);
    let prefix_chars = to_chars(prefix);
    starts_with(s_chars.as_slice(), prefix_chars.as_slice())
}

/// Whether the string `s` ends with the string `suffix`.
pub fn str_ends_with(s: &str, suffix: &str) -> (r: bool)
    ensures
        r == has_suffix(s@, suffix@),
{
    let s_chars = to_chars(s);
    let suffix_chars = to_chars(suffix);
    ends_with(s_chars.as_slice(), suffix_chars.as_slice())
}

/// `a` followed by `b`, as a new string.
pub fn concat_str(a: &str, b: &str) -> (r: String)
    ensures
        r@ == a@ + b@,
{
    let mut s = String::from_str(a);
    s.append(b);
    s
}

/// Whether `s` is one of the strings of `list`.
pub fn contains_str(list: &[String], s: &str) -> (r: bool)
    ensures
        r == list.deep_view().contains(s@),
{
    let ghost items = list.deep_view();
    let mut i: usize = 0;
    while i < list.len()
        invariant
            i <= list.len(),
            items == list.deep_view(),
            forall|j: int| 0 <= j < i ==> items[j] != s@,
        decreases list.len() - i,
    {
        assert(items[i as int] == list@[i as int]@);
        if str_eq(list[i].as_str(), s) {
            return true;
        }
        i += 1;
    }
    false
}

} // verus!
