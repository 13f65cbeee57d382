//! Which provider an identifier belongs to.
//!
//! The decision is purely syntactic and made in a fixed order:
//!
//! 1. an identifier that reads as a signed 32-bit decimal number is a
//!    CurseForge project id;
//! 2. otherwise, one that holds exactly one `/` names a GitHub repository,
//!    the owner before the `/` and the repository after it;
//! 3. anything else is a Modrinth project id or slug.
//!
//! An identifier such as `/repo` or `owner/` has exactly one `/` and therefore
//! goes to GitHub with an empty segment. It is not rejected here: the GitHub
//! adapter finds no such repository and reports that.

use vstd::prelude::*;
use vstd::string::StrSliceExecFns;

verus! {

/// The character that separates owner and repository.
pub const SEPARATOR: char = '/';

/// Where an identifier is resolved.
#[derive(Debug, Clone, Copy, PartialEq, Eq)]
pub enum Route<'a> {
    /// A CurseForge project, by its numeric id.
    CurseForge(i32),
    /// A GitHub repository.
    GitHub { owner: &'a str, repo: &'a str },
    /// A Modrinth project, by id or slug: the whole identifier.
    Modrinth(&'a str),
}

/// What a [`Route`] means, with strings as sequences of characters.
pub enum Destination {
    CurseForge(i32),
    GitHub { owner: Seq<char>, repo: Seq<char> },
    Modrinth(Seq<char>),
}

impl<'a> View for Route<'a> {
    type V = Destination;

    open spec fn view(&self) -> Destination {
        match *self {
            Route::CurseForge(id) => Destination::CurseForge(id),
            Route::GitHub { owner, repo } => Destination::GitHub { owner: owner@, repo: repo@ },
            Route::Modrinth(slug) => Destination::Modrinth(slug@),
        }
    }
}

/// Whether `c` is one of the ten ASCII digits.
pub open spec fn is_digit(c: char) -> bool {
    '0' <= c <= '9'
}

/// Whether `s` consists of ASCII digits only.
pub open spec fn all_digits(s: Seq<char>) -> bool {
    forall|i: int| 0 <= i < s.len() ==> is_digit(#[trigger] s[i])
}

/// The number that a sequence of ASCII digits denotes in base ten.
pub open spec fn decimal_value(s: Seq<char>) -> nat
    decreases s.len(),
{
    if s.len() == 0 {
        0
    } else {
        (decimal_value(s.drop_last()) * 10 + (s.last() as int - '0' as int)) as nat
    }
}

/// Whether `s` starts with a sign.
pub open spec fn has_sign(s: Seq<char>) -> bool {
    s.len() > 0 && (s[0] == '-' || s[0] == '+')
}

/// `s` without its sign, if it has one.
pub open spec fn unsigned_part(s: Seq<char>) -> Seq<char> {
    if has_sign(s) {
        s.skip(1)
    } else {
        s
    }
}

/// The integer that `s` denotes: an optional `+` or `-`, then one or more
/// ASCII digits and nothing else. `None` for every other string.
pub open spec fn signed_decimal(s: Seq<char>) -> Option<int> {
    let digits = unsigned_part(s);
    if digits.len() == 0 || !all_digits(digits) {
        None
    } else if s[0] == '-' {
        Some(-(decimal_value(digits) as int))
    } else {
        Some(decimal_value(digits) as int)
    }
}

/// The project id that `s` denotes: its value as a signed decimal, where that
/// value fits in 32 bits.
pub open spec fn project_id_of(s: Seq<char>) -> Option<i32> {
    match signed_decimal(s) {
        Some(value) => if i32::MIN <= value <= i32::MAX {
            Some(value as i32)
        } else {
            None
        },
        None => None,
    }
}

/// How often `c` occurs in `s`.
pub open spec fn occurrences(s: Seq<char>, c: char) -> nat
    decreases s.len(),
{
    if s.len() == 0 {
        0
    } else {
        occurrences(s.drop_last(), c) + if s.last() == c {
            1nat
        } else {
            0nat
        }
    }
}

/// The position of the first `c` in `s` at or after `from`, or the length of
/// `s` if there is none.
pub open spec fn segment_end(s: Seq<char>, c: char, from: int) -> int
    decreases s.len() - from,
{
    if from < 0 || from >= s.len() {
        s.len() as int
    } else if s[from] == c {
        from
    } else {
        segment_end(s, c, from + 1)
    }
}

/// What stands before the first separator of `s`.
pub open spec fn owner_of(s: Seq<char>) -> Seq<char> {
    s.subrange(0, segment_end(s, SEPARATOR, 0))
}

/// What stands between the first separator of `s` and the second, or the end
/// of `s` if there is no second. Empty where `s` has no separator.
pub open spec fn repo_of(s: Seq<char>) -> Seq<char> {
    let first = segment_end(s, SEPARATOR, 0);
    if first >= s.len() {
        Seq::empty()
    } else {
        s.subrange(first + 1, segment_end(s, SEPARATOR, first + 1))
    }
}

/// The destination of an identifier: the routing rule, first match wins.
pub open spec fn destination_of(identifier: Seq<char>) -> Destination {
    match project_id_of(identifier) {
        Some(id) => Destination::CurseForge(id),
        None => if occurrences(identifier, SEPARATOR) == 1 {
            Destination::GitHub { owner: owner_of(identifier), repo: repo_of(identifier) }
        } else {
            Destination::Modrinth(identifier)
        },
    }
}

/// A longer run of digits denotes no smaller number than its beginning.
proof fn lemma_decimal_value_grows(s: Seq<char>, k: int)
    requires
        all_digits(s),
        0 <= k <= s.len(),
    ensures
        decimal_value(s.take(k)) <= decimal_value(s),
    decreases s.len(),
{
    if k < s.len() {
        let shorter = s.drop_last();
        assert(all_digits(shorter));
        assert(shorter.take(k) == s.take(k));
        lemma_decimal_value_grows(shorter, k);
    } else {
        assert(s.take(k) == s);
    }
}

/// Where no `c` stands at or after `from`, the segment that starts there runs
/// to the end of `s`; otherwise it ends at the first `c`.
proof fn lemma_segment_end(s: Seq<char>, c: char, from: int)
    requires
        0 <= from <= s.len(),
    ensures
        from <= segment_end(s, c, from) <= s.len(),
        forall|i: int| from <= i < segment_end(s, c, from) ==> s[i] != c,
        segment_end(s, c, from) < s.len() ==> s[segment_end(s, c, from)] == c,
    decreases s.len() - from,
{
    if from < s.len() && s[from] != c {
        lemma_segment_end(s, c, from + 1);
    }
}

/// A character that occurs nowhere in `s` occurs zero times, and the other
/// way round.
proof fn lemma_occurrences_zero(s: Seq<char>, c: char)
    ensures
        occurrences(s, c) == 0 <==> (forall|i: int| 0 <= i < s.len() ==> s[i] != c),
    decreases s.len(),
{
    if s.len() > 0 {
        let shorter = s.drop_last();
        lemma_occurrences_zero(shorter, c);
        if occurrences(s, c) == 0 {
            assert forall|i: int| 0 <= i < s.len() implies s[i] != c by {
                if i < shorter.len() {
                    assert(shorter[i] == s[i]);
                }
            }
        }
        if forall|i: int| 0 <= i < s.len() ==> s[i] != c {
            assert(forall|i: int| 0 <= i < shorter.len() ==> shorter[i] != c);
        }
    }
}

/// An identifier has a first segment short of its end exactly if the
/// separator occurs in it.
pub proof fn lemma_separator_found(s: Seq<char>)
    ensures
        segment_end(s, SEPARATOR, 0) < s.len() <==> occurrences(s, SEPARATOR) > 0,
{
    lemma_segment_end(s, SEPARATOR, 0);
    lemma_occurrences_zero(s, SEPARATOR);
}

/// The first two rules never compete: what reads as a number holds no
/// separator. The order of the rules matters only between a number or a
/// repository on the one side and a slug on the other, since anything at all
/// may stand for a slug.
pub proof fn lemma_number_has_no_separator(s: Seq<char>)
    requires
        signed_decimal(s) is Some,
    ensures
        occurrences(s, SEPARATOR) == 0,
{
    let digits = unsigned_part(s);
    assert forall|i: int| 0 <= i < s.len() implies s[i] != SEPARATOR by {
        if has_sign(s) && i > 0 {
            assert(is_digit(digits[i - 1]));
        }
    }
    lemma_occurrences_zero(s, SEPARATOR);
}

/// The characters of `s`, in order.
fn characters(s: &str) -> (chars: Vec<char>)
    ensures
        chars@ == s@,
{
    let mut chars: Vec<char> = Vec::new();
    for c in it: s.chars()
        invariant
            chars@ == s@.take(it.index() as int),
            it.seq() == s@,
    {
        chars.push(c);
    }
    chars
}

/// The project id that `chars` denotes, if any.
fn project_id(chars: &Vec<char>) -> (id: Option<i32>)
    ensures
        id == project_id_of(chars@),
{
    let len = chars.len();
    if len == 0 {
        return None;
    }
    let first = chars[0];
    let negative = first == '-';
    let start: usize = if first == '-' || first == '+' {
        1
    } else {
        0
    };
    if start == len {
        return None;
    }
    let ghost digits = unsigned_part(chars@);
    // The magnitude read so far. It is kept at or below 2^31, the largest
    // magnitude that a 32-bit number can have.
    let mut magnitude: i64 = 0;
    let mut i: usize = start;
    while i < len
        invariant
            start <= i <= len,
            len == chars@.len(),
            digits == unsigned_part(chars@),
            digits == chars@.skip(start as int),
            negative == (chars@[0] == '-'),
            all_digits(digits.take(i - start)),
            magnitude == decimal_value(digits.take(i - start)),
            0 <= magnitude <= 0x8000_0000,
        decreases len - i,
    {
        let c = chars[i];
        let ghost read = digits.take(i - start);
        let ghost next = digits.take(i + 1 - start);
        assert(next.drop_last() == read);
        if !(c >= '0' && c <= '9') {
            assert(!all_digits(digits)) by {
                assert(digits[i - start] == c);
            }
            return None;
        }
        let digit: i64 = (c as u32 - '0' as u32) as i64;
        assert(all_digits(next));
        magnitude = magnitude * 10 + digit;
        if magnitude > 0x8000_0000 {
            proof {
                if all_digits(digits) {
                    lemma_decimal_value_grows(digits, i + 1 - start);
                }
            }
            return None;
        }
        i = i + 1;
    }
    assert(digits.take(len - start) == digits);
    if negative {
        Some((-magnitude) as i32)
    } else if magnitude == 0x8000_0000 {
        None
    } else {
        Some(magnitude as i32)
    }
}

/// How often the separator occurs in `chars`.
fn count_separators(chars: &Vec<char>) -> (count: usize)
    ensures
        count == occurrences(chars@, SEPARATOR),
{
    let mut count: usize = 0;
    let mut i: usize = 0;
    while i < chars.len()
        invariant
            i <= chars.len(),
            count <= i,
            count == occurrences(chars@.take(i as int), SEPARATOR),
        decreases chars.len() - i,
    {
        assert(chars@.take(i + 1).drop_last() == chars@.take(i as int));
        if chars[i] == SEPARATOR {
            count = count + 1;
        }
        i = i + 1;
    }
    assert(chars@.take(i as int) == chars@);
    count
}

/// Where the segment of `chars` that starts at `from` ends.
fn find_segment_end(chars: &Vec<char>, from: usize) -> (end: usize)
    requires
        from <= chars.len(),
    ensures
        end == segment_end(chars@, SEPARATOR, from as int),
        from <= end <= chars.len(),
{
    let mut end: usize = from;
    while end < chars.len() && chars[end] != SEPARATOR
        invariant
            from <= end <= chars.len(),
            segment_end(chars@, SEPARATOR, from as int) == segment_end(
                chars@,
                SEPARATOR,
                end as int,
            ),
        decreases chars.len() - end,
    {
        end = end + 1;
    }
    end
}

/// Owner and repository in `chars`, cut out of `identifier`.
fn split_at_separator<'a>(identifier: &'a str, chars: &Vec<char>) -> (parts: Option<
    (&'a str, &'a str),
>)
    requires
        chars@ == identifier@,
    ensures
        parts is None <==> occurrences(identifier@, SEPARATOR) == 0,
        parts matches Some((owner, repo)) ==> owner@ == owner_of(identifier@) && repo@ == repo_of(
            identifier@,
        ),
{
    proof {
        lemma_separator_found(identifier@);
    }
    let first = find_segment_end(chars, 0);
    if first == chars.len() {
        return None;
    }
    let second = find_segment_end(chars, first + 1);
    let owner = identifier.substring_char(0, first);
    let repo = identifier.substring_char(first + 1, second);
    Some((owner, repo))
}

/// Reads `s` as a signed 32-bit decimal number: an optional `+` or `-`
/// followed by ASCII digits only, at least one. Neither white space nor
/// underscores are accepted, and a value outside the 32-bit range is no
/// number.
pub fn parse_project_id(s: &str) -> (id: Option<i32>)
    ensures
        id == project_id_of(s@),
{
    let chars = characters(s);
    project_id(&chars)
}

/// Splits an identifier of the form `owner/repo` at its first separator.
///
/// The repository ends at the second separator, if there is one: what follows
/// it is ignored. Without any separator there is no repository, and the result
/// is `None`.
pub fn split_repository(identifier: &str) -> (parts: Option<(&str, &str)>)
    ensures
        parts is None <==> occurrences(identifier@, SEPARATOR) == 0,
        parts matches Some((owner, repo)) ==> owner@ == owner_of(identifier@) && repo@ == repo_of(
            identifier@,
        ),
{
    let chars = characters(identifier);
    split_at_separator(identifier, &chars)
}

/// Decides where `identifier` is resolved.
pub fn route(identifier: &str) -> (route: Route<'_>)
    ensures
        route@ == destination_of(identifier@),
{
    let chars = characters(identifier);
    if let Some(id) = project_id(&chars) {
        return Route::CurseForge(id);
    }
    if count_separators(&chars) == 1 {
        match split_at_separator(identifier, &chars) {
            Some((owner, repo)) => Route::GitHub { owner, repo },
            None => Route::Modrinth(identifier),
        }
    } else {
        Route::Modrinth(identifier)
    }
}

} // verus!
