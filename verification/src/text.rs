//! Operations on text that the address rules are written with.
//!
//! Text is handled as a sequence of characters. A pattern that is empty
//! occurs nowhere: searching for it finds nothing and replacing it changes
//! nothing.

use vstd::prelude::*;
use vstd::std_specs::iter::IteratorSpec;

verus! {

/// `String::push` of the standard library appends one character to the end of
/// the string and leaves what was there before as it was.
pub assume_specification[ String::push ](s: &mut String, ch: char)
    ensures
        final(s)@ == old(s)@.push(ch),
;

/// Whether `char::is_alphanumeric` of the standard library counts a character
/// as a letter or a digit.
pub uninterp spec fn is_alphanumeric_char(c: char) -> bool;

/// `char::is_alphanumeric` of the standard library goes by the character
/// alone.
pub assume_specification[ char::is_alphanumeric ](c: char) -> (answer: bool)
    ensures
        answer == is_alphanumeric_char(c),
;

/// Whether `char::is_whitespace` of the standard library counts a character
/// as white space.
pub uninterp spec fn is_whitespace_char(c: char) -> bool;

/// `char::is_whitespace` of the standard library goes by the character alone.
pub assume_specification[ char::is_whitespace ](c: char) -> (answer: bool)
    ensures
        answer == is_whitespace_char(c),
;

/// The text that `str::to_lowercase` of the standard library makes of a text.
pub uninterp spec fn lowercase(s: Seq<char>) -> Seq<char>;

/// `str::to_lowercase` of the standard library goes by the text alone.
pub assume_specification[ str::to_lowercase ](s: &str) -> (out: String)
    ensures
        out@ == lowercase(s@),
;

/// The characters of a string that may be missing.
pub open spec fn optional_text(text: Option<String>) -> Option<Seq<char>> {
    match text {
        Some(t) => Some(t@),
        None => None,
    }
}

/// `needle` stands in `hay` at position `at`.
pub open spec fn occurs_at(hay: Seq<char>, at: int, needle: Seq<char>) -> bool {
    &&& needle.len() > 0
    &&& 0 <= at
    &&& at + needle.len() <= hay.len()
    &&& hay.subrange(at, at + needle.len()) == needle
}

/// `hay` begins with `needle`.
pub open spec fn begins_with(hay: Seq<char>, needle: Seq<char>) -> bool {
    occurs_at(hay, 0, needle)
}

/// `needle` stands somewhere in `hay`.
pub open spec fn contains(hay: Seq<char>, needle: Seq<char>) -> bool {
    exists|at: int| occurs_at(hay, at, needle)
}

/// `s` with every occurrence of `from` replaced by `to`, read from the left;
/// an occurrence that overlaps one already replaced does not count.
pub open spec fn replaced(s: Seq<char>, from: Seq<char>, to: Seq<char>) -> Seq<char>
    decreases s.len(),
{
    if s.len() == 0 {
        s
    } else if occurs_at(s, 0, from) {
        to + replaced(s.skip(from.len() as int), from, to)
    } else {
        seq![s[0]] + replaced(s.skip(1), from, to)
    }
}

/// `at` is the first position at which `needle` stands in `hay`.
pub open spec fn is_first_occurrence(hay: Seq<char>, needle: Seq<char>, at: int) -> bool {
    &&& occurs_at(hay, at, needle)
    &&& forall|j: int| 0 <= j < at ==> !occurs_at(hay, j, needle)
}

/// The first position at which `needle` stands in `hay`, if it stands there
/// at all.
pub open spec fn first_occurrence(hay: Seq<char>, needle: Seq<char>) -> Option<int> {
    if exists|at: int| is_first_occurrence(hay, needle, at) {
        Some(choose|at: int| is_first_occurrence(hay, needle, at))
    } else {
        None
    }
}

/// `s` without `prefix` in front, or `s` itself where it does not begin with
/// it.
pub open spec fn without_prefix(s: Seq<char>, prefix: Seq<char>) -> Seq<char> {
    if begins_with(s, prefix) {
        s.skip(prefix.len() as int)
    } else {
        s
    }
}

/// `s` without the run of `c` that it begins with.
pub open spec fn trimmed_start(s: Seq<char>, c: char) -> Seq<char>
    decreases s.len(),
{
    if s.len() > 0 && s[0] == c {
        trimmed_start(s.skip(1), c)
    } else {
        s
    }
}

/// `s` without the run of `c` that it ends with.
pub open spec fn trimmed_end(s: Seq<char>, c: char) -> Seq<char>
    decreases s.len(),
{
    if s.len() > 0 && s.last() == c {
        trimmed_end(s.drop_last(), c)
    } else {
        s
    }
}

/// The first position is the same whoever finds it.
pub proof fn lemma_first_occurrence_is(hay: Seq<char>, needle: Seq<char>, at: int)
    requires
        is_first_occurrence(hay, needle, at),
    ensures
        first_occurrence(hay, needle) == Some(at),
{
    let k = choose|k: int| is_first_occurrence(hay, needle, k);
    assert(is_first_occurrence(hay, needle, k));
    if k < at {
        assert(!occurs_at(hay, k, needle));
    }
    if at < k {
        assert(!occurs_at(hay, at, needle));
    }
}

/// The character of a digit.
pub open spec fn digit_char(digit: int) -> char {
    (0x30 + digit) as u8 as char
}

/// A natural number in decimal digits.
pub open spec fn decimal_nat(n: nat) -> Seq<char>
    decreases n,
{
    if n < 10 {
        seq![digit_char(n as int)]
    } else {
        decimal_nat(n / 10).push(digit_char((n % 10) as int))
    }
}

/// A whole number in decimal digits, with a minus sign before it where it is
/// negative.
pub open spec fn decimal(n: int) -> Seq<char> {
    if n < 0 {
        seq!['-'] + decimal_nat((-n) as nat)
    } else {
        decimal_nat(n as nat)
    }
}

/// Where the last segment of `s` begins: after its last slash, or at its
/// beginning where it has none.
pub open spec fn last_segment_start(s: Seq<char>) -> int
    decreases s.len(),
{
    if s.len() == 0 {
        0
    } else if s.last() == '/' {
        s.len() as int
    } else {
        last_segment_start(s.drop_last())
    }
}

/// What follows the last slash of `s`; all of `s` where it has none.
pub open spec fn last_segment(s: Seq<char>) -> Seq<char> {
    s.skip(last_segment_start(s))
}

/// `s` without the white space that it begins with.
pub open spec fn without_leading_space(s: Seq<char>) -> Seq<char>
    decreases s.len(),
{
    if s.len() > 0 && is_whitespace_char(s[0]) {
        without_leading_space(s.skip(1))
    } else {
        s
    }
}

/// `s` without the white space that it ends with.
pub open spec fn without_trailing_space(s: Seq<char>) -> Seq<char>
    decreases s.len(),
{
    if s.len() > 0 && is_whitespace_char(s.last()) {
        without_trailing_space(s.drop_last())
    } else {
        s
    }
}

/// `s` without the white space around it.
pub open spec fn trimmed(s: Seq<char>) -> Seq<char> {
    without_trailing_space(without_leading_space(s))
}

/// `hay` holds `needle`, in the way of the standard library: the empty text
/// is held by every text.
pub open spec fn holds(hay: Seq<char>, needle: Seq<char>) -> bool {
    needle.len() == 0 || contains(hay, needle)
}

/// `s` without the repetitions of `prefix` that it begins with.
pub open spec fn without_prefixes(s: Seq<char>, prefix: Seq<char>) -> Seq<char>
    decreases s.len(),
{
    if begins_with(s, prefix) {
        without_prefixes(s.skip(prefix.len() as int), prefix)
    } else {
        s
    }
}

/// The characters of `s`, in order.
pub fn chars_of(s: &str) -> (out: Vec<char>)
    ensures
        out@ == s@,
{
    broadcast use vstd::string::group_string_axioms;

    let mut out: Vec<char> = Vec::new();
    let mut it = s.chars();
    loop
        invariant
            it.obeys_prophetic_iter_laws(),
            it.decrease() is Some,
            out@ + it.remaining() == s@,
        decreases it.decrease()->0,
    {
        let ghost before = it.remaining();
        match it.next() {
            Some(c) => {
                proof {
                    assert(before == seq![c] + it.remaining());
                    assert(out@.push(c) + it.remaining() =~= out@ + before);
                }
                out.push(c);
            },
            None => {
                assert(out@ =~= s@);
                return out;
            },
        }
    }
}

/// The string made of `chars`, in order.
pub fn string_of(chars: &Vec<char>) -> (out: String)
    ensures
        out@ == chars@,
{
    let mut out = String::new();
    let mut i: usize = 0;
    while i < chars.len()
        invariant
            i <= chars.len(),
            out@ == chars@.take(i as int),
        decreases chars.len() - i,
    {
        out.push(chars[i]);
        assert(chars@.take(i as int).push(chars@[i as int]) =~= chars@.take(i + 1));
        i += 1;
    }
    assert(chars@.take(chars.len() as int) =~= chars@);
    out
}

/// Tells whether `needle` stands in `hay` at position `at`.
pub fn matches_at(hay: &Vec<char>, at: usize, needle: &Vec<char>) -> (found: bool)
    ensures
        found == occurs_at(hay@, at as int, needle@),
{
    let n = needle.len();
    if n == 0 || at > hay.len() || n > hay.len() - at {
        return false;
    }
    let mut k: usize = 0;
    while k < n
        invariant
            k <= n,
            n == needle.len(),
            n > 0,
            at + n <= hay.len(),
            hay@.subrange(at as int, at + k) == needle@.take(k as int),
        decreases n - k,
    {
        if hay[at + k] != needle[k] {
            assert(hay@.subrange(at as int, at + n)[k as int] != needle@[k as int]);
            return false;
        }
        assert(hay@.subrange(at as int, at + k).push(hay@[at + k]) =~= hay@.subrange(
            at as int,
            at + k + 1,
        ));
        assert(needle@.take(k as int).push(needle@[k as int]) =~= needle@.take(k + 1));
        k += 1;
    }
    assert(needle@.take(n as int) =~= needle@);
    true
}

/// Tells whether `hay` begins with `needle`.
pub fn starts_with(hay: &Vec<char>, needle: &Vec<char>) -> (found: bool)
    ensures
        found == begins_with(hay@, needle@),
{
    matches_at(hay, 0, needle)
}

/// Tells whether `needle` stands somewhere in `hay`.
pub fn includes(hay: &Vec<char>, needle: &Vec<char>) -> (found: bool)
    ensures
        found == contains(hay@, needle@),
{
    let mut at: usize = 0;
    while at < hay.len()
        invariant
            at <= hay.len(),
            forall|j: int| 0 <= j < at ==> !occurs_at(hay@, j, needle@),
        decreases hay.len() - at,
    {
        if matches_at(hay, at, needle) {
            return true;
        }
        at += 1;
    }
    assert(forall|j: int| !occurs_at(hay@, j, needle@));
    false
}

/// Replaces every occurrence of `from` in `s` by `to`, reading from the left.
pub fn replace_all(s: &Vec<char>, from: &Vec<char>, to: &Vec<char>) -> (out: Vec<char>)
    ensures
        out@ == replaced(s@, from@, to@),
{
    let mut out: Vec<char> = Vec::new();
    let mut i: usize = 0;
    assert(s@.skip(0) =~= s@);
    assert(out@ + replaced(s@, from@, to@) =~= replaced(s@, from@, to@));
    while i < s.len()
        invariant
            i <= s.len(),
            out@ + replaced(s@.skip(i as int), from@, to@) == replaced(s@, from@, to@),
        decreases s.len() - i,
    {
        let ghost rest = s@.skip(i as int);
        let ghost done = out@;
        if matches_at(s, i, from) {
            assert(occurs_at(rest, 0, from@)) by {
                assert(rest.subrange(0, from@.len() as int) =~= s@.subrange(
                    i as int,
                    i + from@.len(),
                ));
            }
            let mut k: usize = 0;
            while k < to.len()
                invariant
                    k <= to.len(),
                    out@ == done + to@.take(k as int),
                decreases to.len() - k,
            {
                out.push(to[k]);
                assert(to@.take(k as int).push(to@[k as int]) =~= to@.take(k + 1));
                assert((done + to@.take(k as int)).push(to@[k as int]) =~= done + to@.take(
                    k as int,
                ).push(to@[k as int]));
                k += 1;
            }
            assert(to@.take(to.len() as int) =~= to@);
            i += from.len();
            proof {
                assert(rest.skip(from@.len() as int) =~= s@.skip(i as int));
                assert(out@ + replaced(s@.skip(i as int), from@, to@) =~= done + replaced(
                    rest,
                    from@,
                    to@,
                ));
            }
        } else {
            assert(!occurs_at(rest, 0, from@)) by {
                if occurs_at(rest, 0, from@) {
                    assert(rest.subrange(0, from@.len() as int) =~= s@.subrange(
                        i as int,
                        i + from@.len(),
                    ));
                }
            }
            out.push(s[i]);
            i += 1;
            proof {
                assert(rest.skip(1) =~= s@.skip(i as int));
                assert(out@ + replaced(s@.skip(i as int), from@, to@) =~= done + replaced(
                    rest,
                    from@,
                    to@,
                ));
            }
        }
    }
    assert(s@.skip(s.len() as int) =~= Seq::<char>::empty());
    assert(out@ + Seq::<char>::empty() =~= out@);
    out
}

/// Finds the first position at which `needle` stands in `hay`.
pub fn find(hay: &Vec<char>, needle: &Vec<char>) -> (place: Option<usize>)
    ensures
        match place {
            Some(at) => first_occurrence(hay@, needle@) == Some(at as int) && at + needle@.len()
                <= hay@.len(),
            None => first_occurrence(hay@, needle@) is None && !contains(hay@, needle@),
        },
{
    let mut at: usize = 0;
    while at < hay.len()
        invariant
            at <= hay.len(),
            forall|j: int| 0 <= j < at ==> !occurs_at(hay@, j, needle@),
        decreases hay.len() - at,
    {
        if matches_at(hay, at, needle) {
            proof {
                lemma_first_occurrence_is(hay@, needle@, at as int);
            }
            return Some(at);
        }
        at += 1;
    }
    assert(forall|j: int| !occurs_at(hay@, j, needle@));
    None
}

/// The characters of `s` from position `from` up to position `to`.
pub fn slice(s: &Vec<char>, from: usize, to: usize) -> (out: Vec<char>)
    requires
        from <= to <= s@.len(),
    ensures
        out@ == s@.subrange(from as int, to as int),
{
    let mut out: Vec<char> = Vec::new();
    let mut i: usize = from;
    while i < to
        invariant
            from <= i <= to,
            to <= s@.len(),
            out@ == s@.subrange(from as int, i as int),
        decreases to - i,
    {
        out.push(s[i]);
        assert(s@.subrange(from as int, i as int).push(s@[i as int]) =~= s@.subrange(
            from as int,
            i + 1,
        ));
        i += 1;
    }
    out
}

/// Takes `prefix` off the front of `s`, where `s` begins with it.
pub fn strip_prefix(s: &Vec<char>, prefix: &Vec<char>) -> (out: Vec<char>)
    ensures
        out@ == without_prefix(s@, prefix@),
{
    if starts_with(s, prefix) {
        let out = slice(s, prefix.len(), s.len());
        assert(s@.subrange(prefix@.len() as int, s@.len() as int) =~= s@.skip(
            prefix@.len() as int,
        ));
        out
    } else {
        let out = slice(s, 0, s.len());
        assert(s@.subrange(0, s@.len() as int) =~= s@);
        out
    }
}

/// Takes the run of `c` off the front of `s`.
pub fn trim_start(s: &Vec<char>, c: char) -> (out: Vec<char>)
    ensures
        out@ == trimmed_start(s@, c),
{
    let mut i: usize = 0;
    assert(s@.skip(0) =~= s@);
    while i < s.len() && s[i] == c
        invariant
            i <= s.len(),
            trimmed_start(s@.skip(i as int), c) == trimmed_start(s@, c),
        decreases s.len() - i,
    {
        assert(s@.skip(i as int).skip(1) =~= s@.skip(i + 1));
        i += 1;
    }
    let out = slice(s, i, s.len());
    assert(s@.subrange(i as int, s@.len() as int) =~= s@.skip(i as int));
    out
}

/// Takes the run of `c` off the end of `s`.
pub fn trim_end(s: &Vec<char>, c: char) -> (out: Vec<char>)
    ensures
        out@ == trimmed_end(s@, c),
{
    let mut n: usize = s.len();
    assert(s@.take(n as int) =~= s@);
    while n > 0 && s[n - 1] == c
        invariant
            n <= s.len(),
            trimmed_end(s@.take(n as int), c) == trimmed_end(s@, c),
        decreases n,
    {
        assert(s@.take(n as int).drop_last() =~= s@.take(n - 1));
        n -= 1;
    }
    let out = slice(s, 0, n);
    assert(s@.subrange(0, n as int) =~= s@.take(n as int));
    out
}

fn push_decimal(n: u64, out: &mut Vec<char>)
    ensures
        final(out)@ == old(out)@ + decimal_nat(n as nat),
    decreases n,
{
    if n >= 10 {
        push_decimal(n / 10, out);
    }
    let ghost before = out@;
    let digit: u8 = (n % 10) as u8;
    out.push((0x30u8 + digit) as char);
    proof {
        if n >= 10 {
            assert(out@ =~= old(out)@ + decimal_nat((n / 10) as nat).push(
                digit_char((n % 10) as int),
            ));
        } else {
            assert(out@ =~= old(out)@ + seq![digit_char(n as int)]);
        }
    }
}

/// Writes a number without sign in decimal digits.
pub fn decimal_of_u64(n: u64) -> (out: String)
    ensures
        out@ == decimal(n as int),
{
    let mut digits: Vec<char> = Vec::new();
    push_decimal(n, &mut digits);
    assert(digits@ =~= decimal_nat(n as nat));
    string_of(&digits)
}

/// Writes a number in decimal digits.
pub fn decimal_of(n: i64) -> (out: String)
    ensures
        out@ == decimal(n as int),
{
    let mut digits: Vec<char> = Vec::new();
    if n < 0 {
        digits.push('-');
        let magnitude: u64 = ((-(n + 1)) as u64) + 1;
        push_decimal(magnitude, &mut digits);
    } else {
        push_decimal(n as u64, &mut digits);
        assert(digits@ =~= decimal_nat(n as nat));
    }
    string_of(&digits)
}

/// Takes what follows the last slash of `s`.
pub fn last_segment_of(s: &Vec<char>) -> (out: Vec<char>)
    ensures
        out@ == last_segment(s@),
{
    let mut n: usize = s.len();
    assert(s@.take(n as int) =~= s@);
    while n > 0 && s[n - 1] != '/'
        invariant
            n <= s.len(),
            last_segment_start(s@.take(n as int)) == last_segment_start(s@),
        decreases n,
    {
        assert(s@.take(n as int).drop_last() =~= s@.take(n - 1));
        n -= 1;
    }
    proof {
        if n > 0 {
            assert(s@.take(n as int).last() == '/');
        }
        assert(last_segment_start(s@.take(n as int)) == n);
    }
    let out = slice(s, n, s.len());
    assert(s@.subrange(n as int, s@.len() as int) =~= s@.skip(n as int));
    out
}

/// Takes the white space off both ends of `s`.
pub fn trim(s: &Vec<char>) -> (out: Vec<char>)
    ensures
        out@ == trimmed(s@),
{
    let mut i: usize = 0;
    assert(s@.skip(0) =~= s@);
    while i < s.len() && s[i].is_whitespace()
        invariant
            i <= s.len(),
            without_leading_space(s@.skip(i as int)) == without_leading_space(s@),
        decreases s.len() - i,
    {
        assert(s@.skip(i as int).skip(1) =~= s@.skip(i + 1));
        i += 1;
    }
    let ghost front = s@.skip(i as int);
    let mut n: usize = s.len();
    assert(s@.subrange(i as int, n as int) =~= front);
    while n > i && s[n - 1].is_whitespace()
        invariant
            i <= n <= s.len(),
            front == s@.skip(i as int),
            without_trailing_space(s@.subrange(i as int, n as int)) == without_trailing_space(
                front,
            ),
        decreases n,
    {
        assert(s@.subrange(i as int, n as int).drop_last() =~= s@.subrange(i as int, n - 1));
        n -= 1;
    }
    slice(s, i, n)
}

/// Tells whether `hay` holds `needle`, the empty text being held by every
/// text.
pub fn holds_text(hay: &Vec<char>, needle: &Vec<char>) -> (found: bool)
    ensures
        found == holds(hay@, needle@),
{
    needle.len() == 0 || includes(hay, needle)
}

/// Takes every repetition of `prefix` off the front of `s`.
pub fn strip_prefixes(s: &Vec<char>, prefix: &Vec<char>) -> (out: Vec<char>)
    ensures
        out@ == without_prefixes(s@, prefix@),
{
    let mut at: usize = 0;
    assert(s@.skip(0) =~= s@);
    while matches_at(s, at, prefix)
        invariant
            at <= s.len(),
            without_prefixes(s@.skip(at as int), prefix@) == without_prefixes(s@, prefix@),
        decreases s.len() - at,
    {
        let width: usize = prefix.len();
        proof {
            assert(s@.skip(at as int).subrange(0, width as int) =~= s@.subrange(
                at as int,
                at + width,
            ));
            assert(s@.skip(at as int).skip(width as int) =~= s@.skip(at + width));
        }
        at += width;
    }
    proof {
        if begins_with(s@.skip(at as int), prefix@) {
            assert(s@.skip(at as int).subrange(0, prefix@.len() as int) =~= s@.subrange(
                at as int,
                at + prefix@.len(),
            ));
        }
    }
    let out = slice(s, at, s.len());
    assert(s@.subrange(at as int, s@.len() as int) =~= s@.skip(at as int));
    out
}

} // verus!
