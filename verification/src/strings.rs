//! Text primitives: the few operations of `str` and `String` that the rest of
//! the crate builds on, stated over sequences of characters, and the decimal
//! notation of numbers.

use vstd::prelude::*;

verus! {

/// `needle` occurs in `hay` starting at character `at`.
pub open spec fn occurs_at(needle: Seq<char>, hay: Seq<char>, at: int) -> bool {
    &&& 0 <= at
    &&& at + needle.len() <= hay.len()
    &&& hay.subrange(at, at + needle.len()) == needle
}

/// `needle` occurs somewhere in `hay` as a contiguous run of characters.
pub open spec fn occurs_in(needle: Seq<char>, hay: Seq<char>) -> bool {
    exists|at: int| occurs_at(needle, hay, at)
}

/// What `str::to_lowercase` makes of a text.
pub uninterp spec fn lowercase(s: Seq<char>) -> Seq<char>;

/// What `secular::lower_lay_char` makes of a character: its lowercase form
/// without diacritics.
pub uninterp spec fn lower_lay_char(c: char) -> char;

/// A text with every character replaced by its lowercase form without
/// diacritics.
pub open spec fn lower_lay(s: Seq<char>) -> Seq<char> {
    s.map_values(|c: char| lower_lay_char(c))
}

/// `std`'s `str::contains` with a string pattern: substring search.
#[verifier::external_body]
pub(crate) fn contains(hay: &str, needle: &str) -> (found: bool)
    ensures
        found == occurs_in(needle@, hay@),
{
    hay.contains(needle)
}

/// `std`'s `str::strip_prefix` with a string pattern: the rest of `s` behind
/// `prefix`, or `None` where `s` does not start with it.
#[verifier::external_body]
pub(crate) fn strip_prefix<'a>(s: &'a str, prefix: &str) -> (rest: Option<&'a str>)
    ensures
        match rest {
            Some(r) => s@ == prefix@ + r@,
            None => !prefix@.is_prefix_of(s@),
        },
{
    s.strip_prefix(prefix)
}

/// `std`'s `String::push`: appends one character.
#[verifier::external_body]
pub(crate) fn push_char(s: &mut String, c: char)
    ensures
        final(s)@ == old(s)@.push(c),
{
    s.push(c)
}

/// `std`'s `String::pop`: removes the last character and returns it, if
/// there is one.
#[verifier::external_body]
pub(crate) fn pop_char(s: &mut String) -> (last: Option<char>)
    ensures
        match last {
            Some(c) => old(s)@.len() > 0 && c == old(s)@.last() && final(s)@ == old(s)@.drop_last(),
            None => old(s)@.len() == 0 && final(s)@ == old(s)@,
        },
{
    s.pop()
}

/// `std`'s `str::to_lowercase`. The result is a function of the text alone;
/// nothing more is claimed of it.
#[verifier::external_body]
pub(crate) fn to_lowercase(s: &str) -> (lower: String)
    ensures
        lower@ == lowercase(s@),
{
    s.to_lowercase()
}

/// `secular::lower_lay_char`: a lookup in a fixed table, so the result is a
/// function of the character alone.
#[verifier::external_body]
pub(crate) fn lay_char(c: char) -> (lay: char)
    ensures
        lay == lower_lay_char(c),
{
    secular::lower_lay_char(c)
}

/// A text with every character replaced by its lowercase form without
/// diacritics, as `secular::lower_lay_string` gives it.
pub fn lower_lay_string(s: &str) -> (lay: String)
    ensures
        lay@ == lower_lay(s@),
{
    let mut lay = String::new();
    for c in it: s.chars()
        invariant
            it.seq() == s@,
            lay@ == lower_lay(it.seq().subrange(0, it.index() as int)),
    {
        let ghost done = it.seq().subrange(0, it.index() as int);
        push_char(&mut lay, lay_char(c));
        assert(lay@ =~= lower_lay(it.seq().subrange(0, it.index() + 1))) by {
            assert(it.seq().subrange(0, it.index() + 1) =~= done.push(c));
        }
    }
    assert(s@.subrange(0, s@.len() as int) =~= s@);
    lay
}

/// Whether two texts hold the same characters.
pub fn same(a: &str, b: &str) -> (eq: bool)
    ensures
        eq == (a@ == b@),
{
    match strip_prefix(a, b) {
        Some(rest) => {
            let empty = rest.is_empty();
            assert(empty ==> a@ =~= b@);
            assert(!empty ==> a@.len() != b@.len());
            empty
        },
        None => {
            assert(b@.is_prefix_of(b@));
            false
        },
    }
}

/// Whether `s` starts with `prefix`.
pub fn starts_with(s: &str, prefix: &str) -> (yes: bool)
    ensures
        yes == prefix@.is_prefix_of(s@),
{
    match strip_prefix(s, prefix) {
        Some(rest) => {
            assert((prefix@ + rest@).subrange(0, prefix@.len() as int) =~= prefix@);
            true
        },
        None => false,
    }
}

/// The characters of a text.
pub fn chars_of(s: &str) -> (v: Vec<char>)
    ensures
        v@ == s@,
{
    let mut v: Vec<char> = Vec::new();
    for c in it: s.chars()
        invariant
            it.seq() == s@,
            v@ == it.seq().subrange(0, it.index() as int),
    {
        v.push(c);
    }
    v
}

/// The value of a decimal digit, if `c` is one.
pub open spec fn digit_value(c: char) -> Option<nat> {
    if '0' <= c && c <= '9' {
        Some((c as nat - '0' as nat) as nat)
    } else {
        None
    }
}

/// Every character of `s` is a decimal digit.
pub open spec fn all_digits(s: Seq<char>) -> bool {
    forall|i: int| 0 <= i < s.len() ==> (#[trigger] digit_value(s[i])) is Some
}

/// The number that a run of decimal digits denotes.
pub open spec fn digits_value(s: Seq<char>) -> nat
    decreases s.len(),
{
    if s.len() == 0 {
        0
    } else {
        10 * digits_value(s.drop_last()) + digit_value(s.last()).unwrap_or(0)
    }
}

/// The number that a text denotes in decimal notation: an optional `+`, then
/// one or more digits and nothing else.
pub open spec fn decimal(s: Seq<char>) -> Option<nat> {
    let body = if s.len() > 0 && s[0] == '+' {
        s.subrange(1, s.len() as int)
    } else {
        s
    };
    if body.len() > 0 && all_digits(body) {
        Some(digits_value(body))
    } else {
        None
    }
}

/// Seconds given in decimal notation with an optional fraction, rounded to
/// the nearest whole second (a half rounds up).
///
/// What is read is an optional `+`, one or more digits, and then nothing
/// more or a point and any number of digits; the value is rounded as it is
/// written, in decimal. The other ways of writing a number with a fraction
/// are not read and give `None`: a sign `-`, a point with no digit before
/// it, an exponent, and the words for infinity and for what is no number.
pub open spec fn seconds(s: Seq<char>) -> Option<nat> {
    match s.index_of_first('.') {
        Some(dot) => {
            let whole = s.subrange(0, dot);
            let fraction = s.subrange(dot + 1, s.len() as int);
            if decimal(whole) is Some && all_digits(fraction) {
                let up: nat = if fraction.len() > 0 && digit_value(fraction[0]).unwrap() >= 5 {
                    1
                } else {
                    0
                };
                Some(decimal(whole).unwrap() + up)
            } else {
                None
            }
        },
        None => decimal(s),
    }
}

/// The smaller of two numbers.
pub open spec fn capped(n: nat, cap: nat) -> nat {
    if n <= cap {
        n
    } else {
        cap
    }
}

fn digit_of(c: char) -> (d: Option<u8>)
    ensures
        match d {
            Some(v) => digit_value(c) == Some(v as nat),
            None => digit_value(c) is None,
        },
{
    if '0' <= c && c <= '9' {
        Some(((c as u32) - ('0' as u32)) as u8)
    } else {
        None
    }
}

/// Reads the digits `v[from..to]`. `None` where one of them is no digit;
/// otherwise their value, or `cap` where the value is above it.
fn read_digits(v: &Vec<char>, from: usize, to: usize, cap: u128) -> (r: Option<u128>)
    requires
        from <= to <= v.len(),
        cap <= u64::MAX + 1,
    ensures
        match r {
            Some(n) => all_digits(v@.subrange(from as int, to as int)) && n == capped(
                digits_value(v@.subrange(from as int, to as int)),
                cap as nat,
            ),
            None => !all_digits(v@.subrange(from as int, to as int)),
        },
{
    let mut acc: u128 = 0;
    let mut i: usize = from;
    while i < to
        invariant
            from <= i <= to <= v.len(),
            cap <= u64::MAX + 1,
            all_digits(v@.subrange(from as int, i as int)),
            acc == capped(digits_value(v@.subrange(from as int, i as int)), cap as nat),
        decreases to - i,
    {
        let ghost before = v@.subrange(from as int, i as int);
        let ghost after = v@.subrange(from as int, i + 1);
        assert(after.drop_last() =~= before);
        assert(after.last() == v@[i as int]);
        match digit_of(v[i]) {
            Some(d) => {
                let next: u128 = acc * 10 + (d as u128);
                acc = if next <= cap {
                    next
                } else {
                    cap
                };
                assert forall|k: int| 0 <= k < after.len() implies (#[trigger] digit_value(
                    after[k],
                )) is Some by {
                    if k < before.len() {
                        assert(after[k] == before[k]);
                    }
                }
            },
            None => {
                assert(v@.subrange(from as int, to as int)[i - from] == v@[i as int]);
                return None;
            },
        }
        i = i + 1;
    }
    Some(acc)
}

/// Reads `v[from..to]` as a number in decimal notation. `None` where it is
/// not one; otherwise its value, or `cap` where the value is above it.
fn read_decimal(v: &Vec<char>, from: usize, to: usize, cap: u128) -> (r: Option<u128>)
    requires
        from <= to <= v.len(),
        cap <= u64::MAX + 1,
    ensures
        r == match decimal(v@.subrange(from as int, to as int)) {
            Some(n) => Some(capped(n, cap as nat) as u128),
            None => None,
        },
{
    let ghost s = v@.subrange(from as int, to as int);
    let start: usize = if from < to && v[from] == '+' {
        from + 1
    } else {
        from
    };
    assert(from < to ==> s[0] == v@[from as int]);
    assert(v@.subrange(start as int, to as int) =~= if s.len() > 0 && s[0] == '+' {
        s.subrange(1, s.len() as int)
    } else {
        s
    });
    if start == to {
        return None;
    }
    read_digits(v, start, to, cap)
}

/// Reads a number in decimal notation: an optional `+`, then digits. `None`
/// where the text is anything else or the number is above `max`.
pub fn parse_number(s: &str, max: u64) -> (r: Option<u64>)
    ensures
        r == match decimal(s@) {
            Some(n) if n <= max => Some(n as u64),
            _ => None,
        },
{
    let v = chars_of(s);
    assert(v@.subrange(0, v.len() as int) =~= s@);
    match read_decimal(&v, 0, v.len(), max as u128 + 1) {
        Some(n) => if n <= max as u128 {
            Some(n as u64)
        } else {
            None
        },
        None => None,
    }
}

/// Reads seconds in decimal notation with an optional fraction and rounds
/// them to whole seconds; a value above `u16::MAX` gives `u16::MAX`. `None`
/// where the text is anything else: in particular where it has a sign `-`,
/// no digit before the point, or an exponent, or is a word for infinity or
/// for what is no number.
pub fn parse_seconds(s: &str) -> (r: Option<u16>)
    ensures
        r == match seconds(s@) {
            Some(n) => Some(capped(n, u16::MAX as nat) as u16),
            None => None,
        },
{
    let v = chars_of(s);
    assert(v@.subrange(0, v.len() as int) =~= s@);
    let mut dot: usize = 0;
    while dot < v.len() && v[dot] != '.'
        invariant
            dot <= v.len(),
            forall|k: int| 0 <= k < dot ==> v@[k] != '.',
        decreases v.len() - dot,
    {
        dot = dot + 1;
    }
    proof {
        s@.index_of_first_ensures('.');
    }
    if dot == v.len() {
        assert(!s@.contains('.'));
        return match read_decimal(&v, 0, v.len(), u16::MAX as u128) {
            Some(n) => Some(n as u16),
            None => None,
        };
    }
    assert(s@[dot as int] == '.');
    assert(s@.index_of_first('.') == Some(dot as int));
    let whole = read_decimal(&v, 0, dot, u16::MAX as u128);
    let fraction = read_digits(&v, dot + 1, v.len(), 0);
    match (whole, fraction) {
        (Some(n), Some(_)) => {
            let ghost f = v@.subrange(dot + 1, v.len() as int);
            let up: u128 = if dot + 1 < v.len() {
                assert(f[0] == v@[dot + 1]);
                match digit_of(v[dot + 1]) {
                    Some(d) => if d >= 5 {
                        1
                    } else {
                        0
                    },
                    None => 0,
                }
            } else {
                0
            };
            let total: u128 = n + up;
            Some(
                if total <= u16::MAX as u128 {
                    total as u16
                } else {
                    u16::MAX
                },
            )
        },
        _ => None,
    }
}

/// The character of a decimal digit.
pub open spec fn digit_char(d: nat) -> char {
    if d == 0 {
        '0'
    } else if d == 1 {
        '1'
    } else if d == 2 {
        '2'
    } else if d == 3 {
        '3'
    } else if d == 4 {
        '4'
    } else if d == 5 {
        '5'
    } else if d == 6 {
        '6'
    } else if d == 7 {
        '7'
    } else if d == 8 {
        '8'
    } else {
        '9'
    }
}

/// A number in decimal notation, without leading zeros.
pub open spec fn decimal_text(n: nat) -> Seq<char>
    decreases n,
{
    if n < 10 {
        seq![digit_char(n)]
    } else {
        decimal_text(n / 10).push(digit_char(n % 10))
    }
}

/// The character of a digit denotes the digit.
pub proof fn digit_char_is_a_digit(d: nat)
    requires
        d < 10,
    ensures
        digit_value(digit_char(d)) == Some(d),
{
}

/// A number written in decimal notation reads back as itself.
pub proof fn decimal_text_reads_back(n: nat)
    ensures
        decimal_text(n).len() > 0,
        all_digits(decimal_text(n)),
        digits_value(decimal_text(n)) == n,
        decimal(decimal_text(n)) == Some(n),
    decreases n,
{
    let text = decimal_text(n);
    if n < 10 {
        digit_char_is_a_digit(n);
        assert(text.drop_last() =~= Seq::<char>::empty());
        assert(digits_value(text.drop_last()) == 0);
    } else {
        let front = decimal_text(n / 10);
        decimal_text_reads_back(n / 10);
        digit_char_is_a_digit(n % 10);
        assert(text.drop_last() =~= front);
        assert(text.last() == digit_char(n % 10));
        assert forall|i: int| 0 <= i < text.len() implies (#[trigger] digit_value(
            text[i],
        )) is Some by {
            if i < front.len() {
                assert(text[i] == front[i]);
            }
        }
    }
    assert(digit_value(text[0]) is Some);
}

/// A duration in seconds as minutes, a colon, and two digits of seconds.
pub open spec fn time_text(secs: nat) -> Seq<char> {
    decimal_text(secs / 60).push(':').push(digit_char((secs % 60) / 10)).push(
        digit_char((secs % 60) % 10),
    )
}

fn char_of_digit(d: u64) -> (c: char)
    requires
        d < 10,
    ensures
        c == digit_char(d as nat),
{
    if d == 0 {
        '0'
    } else if d == 1 {
        '1'
    } else if d == 2 {
        '2'
    } else if d == 3 {
        '3'
    } else if d == 4 {
        '4'
    } else if d == 5 {
        '5'
    } else if d == 6 {
        '6'
    } else if d == 7 {
        '7'
    } else if d == 8 {
        '8'
    } else {
        '9'
    }
}

/// Appends `n` in decimal notation to `out`.
pub fn push_decimal(out: &mut String, n: u64)
    ensures
        final(out)@ == old(out)@ + decimal_text(n as nat),
    decreases n,
{
    if n < 10 {
        push_char(out, char_of_digit(n));
        assert(out@ =~= old(out)@ + decimal_text(n as nat));
    } else {
        push_decimal(out, n / 10);
        push_char(out, char_of_digit(n % 10));
        assert(out@ =~= old(out)@ + decimal_text(n as nat));
    }
}

/// A duration in seconds as text: minutes, a colon, and the seconds in two
/// digits.
pub fn format_time(secs: u16) -> (text: String)
    ensures
        text@ == time_text(secs as nat),
{
    let mut text = String::new();
    let rest: u64 = (secs % 60) as u64;
    push_decimal(&mut text, (secs / 60) as u64);
    push_char(&mut text, ':');
    push_char(&mut text, char_of_digit(rest / 10));
    push_char(&mut text, char_of_digit(rest % 10));
    assert(text@ =~= time_text(secs as nat));
    text
}

} // verus!
