//! Character sequences: the building blocks every rendered document is
//! stated over, and the executable functions that compute them.

use vstd::prelude::*;
use vstd::std_specs::iter::IteratorSpec;

verus! {

broadcast use vstd::string::group_string_axioms;

/// `String::push` of std: the string grows by the one character, at its end.
pub assume_specification[ String::push ](s: &mut String, c: char)
    ensures
        final(s)@ == old(s)@.push(c),
;

/// Whether `c` gets a backslash in front: a double quote always, a backslash
/// only where `backslashes` asks for it.
pub open spec fn is_special(c: char, backslashes: bool) -> bool {
    c == '"' || (backslashes && c == '\\')
}

/// `s` with a backslash in front of every special character.
pub open spec fn escaped(s: Seq<char>, backslashes: bool) -> Seq<char>
    decreases s.len(),
{
    if s.len() == 0 {
        Seq::empty()
    } else if is_special(s.last(), backslashes) {
        escaped(s.drop_last(), backslashes).push('\\').push(s.last())
    } else {
        escaped(s.drop_last(), backslashes).push(s.last())
    }
}

/// `s` as a string literal: escaped, between double quotes.
pub open spec fn quoted(s: Seq<char>) -> Seq<char> {
    seq!['"'] + escaped(s, true) + seq!['"']
}

/// The parts in order, with `sep` between each two neighbours.
pub open spec fn joined(parts: Seq<Seq<char>>, sep: Seq<char>) -> Seq<char>
    decreases parts.len(),
{
    if parts.len() == 0 {
        Seq::empty()
    } else if parts.len() == 1 {
        parts[0]
    } else {
        joined(parts.drop_last(), sep) + sep + parts.last()
    }
}

/// The views of a sequence of strings.
pub open spec fn views(parts: Seq<String>) -> Seq<Seq<char>> {
    parts.map_values(|s: String| s@)
}

/// The view of a string that may be missing.
pub open spec fn text_of(s: Option<String>) -> Option<Seq<char>> {
    match s {
        Some(s) => Some(s@),
        None => None,
    }
}

/// The character of the decimal digit `d`.
pub open spec fn digit(d: int) -> char {
    "0123456789"@[d]
}

/// `n` in decimal, without leading zeros.
pub open spec fn decimal(n: nat) -> Seq<char>
    decreases n,
{
    if n < 10 {
        seq![digit(n as int)]
    } else {
        decimal(n / 10).push(digit((n % 10) as int))
    }
}

/// `i` in decimal, with a minus sign in front where it is negative.
pub open spec fn signed_decimal(i: int) -> Seq<char> {
    if i < 0 {
        seq!['-'] + decimal((-i) as nat)
    } else {
        decimal(i as nat)
    }
}

/// `s` without the minus sign in front of it, if it has one.
pub open spec fn unsigned_part(s: Seq<char>) -> Seq<char> {
    if s.len() > 0 && s[0] == '-' {
        s.subrange(1, s.len() as int)
    } else {
        s
    }
}

/// Whether `s` is a decimal numeral: an optional minus sign, digits, and
/// optionally a point followed by digits.
pub open spec fn is_numeral(s: Seq<char>) -> bool {
    let body = unsigned_part(s);
    exists|point: int|
        0 < point <= body.len() && #[trigger] all_digits(body.subrange(0, point)) && (point
            == body.len() || (body[point] == '.' && point + 1 < body.len() && all_digits(
            body.subrange(point + 1, body.len() as int),
        )))
}

/// Whether every character of `s` is a decimal digit.
pub open spec fn all_digits(s: Seq<char>) -> bool {
    forall|i: int| 0 <= i < s.len() ==> '0' <= #[trigger] s[i] <= '9'
}

/// Appends `s`, escaped, to `out`.
pub fn push_escaped(out: &mut String, s: &str, backslashes: bool)
    ensures
        final(out)@ == old(out)@ + escaped(s@, backslashes),
{
    let mut it = s.chars();
    let ghost mut done: Seq<char> = Seq::empty();
    loop
        invariant
            it.obeys_prophetic_iter_laws(),
            it.decrease() is Some,
            done + it.remaining() == s@,
            out@ == old(out)@ + escaped(done, backslashes),
        ensures
            out@ == old(out)@ + escaped(s@, backslashes),
        decreases it.decrease()->0,
    {
        match it.next() {
            Some(c) => {
                if c == '"' || (backslashes && c == '\\') {
                    out.push('\\');
                }
                out.push(c);
                proof {
                    let next = done.push(c);
                    assert(next.drop_last() == done);
                    done = next;
                }
            },
            None => {
                break ;
            },
        }
    }
}

/// The characters of `s`.
pub fn characters(s: &str) -> (out: Vec<char>)
    ensures
        out@ == s@,
{
    let mut out: Vec<char> = Vec::new();
    let mut it = s.chars();
    loop
        invariant
            it.obeys_prophetic_iter_laws(),
            it.decrease() is Some,
            out@ + it.remaining() == s@,
        ensures
            out@ == s@,
        decreases it.decrease()->0,
    {
        match it.next() {
            Some(c) => {
                out.push(c);
            },
            None => {
                break ;
            },
        }
    }
    out
}

/// The end of the run of digits that starts at `from`.
fn digits_end(s: &Vec<char>, from: usize) -> (out: usize)
    requires
        from <= s.len(),
    ensures
        from <= out <= s.len(),
        all_digits(s@.subrange(from as int, out as int)),
        out < s.len() ==> !('0' <= s@[out as int] <= '9'),
{
    let mut i: usize = from;
    while i < s.len() && '0' <= s[i] && s[i] <= '9'
        invariant
            from <= i <= s.len(),
            all_digits(s@.subrange(from as int, i as int)),
        decreases s.len() - i,
    {
        assert(s@.subrange(from as int, i + 1) == s@.subrange(from as int, i as int).push(
            s@[i as int],
        ));
        i += 1;
    }
    i
}

/// Whether `s` is a decimal numeral.
pub fn numeral(s: &str) -> (out: bool)
    ensures
        out == is_numeral(s@),
{
    let all = characters(s);
    let start: usize = if all.len() > 0 && all[0] == '-' {
        1
    } else {
        0
    };
    let point = digits_end(&all, start);
    let ghost body = unsigned_part(s@);
    proof {
        assert(body.subrange(0, point - start) == all@.subrange(start as int, point as int));
        // any split of a numeral stands where the first run of digits ends
        assert forall|other: int|
            0 < other <= body.len() && #[trigger] all_digits(body.subrange(0, other)) && (other
                == body.len() || body[other] == '.') implies other == point - start by {
            if other < point - start {
                assert(body.subrange(0, point - start)[other] == body[other]);
            } else if other > point - start {
                assert(body.subrange(0, other)[point - start] == body[point - start]);
            }
        }
    }
    if point == start {
        return false;
    }
    if point == all.len() {
        return true;
    }
    if all[point] != '.' || point + 1 >= all.len() {
        return false;
    }
    let end = digits_end(&all, point + 1);
    proof {
        let split = point - start;
        if end < all.len() {
            let tail = body.subrange(split + 1, body.len() as int);
            assert(tail[end - point - 1] == all@[end as int]);
        } else {
            assert(body.subrange(split + 1, body.len() as int) == all@.subrange(
                point + 1,
                end as int,
            ));
        }
    }
    end == all.len()
}

/// Whether two texts hold the same characters.
pub fn same(a: &str, b: &str) -> (out: bool)
    ensures
        out == (a@ == b@),
{
    String::from_str(a) == String::from_str(b)
}

/// `s` with a backslash in front of every double quote, and of every
/// backslash too where `backslashes` is set.
pub fn escape(s: &str, backslashes: bool) -> (out: String)
    ensures
        out@ == escaped(s@, backslashes),
{
    let mut out = String::new();
    push_escaped(&mut out, s, backslashes);
    out
}

/// `s` as a string literal.
pub fn quote(s: &str) -> (out: String)
    ensures
        out@ == quoted(s@),
{
    let mut out = String::new();
    out.push('"');
    push_escaped(&mut out, s, true);
    out.push('"');
    out
}

/// Joins the parts with `sep` between them.
pub fn join(parts: &Vec<String>, sep: &str) -> (out: String)
    ensures
        out@ == joined(views(parts@), sep@),
{
    let mut out = String::new();
    let mut i: usize = 0;
    while i < parts.len()
        invariant
            i <= parts.len(),
            out@ == joined(views(parts@).take(i as int), sep@),
        decreases parts.len() - i,
    {
        if i > 0 {
            out.append(sep);
        }
        out.append(parts[i].as_str());
        proof {
            let all = views(parts@);
            assert(all.take(i + 1).drop_last() == all.take(i as int));
        }
        i += 1;
    }
    proof {
        assert(views(parts@).take(parts.len() as int) == views(parts@));
    }
    out
}

/// Appends `n` in decimal to `out`.
pub fn push_decimal(out: &mut String, n: u64)
    ensures
        final(out)@ == old(out)@ + decimal(n as nat),
    decreases n,
{
    if n >= 10 {
        push_decimal(out, n / 10);
    }
    proof {
        reveal_strlit("0123456789");
    }
    let d: usize = (n % 10) as usize;
    out.push("0123456789".get_char(d));
}

/// `n` in decimal.
pub fn unsigned(n: u64) -> (out: String)
    ensures
        out@ == decimal(n as nat),
{
    let mut out = String::new();
    push_decimal(&mut out, n);
    out
}

/// `i` in decimal.
pub fn signed(i: i64) -> (out: String)
    ensures
        out@ == signed_decimal(i as int),
{
    let mut out = String::new();
    if i < 0 {
        out.push('-');
        let magnitude: u64 = ((-(i + 1)) as u64) + 1;
        push_decimal(&mut out, magnitude);
    } else {
        push_decimal(&mut out, i as u64);
    }
    out
}

/// The number that a digit stands for.
pub open spec fn digit_value(c: char) -> nat {
    (c as int - '0' as int) as nat
}

/// The number that a sequence of digits stands for.
pub open spec fn number(digits: Seq<char>) -> nat
    decreases digits.len(),
{
    if digits.len() == 0 {
        0
    } else {
        number(digits.drop_last()) * 10 + digit_value(digits.last())
    }
}

/// The decimal text of a number holds digits only, at least one, no
/// leading zero but for zero itself, and stands for that number.
pub proof fn lemma_decimal(n: nat)
    ensures
        decimal(n).len() >= 1,
        all_digits(decimal(n)),
        n > 0 ==> decimal(n)[0] != '0',
        number(decimal(n)) == n,
    decreases n,
{
    reveal_strlit("0123456789");
    if n >= 10 {
        lemma_decimal(n / 10);
        let front = decimal(n / 10);
        let d = digit((n % 10) as int);
        assert(front.push(d).drop_last() == front);
    } else {
        let d = digit(n as int);
        assert(number(seq![d].drop_last()) == 0);
    }
}

/// The decimal text of an integer is a numeral: digits that stand for its
/// magnitude, behind a minus sign where it is negative.
pub proof fn lemma_integer_numeral(i: int)
    ensures
        is_numeral(signed_decimal(i)),
        i >= 0 ==> signed_decimal(i) == decimal(i as nat) && all_digits(signed_decimal(i))
            && number(signed_decimal(i)) == i,
        i < 0 ==> signed_decimal(i) == seq!['-'] + decimal((-i) as nat) && number(
            decimal((-i) as nat),
        ) == -i,
{
    reveal_strlit("0123456789");
    let magnitude = if i < 0 {
        (-i) as nat
    } else {
        i as nat
    };
    let digits = decimal(magnitude);
    lemma_decimal(magnitude);
    assert(unsigned_part(signed_decimal(i)) == digits);
    assert(digits.subrange(0, digits.len() as int) == digits);
}

/// A text without special characters is its own escaped form.
pub proof fn lemma_plain(s: Seq<char>, backslashes: bool)
    requires
        forall|i: int| 0 <= i < s.len() ==> !is_special(#[trigger] s[i], backslashes),
    ensures
        escaped(s, backslashes) == s,
    decreases s.len(),
{
    if s.len() > 0 {
        lemma_plain(s.drop_last(), backslashes);
    }
}

/// A decimal numeral holds no special character: between quotes it stands
/// as it is.
pub proof fn lemma_numeral_plain(s: Seq<char>)
    requires
        is_numeral(s),
    ensures
        quoted(s) == seq!['"'] + s + seq!['"'],
{
    let body = unsigned_part(s);
    let offset = s.len() - body.len();
    let point = choose|point: int|
        0 < point <= body.len() && #[trigger] all_digits(body.subrange(0, point)) && (point
            == body.len() || (body[point] == '.' && point + 1 < body.len() && all_digits(
            body.subrange(point + 1, body.len() as int),
        )));
    assert forall|i: int| 0 <= i < s.len() implies !is_special(#[trigger] s[i], true) by {
        if i >= offset {
            let k = i - offset;
            if k < point {
                assert(body.subrange(0, point)[k] == body[k]);
            } else if k > point {
                assert(body.subrange(point + 1, body.len() as int)[k - point - 1] == body[k]);
            }
        }
    }
    lemma_plain(s, true);
}

} // verus!
