//! The generation engine shared by every category of mock data: a ranged
//! random integer, a uniform pick from a table of texts, a digit template
//! filler, and a range-checked generator with a fallback.

use rand::Rng;
use vstd::prelude::*;

verus! {

/// The character that marks a position to be filled with a random digit.
pub const PLACEHOLDER: char = '#';

/// `c` is one of the ten decimal digit characters.
pub open spec fn is_digit(c: char) -> bool {
    '0' <= c <= '9'
}

/// The digit character that stands for `d`, for `0 <= d <= 9`.
pub open spec fn digit_of(d: int) -> char {
    (('0' as int) + d) as char
}

/// What one position of a filled template may hold: a digit where the
/// template has the placeholder, the template's own character elsewhere.
pub open spec fn slot_filled(mark: char, out: char) -> bool {
    if mark == PLACEHOLDER {
        is_digit(out)
    } else {
        out == mark
    }
}

/// `out` is `template` with every placeholder replaced by some digit and
/// every other character kept in place.
pub open spec fn fills(template: Seq<char>, out: Seq<char>) -> bool {
    &&& out.len() == template.len()
    &&& forall|i: int| 0 <= i < template.len() ==> slot_filled(template[i], #[trigger] out[i])
}

/// Every character of `text` is a decimal digit.
pub open spec fn all_digits(text: Seq<char>) -> bool {
    forall|i: int| 0 <= i < text.len() ==> is_digit(#[trigger] text[i])
}

/// `text` is the text of one of the entries of `table`.
pub open spec fn offers(table: Seq<&str>, text: Seq<char>) -> bool {
    exists|i: int| 0 <= i < table.len() && (#[trigger] table[i])@ == text
}

/// `text` is a filling of one of the templates in `table`.
pub open spec fn fills_one_of(table: Seq<&str>, text: Seq<char>) -> bool {
    exists|i: int| 0 <= i < table.len() && fills((#[trigger] table[i])@, text)
}

/// A requested range is accepted for a domain `[lower, upper]` when it is
/// not inverted and both of its ends lie inside the domain.
pub open spec fn range_accepted(min: int, max: int, lower: int, upper: int) -> bool {
    &&& min <= max
    &&& lower <= min <= upper
    &&& lower <= max <= upper
}

/// A filled template holds no placeholder any more, so filling it a second
/// time gives it back unchanged.
pub proof fn lemma_filling_is_final(template: Seq<char>, once: Seq<char>, twice: Seq<char>)
    requires
        fills(template, once),
        fills(once, twice),
    ensures
        !once.contains(PLACEHOLDER),
        twice == once,
{
    assert forall|i: int| 0 <= i < once.len() implies once[i] != PLACEHOLDER by {
        assert(slot_filled(template[i], once[i]));
    }
    assert forall|i: int| 0 <= i < once.len() implies twice[i] == once[i] by {
        assert(slot_filled(once[i], twice[i]));
    }
    assert(twice =~= once);
}

/// Appends one character to a string.
///
/// Trusted: this is `String::push` of the standard library, which is
/// documented to append the given `char` to the end of the string.
pub assume_specification[ String::push ](s: &mut String, c: char)
    ensures
        final(s)@ == old(s)@.push(c),
;

/// Draws one integer between `low` and `high`, both included, from the
/// calling thread's generator.
///
/// Trusted: the body is `rand::Rng::gen_range` on the handle returned by
/// `rand::thread_rng`, called with the inclusive range `low..=high`. For
/// integers `gen_range` panics on an empty range, which `requires` rules
/// out, and otherwise returns `low` plus an offset of at most `high - low`.
/// Nothing is claimed about which value in the range comes back. The
/// generator is seeded from the operating system on a thread's first draw
/// and panics there if the system cannot supply a seed.
#[verifier::external_body]
fn draw(low: u64, high: u64) -> (v: u64)
    requires
        low <= high,
    ensures
        low <= v <= high,
{
    rand::thread_rng().gen_range(low..=high)
}

/// Moves `steps` up from `min`.
pub fn offset(min: i64, steps: u64) -> (v: i64)
    requires
        min + steps <= i64::MAX,
    ensures
        v == min + steps,
{
    (min as i128 + steps as i128) as i64
}

/// A random integer in the closed interval `[min, max]`.
pub fn random(min: i64, max: i64) -> (v: i64)
    requires
        min <= max,
    ensures
        min <= v <= max,
{
    let span: u64 = (max as i128 - min as i128) as u64;
    let steps: u64 = draw(0, span);
    offset(min, steps)
}

/// A random position in a table of `len` entries.
pub fn random_index(len: usize) -> (i: usize)
    requires
        len > 0,
    ensures
        i < len,
{
    draw(0, (len - 1) as u64) as usize
}

/// An owned copy of the entry at `index`.
pub fn entry(table: &[&str], index: usize) -> (text: String)
    requires
        index < table@.len(),
    ensures
        text@ == table@[index as int]@,
{
    table[index].to_owned()
}

/// An owned copy of one entry of a non-empty table, picked at a random
/// position.
pub fn random_data(table: &[&str]) -> (text: String)
    requires
        table@.len() > 0,
    ensures
        offers(table@, text@),
{
    let i: usize = random_index(table.len());
    entry(table, i)
}

/// The character for the decimal digit `d`.
pub fn digit_char(d: u8) -> (c: char)
    requires
        d <= 9,
    ensures
        c == digit_of(d as int),
        is_digit(c),
{
    ('0' as u8 + d) as char
}

/// A random decimal digit character.
pub fn random_digit() -> (c: char)
    ensures
        is_digit(c),
{
    let d: i64 = random(0, 9);
    digit_char(d as u8)
}

/// A copy of `template` in which every placeholder is replaced by a freshly
/// drawn digit; all other characters pass through unchanged.
pub fn replace_with_numbers(template: &str) -> (out: String)
    ensures
        fills(template@, out@),
{
    let mut out = String::new();
    proof {
        broadcast use vstd::string::axiom_spec_iter;
    }
    for c in it: template.chars()
        invariant
            it.seq() == template@,
            fills(template@.take(it.index()), out@),
    {
        if c == PLACEHOLDER {
            out.push(random_digit());
        } else {
            out.push(c);
        }
    }
    proof {
        assert(template@.take(template@.len() as int) == template@);
    }
    out
}

/// Whether a requested range is accepted for the domain `[lower, upper]`.
/// The checks run in a fixed order: inverted range, then `min` outside the
/// domain, then `max` outside the domain.
pub fn range_is_valid(min: i64, max: i64, lower: i64, upper: i64) -> (ok: bool)
    ensures
        ok == range_accepted(min as int, max as int, lower as int, upper as int),
{
    if min > max {
        false
    } else if min < lower || min > upper {
        false
    } else if max < lower || max > upper {
        false
    } else {
        true
    }
}

/// A random value for a domain with the fixed bounds `[lower, upper]`.
/// A request `[min, max]` that is accepted is honoured. Any other request
/// is silently ignored: the value is then whatever `fallback`, the
/// domain's unconstrained generator, returns.
pub fn value_in_range<F: FnOnce() -> i64>(
    min: i64,
    max: i64,
    lower: i64,
    upper: i64,
    fallback: F,
) -> (v: i64)
    requires
        call_requires(fallback, ()),
    ensures
        range_accepted(min as int, max as int, lower as int, upper as int) ==> min <= v <= max,
        !range_accepted(min as int, max as int, lower as int, upper as int) ==> call_ensures(
            fallback,
            (),
            v,
        ),
{
    if range_is_valid(min, max, lower, upper) {
        random(min, max)
    } else {
        fallback()
    }
}

} // verus!
