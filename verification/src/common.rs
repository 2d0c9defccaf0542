//! Small tools on texts, options and lists.

use crate::claims::fits_i32;
use crate::text::all_whitespace;
use crate::text::lemma_trimmed_empty;
use crate::text::lowercased;
use crate::text::parse_i32;
use crate::text::push_char;
use crate::text::parsed_int;
use crate::text::to_lowercase;
use crate::text::trim;
use crate::text::trimmed;
use core::cmp::Ordering;
use std::collections::HashSet;
use std::hash::Hash;
use vstd::prelude::*;
use vstd::std_specs::cmp::PartialOrdSpec;

verus! {

/// `Vec::from_iter` on a hash set of a type whose `Eq` and `Hash` are those
/// of the model: every element of the set once, in an order that nothing is
/// promised of.
#[verifier::external_body]
fn set_into_vec<T>(set: HashSet<T>) -> (items: Vec<T>)
    requires
        vstd::std_specs::hash::obeys_key_model::<T>(),
    ensures
        items@.no_duplicates(),
        forall|value: T| #[trigger] items@.contains(value) <==> set@.contains(value),
{
    Vec::from_iter(set)
}

/// The values of `vec`, each once. Nothing is promised of their order.
pub fn distinct_vec<T: Clone + Eq + Hash>(vec: Vec<T>) -> (distinct: Vec<T>)
    requires
        vstd::std_specs::hash::obeys_key_model::<T>(),
    ensures
        distinct@.no_duplicates(),
        forall|value: T| #[trigger] distinct@.contains(value) <==> vec@.contains(value),
{
    broadcast use vstd::std_specs::hash::group_hash_axioms;

    let mut seen: HashSet<T> = HashSet::new();
    let ghost all = vec@;
    for item in iter: vec.into_iter()
        invariant
            vstd::std_specs::hash::obeys_key_model::<T>(),
            iter.seq() == all,
            forall|value: T|
                seen@.contains(value) <==> #[trigger] all.take(iter.index()).contains(value),
    {
        let ghost before = all.take(iter.index());
        let ghost after = all.take(iter.index() + 1);
        assert(after =~= before.push(item));
        assert forall|value: T| #[trigger] after.contains(value) <==> (before.contains(value)
            || value == item) by {
            if before.contains(value) {
                let j = choose|j: int| 0 <= j < before.len() && before[j] == value;
                assert(after[j] == value);
            }
            if value == item {
                assert(after[before.len() as int] == value);
            }
        }
        seen.insert(item);
    }
    assert(all.take(all.len() as int) =~= all);
    set_into_vec(seen)
}

/// The values of `vec1` that do not occur in `vec2`, in the order in which
/// `vec1` holds them. A value that `vec1` holds twice is kept twice.
pub fn difference_vec<T: Clone + Eq + Hash>(vec1: Vec<T>, vec2: Vec<T>) -> (difference: Vec<T>)
    requires
        vstd::std_specs::hash::obeys_key_model::<T>(),
    ensures
        difference@ == vec1@.filter(|value: T| !vec2@.contains(value)),
{
    broadcast use vstd::std_specs::hash::group_hash_axioms;

    let mut others: HashSet<T> = HashSet::new();
    let ghost second = vec2@;
    for item in iter: vec2.into_iter()
        invariant
            vstd::std_specs::hash::obeys_key_model::<T>(),
            iter.seq() == second,
            forall|value: T|
                others@.contains(value) <==> #[trigger] second.take(iter.index()).contains(value),
    {
        let ghost before = second.take(iter.index());
        let ghost after = second.take(iter.index() + 1);
        assert(after =~= before.push(item));
        assert forall|value: T| #[trigger] after.contains(value) <==> (before.contains(value)
            || value == item) by {
            if before.contains(value) {
                let j = choose|j: int| 0 <= j < before.len() && before[j] == value;
                assert(after[j] == value);
            }
            if value == item {
                assert(after[before.len() as int] == value);
            }
        }
        others.insert(item);
    }
    assert(second.take(second.len() as int) =~= second);
    let ghost absent = |value: T| !second.contains(value);
    let ghost first = vec1@;
    let mut difference: Vec<T> = Vec::new();
    assert(first.take(0).filter(absent) =~= Seq::<T>::empty()) by {
        assert(first.take(0) =~= Seq::<T>::empty());
        reveal(Seq::filter);
    }
    for item in iter: vec1.into_iter()
        invariant
            vstd::std_specs::hash::obeys_key_model::<T>(),
            iter.seq() == first,
            forall|value: T| others@.contains(value) <==> second.contains(value),
            absent == |value: T| !second.contains(value),
            difference@ == first.take(iter.index()).filter(absent),
    {
        let ghost before = first.take(iter.index());
        assert(first.take(iter.index() + 1) =~= before.push(item));
        proof {
            lemma_filter_push(before, item, absent);
        }
        if !others.contains(&item) {
            difference.push(item);
        }
    }
    assert(first.take(first.len() as int) =~= first);
    difference
}

/// Filtering a sequence with one element more: the element is kept at the
/// end or left out.
pub proof fn lemma_filter_push<T>(items: Seq<T>, last: T, keep: spec_fn(T) -> bool)
    ensures
        items.push(last).filter(keep) == if keep(last) {
            items.filter(keep).push(last)
        } else {
            items.filter(keep)
        },
{
    reveal(Seq::filter);
    assert(items.push(last).drop_last() =~= items);
}

/// Whether `left` is `right` or comes after it.
pub open spec fn at_least<T: PartialOrd>(left: T, right: T) -> bool {
    left.partial_cmp_spec(&right) matches Some(Ordering::Greater | Ordering::Equal)
}

/// Whether `left` is `right` or comes before it.
pub open spec fn at_most<T: PartialOrd>(left: T, right: T) -> bool {
    left.partial_cmp_spec(&right) matches Some(Ordering::Less | Ordering::Equal)
}

/// Whether `left` comes before `right`.
pub open spec fn below<T: PartialOrd>(left: T, right: T) -> bool {
    left.partial_cmp_spec(&right) == Some(Ordering::Less)
}

/// Whether `left` comes after `right`.
pub open spec fn above<T: PartialOrd>(left: T, right: T) -> bool {
    left.partial_cmp_spec(&right) == Some(Ordering::Greater)
}

/// Whether `value` lies between `min` and `max`, both included.
///
/// This holds of every type whose comparison is the one that its
/// specification states, as it is for the integers.
pub fn is_in_range<T: PartialOrd>(value: T, min: T, max: T) -> (inside: bool)
    ensures
        T::obeys_partial_cmp_spec() ==> (inside <==> at_least(value, min) && at_most(value, max)),
{
    value >= min && value <= max
}

/// `value` brought between `min` and `max`: `min` where the value comes
/// before it, else `max` where the value comes after it, else the value.
///
/// This holds of every type whose comparison is the one that its
/// specification states, as it is for the integers.
pub fn clamp<T: PartialOrd>(value: T, min: T, max: T) -> (clamped: T)
    ensures
        T::obeys_partial_cmp_spec() ==> clamped == if below(value, min) {
            min
        } else if above(value, max) {
            max
        } else {
            value
        },
{
    if value < min {
        min
    } else if value > max {
        max
    } else {
        value
    }
}

/// The integer that `s` stands for.
///
/// A text stands for an integer where it is an optional sign and then
/// decimal digits, with nothing before, between or after them. The result
/// is `Ok` exactly where the text stands for an integer that an `i32`
/// holds.
pub fn str_to_int(s: &str) -> (parsed: Result<i32, core::num::ParseIntError>)
    ensures
        match parsed {
            Ok(value) => parsed_int(s@) == Some(value as int),
            Err(_) => parsed_int(s@) is None || parsed_int(s@)->0 < i32::MIN || parsed_int(s@)->0
                > i32::MAX,
        },
{
    parse_i32(s)
}

/// Whether `s` holds nothing but whitespace; an empty text holds nothing
/// else.
pub fn is_empty_or_whitespace(s: &str) -> (blank: bool)
    ensures
        blank == all_whitespace(s@),
        blank == (trimmed(s@).len() == 0),
{
    proof {
        lemma_trimmed_empty(s@);
    }
    trim(s).unicode_len() == 0
}

/// `s` without the whitespace around it, in lower case.
pub fn normalize_string(s: &str) -> (normal: String)
    ensures
        normal@ == lowercased(trimmed(s@)),
{
    to_lowercase(trim(s))
}

/// The text in `opt`, or `default` where there is none.
pub fn option_string_or_default(opt: Option<String>, default: &str) -> (text: String)
    ensures
        text@ == match opt {
            Some(given) => given@,
            None => default@,
        },
{
    match opt {
        Some(given) => given,
        None => String::from_str(default),
    }
}

/// The number in `opt`, or `default` where there is none.
pub fn option_i32_or_default(opt: Option<i32>, default: i32) -> (number: i32)
    ensures
        number == match opt {
            Some(given) => given,
            None => default,
        },
{
    match opt {
        Some(given) => given,
        None => default,
    }
}

/// The texts with `separator` between each two of them.
pub open spec fn joined(parts: Seq<Seq<char>>, separator: Seq<char>) -> Seq<char>
    decreases parts.len(),
{
    if parts.len() == 0 {
        Seq::empty()
    } else if parts.len() == 1 {
        parts[0]
    } else {
        joined(parts.drop_last(), separator) + separator + parts.last()
    }
}

/// Whether `texts` are texts that the items display as, one for each item
/// and in their order.
pub open spec fn displayed<T: core::fmt::Display>(items: Seq<T>, texts: Seq<String>) -> bool {
    &&& texts.len() == items.len()
    &&& forall|i: int|
        0 <= i < items.len() ==> vstd::string::to_string_from_display_ensures::<T>(
            &#[trigger] items[i],
            texts[i],
        )
}

/// The characters of each text.
pub open spec fn characters(texts: Seq<String>) -> Seq<Seq<char>> {
    Seq::new(texts.len(), |i: int| texts[i]@)
}

/// The items as one line: what each displays as, with a comma between each
/// two. No space follows a comma, and an empty list gives an empty line.
pub fn vec_to_csv<T: core::fmt::Display>(vec: Vec<T>) -> (csv: String)
    ensures
        exists|texts: Seq<String>|
            displayed(vec@, texts) && csv@ == joined(#[trigger] characters(texts), ","@),
{
    let mut csv = String::new();
    let ghost mut texts: Seq<String> = Seq::empty();
    let mut done: usize = 0;
    assert(characters(texts) =~= Seq::empty());
    while done < vec.len()
        invariant
            done <= vec.len(),
            displayed(vec@.take(done as int), texts),
            csv@ == joined(characters(texts), ","@),
        decreases vec.len() - done,
    {
        let text = vec[done].to_string();
        let ghost before = characters(texts);
        proof {
            texts = texts.push(text);
            assert(characters(texts) =~= before.push(text@));
            assert(characters(texts).drop_last() =~= before);
        }
        if done > 0 {
            csv.append(",");
        }
        csv.append(text.as_str());
        proof {
            if done == 0 {
                assert(before.len() == 0);
                assert(csv@ =~= text@);
            }
        }
        done = done + 1;
    }
    assert(vec@.take(done as int) =~= vec@);
    csv
}

/// What one piece of a line of numbers gives: its number, where the piece
/// without the whitespace around it stands for one that an `i32` holds, and
/// nothing otherwise.
pub open spec fn csv_piece(piece: Seq<char>) -> Seq<int> {
    match parsed_int(trimmed(piece)) {
        Some(value) => if fits_i32(value) {
            seq![value]
        } else {
            Seq::empty()
        },
        None => Seq::empty(),
    }
}

/// The numbers of a line: the line is cut at every comma, and each piece
/// gives its number or nothing. A line without a comma is one piece.
pub open spec fn csv_numbers(csv: Seq<char>) -> Seq<int>
    decreases csv.len(),
{
    match csv.index_of_first(',') {
        Some(comma) => if 0 <= comma < csv.len() {
            csv_piece(csv.take(comma)) + csv_numbers(csv.skip(comma + 1))
        } else {
            csv_piece(csv)
        },
        None => csv_piece(csv),
    }
}

/// The numbers as mathematical integers.
pub open spec fn integers(numbers: Seq<i32>) -> Seq<int> {
    Seq::new(numbers.len(), |i: int| numbers[i] as int)
}

/// Adds what one piece gives.
fn push_piece(numbers: &mut Vec<i32>, piece: &str)
    ensures
        integers(final(numbers)@) == integers(old(numbers)@) + csv_piece(piece@),
{
    match parse_i32(trim(piece)) {
        Ok(value) => {
            numbers.push(value);
            assert(integers(numbers@) =~= integers(old(numbers)@) + seq![value as int]);
        },
        Err(_) => {
            assert(integers(numbers@) =~= integers(old(numbers)@) + Seq::<int>::empty());
        },
    }
}

/// A line whose first comma stands at `comma` gives what the piece before
/// the comma gives, then what the rest behind the comma gives.
proof fn lemma_csv_cut(csv: Seq<char>, comma: int)
    requires
        0 <= comma < csv.len(),
        csv[comma] == ',',
        forall|j: int| 0 <= j < comma ==> csv[j] != ',',
    ensures
        csv_numbers(csv) == csv_piece(csv.take(comma)) + csv_numbers(csv.skip(comma + 1)),
{
    csv.index_of_first_ensures(',');
    assert(csv.contains(','));
}

/// A line without a comma gives what it gives as one piece.
proof fn lemma_csv_last(csv: Seq<char>)
    requires
        forall|j: int| 0 <= j < csv.len() ==> csv[j] != ',',
    ensures
        csv_numbers(csv) == csv_piece(csv),
{
    csv.index_of_first_ensures(',');
}

/// The numbers of a line of numbers with commas between them.
///
/// Whitespace around a number is ignored. A piece that is no number, or a
/// number that an `i32` does not hold, is left out; the others keep their
/// order.
pub fn csv_to_vec_i32(csv: &str) -> (numbers: Vec<i32>)
    ensures
        integers(numbers@) == csv_numbers(csv@),
{
    let length = csv.unicode_len();
    let mut numbers: Vec<i32> = Vec::new();
    let mut start: usize = 0;
    let mut at: usize = 0;
    assert(integers(numbers@) =~= Seq::<int>::empty());
    assert(csv@.skip(0) =~= csv@);
    while at < length
        invariant
            length == csv@.len(),
            start <= at <= length,
            forall|j: int| start <= j < at ==> csv@[j] != ',',
            integers(numbers@) + csv_numbers(csv@.skip(start as int)) == csv_numbers(csv@),
        decreases length - at,
    {
        if csv.get_char(at) == ',' {
            let piece = csv.substring_char(start, at);
            let ghost rest = csv@.skip(start as int);
            let ghost before = integers(numbers@);
            proof {
                lemma_csv_cut(rest, at - start);
                assert(rest.take(at - start) =~= csv@.subrange(start as int, at as int));
                assert(rest.skip(at - start + 1) =~= csv@.skip(at + 1));
            }
            push_piece(&mut numbers, piece);
            assert(integers(numbers@) + csv_numbers(csv@.skip(at + 1)) =~= before + (csv_piece(
                piece@,
            ) + csv_numbers(csv@.skip(at + 1))));
            start = at + 1;
        }
        at = at + 1;
    }
    let piece = csv.substring_char(start, length);
    let ghost before = integers(numbers@);
    proof {
        lemma_csv_last(csv@.skip(start as int));
        assert(csv@.skip(start as int) =~= csv@.subrange(start as int, length as int));
    }
    push_piece(&mut numbers, piece);
    numbers
}

/// Whether `c` is an ASCII letter or digit.
pub open spec fn is_alphanumeric(c: char) -> bool {
    ('A' <= c <= 'Z') || ('a' <= c <= 'z') || ('0' <= c <= '9')
}

/// `Rng::sample` of `rand`'s `Alphanumeric` on the thread's generator: one
/// ASCII letter or digit, chosen by chance.
#[verifier::external_body]
fn random_alphanumeric() -> (c: char)
    ensures
        is_alphanumeric(c),
{
    char::from(rand::Rng::sample(&mut rand::thread_rng(), rand::distributions::Alphanumeric))
}

/// `Rng::gen_range` on the thread's generator, over `min..=max`: a number
/// in the range, chosen by chance. `rand` gives up on an empty range.
#[verifier::external_body]
fn random_between(min: i32, max: i32) -> (number: i32)
    requires
        min <= max,
    ensures
        min <= number <= max,
{
    rand::Rng::gen_range(&mut rand::thread_rng(), min..=max)
}

/// A text of `length` ASCII letters and digits, chosen by chance.
pub fn generate_random_string(length: usize) -> (text: String)
    ensures
        text@.len() == length,
        forall|i: int| 0 <= i < length ==> is_alphanumeric(#[trigger] text@[i]),
{
    let mut text = String::new();
    let mut made: usize = 0;
    while made < length
        invariant
            made <= length,
            text@.len() == made,
            forall|i: int| 0 <= i < made ==> is_alphanumeric(#[trigger] text@[i]),
        decreases length - made,
    {
        push_char(&mut text, random_alphanumeric());
        made = made + 1;
    }
    text
}

/// A number from `min` to `max`, both included, chosen by chance.
pub fn generate_random_number(min: i32, max: i32) -> (number: i32)
    requires
        min <= max,
    ensures
        min <= number <= max,
{
    random_between(min, max)
}

} // verus!
