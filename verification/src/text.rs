//! Text building blocks: exact concatenation, comparison and number rendering.

use vstd::prelude::*;
use vstd::string::*;

verus! {

/// The characters of an optional text.
pub open spec fn text_of(value: Option<String>) -> Option<Seq<char>> {
    match value {
        Some(text) => Some(text@),
        None => None,
    }
}

/// The characters of each text of a list.
pub open spec fn texts_of(values: Seq<String>) -> Seq<Seq<char>> {
    values.map_values(|text: String| text@)
}

/// An owned copy of an optional text.
pub fn copy_text(value: &Option<String>) -> (copy: Option<String>)
    ensures
        copy == *value,
{
    match value {
        Some(text) => Some(text.clone()),
        None => None,
    }
}

/// Whether a text has exactly the given characters.
pub fn text_is(text: &String, expected: &str) -> (same: bool)
    ensures
        same == (text@ == expected@),
{
    let owned = expected.to_string();
    *text == owned
}

/// Two texts in a row.
pub fn join(first: &str, second: &str) -> (joined: String)
    ensures
        joined@ == first@ + second@,
{
    let mut joined = first.to_string();
    joined.append(second);
    joined
}

/// Whether a character is white space: one of those that Unicode counts as such.
pub open spec fn is_space(c: char) -> bool {
    ||| '\u{9}' <= c <= '\u{d}'
    ||| c == ' '
    ||| c == '\u{85}'
    ||| c == '\u{a0}'
    ||| c == '\u{1680}'
    ||| '\u{2000}' <= c <= '\u{200a}'
    ||| c == '\u{2028}'
    ||| c == '\u{2029}'
    ||| c == '\u{202f}'
    ||| c == '\u{205f}'
    ||| c == '\u{3000}'
}

/// A text without the white space at its end.
pub open spec fn trimmed_end(text: Seq<char>) -> Seq<char>
    decreases text.len(),
{
    if text.len() > 0 && is_space(text.last()) {
        trimmed_end(text.drop_last())
    } else {
        text
    }
}

/// A text without the white space at its two ends.
pub open spec fn trimmed(text: Seq<char>) -> Seq<char>
    decreases text.len(),
{
    if text.len() > 0 && is_space(text[0]) {
        trimmed(text.skip(1))
    } else {
        trimmed_end(text)
    }
}

fn char_is_space(c: char) -> (space: bool)
    ensures
        space == is_space(c),
{
    ('\u{9}' <= c && c <= '\u{d}') || c == ' ' || c == '\u{85}' || c == '\u{a0}' || c == '\u{1680}'
        || ('\u{2000}' <= c && c <= '\u{200a}') || c == '\u{2028}' || c == '\u{2029}' || c
        == '\u{202f}' || c == '\u{205f}' || c == '\u{3000}'
}

/// Takes the white space off the two ends of a text.
pub fn trim(text: &str) -> (rest: String)
    ensures
        rest@ == trimmed(text@),
{
    let length: usize = text.unicode_len();
    let mut from: usize = 0;
    proof {
        assert(text@.skip(0) =~= text@);
    }
    while from < length && char_is_space(text.get_char(from))
        invariant
            length == text@.len(),
            from <= length,
            trimmed(text@.skip(from as int)) == trimmed(text@),
        decreases length - from,
    {
        proof {
            assert(text@.skip(from as int).skip(1) =~= text@.skip(from + 1));
        }
        from = from + 1;
    }
    let mut to: usize = length;
    proof {
        assert(text@.subrange(from as int, to as int) =~= text@.skip(from as int));
    }
    while from < to && char_is_space(text.get_char(to - 1))
        invariant
            length == text@.len(),
            from <= to <= length,
            trimmed_end(text@.subrange(from as int, to as int)) == trimmed_end(
                text@.skip(from as int),
            ),
        decreases to - from,
    {
        proof {
            assert(text@.subrange(from as int, to as int).drop_last() =~= text@.subrange(
                from as int,
                to - 1,
            ));
        }
        to = to - 1;
    }
    text.substring_char(from, to).to_string()
}

/// A trimmed text neither begins nor ends with white space.
pub proof fn a_trimmed_text_is_tight(text: Seq<char>)
    ensures
        trimmed(text).len() > 0 ==> !is_space(trimmed(text)[0]) && !is_space(trimmed(text).last()),
        trimmed(trimmed(text)) == trimmed(text),
    decreases text.len(),
{
    if text.len() > 0 && is_space(text[0]) {
        a_trimmed_text_is_tight(text.skip(1));
    } else {
        lemma_trimmed_end(text);
        if trimmed_end(text).len() > 0 {
            assert(trimmed(trimmed_end(text)) == trimmed_end(trimmed_end(text)));
        }
    }
}

proof fn lemma_trimmed_end(text: Seq<char>)
    ensures
        trimmed_end(text).len() > 0 ==> !is_space(trimmed_end(text).last())
            && trimmed_end(text)[0] == text[0] && text.len() > 0,
        trimmed_end(trimmed_end(text)) == trimmed_end(text),
    decreases text.len(),
{
    if text.len() > 0 && is_space(text.last()) {
        lemma_trimmed_end(text.drop_last());
    }
}

/// Whether a text has the given character first at the given place.
pub open spec fn first_at(text: Seq<char>, wanted: char, place: int) -> bool {
    &&& 0 <= place < text.len()
    &&& text[place] == wanted
    &&& forall|i: int| 0 <= i < place ==> text[i] != wanted
}

/// The text before the first colon, where there is a colon.
pub open spec fn before_colon(text: Seq<char>) -> Option<Seq<char>> {
    if text.contains(':') {
        Some(text.take(choose|place: int| first_at(text, ':', place)))
    } else {
        None
    }
}

/// Splits off what stands before the first colon.
pub fn split_before_colon(text: &str) -> (part: Option<String>)
    ensures
        text_of(part) == before_colon(text@),
{
    let length: usize = text.unicode_len();
    let mut place: usize = 0;
    while place < length
        invariant
            place <= length,
            length == text@.len(),
            forall|i: int| 0 <= i < place ==> text@[i] != ':',
        decreases length - place,
    {
        if text.get_char(place) == ':' {
            let part = text.substring_char(0, place).to_string();
            proof {
                let found = choose|found: int| first_at(text@, ':', found);
                assert(first_at(text@, ':', place as int));
                assert(first_at(text@, ':', found));
                assert(found == place);
                assert(part@ =~= text@.take(found));
                assert(text@.contains(':'));
            }
            return Some(part);
        }
        place = place + 1;
    }
    None
}

/// Whether a name stands first at the given place of a list of names.
pub open spec fn is_first_name(names: Seq<Seq<char>>, name: Seq<char>, place: int) -> bool {
    &&& 0 <= place < names.len()
    &&& names[place] == name
    &&& forall|i: int| 0 <= i < place ==> names[i] != name
}

/// The first place of a name in a list of names.
pub open spec fn place_of(names: Seq<Seq<char>>, name: Seq<char>) -> Option<int> {
    if names.contains(name) {
        Some(choose|place: int| is_first_name(names, name, place))
    } else {
        None
    }
}

/// A name has one first place, and that is where it is found.
pub proof fn lemma_place_of(names: Seq<Seq<char>>, name: Seq<char>, place: int)
    requires
        is_first_name(names, name, place),
    ensures
        place_of(names, name) == Some(place),
{
    let chosen = choose|chosen: int| is_first_name(names, name, chosen);
    assert(is_first_name(names, name, chosen));
    assert(names.contains(name)) by {
        assert(names[place] == name);
    }
    if chosen < place {
        assert(names[chosen] != name);
    } else if place < chosen {
        assert(names[place] != name);
    }
}

/// A name that is in a list has a first place there.
pub proof fn lemma_place_exists(names: Seq<Seq<char>>, name: Seq<char>)
    requires
        names.contains(name),
    ensures
        place_of(names, name) is Some,
        is_first_name(names, name, place_of(names, name)->0),
{
    names.index_of_first_ensures(name);
    let place = names.index_of_first(name)->0;
    assert(is_first_name(names, name, place));
    lemma_place_of(names, name, place);
}

/// The decimal digit for a value below ten.
pub open spec fn digit(value: nat) -> char {
    if value == 0 {
        '0'
    } else if value == 1 {
        '1'
    } else if value == 2 {
        '2'
    } else if value == 3 {
        '3'
    } else if value == 4 {
        '4'
    } else if value == 5 {
        '5'
    } else if value == 6 {
        '6'
    } else if value == 7 {
        '7'
    } else if value == 8 {
        '8'
    } else {
        '9'
    }
}

/// The decimal rendering of a number, without leading zeros.
pub open spec fn decimal(value: nat) -> Seq<char>
    decreases value,
{
    if value < 10 {
        seq![digit(value)]
    } else {
        decimal(value / 10).push(digit(value % 10))
    }
}

/// The last `width` decimal digits of a number, with leading zeros.
pub open spec fn low_digits(value: nat, width: nat) -> Seq<char>
    decreases width,
{
    if width == 0 {
        Seq::empty()
    } else {
        low_digits(value / 10, (width - 1) as nat).push(digit(value % 10))
    }
}

/// The decimal rendering of a number, filled with leading zeros up to `width`.
pub open spec fn zero_padded(value: nat, width: nat) -> Seq<char> {
    if decimal(value).len() >= width {
        decimal(value)
    } else {
        low_digits(value, width)
    }
}

fn push_digit(text: &mut String, value: u64)
    requires
        value < 10,
    ensures
        final(text)@ == old(text)@.push(digit(value as nat)),
{
    let shown: &str = if value == 0 {
        "0"
    } else if value == 1 {
        "1"
    } else if value == 2 {
        "2"
    } else if value == 3 {
        "3"
    } else if value == 4 {
        "4"
    } else if value == 5 {
        "5"
    } else if value == 6 {
        "6"
    } else if value == 7 {
        "7"
    } else if value == 8 {
        "8"
    } else {
        "9"
    };
    proof {
        reveal_strlit("0");
        reveal_strlit("1");
        reveal_strlit("2");
        reveal_strlit("3");
        reveal_strlit("4");
        reveal_strlit("5");
        reveal_strlit("6");
        reveal_strlit("7");
        reveal_strlit("8");
        reveal_strlit("9");
        assert(shown@ =~= seq![digit(value as nat)]);
    }
    text.append(shown);
    proof {
        assert(old(text)@ + seq![digit(value as nat)] =~= old(text)@.push(digit(value as nat)));
    }
}

/// Renders a number in decimal.
pub fn render_decimal(value: u64) -> (text: String)
    ensures
        text@ == decimal(value as nat),
    decreases value,
{
    if value < 10 {
        let mut text = String::new();
        push_digit(&mut text, value);
        proof {
            assert(text@ =~= seq![digit(value as nat)]);
        }
        text
    } else {
        let mut text = render_decimal(value / 10);
        push_digit(&mut text, value % 10);
        text
    }
}

fn render_low_digits(value: u64, width: u64) -> (text: String)
    ensures
        text@ == low_digits(value as nat, width as nat),
    decreases width,
{
    if width == 0 {
        let text = String::new();
        proof {
            assert(text@ =~= Seq::<char>::empty());
        }
        text
    } else {
        let mut text = render_low_digits(value / 10, width - 1);
        push_digit(&mut text, value % 10);
        text
    }
}

/// The number of characters of the decimal rendering.
fn decimal_width(value: u64) -> (width: u64)
    ensures
        width == decimal(value as nat).len(),
        1 <= width <= 20,
        value < 10 ==> width == 1,
        value >= 10 ==> width >= 2,
    decreases value,
{
    proof {
        lemma_decimal_width_bound(value as nat);
    }
    if value < 10 {
        1
    } else {
        let rest: u64 = decimal_width(value / 10);
        proof {
            lemma_decimal_width_bound((value / 10) as nat);
        }
        rest + 1
    }
}

/// Ten to the given power.
pub open spec fn power_of_ten(exponent: nat) -> nat
    decreases exponent,
{
    if exponent == 0 {
        1
    } else {
        10 * power_of_ten((exponent - 1) as nat)
    }
}

/// A number below `10^width` has at most `width` digits, and one at or above it
/// has more.
pub proof fn lemma_decimal_width(value: nat, width: nat)
    requires
        width >= 1,
    ensures
        value < power_of_ten(width) <==> decimal(value).len() <= width,
    decreases width,
{
    if width == 1 {
        assert(power_of_ten(1) == 10) by {
            assert(power_of_ten(0) == 1);
        }
        if value >= 10 {
            lemma_decimal_nonempty(value / 10);
        }
    } else {
        if value < 10 {
            lemma_decimal_width(value, (width - 1) as nat);
            assert(power_of_ten(width) == 10 * power_of_ten((width - 1) as nat));
        } else {
            lemma_decimal_width(value / 10, (width - 1) as nat);
            assert(power_of_ten(width) == 10 * power_of_ten((width - 1) as nat));
        }
    }
}

proof fn lemma_decimal_nonempty(value: nat)
    ensures
        decimal(value).len() >= 1,
    decreases value,
{
    if value >= 10 {
        lemma_decimal_nonempty(value / 10);
    }
}

proof fn lemma_decimal_width_bound(value: nat)
    requires
        value <= u64::MAX,
    ensures
        1 <= decimal(value).len() <= 20,
        value >= 10 ==> decimal(value).len() >= 2,
{
    lemma_decimal_nonempty(value);
    if value >= 10 {
        lemma_decimal_nonempty(value / 10);
    }
    assert(power_of_ten(20) == 100_000_000_000_000_000_000) by {
        reveal_with_fuel(power_of_ten, 21);
    }
    lemma_decimal_width(value, 20);
}

/// Renders a number in decimal, filled with leading zeros up to `width`.
pub fn render_zero_padded(value: u64, width: u64) -> (text: String)
    ensures
        text@ == zero_padded(value as nat, width as nat),
{
    if decimal_width(value) >= width {
        render_decimal(value)
    } else {
        render_low_digits(value, width)
    }
}

/// Every digit is one of the ten decimal characters.
pub open spec fn all_digits(text: Seq<char>) -> bool {
    forall|i: int| 0 <= i < text.len() ==> '0' <= #[trigger] text[i] <= '9'
}

/// A zero-padded rendering that fits its width has that width exactly, and
/// holds digits only.
pub proof fn lemma_zero_padded_shape(value: nat, width: nat)
    requires
        width >= 1,
        value < power_of_ten(width),
    ensures
        zero_padded(value, width).len() == width,
        all_digits(zero_padded(value, width)),
{
    lemma_decimal_width(value, width);
    lemma_decimal_digits(value);
    lemma_low_digits_shape(value, width);
}

proof fn lemma_decimal_digits(value: nat)
    ensures
        all_digits(decimal(value)),
    decreases value,
{
    if value >= 10 {
        lemma_decimal_digits(value / 10);
    }
}

proof fn lemma_low_digits_shape(value: nat, width: nat)
    ensures
        low_digits(value, width).len() == width,
        all_digits(low_digits(value, width)),
    decreases width,
{
    if width > 0 {
        lemma_low_digits_shape(value / 10, (width - 1) as nat);
    }
}

/// Whether one text comes before another in the order of their first different
/// characters.
pub open spec fn comes_before(earlier: Seq<char>, later: Seq<char>) -> bool {
    exists|i: int| #[trigger] differs_upward_at(earlier, later, i)
}

/// Whether two texts agree before the given place and grow there.
pub open spec fn differs_upward_at(earlier: Seq<char>, later: Seq<char>, i: int) -> bool {
    &&& 0 <= i < earlier.len()
    &&& i < later.len()
    &&& earlier.take(i) == later.take(i)
    &&& earlier[i] < later[i]
}

/// What follows does not change the order of two texts.
pub proof fn lemma_order_survives_endings(
    earlier: Seq<char>,
    later: Seq<char>,
    first: Seq<char>,
    second: Seq<char>,
)
    requires
        comes_before(earlier, later),
    ensures
        comes_before(earlier + first, later + second),
{
    let i = choose|i: int| #[trigger] differs_upward_at(earlier, later, i);
    assert((earlier + first).take(i) =~= earlier.take(i));
    assert((later + second).take(i) =~= later.take(i));
    assert(differs_upward_at(earlier + first, later + second, i));
}

/// A common beginning does not change the order of two texts.
pub proof fn lemma_order_survives_beginning(start: Seq<char>, earlier: Seq<char>, later: Seq<char>)
    requires
        comes_before(earlier, later),
    ensures
        comes_before(start + earlier, start + later),
{
    let i = choose|i: int| #[trigger] differs_upward_at(earlier, later, i);
    let at = start.len() + i;
    assert((start + earlier).take(at) =~= start + earlier.take(i));
    assert((start + later).take(at) =~= start + later.take(i));
    assert(differs_upward_at(start + earlier, start + later, at));
}

/// Zero-padded numbers of one width are ordered as the numbers are.
pub proof fn lemma_zero_padded_order(smaller: nat, larger: nat, width: nat)
    requires
        width >= 1,
        smaller < larger < power_of_ten(width),
    ensures
        comes_before(zero_padded(smaller, width), zero_padded(larger, width)),
{
    lemma_padded_is_low_digits(smaller, width);
    lemma_padded_is_low_digits(larger, width);
    lemma_low_digits_order(smaller, larger, width);
}

proof fn lemma_padded_is_low_digits(value: nat, width: nat)
    requires
        width >= 1,
        value < power_of_ten(width),
    ensures
        zero_padded(value, width) == low_digits(value, width),
{
    lemma_decimal_width(value, width);
    lemma_decimal_is_low_digits(value);
}

proof fn lemma_decimal_is_low_digits(value: nat)
    ensures
        decimal(value) == low_digits(value, decimal(value).len()),
    decreases value,
{
    if value >= 10 {
        lemma_decimal_is_low_digits(value / 10);
    } else {
        assert(low_digits(value / 10, 0) =~= Seq::<char>::empty());
        assert(low_digits(value, 1) =~= seq![digit(value)]);
    }
}

proof fn lemma_low_digits_order(smaller: nat, larger: nat, width: nat)
    requires
        smaller < larger < power_of_ten(width),
    ensures
        comes_before(low_digits(smaller, width), low_digits(larger, width)),
    decreases width,
{
    let shorter = (width - 1) as nat;
    lemma_low_digits_shape(smaller / 10, shorter);
    lemma_low_digits_shape(larger / 10, shorter);
    if smaller / 10 < larger / 10 {
        lemma_low_digits_order(smaller / 10, larger / 10, shorter);
        lemma_order_survives_endings(
            low_digits(smaller / 10, shorter),
            low_digits(larger / 10, shorter),
            seq![digit(smaller % 10)],
            seq![digit(larger % 10)],
        );
        assert(low_digits(smaller, width) =~= low_digits(smaller / 10, shorter) + seq![
            digit(smaller % 10),
        ]);
        assert(low_digits(larger, width) =~= low_digits(larger / 10, shorter) + seq![
            digit(larger % 10),
        ]);
    } else {
        assert(low_digits(smaller, width).take(shorter as int) =~= low_digits(
            smaller / 10,
            shorter,
        ));
        assert(low_digits(larger, width).take(shorter as int) =~= low_digits(larger / 10, shorter));
        assert(differs_upward_at(
            low_digits(smaller, width),
            low_digits(larger, width),
            shorter as int,
        ));
    }
}

} // verus!
