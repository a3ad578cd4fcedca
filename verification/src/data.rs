//! The identifier that links a platform account to a game account, written
//! `name#number`.

use vstd::prelude::*;
use vstd::string::*;

use crate::text::all_digits;
use crate::text::byte_len;
use crate::text::chars_of;
use crate::text::decimal_value;
use crate::text::digit_char;
use crate::text::digit_text;
use crate::text::digit_value;
use crate::text::is_digit;
use crate::text::is_whitespace;
use crate::text::lemma_decimal_value_prefix;
use crate::text::lemma_decimal_value_push;
use crate::text::lemma_trim_end_skips;
use crate::text::lemma_trim_of_trimmed;
use crate::text::lemma_trim_start_skips;
use crate::text::trim;
use crate::text::trim_end;
use crate::text::trim_start;
use crate::text::utf8_width;
use crate::text::white_space;

verus! {

broadcast use vstd::string::group_string_axioms;

/// Why a text is not an identifier.
#[derive(Debug, Clone, Copy, PartialEq, Eq, Structural)]
pub enum EmbarkIDSterilizationErrors {
    /// The text does not hold exactly one `#`.
    InvalidFormat,
    /// The name before the `#` is shorter than 2 or longer than 16 bytes.
    UsernameMustBeBetween2And16Integers,
    /// What follows the `#` is not a number from 1 to 9999.
    NumbersMustBeValidIntegers,
}

/// The mathematical value of an identifier: its name and its number.
pub struct EmbarkIDView {
    pub username: Seq<char>,
    pub numbers: int,
}

/// A validated identifier `name#number`.
#[derive(Debug)]
pub struct EmbarkID {
    username: String,
    numbers: u16,
}

/// What is kept of a community that has been set up for verification.
#[derive(Debug, Clone, Copy, PartialEq, Eq, Structural)]
pub struct GuildSettings {
    pub guild_id: u64,
    pub verification_channel: u64,
    pub verified_role: u64,
    pub verification_message: u64,
}

/// A platform account and the identifier linked to it.
#[derive(Debug, Clone)]
pub struct User {
    pub discord_user: u64,
    pub embark_id: EmbarkID,
}

/// `i` is the place of the one and only `#` in `s`.
pub open spec fn separator_at(s: Seq<char>, i: int) -> bool {
    &&& 0 <= i < s.len()
    &&& s[i] == '#'
    &&& forall|j: int| 0 <= j < s.len() && j != i ==> s[j] != '#'
}

/// The number that `s` writes: an optional `+`, then at least one decimal digit and
/// nothing else, with a value that fits in 16 bits. `None` for every other text.
pub open spec fn number_of(s: Seq<char>) -> Option<int> {
    let digits = if s.len() > 0 && s[0] == '+' {
        s.drop_first()
    } else {
        s
    };
    if digits.len() > 0 && all_digits(digits) && decimal_value(digits) <= u16::MAX {
        Some(decimal_value(digits))
    } else {
        None
    }
}

/// What makes a name and a number an identifier: a name of 2 to 16 bytes without
/// `#` and without white space at either end, and a number from 1 to 9999.
pub open spec fn valid(id: EmbarkIDView) -> bool {
    &&& 2 <= byte_len(id.username) <= 16
    &&& !id.username.contains('#')
    &&& trim(id.username) == id.username
    &&& 1 <= id.numbers <= 9999
}

/// The identifier that a text stands for, or the reason why it stands for none.
///
/// The text is cut at its only `#`; a text with no `#` or with several has the
/// wrong format. Both parts are trimmed. The name must then be 2 to 16 bytes long
/// and the rest a number from 1 to 9999.
pub open spec fn parsed(s: Seq<char>) -> Result<EmbarkIDView, EmbarkIDSterilizationErrors> {
    if !(exists|i: int| separator_at(s, i)) {
        Err(EmbarkIDSterilizationErrors::InvalidFormat)
    } else {
        let i = choose|i: int| separator_at(s, i);
        let username = trim(s.subrange(0, i));
        let number = number_of(trim(s.subrange(i + 1, s.len() as int)));
        if byte_len(username) < 2 || byte_len(username) > 16 {
            Err(EmbarkIDSterilizationErrors::UsernameMustBeBetween2And16Integers)
        } else if number is None || number->0 < 1 || number->0 > 9999 {
            Err(EmbarkIDSterilizationErrors::NumbersMustBeValidIntegers)
        } else {
            Ok(EmbarkIDView { username, numbers: number->0 })
        }
    }
}

/// `n` written with four decimal digits, zeros in front where needed.
pub open spec fn four_digits(n: int) -> Seq<char> {
    seq![
        digit_char((n / 1000) % 10),
        digit_char((n / 100) % 10),
        digit_char((n / 10) % 10),
        digit_char(n % 10),
    ]
}

/// The text of an identifier: the name, `#`, and the number on four digits.
pub open spec fn rendered(id: EmbarkIDView) -> Seq<char> {
    id.username + seq!['#'] + four_digits(id.numbers)
}

impl View for EmbarkID {
    type V = EmbarkIDView;

    closed spec fn view(&self) -> EmbarkIDView {
        EmbarkIDView { username: self.username@, numbers: self.numbers as int }
    }
}

impl Clone for EmbarkID {
    fn clone(&self) -> (copy: Self)
        ensures
            copy@ == self@,
    {
        proof {
            use_type_invariant(self);
        }
        EmbarkID { username: self.username.clone(), numbers: self.numbers }
    }
}

impl EmbarkID {
    #[verifier::type_invariant]
    spec fn well_formed(&self) -> bool {
        valid(self@)
    }

    /// Reads an identifier from a text such as `name#0042`.
    pub fn new(id_string: &str) -> (result: Result<EmbarkID, EmbarkIDSterilizationErrors>)
        ensures
            match result {
                Ok(id) => parsed(id_string@) == Ok::<EmbarkIDView, EmbarkIDSterilizationErrors>(id@)
                    && valid(id@),
                Err(e) => parsed(id_string@) == Err::<EmbarkIDView, EmbarkIDSterilizationErrors>(e),
            },
    {
        let chars = chars_of(id_string);
        let n = chars.len();
        let ghost s = id_string@;
        let mut i: usize = 0;
        while i < n && chars[i] != '#'
            invariant
                i <= n,
                n == chars@.len(),
                forall|j: int| 0 <= j < i ==> chars@[j] != '#',
            decreases n - i,
        {
            i += 1;
        }
        if i == n {
            assert(!(exists|k: int| separator_at(s, k)));
            return Err(EmbarkIDSterilizationErrors::InvalidFormat);
        }
        let mut j: usize = i + 1;
        while j < n && chars[j] != '#'
            invariant
                i < j <= n,
                n == chars@.len(),
                forall|k: int| i < k < j ==> chars@[k] != '#',
            decreases n - j,
        {
            j += 1;
        }
        if j < n {
            assert forall|k: int| !separator_at(s, k) by {
                if separator_at(s, k) {
                    if k == i as int {
                        assert(s[j as int] == '#');
                    } else {
                        assert(s[i as int] == '#');
                    }
                }
            }
            return Err(EmbarkIDSterilizationErrors::InvalidFormat);
        }
        assert(separator_at(s, i as int));
        proof {
            let c = choose|k: int| separator_at(s, k);
            assert(c == i);
        }
        let (a, b) = trim_bounds(&chars, 0, i);
        let (c, d) = trim_bounds(&chars, i + 1, n);
        assert(s.subrange(0, i as int).subrange(a as int, b as int) =~= s.subrange(
            a as int,
            b as int,
        ));
        let ghost name = s.subrange(a as int, b as int);
        let width = bounded_byte_len(&chars, a, b);
        if width < 2 || width > 16 {
            return Err(EmbarkIDSterilizationErrors::UsernameMustBeBetween2And16Integers);
        }
        match read_number(&chars, c, d) {
            None => Err(EmbarkIDSterilizationErrors::NumbersMustBeValidIntegers),
            Some(numbers) => {
                if numbers < 1 || numbers > 9999 {
                    Err(EmbarkIDSterilizationErrors::NumbersMustBeValidIntegers)
                } else {
                    let username = id_string.substring_char(a, b).to_owned();
                    proof {
                        assert(username@ == name);
                        assert(!name.contains('#'));
                        lemma_trim_is_idempotent(s.subrange(0, i as int));
                    }
                    Ok(EmbarkID { username, numbers })
                }
            },
        }
    }

    /// Writes the identifier as `name#number`, the number on four digits.
    pub fn to_string(&self) -> (text: String)
        ensures
            text@ == rendered(self@),
    {
        proof {
            use_type_invariant(self);
        }
        let n = self.numbers;
        let mut text = self.username.clone();
        text.append("#");
        text.append(digit_text((n / 1000) % 10));
        text.append(digit_text((n / 100) % 10));
        text.append(digit_text((n / 10) % 10));
        text.append(digit_text(n % 10));
        proof {
            reveal_strlit("#");
            assert(text@ =~= rendered(self@));
        }
        text
    }

    /// The name before the `#`.
    pub fn username(&self) -> (name: &str)
        ensures
            name@ == self@.username,
    {
        self.username.as_str()
    }

    /// The number after the `#`.
    pub fn numbers(&self) -> (numbers: u16)
        ensures
            numbers == self@.numbers,
            1 <= numbers <= 9999,
    {
        proof {
            use_type_invariant(self);
        }
        self.numbers
    }
}

/// The number that `c` stands for, if `c` is a decimal digit.
fn digit_of(c: char) -> (digit: Option<u32>)
    ensures
        match digit {
            Some(d) => is_digit(c) && d == digit_value(c),
            None => !is_digit(c),
        },
{
    let u: u32 = c as u32;
    if 0x30 <= u && u <= 0x39 {
        Some(u - 0x30)
    } else {
        None
    }
}

/// Where the trim of `chars[from..to]` starts and ends.
fn trim_bounds(chars: &Vec<char>, from: usize, to: usize) -> (bounds: (usize, usize))
    requires
        from <= to <= chars@.len(),
    ensures
        from <= bounds.0 <= bounds.1 <= to,
        chars@.subrange(bounds.0 as int, bounds.1 as int) == trim(
            chars@.subrange(from as int, to as int),
        ),
{
    let ghost part = chars@.subrange(from as int, to as int);
    let mut a: usize = from;
    while a < to && is_whitespace(chars[a])
        invariant
            from <= a <= to <= chars@.len(),
            forall|j: int| from <= j < a ==> white_space(chars@[j]),
        decreases to - a,
    {
        a += 1;
    }
    let mut b: usize = to;
    while a < b && is_whitespace(chars[b - 1])
        invariant
            from <= a <= b <= to <= chars@.len(),
            forall|j: int| b <= j < to ==> white_space(chars@[j]),
        decreases b - a,
    {
        b -= 1;
    }
    proof {
        let front = part.subrange(a - from, part.len() as int);
        assert forall|j: int| 0 <= j < a - from implies white_space(#[trigger] part[j]) by {
            assert(part[j] == chars@[from + j]);
        }
        lemma_trim_start_skips(part, a - from);
        assert(trim_start(front) == front) by {
            if front.len() > 0 {
                assert(front[0] == chars@[a as int]);
            }
        }
        assert forall|j: int| b - a <= j < front.len() implies white_space(#[trigger] front[j]) by {
            assert(front[j] == chars@[a + j]);
        }
        lemma_trim_end_skips(front, b - a);
        let kept = front.subrange(0, b - a);
        assert(trim_end(kept) == kept) by {
            if kept.len() > 0 {
                assert(kept.last() == chars@[b - 1]);
            }
        }
        assert(kept =~= chars@.subrange(a as int, b as int));
    }
    (a, b)
}

/// The length in bytes of `chars[from..to]`, or 17 where it is above 16.
fn bounded_byte_len(chars: &Vec<char>, from: usize, to: usize) -> (width: usize)
    requires
        from <= to <= chars@.len(),
    ensures
        width <= 17,
        byte_len(chars@.subrange(from as int, to as int)) <= 16 ==> width == byte_len(
            chars@.subrange(from as int, to as int),
        ),
        byte_len(chars@.subrange(from as int, to as int)) > 16 ==> width == 17,
{
    let mut width: usize = 0;
    let mut k: usize = from;
    while k < to
        invariant
            from <= k <= to <= chars@.len(),
            width <= 16,
            width == byte_len(chars@.subrange(from as int, k as int)),
        decreases to - k,
    {
        let u: u32 = chars[k] as u32;
        let w: usize = if u < 0x80 {
            1
        } else if u < 0x800 {
            2
        } else if u < 0x10000 {
            3
        } else {
            4
        };
        proof {
            let next = chars@.subrange(from as int, k + 1);
            assert(next.drop_last() =~= chars@.subrange(from as int, k as int));
            assert(next.last() == chars@[k as int]);
            assert(w == utf8_width(chars@[k as int]));
            assert(byte_len(next) == width + w);
        }
        if width + w > 16 {
            proof {
                lemma_byte_len_prefix(chars@.subrange(from as int, to as int), k + 1 - from);
                assert(chars@.subrange(from as int, to as int).subrange(0, k + 1 - from)
                    =~= chars@.subrange(from as int, k + 1));
            }
            return 17;
        }
        width = width + w;
        k += 1;
    }
    width
}

/// Reads the number that `chars[from..to]` writes.
fn read_number(chars: &Vec<char>, from: usize, to: usize) -> (number: Option<u16>)
    requires
        from <= to <= chars@.len(),
    ensures
        match number {
            Some(n) => number_of(chars@.subrange(from as int, to as int)) == Some(n as int),
            None => number_of(chars@.subrange(from as int, to as int)) is None,
        },
{
    let ghost part = chars@.subrange(from as int, to as int);
    let mut start: usize = from;
    if start < to && chars[start] == '+' {
        start += 1;
    }
    let ghost digits = chars@.subrange(start as int, to as int);
    assert(digits =~= if part.len() > 0 && part[0] == '+' {
        part.drop_first()
    } else {
        part
    });
    if start == to {
        return None;
    }
    let mut value: u32 = 0;
    let mut k: usize = start;
    while k < to
        invariant
            from <= start <= k <= to <= chars@.len(),
            part == chars@.subrange(from as int, to as int),
            digits == chars@.subrange(start as int, to as int),
            digits == if part.len() > 0 && part[0] == '+' {
                part.drop_first()
            } else {
                part
            },
            all_digits(digits.subrange(0, k - start)),
            value == decimal_value(digits.subrange(0, k - start)),
            value <= u16::MAX,
        decreases to - k,
    {
        let c: char = chars[k];
        assert(c == digits[k - start]);
        let digit = match digit_of(c) {
            Some(digit) => digit,
            None => {
                return None;
            },
        };
        let ghost seen = digits.subrange(0, k - start);
        let ghost more = digits.subrange(0, k + 1 - start);
        proof {
            assert(more =~= seen.push(chars@[k as int]));
            lemma_decimal_value_push(seen, chars@[k as int]);
            assert(is_digit(chars@[k as int]));
            assert(all_digits(more));
        }
        value = value * 10 + digit;
        if value > 0xFFFF {
            proof {
                if all_digits(digits) {
                    lemma_decimal_value_prefix(digits, k + 1 - start);
                }
            }
            return None;
        }
        k += 1;
    }
    assert(digits.subrange(0, k - start) =~= digits);
    Some(value as u16)
}

/// The length in bytes of a prefix never exceeds that of the whole.
pub proof fn lemma_byte_len_prefix(s: Seq<char>, k: int)
    requires
        0 <= k <= s.len(),
    ensures
        byte_len(s.subrange(0, k)) <= byte_len(s),
    decreases s.len() - k,
{
    if k == s.len() {
        assert(s.subrange(0, k) =~= s);
    } else {
        lemma_byte_len_prefix(s.drop_last(), k);
        assert(s.drop_last().subrange(0, k) =~= s.subrange(0, k));
    }
}

/// Trimming a trimmed text changes nothing.
pub proof fn lemma_trim_is_idempotent(s: Seq<char>)
    ensures
        trim(trim(s)) == trim(s),
{
    lemma_trim_start_shape(s);
    lemma_trim_end_shape(trim_start(s));
    let t = trim(s);
    if t.len() > 0 {
        assert(!white_space(t.last()));
        assert(!white_space(t[0]));
    }
}

/// What `trim_start` gives is a suffix of the text that does not start with white
/// space.
pub proof fn lemma_trim_start_shape(s: Seq<char>)
    ensures
        trim_start(s).len() <= s.len(),
        trim_start(s) == s.subrange(s.len() - trim_start(s).len(), s.len() as int),
        trim_start(s).len() > 0 ==> !white_space(trim_start(s)[0]),
    decreases s.len(),
{
    if s.len() > 0 && white_space(s[0]) {
        lemma_trim_start_shape(s.drop_first());
        let t = trim_start(s.drop_first());
        assert(s.drop_first().subrange(s.drop_first().len() - t.len(), s.drop_first().len() as int)
            =~= s.subrange(s.len() - t.len(), s.len() as int));
    } else {
        assert(s.subrange(0, s.len() as int) =~= s);
    }
}

/// What `trim_end` gives is a prefix of the text that does not end with white
/// space; if the text did not start with white space, neither does the result.
pub proof fn lemma_trim_end_shape(s: Seq<char>)
    ensures
        trim_end(s).len() <= s.len(),
        trim_end(s) == s.subrange(0, trim_end(s).len() as int),
        trim_end(s).len() > 0 ==> !white_space(trim_end(s).last()),
    decreases s.len(),
{
    if s.len() > 0 && white_space(s.last()) {
        lemma_trim_end_shape(s.drop_last());
        let t = trim_end(s.drop_last());
        assert(s.drop_last().subrange(0, t.len() as int) =~= s.subrange(0, t.len() as int));
    } else {
        assert(s.subrange(0, s.len() as int) =~= s);
    }
}

/// Digits are not white space, so trimming a text made of digits changes nothing.
pub proof fn lemma_digits_are_trimmed(digits: Seq<char>)
    requires
        all_digits(digits),
    ensures
        trim(digits) == digits,
{
    if digits.len() > 0 {
        assert(is_digit(digits[0]));
        assert(is_digit(digits.last()));
    }
}

/// The one `#` of `name#rest`, where neither part holds a `#`, stands right after
/// the name.
pub proof fn lemma_separator_of_joined(name: Seq<char>, rest: Seq<char>)
    requires
        !name.contains('#'),
        !rest.contains('#'),
    ensures
        separator_at(name + seq!['#'] + rest, name.len() as int),
        (choose|i: int| separator_at(name + seq!['#'] + rest, i)) == name.len(),
        (name + seq!['#'] + rest).subrange(0, name.len() as int) == name,
        (name + seq!['#'] + rest).subrange(
            name.len() as int + 1,
            (name + seq!['#'] + rest).len() as int,
        ) == rest,
{
    let s = name + seq!['#'] + rest;
    let at = name.len() as int;
    assert forall|j: int| 0 <= j < s.len() && j != at implies s[j] != '#' by {
        if j < at {
            assert(s[j] == name[j]);
        } else {
            assert(s[j] == rest[j - at - 1]);
        }
    }
    assert(s[at] == '#');
    assert(separator_at(s, at));
    let chosen = choose|i: int| separator_at(s, i);
    assert(separator_at(s, chosen));
    assert(chosen == at);
    assert(s.subrange(0, at) =~= name);
    assert(s.subrange(at + 1, s.len() as int) =~= rest);
}

/// Parse, then render. For every name of 2 to 16 bytes without `#` and without
/// white space at its ends, and for every run of digits that writes a number from
/// 1 to 9999, with or without zeros in front: the text `name#digits` is read as
/// that name and that number, and is written back as the name, `#`, and the
/// number on exactly four digits.
pub proof fn lemma_parse_then_render(name: Seq<char>, digits: Seq<char>)
    requires
        2 <= byte_len(name) <= 16,
        !name.contains('#'),
        name.len() > 0 ==> !white_space(name[0]) && !white_space(name.last()),
        digits.len() > 0,
        all_digits(digits),
        1 <= decimal_value(digits) <= 9999,
    ensures
        parsed(name + seq!['#'] + digits) == Ok::<EmbarkIDView, EmbarkIDSterilizationErrors>(
            EmbarkIDView { username: name, numbers: decimal_value(digits) },
        ),
        rendered(EmbarkIDView { username: name, numbers: decimal_value(digits) }) == name
            + seq!['#'] + four_digits(decimal_value(digits)),
        four_digits(decimal_value(digits)).len() == 4,
        valid(EmbarkIDView { username: name, numbers: decimal_value(digits) }),
{
    assert(!digits.contains('#')) by {
        if digits.contains('#') {
            let k = choose|k: int| 0 <= k < digits.len() && digits[k] == '#';
            assert(is_digit(digits[k]));
        }
    }
    lemma_separator_of_joined(name, digits);
    lemma_trim_of_trimmed(name);
    lemma_digits_are_trimmed(digits);
    assert(is_digit(digits[0]));
}

/// The four digits of a number below 10000 are digits and write that number.
pub proof fn lemma_four_digits_value(n: int)
    requires
        0 <= n <= 9999,
    ensures
        four_digits(n).len() == 4,
        all_digits(four_digits(n)),
        decimal_value(four_digits(n)) == n,
{
    let d = four_digits(n);
    let d3 = d.drop_last();
    let d2 = d3.drop_last();
    let d1 = d2.drop_last();
    assert(d1.drop_last() =~= Seq::<char>::empty());
    assert(decimal_value(d1.drop_last()) == 0);
    assert(decimal_value(d1) == (n / 1000) % 10);
    assert(decimal_value(d2) == ((n / 1000) % 10) * 10 + (n / 100) % 10);
    assert(decimal_value(d3) == decimal_value(d2) * 10 + (n / 10) % 10);
    assert(decimal_value(d) == decimal_value(d3) * 10 + n % 10);
}

/// Render, then parse. The text of a valid identifier is read back as that
/// identifier.
pub proof fn lemma_render_then_parse(id: EmbarkIDView)
    requires
        valid(id),
    ensures
        parsed(rendered(id)) == Ok::<EmbarkIDView, EmbarkIDSterilizationErrors>(id),
{
    lemma_four_digits_value(id.numbers);
    lemma_trim_start_shape(id.username);
    lemma_trim_end_shape(trim_start(id.username));
    lemma_parse_then_render(id.username, four_digits(id.numbers));
}

} // verus!
