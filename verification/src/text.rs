//! Text helpers of the session: decimal numbers as the user types them and as
//! the option list shows them, and the splitting of a typed header line.

use crate::display::menuopts;
use vstd::prelude::*;
use vstd::string::StringExecFns;

verus! {

/// Why a typed number was rejected.
#[derive(Debug, Clone, Copy, PartialEq, Eq, Structural)]
pub enum NumberError {
    /// Nothing was typed.
    Empty,
    /// Something other than decimal digits (after one optional `+`) was typed.
    InvalidDigit,
    /// The digits denote a number above `usize::MAX`.
    PosOverflow,
}

impl NumberError {
    /// The text that tells the user why the number was rejected.
    pub open spec fn text(self) -> Seq<char> {
        match self {
            NumberError::Empty => menuopts::ERROR_EMPTY_NUMBER@,
            NumberError::InvalidDigit => menuopts::ERROR_INVALID_NUMBER@,
            NumberError::PosOverflow => menuopts::ERROR_NUMBER_TOO_LARGE@,
        }
    }

    /// The text that tells the user why the number was rejected.
    pub fn message(&self) -> (r: String)
        ensures
            r@ == self.text(),
    {
        match self {
            NumberError::Empty => String::from_str(menuopts::ERROR_EMPTY_NUMBER),
            NumberError::InvalidDigit => String::from_str(menuopts::ERROR_INVALID_NUMBER),
            NumberError::PosOverflow => String::from_str(menuopts::ERROR_NUMBER_TOO_LARGE),
        }
    }
}

/// Whether `c` is one of the ten decimal digits.
pub open spec fn is_digit(c: char) -> bool {
    '0' <= c && c <= '9'
}

/// Whether `s` holds decimal digits and nothing else.
pub open spec fn all_digits(s: Seq<char>) -> bool {
    forall|i: int| 0 <= i < s.len() ==> is_digit(#[trigger] s[i])
}

/// The number that the decimal digit `c` stands for.
pub open spec fn digit_value(c: char) -> nat {
    (c as int - '0' as int) as nat
}

/// The number that a sequence of decimal digits denotes, most significant
/// digit first; the empty sequence denotes 0.
pub open spec fn decimal_value(s: Seq<char>) -> nat
    decreases s.len(),
{
    if s.len() == 0 {
        0
    } else {
        10 * decimal_value(s.drop_last()) + digit_value(s.last())
    }
}

/// What is left of a typed number once one leading `+` is taken away.
pub open spec fn unsigned_part(s: Seq<char>) -> Seq<char> {
    if s.len() > 0 && s[0] == '+' {
        s.subrange(1, s.len() as int)
    } else {
        s
    }
}

/// The reading of a typed number: one optional `+`, then at least one decimal
/// digit and nothing else, denoting a value that fits in `usize`.
pub open spec fn parse_usize_spec(s: Seq<char>) -> Result<usize, NumberError> {
    if s.len() == 0 {
        Err(NumberError::Empty)
    } else if unsigned_part(s).len() == 0 || !all_digits(unsigned_part(s)) {
        Err(NumberError::InvalidDigit)
    } else if decimal_value(unsigned_part(s)) > usize::MAX {
        Err(NumberError::PosOverflow)
    } else {
        Ok(decimal_value(unsigned_part(s)) as usize)
    }
}

/// The value of a digit sequence is that of its first `i` digits, shifted by
/// one place, plus the next digit.
pub proof fn lemma_decimal_value_step(s: Seq<char>, i: int)
    requires
        0 <= i < s.len(),
    ensures
        decimal_value(s.take(i + 1)) == 10 * decimal_value(s.take(i)) + digit_value(s[i]),
{
    assert(s.take(i + 1).drop_last() =~= s.take(i));
}

/// Reads a decimal number as typed by the user.
pub fn parse_usize(s: &str) -> (r: Result<usize, NumberError>)
    ensures
        r == parse_usize_spec(s@),
{
    let n = s.unicode_len();
    if n == 0 {
        return Err(NumberError::Empty);
    }
    let start: usize = if s.get_char(0) == '+' { 1 } else { 0 };
    if start == n {
        return Err(NumberError::InvalidDigit);
    }
    let ghost body = unsigned_part(s@);
    assert(body =~= s@.subrange(start as int, n as int));
    let mut acc: usize = 0;
    let mut overflow = false;
    let mut i: usize = start;
    while i < n
        invariant
            start <= i <= n,
            n == s@.len(),
            n > start,
            body == unsigned_part(s@),
            body == s@.subrange(start as int, n as int),
            all_digits(body.take(i - start)),
            !overflow ==> acc == decimal_value(body.take(i - start)),
            overflow ==> decimal_value(body.take(i - start)) > usize::MAX,
        decreases n - i,
    {
        let c = s.get_char(i);
        if !(c >= '0' && c <= '9') {
            assert(!is_digit(body[i - start]));
            return Err(NumberError::InvalidDigit);
        }
        let d: usize = (c as u32 - '0' as u32) as usize;
        proof {
            lemma_decimal_value_step(body, i - start);
            assert(d == digit_value(body[i - start]));
            assert forall|j: int| 0 <= j < i + 1 - start implies is_digit(
                #[trigger] body.take(i + 1 - start)[j],
            ) by {
                if j < i - start {
                    assert(body.take(i - start)[j] == body[j]);
                }
            }
        }
        if !overflow {
            match acc.checked_mul(10) {
                Some(shifted) => {
                    match shifted.checked_add(d) {
                        Some(next) => {
                            acc = next;
                        },
                        None => {
                            overflow = true;
                        },
                    }
                },
                None => {
                    overflow = true;
                },
            }
        }
        i = i + 1;
    }
    assert(body.take(n - start) =~= body);
    if overflow {
        Err(NumberError::PosOverflow)
    } else {
        Ok(acc)
    }
}

/// The decimal digit that stands for `d`, for `d` below ten.
pub open spec fn digit_char(d: nat) -> char {
    if d == 0 {
        '0'
    } else if d == 1 {
        '1'
    } else if d == 2 {
        '2'
    } else if d == 3 {
        '3'
    } else if d == 4 {
        '4'
    } else if d == 5 {
        '5'
    } else if d == 6 {
        '6'
    } else if d == 7 {
        '7'
    } else if d == 8 {
        '8'
    } else {
        '9'
    }
}

/// The decimal notation of `n`, without sign and without leading zeros.
pub open spec fn decimal_digits(n: nat) -> Seq<char>
    decreases n,
{
    if n < 10 {
        seq![digit_char(n)]
    } else {
        decimal_digits(n / 10).push(digit_char(n % 10))
    }
}

/// The decimal notation of a number is never empty and holds digits only.
pub proof fn lemma_decimal_digits_are_digits(n: nat)
    ensures
        decimal_digits(n).len() > 0,
        all_digits(decimal_digits(n)),
    decreases n,
{
    if n >= 10 {
        lemma_decimal_digits_are_digits(n / 10);
    }
}

/// Reading the decimal notation of a number gives the number back.
pub proof fn lemma_decimal_round_trip(n: nat)
    ensures
        decimal_value(decimal_digits(n)) == n,
    decreases n,
{
    if n < 10 {
        let s = decimal_digits(n);
        assert(s.drop_last() =~= Seq::<char>::empty());
        assert(decimal_value(s.drop_last()) == 0);
    } else {
        lemma_decimal_round_trip(n / 10);
        let s = decimal_digits(n);
        assert(s.drop_last() =~= decimal_digits(n / 10));
        assert(s.last() == digit_char(n % 10));
    }
}

/// A number that fits in `usize` is read back from its decimal notation.
pub proof fn lemma_parse_of_decimal_digits(n: usize)
    ensures
        parse_usize_spec(decimal_digits(n as nat)) == Ok::<usize, NumberError>(n),
{
    lemma_decimal_digits_are_digits(n as nat);
    lemma_decimal_round_trip(n as nat);
    let s = decimal_digits(n as nat);
    assert(is_digit(s[0]));
    assert(unsigned_part(s) == s);
}

fn digit_str(d: usize) -> (r: &'static str)
    requires
        d < 10,
    ensures
        r@ == seq![digit_char(d as nat)],
{
    proof {
        reveal_strlit("0");
        reveal_strlit("1");
        reveal_strlit("2");
        reveal_strlit("3");
        reveal_strlit("4");
        reveal_strlit("5");
        reveal_strlit("6");
        reveal_strlit("7");
        reveal_strlit("8");
        reveal_strlit("9");
    }
    let r = if d == 0 {
        "0"
    } else if d == 1 {
        "1"
    } else if d == 2 {
        "2"
    } else if d == 3 {
        "3"
    } else if d == 4 {
        "4"
    } else if d == 5 {
        "5"
    } else if d == 6 {
        "6"
    } else if d == 7 {
        "7"
    } else if d == 8 {
        "8"
    } else {
        "9"
    };
    assert(r@ =~= seq![digit_char(d as nat)]);
    r
}

/// Writes a number in decimal notation.
pub fn usize_to_string(n: usize) -> (r: String)
    ensures
        r@ == decimal_digits(n as nat),
    decreases n,
{
    if n < 10 {
        String::from_str(digit_str(n))
    } else {
        let mut s = usize_to_string(n / 10);
        s.append(digit_str(n % 10));
        assert(s@ =~= decimal_digits((n / 10) as nat).push(digit_char((n % 10) as nat)));
        s
    }
}

/// A new string that holds `a` followed by `b`.
pub fn join_text(a: &str, b: &str) -> (r: String)
    ensures
        r@ == a@ + b@,
{
    let mut s = String::from_str(a);
    s.append(b);
    s
}

/// Whether `i` is where the first `:` of `s` stands, or the length of `s` if
/// it holds none.
pub open spec fn is_first_colon(s: Seq<char>, i: int) -> bool {
    &&& 0 <= i <= s.len()
    &&& forall|j: int| 0 <= j < i ==> #[trigger] s[j] != ':'
    &&& i < s.len() ==> s[i] == ':'
}

/// Where the first `:` of `s` stands, or the length of `s` if it holds none.
pub open spec fn first_colon(s: Seq<char>) -> int {
    choose|i: int| is_first_colon(s, i)
}

/// A typed header line as a field name and a field value: the name is what
/// stands before the first `:`, the value what stands after it. A line
/// without `:` is a name with an empty value.
pub open spec fn header_parts(s: Seq<char>) -> (Seq<char>, Seq<char>) {
    (
        s.take(first_colon(s)),
        if first_colon(s) < s.len() {
            s.skip(first_colon(s) + 1)
        } else {
            Seq::<char>::empty()
        },
    )
}

/// The line that goes to the command for the header `name`, `value`.
pub open spec fn header_line(name: Seq<char>, value: Seq<char>) -> Seq<char> {
    name + seq![':'] + value
}

/// There is one place at most where the first `:` of a line stands.
pub proof fn lemma_first_colon_unique(s: Seq<char>, i: int)
    requires
        is_first_colon(s, i),
    ensures
        first_colon(s) == i,
{
    let j = first_colon(s);
    if i < j {
        assert(s[i] != ':');
    } else if j < i {
        assert(s[j] != ':');
    }
}

/// Every line has a place where its first `:` stands, or its end.
pub proof fn lemma_first_colon_exists(s: Seq<char>)
    ensures
        is_first_colon(s, first_colon(s)),
    decreases s.len(),
{
    if s.len() == 0 {
        assert(is_first_colon(s, 0));
    } else if s[0] == ':' {
        assert(is_first_colon(s, 0));
    } else {
        let t = s.skip(1);
        lemma_first_colon_exists(t);
        let k = first_colon(t);
        assert forall|j: int| 0 <= j < k + 1 implies #[trigger] s[j] != ':' by {
            if j > 0 {
                assert(t[j - 1] == s[j]);
            }
        }
        if k < t.len() {
            assert(t[k] == s[k + 1]);
        }
        assert(is_first_colon(s, k + 1));
    }
}

/// A line that holds a `:` is the header line of its own two parts.
pub proof fn lemma_header_line_of_parts(s: Seq<char>)
    requires
        s.contains(':'),
    ensures
        header_line(header_parts(s).0, header_parts(s).1) == s,
{
    lemma_first_colon_exists(s);
    let i = first_colon(s);
    if i == s.len() {
        let j = choose|j: int| 0 <= j < s.len() && s[j] == ':';
        assert(s[j] != ':');
    }
    assert(header_line(header_parts(s).0, header_parts(s).1) =~= s);
}

/// The parts of a header line give the name and the value back, when the
/// name holds no `:`.
pub proof fn lemma_parts_of_header_line(name: Seq<char>, value: Seq<char>)
    requires
        !name.contains(':'),
    ensures
        header_parts(header_line(name, value)) == (name, value),
{
    let s = header_line(name, value);
    assert forall|j: int| 0 <= j < name.len() implies #[trigger] s[j] != ':' by {
        assert(s[j] == name[j]);
        assert(name.contains(name[j]));
    }
    assert(s[name.len() as int] == ':');
    assert(is_first_colon(s, name.len() as int));
    lemma_first_colon_unique(s, name.len() as int);
    assert(s.take(name.len() as int) =~= name);
    assert(s.skip(name.len() as int + 1) =~= value);
}

/// Splits a typed header line at its first `:`.
pub fn split_header(line: &str) -> (r: (String, String))
    ensures
        (r.0@, r.1@) == header_parts(line@),
{
    let n = line.unicode_len();
    let mut i: usize = 0;
    while i < n && line.get_char(i) != ':'
        invariant
            i <= n,
            n == line@.len(),
            forall|j: int| 0 <= j < i ==> #[trigger] line@[j] != ':',
        decreases n - i,
    {
        i = i + 1;
    }
    proof {
        lemma_first_colon_unique(line@, i as int);
    }
    let name = String::from_str(line.substring_char(0, i));
    let value = if i < n {
        String::from_str(line.substring_char(i + 1, n))
    } else {
        String::new()
    };
    assert(name@ =~= line@.take(i as int));
    assert(i < n ==> value@ =~= line@.skip(i + 1));
    (name, value)
}

/// The line that goes to the command for the header `name`, `value`.
pub fn format_header(name: &str, value: &str) -> (r: String)
    ensures
        r@ == header_line(name@, value@),
{
    proof {
        reveal_strlit(":");
    }
    let mut s = String::from_str(name);
    s.append(":");
    s.append(value);
    assert(":"@ =~= seq![':']);
    s
}

} // verus!
