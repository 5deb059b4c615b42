//! Decimal numbers as they appear in a turbine table or a project file.
//!
//! A number is kept as its text, checked against the decimal grammar
//! `[+-]? (D+ | D+ '.' D* | D* '.' D+) ([eE] [+-]? D+)?`, so that it is carried
//! through the library unchanged and converted to a machine float only at the
//! edge of the application.
use vstd::prelude::*;

verus! {

/// Scanner states of the decimal grammar.
pub const ST_START: u8 = 0;
pub const ST_SIGN: u8 = 1;
pub const ST_INT: u8 = 2;
pub const ST_INT_DOT: u8 = 3;
pub const ST_DOT: u8 = 4;
pub const ST_FRAC: u8 = 5;
pub const ST_EXP: u8 = 6;
pub const ST_EXP_SIGN: u8 = 7;
pub const ST_EXP_DIGITS: u8 = 8;
pub const ST_REJECT: u8 = 9;

pub open spec fn is_digit(c: char) -> bool {
    '0' <= c && c <= '9'
}

/// One transition of the scanner.
pub open spec fn step_spec(st: u8, c: char) -> u8 {
    if is_digit(c) {
        if st == ST_START || st == ST_SIGN || st == ST_INT {
            ST_INT
        } else if st == ST_INT_DOT || st == ST_DOT || st == ST_FRAC {
            ST_FRAC
        } else if st == ST_EXP || st == ST_EXP_SIGN || st == ST_EXP_DIGITS {
            ST_EXP_DIGITS
        } else {
            ST_REJECT
        }
    } else if c == '+' || c == '-' {
        if st == ST_START {
            ST_SIGN
        } else if st == ST_EXP {
            ST_EXP_SIGN
        } else {
            ST_REJECT
        }
    } else if c == '.' {
        if st == ST_START || st == ST_SIGN {
            ST_DOT
        } else if st == ST_INT {
            ST_INT_DOT
        } else {
            ST_REJECT
        }
    } else if c == 'e' || c == 'E' {
        if st == ST_INT || st == ST_INT_DOT || st == ST_FRAC {
            ST_EXP
        } else {
            ST_REJECT
        }
    } else {
        ST_REJECT
    }
}

/// The state reached after reading all of `s`.
pub open spec fn scan(s: Seq<char>) -> u8
    decreases s.len(),
{
    if s.len() == 0 {
        ST_START
    } else {
        step_spec(scan(s.drop_last()), s.last())
    }
}

pub open spec fn is_accepting(st: u8) -> bool {
    st == ST_INT || st == ST_INT_DOT || st == ST_FRAC || st == ST_EXP_DIGITS
}

/// `s` is a finite decimal number in the grammar above.
pub open spec fn is_number(s: Seq<char>) -> bool {
    is_accepting(scan(s))
}

fn step(st: u8, c: char) -> (r: u8)
    ensures
        r == step_spec(st, c),
{
    let digit = '0' <= c && c <= '9';
    if digit {
        if st == ST_START || st == ST_SIGN || st == ST_INT {
            ST_INT
        } else if st == ST_INT_DOT || st == ST_DOT || st == ST_FRAC {
            ST_FRAC
        } else if st == ST_EXP || st == ST_EXP_SIGN || st == ST_EXP_DIGITS {
            ST_EXP_DIGITS
        } else {
            ST_REJECT
        }
    } else if c == '+' || c == '-' {
        if st == ST_START {
            ST_SIGN
        } else if st == ST_EXP {
            ST_EXP_SIGN
        } else {
            ST_REJECT
        }
    } else if c == '.' {
        if st == ST_START || st == ST_SIGN {
            ST_DOT
        } else if st == ST_INT {
            ST_INT_DOT
        } else {
            ST_REJECT
        }
    } else if c == 'e' || c == 'E' {
        if st == ST_INT || st == ST_INT_DOT || st == ST_FRAC {
            ST_EXP
        } else {
            ST_REJECT
        }
    } else {
        ST_REJECT
    }
}

/// Decides whether `s` is a finite decimal number.
pub fn check_number(s: &str) -> (r: bool)
    ensures
        r == is_number(s@),
{
    let n = s.unicode_len();
    let mut st: u8 = ST_START;
    let mut i: usize = 0;
    while i < n
        invariant
            n == s@.len(),
            i <= n,
            st == scan(s@.take(i as int)),
        decreases n - i,
    {
        let c = s.get_char(i);
        assert(s@.take(i + 1).drop_last() =~= s@.take(i as int));
        st = step(st, c);
        i = i + 1;
    }
    assert(s@.take(n as int) =~= s@);
    st == ST_INT || st == ST_INT_DOT || st == ST_FRAC || st == ST_EXP_DIGITS
}

/// A non-empty run of digits is a number.
pub proof fn lemma_digits_are_number(s: Seq<char>)
    requires
        s.len() > 0,
        forall|i: int| 0 <= i < s.len() ==> is_digit(#[trigger] s[i]),
    ensures
        scan(s) == ST_INT,
        is_number(s),
    decreases s.len(),
{
    if s.len() > 1 {
        let p = s.drop_last();
        assert forall|i: int| 0 <= i < p.len() implies is_digit(#[trigger] p[i]) by {
            assert(p[i] == s[i]);
        }
        lemma_digits_are_number(p);
    } else {
        assert(s.drop_last().len() == 0);
        assert(scan(s.drop_last()) == ST_START);
    }
    assert(is_digit(s.last()));
    assert(scan(s) == step_spec(scan(s.drop_last()), s.last()));
}

/// The number is greater than zero: no minus sign, and a non-zero digit
/// before any exponent.
pub open spec fn is_positive(s: Seq<char>) -> bool {
    &&& is_number(s)
    &&& s[0] != '-'
    &&& exists|i: int|
        0 <= i < s.len() && '1' <= #[trigger] s[i] && s[i] <= '9' && forall|j: int|
            0 <= j < i ==> s[j] != 'e' && s[j] != 'E'
}

/// Decides whether `s` is a number greater than zero.
pub fn check_positive(s: &str) -> (r: bool)
    ensures
        r == is_positive(s@),
{
    if !check_number(s) {
        return false;
    }
    let n = s.unicode_len();
    if n == 0 {
        assert(scan(s@) == ST_START);
        return false;
    }
    if s.get_char(0) == '-' {
        return false;
    }
    let mut i: usize = 0;
    while i < n
        invariant
            n == s@.len(),
            i <= n,
            is_number(s@),
            s@[0] != '-',
            forall|j: int| 0 <= j < i ==> s@[j] != 'e' && s@[j] != 'E' && !('1' <= #[trigger] s@[j] && s@[j] <= '9'),
        decreases n - i,
    {
        let c = s.get_char(i);
        if '1' <= c && c <= '9' {
            return true;
        }
        if c == 'e' || c == 'E' {
            return false;
        }
        i = i + 1;
    }
    false
}

/// The decimal digit for `d`, which is below ten.
pub open spec fn digit_char(d: nat) -> char {
    if d == 0 { '0' } else if d == 1 { '1' } else if d == 2 { '2' } else if d == 3 { '3' }
    else if d == 4 { '4' } else if d == 5 { '5' } else if d == 6 { '6' } else if d == 7 { '7' }
    else if d == 8 { '8' } else { '9' }
}

/// The decimal notation of `n`, without leading zeros.
pub open spec fn decimal_text(n: nat) -> Seq<char>
    decreases n,
{
    if n < 10 {
        seq![digit_char(n)]
    } else {
        decimal_text(n / 10) + seq![digit_char(n % 10)]
    }
}

fn digit_string(d: usize) -> (r: String)
    requires
        d < 10,
    ensures
        r@ == seq![digit_char(d as nat)],
{
    if d == 0 {
        proof {
            reveal_strlit("0");
            assert("0"@ =~= seq![digit_char(d as nat)]);
        }
        return "0".to_owned();
    }
    if d == 1 {
        proof {
            reveal_strlit("1");
            assert("1"@ =~= seq![digit_char(d as nat)]);
        }
        return "1".to_owned();
    }
    if d == 2 {
        proof {
            reveal_strlit("2");
            assert("2"@ =~= seq![digit_char(d as nat)]);
        }
        return "2".to_owned();
    }
    if d == 3 {
        proof {
            reveal_strlit("3");
            assert("3"@ =~= seq![digit_char(d as nat)]);
        }
        return "3".to_owned();
    }
    if d == 4 {
        proof {
            reveal_strlit("4");
            assert("4"@ =~= seq![digit_char(d as nat)]);
        }
        return "4".to_owned();
    }
    if d == 5 {
        proof {
            reveal_strlit("5");
            assert("5"@ =~= seq![digit_char(d as nat)]);
        }
        return "5".to_owned();
    }
    if d == 6 {
        proof {
            reveal_strlit("6");
            assert("6"@ =~= seq![digit_char(d as nat)]);
        }
        return "6".to_owned();
    }
    if d == 7 {
        proof {
            reveal_strlit("7");
            assert("7"@ =~= seq![digit_char(d as nat)]);
        }
        return "7".to_owned();
    }
    if d == 8 {
        proof {
            reveal_strlit("8");
            assert("8"@ =~= seq![digit_char(d as nat)]);
        }
        return "8".to_owned();
    }
    proof {
        reveal_strlit("9");
        assert("9"@ =~= seq![digit_char(d as nat)]);
    }
    "9".to_owned()
}

/// Writes `n` in decimal.
pub fn decimal_string(n: usize) -> (r: String)
    ensures
        r@ == decimal_text(n as nat),
    decreases n,
{
    if n < 10 {
        digit_string(n)
    } else {
        let mut s = decimal_string(n / 10);
        let t = digit_string(n % 10);
        s.append(t.as_str());
        s
    }
}

/// A finite decimal number, kept as the text it was written with.
pub struct Decimal {
    text: String,
}

impl Decimal {
    pub closed spec fn spec_text(&self) -> Seq<char> {
        self.text@
    }

    pub open spec fn wf(&self) -> bool {
        is_number(self.spec_text())
    }

    /// Accepts `s` when it is a finite decimal number.
    pub fn parse(s: &str) -> (r: Option<Decimal>)
        ensures
            r is Some <==> is_number(s@),
            r matches Some(d) ==> d.spec_text() == s@ && d.wf(),
    {
        if check_number(s) {
            Some(Decimal { text: s.to_owned() })
        } else {
            None
        }
    }

    /// The number is well formed; every constructor ensures it.
    pub fn is_valid(&self) -> (r: bool)
        ensures
            r == self.wf(),
    {
        check_number(self.text.as_str())
    }

    /// The number is greater than zero.
    pub fn is_positive(&self) -> (r: bool)
        ensures
            r == is_positive(self.spec_text()),
    {
        check_positive(self.text.as_str())
    }

    /// Takes a text already known to be a number.
    pub fn from_valid(s: &str) -> (r: Decimal)
        requires
            is_number(s@),
        ensures
            r.spec_text() == s@,
            r.wf(),
    {
        Decimal { text: s.to_owned() }
    }

    /// The text of the number.
    pub fn text(&self) -> (r: String)
        ensures
            r@ == self.spec_text(),
    {
        self.text.clone()
    }
}

} // verus!
