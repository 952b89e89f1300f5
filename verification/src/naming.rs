//! Catalogue designations of a star and the choice of its most human name.
use vstd::prelude::*;

verus! {

/// The decimal digit character for `d` (which is below ten).
pub open spec fn digit_char(d: int) -> char {
    (d + 48) as char
}

/// Decimal digits of a natural number, most significant first, no leading zeros.
pub open spec fn decimal_digits(n: nat) -> Seq<char>
    decreases n,
{
    if n < 10 {
        seq![digit_char(n as int)]
    } else {
        decimal_digits(n / 10).push(digit_char((n % 10) as int))
    }
}

/// Decimal text of an integer, with a leading `-` when it is negative.
pub open spec fn decimal_text(n: int) -> Seq<char> {
    if n < 0 {
        seq!['-'] + decimal_digits((-n) as nat)
    } else {
        decimal_digits(n as nat)
    }
}

/// The number a string of decimal digits stands for.
pub open spec fn digits_value(s: Seq<char>) -> int
    decreases s.len(),
{
    if s.len() == 0 {
        0
    } else {
        digits_value(s.drop_last()) * 10 + (s.last() as int - 48)
    }
}

/// Whether every character of `s` is one of `0` to `9`.
pub open spec fn all_decimal_digits(s: Seq<char>) -> bool {
    forall|i: int| 0 <= i < s.len() ==> '0' <= #[trigger] s[i] <= '9'
}

/// The decimal digits of `n` are digit characters, at least one, with no
/// leading zero unless `n` is zero, and they stand for `n`.
pub proof fn lemma_decimal_digits_read_back(n: nat)
    ensures
        all_decimal_digits(decimal_digits(n)),
        decimal_digits(n).len() >= 1,
        decimal_digits(n)[0] != '0' || n == 0,
        digits_value(decimal_digits(n)) == n,
    decreases n,
{
    if n >= 10 {
        lemma_decimal_digits_read_back(n / 10);
        let prefix = decimal_digits(n / 10);
        let s = decimal_digits(n);
        assert(s.drop_last() =~= prefix);
        assert(s[0] == prefix[0]);
        assert(digit_char((n % 10) as int) as int == (n % 10) + 48);
        assert(digits_value(s) == digits_value(prefix) * 10 + (n % 10));
        assert((n / 10) * 10 + n % 10 == n) by (nonlinear_arith);
    } else {
        assert(digit_char(n as int) as int == n + 48);
        assert(decimal_digits(n).drop_last() =~= Seq::<char>::empty());
        assert(digits_value(Seq::<char>::empty()) == 0);
        assert(digits_value(decimal_digits(n)) == 0 * 10 + n);
    }
}

/// The decimal text of an integer is `-` before the digits of its magnitude
/// exactly when it is negative, and the digits stand for that magnitude.
pub proof fn lemma_decimal_text_read_back(n: int)
    ensures
        n < 0 ==> decimal_text(n)[0] == '-' && decimal_text(n).drop_first() == decimal_digits(
            (-n) as nat,
        ),
        n < 0 ==> digits_value(decimal_text(n).drop_first()) == -n,
        n >= 0 ==> all_decimal_digits(decimal_text(n)) && digits_value(decimal_text(n)) == n,
{
    if n < 0 {
        lemma_decimal_digits_read_back((-n) as nat);
        assert(decimal_text(n).drop_first() =~= decimal_digits((-n) as nat));
    } else {
        lemma_decimal_digits_read_back(n as nat);
    }
}

/// Appends `c` to `s`.
/// Calls `String::push`, whose documentation says that it appends the given
/// character to the end of the string.
#[verifier::external_body]
fn push_char(s: &mut String, c: char)
    ensures
        final(s)@ == old(s)@.push(c),
{
    s.push(c);
}

fn digit(d: u32) -> (c: char)
    requires
        d < 10,
    ensures
        c == digit_char(d as int),
{
    let b: u8 = 48u8 + (d as u8);
    b as char
}

/// Appends the decimal digits of `n` to `s`.
fn push_digits(s: &mut String, n: u32)
    ensures
        final(s)@ == old(s)@ + decimal_digits(n as nat),
    decreases n,
{
    if n >= 10 {
        push_digits(s, n / 10);
    }
    push_char(s, digit(n % 10));
    proof {
        assert(old(s)@ + decimal_digits(n as nat) =~= (if n >= 10 {
            old(s)@ + decimal_digits((n / 10) as nat)
        } else {
            old(s)@
        }).push(digit_char((n % 10) as int)));
    }
}

/// Appends the decimal text of `n` to `s`.
fn push_decimal(s: &mut String, n: i32)
    ensures
        final(s)@ == old(s)@ + decimal_text(n as int),
{
    if n < 0 {
        push_char(s, '-');
        let magnitude: u32 = (0i64 - (n as i64)) as u32;
        push_digits(s, magnitude);
        assert(old(s)@ + decimal_text(n as int) =~= old(s)@.push('-') + decimal_digits(
            magnitude as nat,
        ));
    } else {
        push_digits(s, n as u32);
    }
}

/// The decimal text of `n`, as `format!("{}", n)` writes it.
pub fn decimal_string(n: i32) -> (res: String)
    ensures
        res@ == decimal_text(n as int),
{
    let mut s = String::new();
    push_decimal(&mut s, n);
    assert(Seq::<char>::empty() + decimal_text(n as int) =~= decimal_text(n as int));
    s
}

/// The catalogue labels of a star: its proper name, Bayer/Flamsteed and
/// Gliese designations, and its Hipparcos, Henry Draper and Harvard Revised
/// numbers, each of which may be absent.
pub struct StarDesignations {
    pub hip: Option<i32>,
    pub hd: Option<i32>,
    pub hr: Option<i32>,
    pub gl: Option<String>,
    pub bf: Option<String>,
    pub proper: Option<String>,
}

/// The most human name of a star with designations `d`: its proper name, else
/// its Bayer/Flamsteed designation, else its Gliese designation, else
/// `HD <number>`, else `HR <number>`, else `Unnamed star`.
pub open spec fn human_name(d: StarDesignations) -> Seq<char> {
    if d.proper is Some {
        d.proper->0@
    } else if d.bf is Some {
        d.bf->0@
    } else if d.gl is Some {
        d.gl->0@
    } else if d.hd is Some {
        "HD "@ + decimal_text(d.hd->0 as int)
    } else if d.hr is Some {
        "HR "@ + decimal_text(d.hr->0 as int)
    } else {
        "Unnamed star"@
    }
}

impl StarDesignations {
    /// Runs through the labels to find the most human name.
    pub fn name(&self) -> (res: String)
        ensures
            res@ == human_name(*self),
            self.proper matches Some(p) ==> res@ == p@,
            self.proper is None && self.bf is Some ==> res@ == self.bf->0@,
            self.proper is None && self.bf is None && self.gl is Some ==> res@ == self.gl->0@,
            self.proper is None && self.bf is None && self.gl is None && self.hd is Some ==> res@
                == "HD "@ + decimal_text(self.hd->0 as int),
            self.proper is None && self.bf is None && self.gl is None && self.hd is None
                && self.hr is Some ==> res@ == "HR "@ + decimal_text(self.hr->0 as int),
            self.proper is None && self.bf is None && self.gl is None && self.hd is None
                && self.hr is None ==> res@ == "Unnamed star"@,
    {
        if let Some(proper) = &self.proper {
            return proper.clone();
        }
        if let Some(bf) = &self.bf {
            return bf.clone();
        }
        if let Some(gl) = &self.gl {
            return gl.clone();
        }
        if let Some(hd) = &self.hd {
            let mut s = "HD ".to_owned();
            push_decimal(&mut s, *hd);
            return s;
        }
        if let Some(hr) = &self.hr {
            let mut s = "HR ".to_owned();
            push_decimal(&mut s, *hr);
            return s;
        }
        "Unnamed star".to_owned()
    }
}

} // verus!
