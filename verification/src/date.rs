//! A calendar date held as plain year, month and day numbers, with its
//! canonical `YYYY-MM-DD` rendering.

use vstd::prelude::*;

verus! {

/// A calendar date as plain numbers. The caller (for instance a date picker)
/// supplies the values; they are constrained only as far as the canonical
/// four-two-two digit rendering needs.
#[derive(Clone, Copy, Debug, PartialEq, Eq)]
pub struct Date {
    pub year: u32,
    pub month: u8,
    pub day: u8,
}

impl Date {
    /// The ranges under which the rendering is four digits of year and two
    /// each of month and day.
    pub open spec fn wf(&self) -> bool {
        self.year <= 9999 && 1 <= self.month <= 12 && 1 <= self.day <= 31
    }
}

/// The decimal digit `d` as a character.
pub open spec fn digit_char(d: int) -> char {
    if d == 0 {
        '0'
    } else if d == 1 {
        '1'
    } else if d == 2 {
        '2'
    } else if d == 3 {
        '3'
    } else if d == 4 {
        '4'
    } else if d == 5 {
        '5'
    } else if d == 6 {
        '6'
    } else if d == 7 {
        '7'
    } else if d == 8 {
        '8'
    } else {
        '9'
    }
}

/// The canonical `YYYY-MM-DD` rendering of `date`, zero padded.
pub open spec fn date_chars(date: Date) -> Seq<char> {
    seq![
        digit_char(date.year as int / 1000 % 10),
        digit_char(date.year as int / 100 % 10),
        digit_char(date.year as int / 10 % 10),
        digit_char(date.year as int % 10),
        '-',
        digit_char(date.month as int / 10 % 10),
        digit_char(date.month as int % 10),
        '-',
        digit_char(date.day as int / 10 % 10),
        digit_char(date.day as int % 10),
    ]
}

/// The decimal digit `d` as a one-character string slice.
fn digit_str(d: u32) -> (r: &'static str)
    requires
        d < 10,
    ensures
        r@ == seq![digit_char(d as int)],
{
    let r: &'static str = match d {
        0 => "0",
        1 => "1",
        2 => "2",
        3 => "3",
        4 => "4",
        5 => "5",
        6 => "6",
        7 => "7",
        8 => "8",
        _ => "9",
    };
    proof {
        reveal_strlit("0");
        reveal_strlit("1");
        reveal_strlit("2");
        reveal_strlit("3");
        reveal_strlit("4");
        reveal_strlit("5");
        reveal_strlit("6");
        reveal_strlit("7");
        reveal_strlit("8");
        reveal_strlit("9");
        assert(r@ =~= seq![digit_char(d as int)]);
    }
    r
}

impl Date {
    /// The date rendered in its canonical `YYYY-MM-DD` form.
    pub fn to_canonical(&self) -> (r: String)
        requires
            self.wf(),
        ensures
            r@ == date_chars(*self),
    {
        let mut r = String::new();
        r.append(digit_str(self.year / 1000 % 10));
        r.append(digit_str(self.year / 100 % 10));
        r.append(digit_str(self.year / 10 % 10));
        r.append(digit_str(self.year % 10));
        r.append("-");
        r.append(digit_str((self.month / 10) as u32 % 10));
        r.append(digit_str(self.month as u32 % 10));
        r.append("-");
        r.append(digit_str((self.day / 10) as u32 % 10));
        r.append(digit_str(self.day as u32 % 10));
        proof {
            reveal_strlit("-");
            assert(r@ =~= date_chars(*self));
        }
        r
    }
}

} // verus!
