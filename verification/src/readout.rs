//! Fixed per-field numeric readouts: integer thousands for the star
//! count, two-decimal fixed point for the other tunables.

use vstd::prelude::*;

use crate::axis::SemiAxis;
use crate::configuration::{ButtonKind, Configuration};
use crate::UNIT;

verus! {

/// The character of one decimal digit.
pub open spec fn digit_char(d: int) -> char {
    if d == 0 {
        '0'
    } else if d == 1 {
        '1'
    } else if d == 2 {
        '2'
    } else if d == 3 {
        '3'
    } else if d == 4 {
        '4'
    } else if d == 5 {
        '5'
    } else if d == 6 {
        '6'
    } else if d == 7 {
        '7'
    } else if d == 8 {
        '8'
    } else {
        '9'
    }
}

/// The decimal numeral of `n`, most significant digit first.
pub open spec fn dec_digits(n: nat) -> Seq<char>
    decreases n,
{
    if n < 10 {
        seq![digit_char(n as int)]
    } else {
        dec_digits(n / 10) + seq![digit_char((n % 10) as int)]
    }
}

/// A non-negative fixed-point value rendered with two decimals: the
/// whole part, a dot, tenths and hundredths (further digits dropped).
pub open spec fn spec_two_decimals(v: int) -> Seq<char> {
    dec_digits((v / (UNIT as int)) as nat) + seq![
        '.',
        digit_char((v / 100_000) % 10),
        digit_char((v / 10_000) % 10),
    ]
}

/// The star-count readout: thousands, then a dot and three zeros.
pub open spec fn spec_thousands(n: int) -> Seq<char> {
    dec_digits((n / 1_000) as nat) + seq!['.', '0', '0', '0']
}

/// The shape readout: both radii with two decimals.
pub open spec fn spec_axis_readout(a: SemiAxis) -> Seq<char> {
    "b: "@ + spec_two_decimals(a.major as int) + ", s: "@ + spec_two_decimals(a.minor as int)
}

/// The displayed value of the field a tweak button addresses.
pub open spec fn spec_button_value(c: Configuration, kind: ButtonKind) -> Seq<char> {
    match kind {
        ButtonKind::StarCount => spec_thousands(c.star_count as int),
        ButtonKind::StarSize => spec_two_decimals(c.star_size as int),
        ButtonKind::Velocity => spec_two_decimals(c.velocity as int),
        ButtonKind::SemiAxis => spec_axis_readout(c.semi_axis),
        ButtonKind::OrbitDensity => spec_two_decimals(c.orbit_density as int),
        ButtonKind::OrbitRotation => spec_two_decimals(c.orbit_rotation as int),
    }
}

/// The label a tweak button wears.
pub open spec fn spec_button_label(kind: ButtonKind) -> Seq<char> {
    match kind {
        ButtonKind::StarCount => "Star Count"@,
        ButtonKind::StarSize => "Star Size"@,
        ButtonKind::Velocity => "Velocity"@,
        ButtonKind::SemiAxis => "Semi Axis"@,
        ButtonKind::OrbitDensity => "Orbit Density"@,
        ButtonKind::OrbitRotation => "Orbit Rotation"@,
    }
}

/// One decimal digit as text.
fn digit_str(d: u64) -> (r: &'static str)
    requires
        d < 10,
    ensures
        r@ == seq![digit_char(d as int)],
{
    match d {
        0 => {
            proof {
                reveal_strlit("0");
                assert("0"@ =~= seq![digit_char(0)]);
            }
            "0"
        }
        1 => {
            proof {
                reveal_strlit("1");
                assert("1"@ =~= seq![digit_char(1)]);
            }
            "1"
        }
        2 => {
            proof {
                reveal_strlit("2");
                assert("2"@ =~= seq![digit_char(2)]);
            }
            "2"
        }
        3 => {
            proof {
                reveal_strlit("3");
                assert("3"@ =~= seq![digit_char(3)]);
            }
            "3"
        }
        4 => {
            proof {
                reveal_strlit("4");
                assert("4"@ =~= seq![digit_char(4)]);
            }
            "4"
        }
        5 => {
            proof {
                reveal_strlit("5");
                assert("5"@ =~= seq![digit_char(5)]);
            }
            "5"
        }
        6 => {
            proof {
                reveal_strlit("6");
                assert("6"@ =~= seq![digit_char(6)]);
            }
            "6"
        }
        7 => {
            proof {
                reveal_strlit("7");
                assert("7"@ =~= seq![digit_char(7)]);
            }
            "7"
        }
        8 => {
            proof {
                reveal_strlit("8");
                assert("8"@ =~= seq![digit_char(8)]);
            }
            "8"
        }
        _ => {
            proof {
                reveal_strlit("9");
                assert("9"@ =~= seq![digit_char(9)]);
            }
            "9"
        }
    }
}

/// The decimal numeral of `n` as a fresh string.
pub fn dec_string(n: u64) -> (r: String)
    ensures
        r@ == dec_digits(n as nat),
    decreases n,
{
    if n < 10 {
        digit_str(n).to_owned()
    } else {
        let mut s = dec_string(n / 10);
        s.append(digit_str(n % 10));
        proof {
            assert(s@ == dec_digits(n as nat));
        }
        s
    }
}

/// A non-negative fixed-point value with two decimals.
pub fn two_decimals(v: i64) -> (r: String)
    requires
        0 <= v,
    ensures
        r@ == spec_two_decimals(v as int),
{
    proof {
        vstd::arithmetic::div_mod::lemma_div_pos_is_pos(v as int, UNIT as int);
        vstd::arithmetic::div_mod::lemma_div_pos_is_pos(v as int, 100_000);
        vstd::arithmetic::div_mod::lemma_div_pos_is_pos(v as int, 10_000);
        vstd::arithmetic::div_mod::lemma_mod_division_less_than_divisor((v as int) / 100_000, 10);
        vstd::arithmetic::div_mod::lemma_mod_division_less_than_divisor((v as int) / 10_000, 10);
        reveal_strlit(".");
    }
    let mut s = dec_string((v / UNIT) as u64);
    s.append(".");
    s.append(digit_str(((v / 100_000) % 10) as u64));
    s.append(digit_str(((v / 10_000) % 10) as u64));
    proof {
        assert("."@ =~= seq!['.']);
        assert(s@ =~= spec_two_decimals(v as int));
    }
    s
}

impl ButtonKind {
    /// The button's label text.
    pub fn to_string(&self) -> (r: String)
        ensures
            r@ == spec_button_label(*self),
    {
        match self {
            ButtonKind::StarCount => "Star Count".to_owned(),
            ButtonKind::StarSize => "Star Size".to_owned(),
            ButtonKind::Velocity => "Velocity".to_owned(),
            ButtonKind::SemiAxis => "Semi Axis".to_owned(),
            ButtonKind::OrbitDensity => "Orbit Density".to_owned(),
            ButtonKind::OrbitRotation => "Orbit Rotation".to_owned(),
        }
    }
}

impl Configuration {
    /// The readout shown beside the tweak buttons of `button_kind`:
    /// integer thousands for the star count, two decimals for the rest.
    pub fn map_to_button_value(&self, button_kind: ButtonKind) -> (r: String)
        requires
            self.wf(),
        ensures
            r@ == spec_button_value(*self, button_kind),
    {
        match button_kind {
            ButtonKind::StarCount => {
                proof {
                    reveal_strlit(".000");
                    vstd::arithmetic::div_mod::lemma_div_pos_is_pos(
                        self.star_count as int,
                        1_000,
                    );
                }
                let mut s = dec_string((self.star_count / 1_000) as u64);
                s.append(".000");
                proof {
                    assert(".000"@ =~= seq!['.', '0', '0', '0']);
                    assert(s@ =~= spec_thousands(self.star_count as int));
                }
                s
            }
            ButtonKind::StarSize => two_decimals(self.star_size),
            ButtonKind::Velocity => two_decimals(self.velocity),
            ButtonKind::SemiAxis => {
                let mut s = "b: ".to_owned();
                s.append(two_decimals(self.semi_axis.major).as_str());
                s.append(", s: ");
                s.append(two_decimals(self.semi_axis.minor).as_str());
                proof {
                    assert(s@ =~= spec_axis_readout(self.semi_axis));
                }
                s
            }
            ButtonKind::OrbitDensity => two_decimals(self.orbit_density),
            ButtonKind::OrbitRotation => two_decimals(self.orbit_rotation),
        }
    }
}

} // verus!
