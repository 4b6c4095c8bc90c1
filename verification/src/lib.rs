//! Data model and message formatting for a small cross-language call bridge
//! demo: a wrapped counter value, an opaque named handle, and the composite
//! record that is handed across the boundary, together with the exact text of
//! the two lines the demo prints.

use vstd::prelude::*;
use vstd::string::StringExecFns;

verus! {

/// The decimal digit `d` as a character, for `d < 10`.
pub open spec fn digit_char(d: nat) -> char {
    if d == 0 {
        '0'
    } else if d == 1 {
        '1'
    } else if d == 2 {
        '2'
    } else if d == 3 {
        '3'
    } else if d == 4 {
        '4'
    } else if d == 5 {
        '5'
    } else if d == 6 {
        '6'
    } else if d == 7 {
        '7'
    } else if d == 8 {
        '8'
    } else {
        '9'
    }
}

/// The usual decimal rendering of `n`: most significant digit first, no
/// leading zeros, a single `'0'` for zero.
pub open spec fn decimal_rep(n: nat) -> Seq<char>
    decreases n,
{
    if n < 10 {
        seq![digit_char(n)]
    } else {
        decimal_rep(n / 10) + seq![digit_char(n % 10)]
    }
}

/// A single decimal digit as a string slice.
fn digit_str(d: usize) -> (s: &'static str)
    requires
        d < 10,
    ensures
        s@ == seq![digit_char(d as nat)],
{
    match d {
        0 => {
            proof {
                reveal_strlit("0");
                assert("0"@ =~= seq![digit_char(0)]);
            }
            "0"
        },
        1 => {
            proof {
                reveal_strlit("1");
                assert("1"@ =~= seq![digit_char(1)]);
            }
            "1"
        },
        2 => {
            proof {
                reveal_strlit("2");
                assert("2"@ =~= seq![digit_char(2)]);
            }
            "2"
        },
        3 => {
            proof {
                reveal_strlit("3");
                assert("3"@ =~= seq![digit_char(3)]);
            }
            "3"
        },
        4 => {
            proof {
                reveal_strlit("4");
                assert("4"@ =~= seq![digit_char(4)]);
            }
            "4"
        },
        5 => {
            proof {
                reveal_strlit("5");
                assert("5"@ =~= seq![digit_char(5)]);
            }
            "5"
        },
        6 => {
            proof {
                reveal_strlit("6");
                assert("6"@ =~= seq![digit_char(6)]);
            }
            "6"
        },
        7 => {
            proof {
                reveal_strlit("7");
                assert("7"@ =~= seq![digit_char(7)]);
            }
            "7"
        },
        8 => {
            proof {
                reveal_strlit("8");
                assert("8"@ =~= seq![digit_char(8)]);
            }
            "8"
        },
        _ => {
            proof {
                reveal_strlit("9");
                assert("9"@ =~= seq![digit_char(d as nat)]);
            }
            "9"
        },
    }
}

/// Renders `n` in decimal.
pub fn decimal_string(n: usize) -> (s: String)
    ensures
        s@ == decimal_rep(n as nat),
    decreases n,
{
    if n < 10 {
        String::from_str(digit_str(n))
    } else {
        let q: usize = n / 10;
        let r: usize = n % 10;
        let mut s = decimal_string(q);
        s.append(digit_str(r));
        s
    }
}

/// A wrapper around a single non-negative integer. The value is set at
/// construction and never changes afterwards.
pub struct ThingR(usize);

impl ThingR {
    /// The wrapped value, as seen by specifications.
    pub closed spec fn spec_value(&self) -> usize {
        self.0
    }

    pub fn new(v: usize) -> (r: ThingR)
        ensures
            r.spec_value() == v,
    {
        ThingR(v)
    }

    pub fn value(&self) -> (v: usize)
        ensures
            v == self.spec_value(),
    {
        self.0
    }
}

/// A handle to an object owned by the foreign side of the bridge, modelled by
/// the one thing the demo ever reads from it: the display name it was
/// constructed with.
pub struct Demo {
    name: String,
}

impl Demo {
    /// The handle's display name, as seen by specifications.
    pub closed spec fn spec_name(&self) -> Seq<char> {
        self.name@
    }

    /// Constructs a handle from a textual label; the label becomes its name.
    pub fn make_demo(label: &str) -> (d: Demo)
        ensures
            d.spec_name() == label@,
    {
        Demo { name: String::from_str(label) }
    }

    /// The display name the handle was constructed with.
    pub fn get_name(&self) -> (n: &str)
        ensures
            n@ == self.spec_name(),
    {
        self.name.as_str()
    }
}

/// The composite record handed by value to the foreign consumer: two
/// independent payload slots and one exclusively owned handle. No invariant
/// ties the fields together.
pub struct SharedThing {
    pub z: i32,
    pub y: Box<ThingR>,
    pub x: Demo,
}

impl SharedThing {
    pub fn new(z: i32, y: Box<ThingR>, x: Demo) -> (t: SharedThing)
        ensures
            t.z == z,
            t.y == y,
            t.x == x,
    {
        SharedThing { z, y, x }
    }
}

/// The line printed for a handle's display name, with its fixed prefix.
pub fn name_line(name: &str) -> (s: String)
    ensures
        s@ == "this is a "@ + name@,
{
    let mut s = String::from_str("this is a ");
    s.append(name);
    s
}

/// The line the callback routine prints for a wrapped value.
pub fn callback_line(r: &ThingR) -> (s: String)
    ensures
        s@ == "called back with r="@ + decimal_rep(r.spec_value() as nat),
{
    let mut s = String::from_str("called back with r=");
    let digits = decimal_string(r.value());
    s.append(digits.as_str());
    s
}

} // verus!
