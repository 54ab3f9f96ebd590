use vstd::prelude::*;

verus! {

/// The character for one decimal digit.
pub open spec fn spec_digit_char(d: int) -> char {
    if d == 0 {
        '0'
    } else if d == 1 {
        '1'
    } else if d == 2 {
        '2'
    } else if d == 3 {
        '3'
    } else if d == 4 {
        '4'
    } else if d == 5 {
        '5'
    } else if d == 6 {
        '6'
    } else if d == 7 {
        '7'
    } else if d == 8 {
        '8'
    } else {
        '9'
    }
}

/// The decimal rendering of a number: its digits in order, no leading zeros
/// (a single zero for zero itself).
pub open spec fn spec_decimal(n: nat) -> Seq<char>
    decreases n,
{
    if n < 10 {
        seq![spec_digit_char(n as int)]
    } else {
        spec_decimal(n / 10).push(spec_digit_char((n % 10) as int))
    }
}

/// The object name the gateway assigns for an identifier: the fixed prefix
/// followed by the identifier in decimal.
pub open spec fn spec_object_name(id: u64) -> Seq<char> {
    "u64-"@ + spec_decimal(id as nat)
}

fn digit_str(d: u64) -> (r: &'static str)
    requires
        d < 10,
    ensures
        r@ == seq![spec_digit_char(d as int)],
{
    proof {
        reveal_strlit("0");
        reveal_strlit("1");
        reveal_strlit("2");
        reveal_strlit("3");
        reveal_strlit("4");
        reveal_strlit("5");
        reveal_strlit("6");
        reveal_strlit("7");
        reveal_strlit("8");
        reveal_strlit("9");
    }
    let r = match d {
        0 => "0",
        1 => "1",
        2 => "2",
        3 => "3",
        4 => "4",
        5 => "5",
        6 => "6",
        7 => "7",
        8 => "8",
        _ => "9",
    };
    proof {
        assert(r@ =~= seq![spec_digit_char(d as int)]);
    }
    r
}

fn push_decimal(n: u64, out: &mut String)
    ensures
        final(out)@ == old(out)@ + spec_decimal(n as nat),
    decreases n,
{
    if n >= 10 {
        push_decimal(n / 10, out);
    }
    out.append(digit_str(n % 10));
    proof {
        assert(out@ =~= old(out)@ + spec_decimal(n as nat));
    }
}

/// Renders the gateway's object name for the given 64-bit identifier: the
/// fixed prefix followed by the identifier in decimal.
pub fn object_name(id: u64) -> (r: String)
    ensures
        r@ == spec_object_name(id),
{
    let mut name = "u64-".to_owned();
    push_decimal(id, &mut name);
    name
}

/// Relies on rand::random: a value drawn from the thread-local generator;
/// nothing is assumed of which value comes back.
pub assume_specification<T>[ rand::random::<T> ]() -> (r: T)
    where
        rand::distr::StandardUniform: rand::distr::Distribution<T>,
;

/// Draws a fresh random 64-bit identifier and renders the object name the
/// gateway stores an inbound payload under.
pub fn generate_object_name() -> (r: String)
    ensures
        exists|id: u64| r@ == spec_object_name(id),
{
    let id: u64 = rand::random();
    let name = object_name(id);
    proof {
        assert(name@ == spec_object_name(id));
    }
    name
}

} // verus!
