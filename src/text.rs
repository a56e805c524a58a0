use vstd::prelude::*;

use vstd::string::StringExecFns;

verus! {

pub open spec fn digit_char(d: nat) -> char {
    if d == 0 {
        '0'
    } else if d == 1 {
        '1'
    } else if d == 2 {
        '2'
    } else if d == 3 {
        '3'
    } else if d == 4 {
        '4'
    } else if d == 5 {
        '5'
    } else if d == 6 {
        '6'
    } else if d == 7 {
        '7'
    } else if d == 8 {
        '8'
    } else {
        '9'
    }
}

/// The decimal digits of `n`, without leading zeros.
pub open spec fn decimal(n: nat) -> Seq<char>
    decreases n,
{
    if n < 10 {
        seq![digit_char(n)]
    } else {
        decimal(n / 10) + seq![digit_char(n % 10)]
    }
}

fn digit_str(d: u128) -> (r: &'static str)
    requires
        d < 10,
    ensures
        r@ == seq![digit_char(d as nat)],
{
    if d == 0 {
        proof { reveal_strlit("0"); }
        "0"
    } else if d == 1 {
        proof { reveal_strlit("1"); }
        "1"
    } else if d == 2 {
        proof { reveal_strlit("2"); }
        "2"
    } else if d == 3 {
        proof { reveal_strlit("3"); }
        "3"
    } else if d == 4 {
        proof { reveal_strlit("4"); }
        "4"
    } else if d == 5 {
        proof { reveal_strlit("5"); }
        "5"
    } else if d == 6 {
        proof { reveal_strlit("6"); }
        "6"
    } else if d == 7 {
        proof { reveal_strlit("7"); }
        "7"
    } else if d == 8 {
        proof { reveal_strlit("8"); }
        "8"
    } else {
        proof { reveal_strlit("9"); }
        "9"
    }
}

/// Appends the decimal digits of `n` to `s`.
pub fn push_decimal(s: &mut String, n: u128)
    ensures
        final(s)@ == old(s)@ + decimal(n as nat),
    decreases n,
{
    if n >= 10 {
        push_decimal(s, n / 10);
    }
    s.append(digit_str(n % 10));
    proof {
        if n >= 10 {
            assert(final(s)@ =~= old(s)@ + decimal(n as nat));
        } else {
            assert(final(s)@ =~= old(s)@ + decimal(n as nat));
        }
    }
}

/// Appends `t` to `s`.
pub fn push_str(s: &mut String, t: &str)
    ensures
        final(s)@ == old(s)@ + t@,
{
    s.append(t);
}

/// A count followed by its unit letter, or nothing when the count is zero.
pub open spec fn part(n: nat, unit: char) -> Seq<char> {
    if n > 0 {
        decimal(n) + seq![unit]
    } else {
        Seq::empty()
    }
}

/// A compact form of a number of seconds, such as `1h4m32s`: days, hours,
/// minutes and seconds, each only when not zero, seconds also when nothing
/// else is shown.
pub open spec fn compact_time_spec(t: nat) -> Seq<char> {
    let head = part(t / 86400, 'd') + part((t / 3600) % 24, 'h') + part((t / 60) % 60, 'm');
    if t % 60 > 0 || head.len() == 0 {
        head + decimal(t % 60) + seq!['s']
    } else {
        head
    }
}

fn push_part(s: &mut String, n: u128, unit: &str)
    requires
        unit@.len() == 1,
    ensures
        final(s)@ == old(s)@ + part(n as nat, unit@[0]),
{
    if n > 0 {
        push_decimal(s, n);
        s.append(unit);
        assert(unit@ =~= seq![unit@[0]]);
    } else {
        assert(final(s)@ =~= old(s)@ + part(n as nat, unit@[0]));
    }
}

/// Formats a number of seconds compactly, e.g. `4m32s`.
pub fn compact_time(t: u128) -> (r: String)
    ensures
        r@ == compact_time_spec(t as nat),
{
    let mut s = String::new();
    proof {
        reveal_strlit("d");
        reveal_strlit("h");
        reveal_strlit("m");
        reveal_strlit("s");
    }
    push_part(&mut s, t / 86400, "d");
    push_part(&mut s, (t / 3600) % 24, "h");
    push_part(&mut s, (t / 60) % 60, "m");
    let ghost head = s@;
    assert(head =~= part(t as nat / 86400, 'd') + part((t as nat / 3600) % 24, 'h') + part(
        (t as nat / 60) % 60,
        'm',
    ));
    if t % 60 > 0 || s.as_str().is_empty() {
        push_decimal(&mut s, (t % 60) as u128);
        s.append("s");
    }
    s
}

/// `names` joined as a reader would list them: `a`, `a and b`, `a, b and c`.
pub open spec fn human_list(names: Seq<Seq<char>>) -> Seq<char>
    decreases names.len(),
{
    if names.len() == 0 {
        Seq::empty()
    } else if names.len() == 1 {
        names[0]
    } else if names.len() == 2 {
        names[0] + " and "@ + names[1]
    } else {
        names[0] + ", "@ + human_list(names.drop_first())
    }
}

/// The artists of a track listed for humans, or `None` when there are none.
pub fn human_artists(artists: &Vec<String>) -> (r: Option<String>)
    ensures
        artists@.len() == 0 ==> r is None,
        artists@.len() > 0 ==> (r matches Some(s) && s@ == human_list(
            artists@.map_values(|a: String| a@),
        )),
{
    let n = artists.len();
    if n == 0 {
        return None;
    }
    let ghost names = artists@.map_values(|a: String| a@);
    let mut s = String::new();
    let mut i: usize = n;
    // Build from the back: the tail `names[i..]` is listed in `s`.
    s.append(artists[n - 1].as_str());
    i = n - 1;
    proof {
        assert(names.subrange(i as int, n as int) =~= seq![names[n - 1]]);
        assert(s@ =~= human_list(names.subrange(i as int, n as int)));
    }
    while i > 0
        invariant
            0 <= i < n,
            n == artists@.len(),
            names == artists@.map_values(|a: String| a@),
            s@ == human_list(names.subrange(i as int, n as int)),
        decreases i,
    {
        let mut t = String::new();
        t.append(artists[i - 1].as_str());
        if n - i == 1 {
            proof { reveal_strlit(" and "); }
            t.append(" and ");
        } else {
            proof { reveal_strlit(", "); }
            t.append(", ");
        }
        t.append(s.as_str());
        proof {
            let sub = names.subrange(i - 1, n as int);
            assert(sub.drop_first() =~= names.subrange(i as int, n as int));
            if n - i == 1 {
                assert(sub[1] == names[n - 1]);
                assert(names.subrange(i as int, n as int) =~= seq![names[n - 1]]);
            }
        }
        s = t;
        i = i - 1;
    }
    proof {
        assert(names.subrange(0, n as int) =~= names);
    }
    Some(s)
}

} // verus!
