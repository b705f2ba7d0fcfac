//! Selects the locations worth an alert and composes each alert's text.
use vstd::prelude::*;

use crate::model::{area_name, Location, Portal};

verus! {

/// The subject line of every alert.
pub const SUBJECT: &'static str = "Vaccine slot found!";

/// The positions, in list order, of the locations flagged available.
pub open spec fn available_positions(s: Seq<Location>) -> Seq<usize>
    decreases s.len(),
{
    if s.len() == 0 {
        Seq::empty()
    } else if s.last().available {
        available_positions(s.drop_last()).push((s.len() - 1) as usize)
    } else {
        available_positions(s.drop_last())
    }
}

/// The positions of the locations flagged available, in list order.
/// Whether a location is active plays no part.
pub fn available_indices(locations: &Vec<Location>) -> (r: Vec<usize>)
    ensures
        r@ == available_positions(locations@),
{
    let mut r: Vec<usize> = Vec::new();
    let n = locations.len();
    for i in 0..n
        invariant
            n == locations@.len(),
            r@ == available_positions(locations@.subrange(0, i as int)),
    {
        let ghost pre = locations@.subrange(0, i + 1);
        assert(pre.drop_last() == locations@.subrange(0, i as int));
        assert(pre.last() == locations@[i as int]);
        if locations[i].available {
            r.push(i);
        }
    }
    assert(locations@.subrange(0, n as int) == locations@);
    r
}

/// Whether position `i` holds the first portal with the given key.
pub open spec fn first_with_key(portals: Seq<Portal>, key: Seq<char>, i: int) -> bool {
    &&& 0 <= i < portals.len()
    &&& portals[i].key@ == key
    &&& forall|j: int| 0 <= j < i ==> portals[j].key@ != key
}

/// The position of the first portal with the given key, if any portal has it.
pub open spec fn portal_position(portals: Seq<Portal>, key: Seq<char>) -> Option<usize> {
    if exists|i: int| first_with_key(portals, key, i) {
        Some((choose|i: int| first_with_key(portals, key, i)) as usize)
    } else {
        None
    }
}

/// The portal that a location refers to: the first with its key, if any.
pub open spec fn resolved_portal(portals: Seq<Portal>, key: Seq<char>) -> Option<Portal> {
    match portal_position(portals, key) {
        Some(i) => Some(portals[i as int]),
        None => None,
    }
}

/// The filter keeps exactly the available locations, each once and in list
/// order: every kept position is in range and available, positions rise,
/// and no available location is left out.
pub proof fn available_positions_exact(s: Seq<Location>)
    requires
        s.len() <= usize::MAX,
    ensures
        forall|k: int|
            0 <= k < available_positions(s).len() ==> available_positions(s)[k] < s.len()
                && s[available_positions(s)[k] as int].available,
        forall|k: int, m: int|
            0 <= k < m < available_positions(s).len() ==> available_positions(s)[k]
                < available_positions(s)[m],
        forall|i: int|
            0 <= i < s.len() && s[i].available ==> exists|k: int|
                0 <= k < available_positions(s).len() && available_positions(s)[k] == i,
    decreases s.len(),
{
    if s.len() > 0 {
        let t = s.drop_last();
        available_positions_exact(t);
        let p = available_positions(t);
        let q = available_positions(s);
        assert forall|i: int| 0 <= i < s.len() && s[i].available implies exists|k: int|
            0 <= k < q.len() && q[k] == i by {
            if i < s.len() - 1 {
                assert(t[i] == s[i]);
                let k = choose|k: int| 0 <= k < p.len() && p[k] == i;
                assert(q[k] == p[k]);
            } else {
                assert(q[q.len() - 1] == i);
            }
        }
    }
}

/// Finds the first portal whose key is `key`; `None` when none has it.
pub fn find_portal(portals: &Vec<Portal>, key: &String) -> (r: Option<usize>)
    ensures
        r == portal_position(portals@, key@),
        r is None <==> forall|j: int| 0 <= j < portals@.len() ==> portals@[j].key@ != key@,
{
    let n = portals.len();
    for i in 0..n
        invariant
            n == portals@.len(),
            forall|j: int| 0 <= j < i ==> portals@[j].key@ != key@,
    {
        if portals[i].key == *key {
            assert(first_with_key(portals@, key@, i as int));
            let ghost c = choose|c: int| first_with_key(portals@, key@, c);
            assert(c == i) by {
                if c < i {
                } else if c > i {
                    assert(portals@[i as int].key@ != key@);
                }
            }
            return Some(i);
        }
    }
    assert(!exists|i: int| first_with_key(portals@, key@, i));
    None
}

/// The decimal digit for `d`, which is below ten.
pub open spec fn digit_char(d: nat) -> char {
    if d == 0 {
        '0'
    } else if d == 1 {
        '1'
    } else if d == 2 {
        '2'
    } else if d == 3 {
        '3'
    } else if d == 4 {
        '4'
    } else if d == 5 {
        '5'
    } else if d == 6 {
        '6'
    } else if d == 7 {
        '7'
    } else if d == 8 {
        '8'
    } else {
        '9'
    }
}

/// `n` written in decimal, without leading zeros.
pub open spec fn decimal(n: nat) -> Seq<char>
    decreases n,
{
    if n < 10 {
        seq![digit_char(n)]
    } else {
        decimal(n / 10) + seq![digit_char(n % 10)]
    }
}

fn digit_text(d: u64) -> (r: &'static str)
    requires
        d < 10,
    ensures
        r@ == seq![digit_char(d as nat)],
{
    if d == 0 {
        proof { reveal_strlit("0"); }
        "0"
    } else if d == 1 {
        proof { reveal_strlit("1"); }
        "1"
    } else if d == 2 {
        proof { reveal_strlit("2"); }
        "2"
    } else if d == 3 {
        proof { reveal_strlit("3"); }
        "3"
    } else if d == 4 {
        proof { reveal_strlit("4"); }
        "4"
    } else if d == 5 {
        proof { reveal_strlit("5"); }
        "5"
    } else if d == 6 {
        proof { reveal_strlit("6"); }
        "6"
    } else if d == 7 {
        proof { reveal_strlit("7"); }
        "7"
    } else if d == 8 {
        proof { reveal_strlit("8"); }
        "8"
    } else {
        proof { reveal_strlit("9"); }
        "9"
    }
}

/// Appends `n` in decimal.
pub fn push_decimal(out: &mut String, n: u64)
    ensures
        final(out)@ == old(out)@ + decimal(n as nat),
    decreases n,
{
    if n >= 10 {
        push_decimal(out, n / 10);
    }
    out.append(digit_text(n % 10));
    proof {
        if n >= 10 {
            assert(decimal(n as nat) == decimal((n / 10) as nat) + seq![digit_char((n % 10) as nat)]);
        }
    }
}

/// The text of the alert for one location, with the portal it refers to
/// where one was found.
pub open spec fn message_body(location: Location, portal: Option<Portal>) -> Seq<char> {
    let head = "Found "@ + decimal(location.appointments.count as nat)
        + " vaccine appoitnemnt(s)! The location is "@ + location.name@ + " in "@
        + area_name(location.area) + ".\n"@;
    let summary = match location.appointments.summary {
        Some(s) => s@ + "\n"@,
        None => Seq::empty(),
    };
    let referral = match portal {
        Some(p) => "Appointments can be booked through the "@ + p.name@ + " portal, at "@ + p.url@,
        None => "Visit turbovax.info for more information"@,
    };
    head + summary + referral
}

/// Composes the alert text for one location.
pub fn compose_body(location: &Location, portal: Option<&Portal>) -> (r: String)
    ensures
        r@ == message_body(
            *location,
            match portal {
                Some(p) => Some(*p),
                None => None,
            },
        ),
{
    let mut body = String::from_str("Found ");
    push_decimal(&mut body, location.appointments.count);
    body.append(" vaccine appoitnemnt(s)! The location is ");
    body.append(location.name.as_str());
    body.append(" in ");
    body.append(location.area.name());
    body.append(".\n");
    match &location.appointments.summary {
        Some(s) => {
            body.append(s.as_str());
            body.append("\n");
        },
        None => {},
    }
    match portal {
        Some(p) => {
            body.append("Appointments can be booked through the ");
            body.append(p.name.as_str());
            body.append(" portal, at ");
            body.append(p.url.as_str());
        },
        None => {
            body.append("Visit turbovax.info for more information");
        },
    }
    body
}

} // verus!
