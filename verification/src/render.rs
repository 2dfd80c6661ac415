//! Rendering of numeric and optional values into the strings a response
//! payload carries: decimal numbers, calendar timestamps in
//! `DD/MM/YYYY hh:mm AM/PM` form, entity mentions, and space-joined lists.

use vstd::prelude::*;

use crate::model::Timestamp;

verus! {

/// The decimal digit character for `d`.
pub open spec fn digit_char(d: int) -> char {
    if d == 0 {
        '0'
    } else if d == 1 {
        '1'
    } else if d == 2 {
        '2'
    } else if d == 3 {
        '3'
    } else if d == 4 {
        '4'
    } else if d == 5 {
        '5'
    } else if d == 6 {
        '6'
    } else if d == 7 {
        '7'
    } else if d == 8 {
        '8'
    } else {
        '9'
    }
}

/// The usual decimal rendering of `n`: most significant digit first, no
/// leading zeroes (a single `0` for zero itself).
pub open spec fn dec_spec(n: int) -> Seq<char>
    decreases n,
{
    if n < 10 {
        seq![digit_char(n)]
    } else {
        dec_spec(n / 10) + seq![digit_char(n % 10)]
    }
}

/// `n` rendered as exactly two digits, zero-padded.
pub open spec fn two_digits_spec(n: int) -> Seq<char> {
    seq![digit_char(n / 10), digit_char(n % 10)]
}

/// The hour of `h` on a twelve-hour clock face.
pub open spec fn hour12_spec(h: int) -> int {
    if h % 12 == 0 {
        12
    } else {
        h % 12
    }
}

/// `t` rendered as `DD/MM/YYYY hh:mm AM/PM`.
pub open spec fn timestamp_spec(t: Timestamp) -> Seq<char> {
    two_digits_spec(t.day as int) + seq!['/'] + two_digits_spec(t.month as int) + seq!['/']
        + dec_spec(t.year as int) + seq![' '] + two_digits_spec(hour12_spec(t.hour as int))
        + seq![':'] + two_digits_spec(t.minute as int) + seq![' '] + (if t.hour < 12 {
        seq!['A', 'M']
    } else {
        seq!['P', 'M']
    })
}

/// A user mention: `<@id>`.
pub open spec fn user_mention_spec(id: int) -> Seq<char> {
    seq!['<', '@'] + dec_spec(id) + seq!['>']
}

/// A role mention: `<@&id>`.
pub open spec fn role_mention_spec(id: int) -> Seq<char> {
    seq!['<', '@', '&'] + dec_spec(id) + seq!['>']
}

/// A channel mention: `<#id>`.
pub open spec fn channel_mention_spec(id: int) -> Seq<char> {
    seq!['<', '#'] + dec_spec(id) + seq!['>']
}

/// The first `k` items joined with single spaces.
pub open spec fn join_prefix(items: Seq<Seq<char>>, k: int) -> Seq<char>
    decreases k,
{
    if k <= 0 {
        Seq::empty()
    } else if k == 1 {
        items[0]
    } else {
        join_prefix(items, k - 1) + seq![' '] + items[k - 1]
    }
}

/// All items joined with single spaces.
pub open spec fn join_spaces_spec(items: Seq<Seq<char>>) -> Seq<char> {
    join_prefix(items, items.len() as int)
}

/// The footer line naming an entity's identifier: `ID: id`.
pub open spec fn id_footer_spec(id: int) -> Seq<char> {
    "ID: "@ + dec_spec(id)
}

/// The digit of `d` as a one-character string slice.
fn digit_str(d: u64) -> (r: &'static str)
    requires
        d < 10,
    ensures
        r@ == seq![digit_char(d as int)],
{
    if d == 0 {
        proof {
            reveal_strlit("0");
            assert("0"@ =~= seq!['0']);
        }
        "0"
    } else if d == 1 {
        proof {
            reveal_strlit("1");
            assert("1"@ =~= seq!['1']);
        }
        "1"
    } else if d == 2 {
        proof {
            reveal_strlit("2");
            assert("2"@ =~= seq!['2']);
        }
        "2"
    } else if d == 3 {
        proof {
            reveal_strlit("3");
            assert("3"@ =~= seq!['3']);
        }
        "3"
    } else if d == 4 {
        proof {
            reveal_strlit("4");
            assert("4"@ =~= seq!['4']);
        }
        "4"
    } else if d == 5 {
        proof {
            reveal_strlit("5");
            assert("5"@ =~= seq!['5']);
        }
        "5"
    } else if d == 6 {
        proof {
            reveal_strlit("6");
            assert("6"@ =~= seq!['6']);
        }
        "6"
    } else if d == 7 {
        proof {
            reveal_strlit("7");
            assert("7"@ =~= seq!['7']);
        }
        "7"
    } else if d == 8 {
        proof {
            reveal_strlit("8");
            assert("8"@ =~= seq!['8']);
        }
        "8"
    } else {
        proof {
            reveal_strlit("9");
            assert("9"@ =~= seq!['9']);
        }
        "9"
    }
}

/// Renders `n` in decimal.
pub fn dec_u64(n: u64) -> (r: String)
    ensures
        r@ == dec_spec(n as int),
    decreases n,
{
    if n < 10 {
        String::from_str(digit_str(n))
    } else {
        let mut s = dec_u64(n / 10);
        s.append(digit_str(n % 10));
        proof {
            assert(s@ =~= dec_spec(n as int));
        }
        s
    }
}

/// Renders `n` as exactly two digits, zero-padded.
pub fn two_digits(n: u64) -> (r: String)
    requires
        n < 100,
    ensures
        r@ == two_digits_spec(n as int),
{
    let mut s = String::from_str(digit_str(n / 10));
    s.append(digit_str(n % 10));
    proof {
        assert(s@ =~= two_digits_spec(n as int));
    }
    s
}

/// Renders `t` as `DD/MM/YYYY hh:mm AM/PM` on a twelve-hour clock.
pub fn format_timestamp(t: &Timestamp) -> (r: String)
    requires
        t.wf(),
    ensures
        r@ == timestamp_spec(*t),
{
    proof {
        reveal_strlit("/");
        assert("/"@ =~= seq!['/']);
        reveal_strlit(" ");
        assert(" "@ =~= seq![' ']);
        reveal_strlit(":");
        assert(":"@ =~= seq![':']);
        reveal_strlit("AM");
        assert("AM"@ =~= seq!['A', 'M']);
        reveal_strlit("PM");
        assert("PM"@ =~= seq!['P', 'M']);
    }
    let h12: u64 = if t.hour % 12 == 0 {
        12
    } else {
        t.hour % 12
    };
    let mut s = two_digits(t.day);
    s.append("/");
    let month = two_digits(t.month);
    s.append(month.as_str());
    s.append("/");
    let year = dec_u64(t.year);
    s.append(year.as_str());
    s.append(" ");
    let hour = two_digits(h12);
    s.append(hour.as_str());
    s.append(":");
    let minute = two_digits(t.minute);
    s.append(minute.as_str());
    s.append(" ");
    if t.hour < 12 {
        s.append("AM");
    } else {
        s.append("PM");
    }
    proof {
        assert(s@ =~= timestamp_spec(*t));
    }
    s
}

/// Builds the mention `<@id>` of a user.
pub fn user_mention(id: u64) -> (r: String)
    ensures
        r@ == user_mention_spec(id as int),
{
    proof {
        reveal_strlit("<@");
        assert("<@"@ =~= seq!['<', '@']);
        reveal_strlit(">");
        assert(">"@ =~= seq!['>']);
    }
    let mut s = String::from_str("<@");
    let digits = dec_u64(id);
    s.append(digits.as_str());
    s.append(">");
    proof {
        assert(s@ =~= user_mention_spec(id as int));
    }
    s
}

/// Builds the mention `<@&id>` of a role.
pub fn role_mention(id: u64) -> (r: String)
    ensures
        r@ == role_mention_spec(id as int),
{
    proof {
        reveal_strlit("<@&");
        assert("<@&"@ =~= seq!['<', '@', '&']);
        reveal_strlit(">");
        assert(">"@ =~= seq!['>']);
    }
    let mut s = String::from_str("<@&");
    let digits = dec_u64(id);
    s.append(digits.as_str());
    s.append(">");
    proof {
        assert(s@ =~= role_mention_spec(id as int));
    }
    s
}

/// Builds the mention `<#id>` of a channel.
pub fn channel_mention(id: u64) -> (r: String)
    ensures
        r@ == channel_mention_spec(id as int),
{
    proof {
        reveal_strlit("<#");
        assert("<#"@ =~= seq!['<', '#']);
        reveal_strlit(">");
        assert(">"@ =~= seq!['>']);
    }
    let mut s = String::from_str("<#");
    let digits = dec_u64(id);
    s.append(digits.as_str());
    s.append(">");
    proof {
        assert(s@ =~= channel_mention_spec(id as int));
    }
    s
}

/// Builds the footer line `ID: id`.
pub fn id_footer(id: u64) -> (r: String)
    ensures
        r@ == id_footer_spec(id as int),
{
    let mut s = String::from_str("ID: ");
    let digits = dec_u64(id);
    s.append(digits.as_str());
    s
}

/// Builds the mention of every role, in the order given.
pub fn role_mentions(roles: &Vec<u64>) -> (r: Vec<String>)
    ensures
        r@.len() == roles@.len(),
        forall|i: int| 0 <= i < roles@.len() ==> r@[i]@ == role_mention_spec(roles@[i] as int),
{
    let mut r: Vec<String> = Vec::new();
    let mut i: usize = 0;
    while i < roles.len()
        invariant
            i <= roles.len(),
            r@.len() == i,
            forall|j: int| 0 <= j < i ==> r@[j]@ == role_mention_spec(roles@[j] as int),
        decreases roles.len() - i,
    {
        r.push(role_mention(roles[i]));
        i = i + 1;
    }
    r
}

/// Joins the items with single spaces, in order.
pub fn join_spaces(items: &Vec<String>) -> (r: String)
    ensures
        r@ == join_spaces_spec(items@.map_values(|s: String| s@)),
{
    proof {
        reveal_strlit(" ");
        assert(" "@ =~= seq![' ']);
    }
    let ghost model: Seq<Seq<char>> = items@.map_values(|s: String| s@);
    let mut s = String::new();
    let mut i: usize = 0;
    while i < items.len()
        invariant
            i <= items.len(),
            model == items@.map_values(|s: String| s@),
            s@ == join_prefix(model, i as int),
        decreases items.len() - i,
    {
        proof {
            reveal_strlit(" ");
            assert(" "@ =~= seq![' ']);
            assert(model[i as int] == items@[i as int]@);
        }
        if i > 0 {
            s.append(" ");
        }
        s.append(items[i].as_str());
        i = i + 1;
        proof {
            if i == 1 {
                assert(join_prefix(model, 1) == model[0]);
            } else {
                assert(join_prefix(model, i as int) == join_prefix(model, i - 1) + seq![' ']
                    + model[i - 1]);
            }
            assert(s@ =~= join_prefix(model, i as int));
        }
    }
    s
}

} // verus!
