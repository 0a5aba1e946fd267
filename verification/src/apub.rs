use vstd::prelude::*;

verus! {

pub open spec fn dec_digit_char(d: int) -> char {
    if d == 0 {
        '0'
    } else if d == 1 {
        '1'
    } else if d == 2 {
        '2'
    } else if d == 3 {
        '3'
    } else if d == 4 {
        '4'
    } else if d == 5 {
        '5'
    } else if d == 6 {
        '6'
    } else if d == 7 {
        '7'
    } else if d == 8 {
        '8'
    } else {
        '9'
    }
}

/// The decimal form of a non-negative integer.
pub open spec fn dec_string(n: int) -> Seq<char>
    decreases n,
{
    if n < 0 {
        Seq::empty()
    } else if n < 10 {
        seq![dec_digit_char(n)]
    } else {
        dec_string(n / 10).push(dec_digit_char(n % 10))
    }
}

fn digit_str(d: u64) -> (r: &'static str)
    requires
        d < 10,
    ensures
        r@ =~= seq![dec_digit_char(d as int)],
{
    proof {
        reveal_strlit("0");
        reveal_strlit("1");
        reveal_strlit("2");
        reveal_strlit("3");
        reveal_strlit("4");
        reveal_strlit("5");
        reveal_strlit("6");
        reveal_strlit("7");
        reveal_strlit("8");
        reveal_strlit("9");
    }
    if d == 0 {
        "0"
    } else if d == 1 {
        "1"
    } else if d == 2 {
        "2"
    } else if d == 3 {
        "3"
    } else if d == 4 {
        "4"
    } else if d == 5 {
        "5"
    } else if d == 6 {
        "6"
    } else if d == 7 {
        "7"
    } else if d == 8 {
        "8"
    } else {
        "9"
    }
}

/// Renders an id in decimal.
pub fn u64_to_dec(n: u64) -> (r: String)
    ensures
        r@ =~= dec_string(n as int),
    decreases n,
{
    if n < 10 {
        digit_str(n).to_owned()
    } else {
        let mut s = u64_to_dec(n / 10);
        s.append(digit_str(n % 10));
        proof {
            assert(s@ =~= dec_string(n as int));
        }
        s
    }
}

/// The federation endpoint of a local person: `<base>/u/<name>`.
pub fn person_actor_id(base: &str, name: &str) -> (r: String)
    ensures
        r@ == base@ + "/u/"@ + name@,
{
    let mut s = base.to_owned();
    s.append("/u/");
    s.append(name);
    s
}

/// The federation endpoint of a local community: `<base>/c/<name>`.
pub fn community_actor_id(base: &str, name: &str) -> (r: String)
    ensures
        r@ == base@ + "/c/"@ + name@,
{
    let mut s = base.to_owned();
    s.append("/c/");
    s.append(name);
    s
}

/// The federation id of a private message: `<base>/private_message/<id>`.
pub fn private_message_ap_id(base: &str, id: u64) -> (r: String)
    ensures
        r@ == base@ + "/private_message/"@ + dec_string(id as int),
{
    let mut s = base.to_owned();
    s.append("/private_message/");
    let d = u64_to_dec(id);
    s.append(d.as_str());
    s
}

/// The inbox endpoint of an actor: `<actor>/inbox`.
pub fn inbox_url(actor: &str) -> (r: String)
    ensures
        r@ == actor@ + "/inbox"@,
{
    let mut s = actor.to_owned();
    s.append("/inbox");
    s
}

/// The shared inbox of the instance: `<base>/inbox`.
pub fn shared_inbox_url(base: &str) -> (r: String)
    ensures
        r@ == base@ + "/inbox"@,
{
    let mut s = base.to_owned();
    s.append("/inbox");
    s
}

/// The followers collection of a community: `<actor>/followers`.
pub fn followers_url(actor: &str) -> (r: String)
    ensures
        r@ == actor@ + "/followers"@,
{
    let mut s = actor.to_owned();
    s.append("/followers");
    s
}

} // verus!
