use vstd::prelude::*;

verus! {

/// The character of decimal digit `d`.
pub open spec fn digit_char(d: nat) -> char {
    seq!['0', '1', '2', '3', '4', '5', '6', '7', '8', '9'][d as int]
}

/// `n` written in decimal, without leading zeros.
pub open spec fn decimal(n: nat) -> Seq<char>
    decreases n,
{
    if n < 10 {
        seq![digit_char(n)]
    } else {
        decimal(n / 10) + seq![digit_char(n % 10)]
    }
}

fn digit_text(d: usize) -> (r: &'static str)
    requires
        d < 10,
    ensures
        r@ == seq![digit_char(d as nat)],
{
    proof {
        reveal_strlit("0");
        reveal_strlit("1");
        reveal_strlit("2");
        reveal_strlit("3");
        reveal_strlit("4");
        reveal_strlit("5");
        reveal_strlit("6");
        reveal_strlit("7");
        reveal_strlit("8");
        reveal_strlit("9");
    }
    let r = if d == 0 {
        "0"
    } else if d == 1 {
        "1"
    } else if d == 2 {
        "2"
    } else if d == 3 {
        "3"
    } else if d == 4 {
        "4"
    } else if d == 5 {
        "5"
    } else if d == 6 {
        "6"
    } else if d == 7 {
        "7"
    } else if d == 8 {
        "8"
    } else {
        "9"
    };
    assert(r@ =~= seq![digit_char(d as nat)]);
    r
}

/// Writes `n` in decimal.
pub fn decimal_text(n: usize) -> (r: String)
    ensures
        r@ == decimal(n as nat),
    decreases n,
{
    if n < 10 {
        String::from_str(digit_text(n))
    } else {
        let mut r = decimal_text(n / 10);
        r.append(digit_text(n % 10));
        r
    }
}

/// The prompt above the list of `found` search results.
pub open spec fn selection_prompt(found: nat) -> Seq<char> {
    "Found "@ + decimal(found) + " products"@
}

/// What a search with `found` results shows the operator.
pub enum SearchReply {
    /// Nothing matched: say so.
    NoMatches,
    /// Let the operator pick one result under this prompt.
    Choose(String),
}

/// Decides what to show for a search that found `found` results.
pub fn search_reply(found: usize) -> (r: SearchReply)
    ensures
        found == 0 ==> r is NoMatches,
        found > 0 ==> (r matches SearchReply::Choose(p) && p@ == selection_prompt(found as nat)),
{
    if found == 0 {
        SearchReply::NoMatches
    } else {
        let mut p = String::from_str("Found ");
        let count = decimal_text(found);
        p.append(count.as_str());
        p.append(" products");
        SearchReply::Choose(p)
    }
}

} // verus!
