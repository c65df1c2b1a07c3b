//! Text helpers shared by the request builders.
use vstd::prelude::*;
use vstd::string::StringExecFns;

verus! {

/// `names` joined by `sep`.
pub open spec fn joined(names: Seq<Seq<char>>, sep: Seq<char>) -> Seq<char>
    decreases names.len(),
{
    if names.len() == 0 {
        Seq::empty()
    } else if names.len() == 1 {
        names[0]
    } else {
        joined(names.drop_last(), sep) + sep + names.last()
    }
}

/// The decimal digit for `d`, which is below ten.
pub open spec fn digit_char(d: nat) -> char {
    ('0' as u8 + d) as char
}

/// `n` in decimal, without sign or leading zeros.
pub open spec fn decimal_text(n: nat) -> Seq<char>
    decreases n,
{
    if n < 10 {
        seq![digit_char(n)]
    } else {
        decimal_text(n / 10).push(digit_char(n % 10))
    }
}

/// Relies on the `Display` impl of `u64` (through `ToString`): decimal
/// digits, no sign, no padding.
#[verifier::external_body]
pub(crate) fn decimal(n: u64) -> (r: String)
    ensures
        r@ == decimal_text(n as nat),
{
    n.to_string()
}

/// Whether `s` and `t` hold the same characters.
pub fn text_is(s: &str, t: &str) -> (r: bool)
    ensures
        r == (s@ == t@),
{
    let n = s.unicode_len();
    if n != t.unicode_len() {
        return false;
    }
    let mut i: usize = 0;
    while i < n
        invariant
            n == s@.len(),
            n == t@.len(),
            i <= n,
            forall|j: int| 0 <= j < i ==> s@[j] == t@[j],
        decreases n - i,
    {
        if s.get_char(i) != t.get_char(i) {
            return false;
        }
        i = i + 1;
    }
    proof {
        assert(s@ =~= t@);
    }
    true
}

/// `pairs` as a query string: `key=value` for each pair, in order, joined
/// by `&`.
pub open spec fn query_text(pairs: Seq<(Seq<char>, Seq<char>)>) -> Seq<char> {
    joined(pairs.map_values(|p: (Seq<char>, Seq<char>)| p.0 + "="@ + p.1), "&"@)
}

proof fn lemma_joined_push(names: Seq<Seq<char>>, last: Seq<char>, sep: Seq<char>)
    requires
        names.len() > 0,
    ensures
        joined(names.push(last), sep) == joined(names, sep) + sep + last,
{
    assert(names.push(last).drop_last() =~= names);
}

/// Render `map` as a query string, keeping the order of its entries: for
/// `[("limit", "2"), ("offset", "4")]`, `limit=2&offset=4`.
pub fn convert_map_to_string(map: &Vec<(String, String)>) -> (r: String)
    ensures
        r@ == query_text(map@.map_values(|p: (String, String)| (p.0@, p.1@))),
{
    let ghost pairs = map@.map_values(|p: (String, String)| (p.0@, p.1@));
    let ghost entry = |p: (Seq<char>, Seq<char>)| p.0 + "="@ + p.1;
    let mut string = String::new();
    let mut i: usize = 0;
    while i < map.len()
        invariant
            i <= map@.len(),
            pairs == map@.map_values(|p: (String, String)| (p.0@, p.1@)),
            entry == (|p: (Seq<char>, Seq<char>)| p.0 + "="@ + p.1),
            string@ == joined(pairs.subrange(0, i as int).map_values(entry), "&"@),
        decreases map@.len() - i,
    {
        proof {
            let done = pairs.subrange(0, i as int).map_values(entry);
            assert(pairs.subrange(0, i + 1).map_values(entry) =~= done.push(entry(pairs[i as int])));
            if i > 0 {
                lemma_joined_push(done, entry(pairs[i as int]), "&"@);
            } else {
                assert(done.push(entry(pairs[i as int])) =~= seq![entry(pairs[i as int])]);
            }
        }
        if i > 0 {
            string.append("&");
        }
        string.append(map[i].0.as_str());
        string.append("=");
        string.append(map[i].1.as_str());
        i = i + 1;
    }
    proof {
        assert(pairs.subrange(0, map@.len() as int) =~= pairs);
    }
    string
}

} // verus!
