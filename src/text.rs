use vstd::prelude::*;
use vstd::string::StringExecFns;

verus! {

/// The characters of `s`, in order.
pub fn chars_of(s: &str) -> (r: Vec<char>)
    ensures
        r@ == s@,
{
    let mut r: Vec<char> = Vec::new();
    for c in it: s.chars()
        invariant
            r@ == it.seq().take(it.index() as int),
            it.seq() == s@,
    {
        r.push(c);
    }
    r
}

/// `"0x"` followed by `rest`.
pub fn with_hex_prefix(rest: &str) -> (r: String)
    ensures
        r@ == seq!['0', 'x'] + rest@,
{
    let mut r = String::from_str("0x");
    proof {
        reveal_strlit("0x");
    }
    r.append(rest);
    r
}

} // verus!
