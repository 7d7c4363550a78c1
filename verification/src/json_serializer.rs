use vstd::prelude::*;
use crate::strutil::dec_u8;
use crate::strutil::push_dec_u8;

verus! {

/// The JSON string literal that encodes `s`: an opening quote, the characters
/// of `s` with JSON escaping applied, and a closing quote. Named rather than
/// spelled out; serde_json's escaping rules are the reference.
pub uninterp spec fn json_string_of(s: Seq<char>) -> Seq<char>;

/// Relies on serde_json::to_string on a String: the result is the JSON string
/// literal for `s` and depends on the characters of `s` alone. Serializing a
/// string value cannot fail.
#[verifier::external_body]
pub(crate) fn json_quote(s: &String) -> (r: String)
    ensures
        r@ == json_string_of(s@),
{
    serde_json::to_string(s).unwrap()
}

/// The decimal renderings of the values of `s`, joined by commas.
pub open spec fn dec_list(s: Seq<u8>) -> Seq<char>
    decreases s.len(),
{
    if s.len() == 0 {
        Seq::empty()
    } else if s.len() == 1 {
        dec_u8(s[0])
    } else {
        dec_list(s.drop_last()) + ","@ + dec_u8(s.last())
    }
}

/// The JSON array holding the values of `s` in order.
pub open spec fn json_u8_arr(s: Seq<u8>) -> Seq<char> {
    "["@ + dec_list(s) + "]"@
}

/// Renders a byte vector as a JSON array of numbers.
pub fn json_u8_array(v: &Vec<u8>) -> (r: String)
    ensures
        r@ == json_u8_arr(v@),
{
    let mut out = String::from_str("[");
    let mut i: usize = 0;
    while i < v.len()
        invariant
            i <= v@.len(),
            out@ == "["@ + dec_list(v@.take(i as int)),
        decreases v@.len() - i,
    {
        if i > 0 {
            out.append(",");
        }
        push_dec_u8(&mut out, v[i]);
        proof {
            let t1 = v@.take(i as int + 1);
            assert(t1.drop_last() =~= v@.take(i as int));
            assert(t1.last() == v@[i as int]);
            if i == 0 {
                assert(out@ =~= "["@ + dec_list(t1));
            } else {
                assert(dec_list(t1) == dec_list(v@.take(i as int)) + ","@ + dec_u8(v@[i as int]));
                assert(out@ =~= "["@ + dec_list(t1));
            }
        }
        i += 1;
    }
    out.append("]");
    proof {
        assert(v@.take(v@.len() as int) =~= v@);
        assert(out@ =~= json_u8_arr(v@));
    }
    out
}

} // verus!
