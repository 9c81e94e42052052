//! Construction of the flat JSON payloads that responses carry.
//!
//! Strings are quoted and escaped by `serde_json`; everything composed
//! around them (arrays, objects, numbers) is built and verified here.

use vstd::prelude::*;
use vstd::string::*;
use crate::text::dec_digits;

verus! {

/// The JSON text (quotes and escapes included) that `serde_json`
/// produces for a string value.
pub uninterp spec fn json_of_string(s: Seq<char>) -> Seq<char>;

/// Relies on `serde_json::to_string` for `&str`: the output is a quoted,
/// escaped JSON string determined by the characters alone.  Serializing
/// a string into an in-memory buffer cannot fail (the documented error
/// cases are failing `Serialize` impls and non-string map keys, neither
/// of which applies to `str`), so the error branch is unreachable.
#[verifier::external_body]
pub(crate) fn json_string(s: &str) -> (r: String)
    ensures
        r@ == json_of_string(s@),
{
    serde_json::to_string(s).unwrap_or_default()
}

/// The elements of a JSON array of strings, joined with commas.
pub open spec fn json_string_array_body(items: Seq<Seq<char>>) -> Seq<char>
    decreases items.len(),
{
    if items.len() == 0 {
        Seq::empty()
    } else if items.len() == 1 {
        json_of_string(items[0])
    } else {
        json_string_array_body(items.drop_last()) + ","@ + json_of_string(items.last())
    }
}

/// The JSON array holding the given strings, in order.
pub open spec fn json_string_array(items: Seq<Seq<char>>) -> Seq<char> {
    "["@ + json_string_array_body(items) + "]"@
}

/// Builds the JSON array for a vector of strings.
pub fn json_string_array_exec(items: &Vec<String>) -> (r: String)
    ensures
        r@ == json_string_array(items.deep_view()),
{
    let mut r = String::from_str("[");
    let ghost dv = items.deep_view();
    proof {
        assert(r@ + json_string_array_body(dv.take(0)) =~= r@);
    }
    let mut i: usize = 0;
    while i < items.len()
        invariant
            dv == items.deep_view(),
            i <= items@.len(),
            dv.len() == items@.len(),
            r@ == "["@ + json_string_array_body(dv.take(i as int)),
        decreases items@.len() - i,
    {
        if i > 0 {
            r.append(",");
        }
        let quoted = json_string(items[i].as_str());
        r.append(quoted.as_str());
        proof {
            assert(dv.take(i + 1).drop_last() =~= dv.take(i as int));
            assert(dv.take(i + 1).last() == dv[i as int]);
            assert(dv[i as int] == items@[i as int]@);
            if i == 0 {
                assert(json_string_array_body(dv.take(1)) == json_of_string(dv[0]));
                assert(r@ =~= "["@ + json_string_array_body(dv.take(1)));
            } else {
                assert(json_string_array_body(dv.take(i + 1)) == json_string_array_body(
                    dv.take(i as int)) + ","@ + json_of_string(dv[i as int]));
                assert(r@ =~= "["@ + json_string_array_body(dv.take(i + 1)));
            }
        }
        i += 1;
    }
    proof {
        assert(dv.take(dv.len() as int) =~= dv);
    }
    r.append("]");
    r
}

/// The JSON object for a player report: a count and the name tags.
pub open spec fn json_players(count: nat, name_tags: Seq<Seq<char>>) -> Seq<char> {
    "{\"count\":"@ + dec_digits(count) + ",\"name_tags\":"@ + json_string_array(name_tags) + "}"@
}

} // verus!
