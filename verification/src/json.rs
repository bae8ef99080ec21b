//! The JSON seam: quoting strings into JSON and reading string fields back
//! out of response documents. The encoding and parsing themselves are done
//! by serde_json behind trusted wrappers; everything assembled from the
//! quoted pieces is verified.

use vstd::prelude::*;
use vstd::string::StringExecFns;

verus! {

/// The JSON representation of a string: quoted and escaped.
pub uninterp spec fn spec_json_quote(s: Seq<char>) -> Seq<char>;

/// Relies on serde_json::to_string on a string slice: the JSON quoting of
/// `s`, a function of its characters alone. Serializing a string slice
/// cannot fail.
#[verifier::external_body]
pub fn json_quote(s: &str) -> (r: String)
    ensures
        r@ == spec_json_quote(s@),
{
    serde_json::to_string(s).unwrap_or_else(|_| String::new())
}

/// The string at top-level key `key` of the JSON document `body`, if `body`
/// parses as JSON and that key holds a string.
pub uninterp spec fn spec_json_string_field(body: Seq<char>, key: Seq<char>) -> Option<Seq<char>>;

/// Relies on serde_json::from_str, serde_json::Value::get and
/// serde_json::Value::as_str: the string at top-level key `key` of the JSON
/// document `body`, a function of the two arguments alone.
#[verifier::external_body]
pub fn json_string_field(body: &str, key: &str) -> (r: Option<String>)
    ensures
        r.deep_view() == spec_json_string_field(body@, key@),
{
    match serde_json::from_str::<serde_json::Value>(body) {
        Ok(v) => v.get(key).and_then(|f| f.as_str()).map(|s| s.to_string()),
        Err(_) => None,
    }
}

/// The strings of a JSON document that is an array of strings, if it is one.
pub uninterp spec fn spec_json_string_list(body: Seq<char>) -> Option<Seq<Seq<char>>>;

/// Relies on serde_json::from_str deserializing into a vector of strings:
/// the elements of `body` when it is a JSON array of strings, a function of
/// `body` alone.
#[verifier::external_body]
pub fn json_string_list(body: &str) -> (r: Option<Vec<String>>)
    ensures
        r.deep_view() == spec_json_string_list(body@),
{
    serde_json::from_str::<Vec<String>>(body).ok()
}

/// The items quoted and joined with commas.
pub open spec fn spec_quoted_join(items: Seq<Seq<char>>) -> Seq<char>
    decreases items.len(),
{
    if items.len() == 0 {
        Seq::empty()
    } else if items.len() == 1 {
        spec_json_quote(items[0])
    } else {
        spec_json_quote(items[0]) + ","@ + spec_quoted_join(items.drop_first())
    }
}

/// A JSON array holding the items as strings.
pub open spec fn spec_json_string_array(items: Seq<Seq<char>>) -> Seq<char> {
    "["@ + spec_quoted_join(items) + "]"@
}

proof fn lemma_quoted_join_push(items: Seq<Seq<char>>, item: Seq<char>)
    requires
        items.len() > 0,
    ensures
        spec_quoted_join(items.push(item)) == spec_quoted_join(items) + ","@ + spec_json_quote(
            item,
        ),
    decreases items.len(),
{
    if items.len() == 1 {
        assert(items.push(item).drop_first() =~= seq![item]);
        assert(items.push(item)[0] == items[0]);
        assert(seq![item][0] == item);
        assert(spec_quoted_join(seq![item]) == spec_json_quote(item));
    } else {
        lemma_quoted_join_push(items.drop_first(), item);
        assert(items.push(item).drop_first() =~= items.drop_first().push(item));
        assert(spec_quoted_join(items.push(item)) == spec_json_quote(items[0]) + ","@
            + spec_quoted_join(items.drop_first().push(item)));
        assert(spec_json_quote(items[0]) + ","@ + (spec_quoted_join(items.drop_first()) + ","@
            + spec_json_quote(item)) =~= (spec_json_quote(items[0]) + ","@ + spec_quoted_join(
            items.drop_first(),
        )) + ","@ + spec_json_quote(item));
    }
}

/// Build the JSON array of the given strings.
pub fn json_string_array(items: &Vec<String>) -> (r: String)
    ensures
        r@ == spec_json_string_array(items.deep_view()),
{
    let mut s = String::from_str("[");
    let mut i: usize = 0;
    while i < items.len()
        invariant
            0 <= i <= items@.len(),
            items.deep_view().len() == items@.len(),
            s@ == "["@ + spec_quoted_join(items.deep_view().take(i as int)),
        decreases items@.len() - i,
    {
        proof {
            assert(items.deep_view()[i as int] == items@[i as int]@);
        }
        if i > 0 {
            s.append(",");
        }
        let q = json_quote(items[i].as_str());
        s.append(q.as_str());
        proof {
            let pre = items.deep_view().take(i as int);
            let post = items.deep_view().take(i + 1);
            assert(post =~= pre.push(items.deep_view()[i as int]));
            if i == 0 {
                assert(pre.len() == 0);
                assert(post.len() == 1);
                assert(spec_quoted_join(post) == spec_json_quote(items.deep_view()[0]));
                assert(s@ =~= "["@ + spec_quoted_join(post));
            } else {
                lemma_quoted_join_push(pre, items.deep_view()[i as int]);
                assert(s@ =~= "["@ + spec_quoted_join(post));
            }
        }
        i = i + 1;
    }
    proof {
        assert(items.deep_view().take(items@.len() as int) =~= items.deep_view());
    }
    s.append("]");
    proof {
        assert(s@ =~= spec_json_string_array(items.deep_view()));
    }
    s
}

} // verus!
