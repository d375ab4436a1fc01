//! Query strings from JSON-like parameters.

use crate::bulk::{join, joined, texts};
use vstd::prelude::*;
use vstd::string::*;

verus! {

/// The value of one parameter, as far as a query string can show it.
#[derive(Debug, Clone)]
pub enum QueryValue {
    /// A list; each element is its text if it is a string, and nothing if
    /// it is anything else.
    Array(Vec<Option<String>>),
    /// A string.
    Text(String),
    /// A number, in the digits in which it is to appear.
    Number(String),
    /// A truth value.
    Bool(bool),
    /// Anything else, such as null or a nested object: it is left out.
    Other,
}

/// The strings among the first `n` elements of a list, in their order.
pub open spec fn strings_of(elements: Seq<Option<String>>, n: nat) -> Seq<Seq<char>>
    decreases n,
{
    if n == 0 {
        Seq::empty()
    } else {
        let before = strings_of(elements, (n - 1) as nat);
        match elements[n - 1] {
            Some(s) => before.push(s@),
            None => before,
        }
    }
}

/// How a truth value is written.
pub open spec fn bool_text(b: bool) -> Seq<char> {
    if b {
        "true"@
    } else {
        "false"@
    }
}

/// What stands behind the `=` for `value`, if the value is shown at all: the
/// strings of a list with commas between them, a string or a number as it
/// is, and `true` or `false`.
pub open spec fn value_text(value: QueryValue) -> Option<Seq<char>> {
    match value {
        QueryValue::Array(elements) => Some(joined(strings_of(elements@, elements@.len()), ","@)),
        QueryValue::Text(s) => Some(s@),
        QueryValue::Number(n) => Some(n@),
        QueryValue::Bool(b) => Some(bool_text(b)),
        QueryValue::Other => None,
    }
}

/// The pairs `key=value` of the first `n` parameters that are shown, in
/// their order.
pub open spec fn query_pairs(params: Seq<(String, QueryValue)>, n: nat) -> Seq<Seq<char>>
    decreases n,
{
    if n == 0 {
        Seq::empty()
    } else {
        let before = query_pairs(params, (n - 1) as nat);
        match value_text(params[n - 1].1) {
            Some(text) => before.push(params[n - 1].0@ + "="@ + text),
            None => before,
        }
    }
}

/// The query string of `params`: the pairs that are shown, with `&` between
/// them.
pub open spec fn query_string(params: Seq<(String, QueryValue)>) -> Seq<char> {
    joined(query_pairs(params, params.len()), "&"@)
}

fn collect_strings(elements: &Vec<Option<String>>) -> (out: Vec<String>)
    ensures
        texts(out@) == strings_of(elements@, elements@.len()),
{
    let mut out: Vec<String> = Vec::new();
    let n = elements.len();
    let mut i: usize = 0;
    while i < n
        invariant
            i <= n,
            n == elements.len(),
            texts(out@) == strings_of(elements@, i as nat),
        decreases n - i,
    {
        match &elements[i] {
            Some(s) => {
                out.push(s.clone());
            },
            None => {},
        }
        i = i + 1;
    }
    out
}

fn value_string(value: &QueryValue) -> (text: Option<String>)
    ensures
        match text {
            Some(t) => value_text(*value) == Some(t@),
            None => value_text(*value) is None,
        },
{
    match value {
        QueryValue::Array(elements) => {
            let strings = collect_strings(elements);
            Some(join(strings.as_slice(), ","))
        },
        QueryValue::Text(s) => Some(s.clone()),
        QueryValue::Number(n) => Some(n.clone()),
        QueryValue::Bool(b) => {
            if *b {
                Some(String::from_str("true"))
            } else {
                Some(String::from_str("false"))
            }
        },
        QueryValue::Other => None,
    }
}

/// Writes the members of a JSON object as a query string, in the order in
/// which they are given. A list shows its strings, with commas between
/// them; a string, a number and a truth value show as they are; null and
/// nested objects are left out. The values are not escaped.
pub fn to_query_string(params: &[(String, QueryValue)]) -> (query: String)
    ensures
        query@ == query_string(params@),
{
    let mut pairs: Vec<String> = Vec::new();
    let n = params.len();
    let mut i: usize = 0;
    while i < n
        invariant
            i <= n,
            n == params.len(),
            texts(pairs@) == query_pairs(params@, i as nat),
        decreases n - i,
    {
        match value_string(&params[i].1) {
            Some(text) => {
                let mut pair = params[i].0.clone();
                pair.append("=");
                pair.append(text.as_str());
                pairs.push(pair);
            },
            None => {},
        }
        i = i + 1;
    }
    join(pairs.as_slice(), "&")
}

} // verus!
