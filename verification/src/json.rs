//! Reading strings out of a JSON document by path.

use vstd::prelude::*;

verus! {

#[verifier::external_type_specification]
#[verifier::external_body]
pub struct ExValue(serde_json::Value);

/// One step into a JSON document: into an object by key, or into an array
/// by position.
pub enum JsonStep {
    Key(Seq<char>),
    Index(nat),
}

/// The strings that a JSON document holds, each under the path that leads
/// to it from the root. A path that leads to no string is no key of the map.
pub uninterp spec fn json_strings(value: serde_json::Value) -> Map<Seq<JsonStep>, Seq<char>>;

/// What `doc` holds below `path`, with `path` taken off every key.
pub open spec fn descend(doc: Map<Seq<JsonStep>, Seq<char>>, path: Seq<JsonStep>) -> Map<
    Seq<JsonStep>,
    Seq<char>,
> {
    Map::new(|p: Seq<JsonStep>| doc.contains_key(path + p), |p: Seq<JsonStep>| doc[path + p])
}

/// The string that `doc` holds at `path`, if it holds one there.
pub open spec fn string_under(doc: Map<Seq<JsonStep>, Seq<char>>, path: Seq<JsonStep>) -> Option<
    Seq<char>,
> {
    if doc.contains_key(path) {
        Some(doc[path])
    } else {
        None
    }
}

/// Calls `serde_json::Value::get` with a string index. The result is the
/// member of the object `value` under `key`: the strings below it are those
/// that `value` holds below `key`. It is `None` where `value` is no object
/// or has no such member, and then `value` holds no string below `key`.
#[verifier::external_body]
fn member<'a>(value: &'a serde_json::Value, key: &str) -> (r: Option<&'a serde_json::Value>)
    ensures
        match r {
            Some(child) => json_strings(*child) == descend(
                json_strings(*value),
                seq![JsonStep::Key(key@)],
            ),
            None => descend(json_strings(*value), seq![JsonStep::Key(key@)]) == Map::<
                Seq<JsonStep>,
                Seq<char>,
            >::empty(),
        },
{
    value.get(key)
}

/// Calls `serde_json::Value::get` with a position. The result is the element
/// of the array `value` at `index`: the strings below it are those that
/// `value` holds below that position. It is `None` where `value` is no array
/// or is too short, and then `value` holds no string below that position.
#[verifier::external_body]
fn element<'a>(value: &'a serde_json::Value, index: usize) -> (r: Option<&'a serde_json::Value>)
    ensures
        match r {
            Some(child) => json_strings(*child) == descend(
                json_strings(*value),
                seq![JsonStep::Index(index as nat)],
            ),
            None => descend(json_strings(*value), seq![JsonStep::Index(index as nat)]) == Map::<
                Seq<JsonStep>,
                Seq<char>,
            >::empty(),
        },
{
    value.get(index)
}

/// Calls `serde_json::Value::as_str`. The result is the text of `value`
/// where `value` is a string, which is then the string that the document
/// holds at its root; it is `None` where `value` is anything else.
#[verifier::external_body]
fn as_text<'a>(value: &'a serde_json::Value) -> (r: Option<&'a str>)
    ensures
        match r {
            Some(text) => string_under(json_strings(*value), Seq::empty()) == Some(text@),
            None => string_under(json_strings(*value), Seq::empty()) is None,
        },
{
    value.as_str()
}

/// One step of a path, as executable code writes it.
#[derive(Clone, Copy, Debug, PartialEq, Eq)]
pub enum Step<'a> {
    Key(&'a str),
    Index(usize),
}

impl<'a> View for Step<'a> {
    type V = JsonStep;

    open spec fn view(&self) -> JsonStep {
        match self {
            Step::Key(key) => JsonStep::Key(key@),
            Step::Index(index) => JsonStep::Index(*index as nat),
        }
    }
}

/// The path that a sequence of executable steps stands for.
pub open spec fn path_view(path: Seq<Step<'_>>) -> Seq<JsonStep> {
    path.map_values(|s: Step<'_>| s@)
}

/// Descending along `a` and then along `b` is descending along `a + b`.
pub proof fn lemma_descend_concat(
    doc: Map<Seq<JsonStep>, Seq<char>>,
    a: Seq<JsonStep>,
    b: Seq<JsonStep>,
)
    ensures
        descend(descend(doc, a), b) == descend(doc, a + b),
{
    assert forall|p: Seq<JsonStep>| (a + b) + p == a + (b + p) by {
        assert((a + b) + p =~= a + (b + p));
    }
    assert(descend(descend(doc, a), b) =~= descend(doc, a + b));
}

/// The string that `value` holds at `path`, if it holds one there.
pub fn string_at(value: &serde_json::Value, path: &Vec<Step<'_>>) -> (r: Option<String>)
    ensures
        match r {
            Some(text) => string_under(json_strings(*value), path_view(path@)) == Some(text@),
            None => string_under(json_strings(*value), path_view(path@)) is None,
        },
{
    let ghost doc = json_strings(*value);
    let ghost full = path_view(path@);
    let mut cur: &serde_json::Value = value;
    let mut i: usize = 0;
    proof {
        assert(full.take(0) =~= Seq::<JsonStep>::empty());
        assert forall|p: Seq<JsonStep>| Seq::<JsonStep>::empty() + p == p by {
            assert(Seq::<JsonStep>::empty() + p =~= p);
        }
        assert(descend(doc, full.take(0)) =~= doc);
    }
    while i < path.len()
        invariant
            i <= path.len(),
            doc == json_strings(*value),
            full == path_view(path@),
            json_strings(*cur) == descend(doc, full.take(i as int)),
        decreases path.len() - i,
    {
        let ghost step = seq![full[i as int]];
        let next = match &path[i] {
            Step::Key(key) => member(cur, key),
            Step::Index(index) => element(cur, *index),
        };
        proof {
            lemma_descend_concat(doc, full.take(i as int), step);
            assert(full.take(i as int) + step =~= full.take(i + 1));
        }
        match next {
            Some(child) => {
                cur = child;
            },
            None => {
                proof {
                    let rest = full.skip(i + 1);
                    assert(full.take(i + 1) + rest =~= full);
                    assert(!descend(doc, full.take(i + 1)).contains_key(rest));
                }
                return None;
            },
        }
        i = i + 1;
    }
    proof {
        assert(full.take(i as int) =~= full);
        assert(full + Seq::<JsonStep>::empty() =~= full);
    }
    match as_text(cur) {
        Some(text) => Some(text.to_owned()),
        None => None,
    }
}

} // verus!
