use vstd::prelude::*;

use crate::handlers::HandlerError;

verus! {

/// Pairs of strings seen as pairs of character sequences.
pub open spec fn pairs_view(pairs: Seq<(String, String)>) -> Seq<(Seq<char>, Seq<char>)> {
    pairs.map_values(|p: (String, String)| (p.0@, p.1@))
}

/// The map that inserting `pairs` one after another, in order, builds: a
/// name given twice keeps the value it was given last.
pub open spec fn pairs_to_map(pairs: Seq<(Seq<char>, Seq<char>)>) -> Map<Seq<char>, Seq<char>>
    decreases pairs.len(),
{
    if pairs.len() == 0 {
        Map::empty()
    } else {
        pairs_to_map(pairs.drop_last()).insert(pairs.last().0, pairs.last().1)
    }
}

/// The (name, value) pairs that `url::form_urlencoded::parse` decodes from a
/// query string, in order.
pub uninterp spec fn form_urlencoded_pairs(query: Seq<char>) -> Seq<(Seq<char>, Seq<char>)>;

/// Decodes a query string with `url::form_urlencoded::parse` and collects the
/// pairs as owned strings. Claimed: the pairs are those that the name
/// `form_urlencoded_pairs` gives for the query, and an empty query gives none
/// (the parser stops at once on empty input).
#[verifier::external_body]
fn parse_query_pairs(query: &str) -> (pairs: Vec<(String, String)>)
    ensures
        pairs_view(pairs@) == form_urlencoded_pairs(query@),
        query@.len() == 0 ==> pairs@.len() == 0,
{
    url::form_urlencoded::parse(query.as_bytes()).into_owned().collect()
}

/// The parameters of a request's query string, as a map from names to
/// values in which a later pair overrides an earlier one of the same name.
pub struct QueryMap {
    pub pairs: Vec<(String, String)>,
}

impl View for QueryMap {
    type V = Map<Seq<char>, Seq<char>>;

    open spec fn view(&self) -> Map<Seq<char>, Seq<char>> {
        pairs_to_map(pairs_view(self.pairs@))
    }
}

/// Whether `name` is the name of some pair.
pub open spec fn has_name(pairs: Seq<(Seq<char>, Seq<char>)>, name: Seq<char>) -> bool {
    exists|i: int| 0 <= i < pairs.len() && (#[trigger] pairs[i]).0 == name
}

/// A name is in the map built from `pairs` exactly when some pair has it.
pub proof fn lemma_pairs_to_map_contains(pairs: Seq<(Seq<char>, Seq<char>)>, name: Seq<char>)
    ensures
        pairs_to_map(pairs).dom().contains(name) <==> has_name(pairs, name),
    decreases pairs.len(),
{
    if pairs.len() > 0 {
        let rest = pairs.drop_last();
        lemma_pairs_to_map_contains(rest, name);
        if has_name(rest, name) {
            let k = choose|k: int| 0 <= k < rest.len() && (#[trigger] rest[k]).0 == name;
            assert(pairs[k] == rest[k]);
        }
        if has_name(pairs, name) && pairs.last().0 != name {
            let k = choose|k: int| 0 <= k < pairs.len() && (#[trigger] pairs[k]).0 == name;
            assert(rest[k] == pairs[k]);
        }
    }
}

/// In the map built from `pairs`, a name has the value of the last pair
/// that bears it.
pub proof fn lemma_pairs_to_map_last_wins(pairs: Seq<(Seq<char>, Seq<char>)>, name: Seq<char>, i: int)
    requires
        0 <= i < pairs.len(),
        pairs[i].0 == name,
        forall|j: int| i < j < pairs.len() ==> (#[trigger] pairs[j]).0 != name,
    ensures
        pairs_to_map(pairs).dom().contains(name),
        pairs_to_map(pairs)[name] == pairs[i].1,
    decreases pairs.len(),
{
    let rest = pairs.drop_last();
    if i < pairs.len() - 1 {
        assert(pairs[pairs.len() - 1].0 != name);
        assert forall|j: int| i < j < rest.len() implies (#[trigger] rest[j]).0 != name by {
            assert(rest[j] == pairs[j]);
        }
        lemma_pairs_to_map_last_wins(rest, name, i);
    }
}

impl QueryMap {
    /// The value of the parameter `name`, if the query has one.
    pub fn get(&self, name: &str) -> (res: Option<String>)
        ensures
            res is Some <==> self@.dom().contains(name@),
            res matches Some(v) ==> v@ == self@[name@],
    {
        let key = name.to_owned();
        let ghost pairs = pairs_view(self.pairs@);
        proof {
            lemma_pairs_to_map_contains(pairs, name@);
        }
        let mut i: usize = self.pairs.len();
        while i > 0
            invariant
                i <= self.pairs.len(),
                pairs == pairs_view(self.pairs@),
                key@ == name@,
                forall|j: int| i <= j < pairs.len() ==> (#[trigger] pairs[j]).0 != name@,
            decreases i,
        {
            let pair = &self.pairs[i - 1];
            assert(pairs[i - 1] == (pair.0@, pair.1@));
            if pair.0 == key {
                proof {
                    lemma_pairs_to_map_last_wins(pairs, name@, i - 1);
                }
                return Some(pair.1.clone());
            }
            i = i - 1;
        }
        assert(!has_name(pairs, name@));
        None
    }
}

/// Reads the query string of a request into a map of its parameters;
/// `None` when the request has no query string.
pub fn get_query_map(query: Option<&str>) -> (res: Option<QueryMap>)
    ensures
        res is None <==> query is None,
        res matches Some(map) ==> pairs_view(map.pairs@) == form_urlencoded_pairs(query->0@),
        query matches Some(q) && q@.len() == 0 ==> res is Some && res->0.pairs@.len() == 0,
{
    match query {
        Some(q) => Some(QueryMap { pairs: parse_query_pairs(q) }),
        None => None,
    }
}

/// The value of the parameter `name`, or the error that names the missing
/// parameter.
pub fn get_param(map: &QueryMap, name: &str) -> (res: Result<String, HandlerError>)
    ensures
        map@.dom().contains(name@) ==> res is Ok && res->Ok_0@ == map@[name@],
        !map@.dom().contains(name@) ==> res is Err && res->Err_0@ == crate::handlers::ErrorView::MissingParam(name@),
{
    match map.get(name) {
        Some(value) => Ok(value),
        None => Err(HandlerError::MissingParam(name.to_owned())),
    }
}

} // verus!
