//! Query parameters grouped by name, as echoed back by the request-echo
//! route.
use indexmap::IndexMap;
use vstd::prelude::*;

verus! {

#[verifier::external_type_specification]
#[verifier::external_body]
#[verifier::reject_recursive_types(K)]
#[verifier::reject_recursive_types(V)]
#[verifier::reject_recursive_types(S)]
pub struct ExIndexMap<K, V, S>(IndexMap<K, V, S>);

/// The values given for one query parameter name.
#[derive(Debug)]
pub enum QueryParameterValue {
    /// The name was given once.
    One(String),
    /// The name was given more than once; every value, in order.
    Many(Vec<String>),
}

/// What a [`QueryParameterValue`] holds.
pub enum ParamValues {
    One(Seq<char>),
    Many(Seq<Seq<char>>),
}

impl View for QueryParameterValue {
    type V = ParamValues;

    open spec fn view(&self) -> ParamValues {
        match self {
            QueryParameterValue::One(s) => ParamValues::One(s@),
            QueryParameterValue::Many(v) => ParamValues::Many(v@.map_values(|s: String| s@)),
        }
    }
}

/// The entries of a map of grouped parameters, in order: each name with
/// its values.
pub uninterp spec fn query_entries(m: IndexMap<String, QueryParameterValue>) -> Seq<
    (Seq<char>, ParamValues),
>;

/// Relies on `IndexMap::new`: a map with no entries.
#[verifier::external_body]
fn new_query_map() -> (r: IndexMap<String, QueryParameterValue>)
    ensures
        query_entries(r) == Seq::<(Seq<char>, ParamValues)>::empty(),
{
    IndexMap::new()
}

/// Relies on `IndexMap::get_index_of`: the position of the entry with the
/// key, if there is one.
#[verifier::external_body]
fn position_of(m: &IndexMap<String, QueryParameterValue>, key: &String) -> (r: Option<usize>)
    ensures
        r matches Some(i) ==> i < query_entries(*m).len() && query_entries(*m)[i as int].0 == key@,
        r is None ==> forall|i: int|
            0 <= i < query_entries(*m).len() ==> (#[trigger] query_entries(*m)[i]).0 != key@,
{
    m.get_index_of(key)
}

/// Relies on `IndexMap::insert` of a key that is not in the map: the new
/// entry goes last.
#[verifier::external_body]
fn insert_last(
    m: &mut IndexMap<String, QueryParameterValue>,
    key: String,
    value: QueryParameterValue,
)
    requires
        forall|i: int|
            0 <= i < query_entries(*old(m)).len() ==> (#[trigger] query_entries(*old(m))[i]).0
                != key@,
    ensures
        query_entries(*final(m)) == query_entries(*old(m)).push((key@, value@)),
{
    m.insert(key, value);
}

/// Relies on `IndexMap`'s `IndexMut<usize>`, through `std::mem::replace`: the
/// value at the position is swapped for `value` and handed back; keys and
/// order stay.
#[verifier::external_body]
fn replace_at(
    m: &mut IndexMap<String, QueryParameterValue>,
    i: usize,
    value: QueryParameterValue,
) -> (r: QueryParameterValue)
    requires
        i < query_entries(*old(m)).len(),
    ensures
        r@ == query_entries(*old(m))[i as int].1,
        query_entries(*final(m)) == query_entries(*old(m)).update(
            i as int,
            (query_entries(*old(m))[i as int].0, value@),
        ),
{
    std::mem::replace(&mut m[i], value)
}

/// No name occurs twice among the entries.
pub open spec fn names_unique(entries: Seq<(Seq<char>, ParamValues)>) -> bool {
    forall|a: int, b: int| 0 <= a < b < entries.len() ==> entries[a].0 != entries[b].0
}

/// Position of the entry named `name`, or -1 when there is none.
pub open spec fn name_position(entries: Seq<(Seq<char>, ParamValues)>, name: Seq<char>) -> int
    decreases entries.len(),
{
    if entries.len() == 0 {
        -1
    } else if entries.last().0 == name {
        entries.len() - 1
    } else {
        name_position(entries.drop_last(), name)
    }
}

/// The values after one more value `x`.
pub open spec fn with_value(v: ParamValues, x: Seq<char>) -> ParamValues {
    match v {
        ParamValues::One(a) => ParamValues::Many(seq![a, x]),
        ParamValues::Many(xs) => ParamValues::Many(xs.push(x)),
    }
}

/// Parameters grouped by name: the names in the order in which each first
/// occurs, each with all of its values in order, and a name given once with
/// its one value.
pub open spec fn grouped(params: Seq<(Seq<char>, Seq<char>)>) -> Seq<(Seq<char>, ParamValues)>
    decreases params.len(),
{
    if params.len() == 0 {
        seq![]
    } else {
        let prev = grouped(params.drop_last());
        let name = params.last().0;
        let value = params.last().1;
        let pos = name_position(prev, name);
        if pos < 0 {
            prev.push((name, ParamValues::One(value)))
        } else {
            prev.update(pos, (name, with_value(prev[pos].1, value)))
        }
    }
}

proof fn lemma_name_absent(entries: Seq<(Seq<char>, ParamValues)>, name: Seq<char>)
    requires
        forall|i: int| 0 <= i < entries.len() ==> (#[trigger] entries[i]).0 != name,
    ensures
        name_position(entries, name) == -1,
    decreases entries.len(),
{
    if entries.len() > 0 {
        lemma_name_absent(entries.drop_last(), name);
    }
}

proof fn lemma_name_at(entries: Seq<(Seq<char>, ParamValues)>, name: Seq<char>, i: int)
    requires
        names_unique(entries),
        0 <= i < entries.len(),
        entries[i].0 == name,
    ensures
        name_position(entries, name) == i,
    decreases entries.len(),
{
    if i < entries.len() - 1 {
        lemma_name_at(entries.drop_last(), name, i);
    }
}

/// The views of name-value pairs.
pub open spec fn pair_views(params: Seq<(String, String)>) -> Seq<(Seq<char>, Seq<char>)> {
    params.map_values(|p: (String, String)| (p.0@, p.1@))
}

/// Groups query parameters by name, keeping the order in which each name
/// first occurs and the order of each name's values.
pub fn group_query_parameters(params: Vec<(String, String)>) -> (r: IndexMap<
    String,
    QueryParameterValue,
>)
    ensures
        query_entries(r) == grouped(pair_views(params@)),
        names_unique(query_entries(r)),
{
    let ghost pv = pair_views(params@);
    let mut acc = new_query_map();
    let n = params.len();
    let mut i: usize = 0;
    while i < n
        invariant
            n == params@.len(),
            i <= n,
            pv == pair_views(params@),
            query_entries(acc) == grouped(pv.take(i as int)),
            names_unique(query_entries(acc)),
        decreases n - i,
    {
        let name = params[i].0.clone();
        let value = params[i].1.clone();
        let ghost prev = query_entries(acc);
        assert(pv.take(i + 1).drop_last() =~= pv.take(i as int));
        assert(pv.take(i + 1).last() == pv[i as int]);
        match position_of(&acc, &name) {
            None => {
                proof {
                    lemma_name_absent(prev, name@);
                }
                insert_last(&mut acc, name, QueryParameterValue::One(value));
            },
            Some(pos) => {
                proof {
                    lemma_name_at(prev, name@, pos as int);
                }
                let previous = replace_at(&mut acc, pos, QueryParameterValue::One(String::new()));
                let next = match previous {
                    QueryParameterValue::One(first) => {
                        let mut values: Vec<String> = Vec::new();
                        values.push(first);
                        values.push(value);
                        assert(values@.map_values(|s: String| s@) =~= seq![
                            values@[0]@,
                            values@[1]@,
                        ]);
                        QueryParameterValue::Many(values)
                    },
                    QueryParameterValue::Many(values) => {
                        let ghost old_values = values@;
                        let mut values = values;
                        values.push(value);
                        assert(values@.map_values(|s: String| s@) =~= old_values.map_values(
                            |s: String| s@,
                        ).push(value@));
                        QueryParameterValue::Many(values)
                    },
                };
                replace_at(&mut acc, pos, next);
                assert(query_entries(acc) =~= prev.update(
                    pos as int,
                    (name@, with_value(prev[pos as int].1, value@)),
                ));
            },
        }
        i = i + 1;
    }
    assert(pv.take(n as int) =~= pv);
    acc
}

} // verus!
