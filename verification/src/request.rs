//! Requests: an endpoint path and the query parameters that go with it.

use vstd::prelude::*;
use crate::query::{QueryParams, has_key, keys_unique, lookup, insert_pair, law_insert_then_lookup};
use crate::text::{int_text, bool_text, i32_text, bool_string};
use crate::types::{CalendarDate, iso_date_text};

verus! {

/// What a request asks for: the endpoint (relative to the base URL) and the
/// query parameters, if there are any.
#[derive(Debug)]
pub struct ApiRequest {
    /// The API endpoint, without the base URL
    pub endpoint: String,
    /// The query parameters (never an empty set)
    pub query: Option<QueryParams>,
}

/// The query pairs of an optional parameter set.
pub open spec fn query_pairs(query: Option<QueryParams>) -> Seq<(Seq<char>, Seq<char>)> {
    match query {
        Some(q) => q@,
        None => Seq::empty(),
    }
}

/// `endpoint` and `pairs` are what the request asks for, and the request
/// carries a parameter set exactly when there is at least one parameter.
pub open spec fn is_request(r: ApiRequest, endpoint: Seq<char>, pairs: Seq<(Seq<char>, Seq<char>)>) -> bool {
    &&& r.endpoint@ == endpoint
    &&& query_pairs(r.query) == pairs
    &&& (r.query is Some <==> pairs.len() > 0)
}

/// The pair `name=value` when there is a value, nothing otherwise.
pub open spec fn opt_pair(name: Seq<char>, value: Option<Seq<char>>) -> Seq<(Seq<char>, Seq<char>)> {
    match value {
        Some(v) => seq![(name, v)],
        None => Seq::empty(),
    }
}

/// The text of an optional string.
pub open spec fn string_text(o: Option<String>) -> Option<Seq<char>> {
    match o {
        Some(s) => Some(s@),
        None => None,
    }
}

/// The decimal text of an optional integer.
pub open spec fn i32_value_text(o: Option<i32>) -> Option<Seq<char>> {
    match o {
        Some(n) => Some(int_text(n as int)),
        None => None,
    }
}

/// The text of an optional boolean.
pub open spec fn bool_value_text(o: Option<bool>) -> Option<Seq<char>> {
    match o {
        Some(b) => Some(bool_text(b)),
        None => None,
    }
}

/// The `YYYY-MM-DD` text of an optional date.
pub open spec fn date_value_text(o: Option<CalendarDate>) -> Option<Seq<char>> {
    match o {
        Some(d) => Some(iso_date_text(d.spec_year(), d.spec_month(), d.spec_day())),
        None => None,
    }
}

/// Decimal text of an optional integer.
pub(crate) fn i32_value(o: Option<i32>) -> (r: Option<String>)
    ensures
        string_text(r) == i32_value_text(o),
{
    match o {
        Some(n) => Some(i32_text(n)),
        None => None,
    }
}

/// Text of an optional boolean.
pub(crate) fn bool_value(o: Option<bool>) -> (r: Option<String>)
    ensures
        string_text(r) == bool_value_text(o),
{
    match o {
        Some(b) => Some(bool_string(b)),
        None => None,
    }
}

/// `YYYY-MM-DD` text of an optional date.
pub(crate) fn date_value(o: Option<CalendarDate>) -> (r: Option<String>)
    ensures
        string_text(r) == date_value_text(o),
{
    match o {
        Some(d) => Some(d.iso_text()),
        None => None,
    }
}

/// The query of a list of named fields: a pair for each field that has a
/// value, in the order of the fields.
pub open spec fn fields_pairs(fields: Seq<(Seq<char>, Option<Seq<char>>)>) -> Seq<
    (Seq<char>, Seq<char>),
>
    decreases fields.len(),
{
    if fields.len() == 0 {
        Seq::empty()
    } else {
        fields_pairs(fields.drop_last()) + opt_pair(fields.last().0, fields.last().1)
    }
}

/// Adding a field at the end adds its pair (if it has a value) at the end
/// of the query.
pub broadcast proof fn lemma_fields_push(
    fields: Seq<(Seq<char>, Option<Seq<char>>)>,
    field: (Seq<char>, Option<Seq<char>>),
)
    ensures
        #[trigger] fields_pairs(fields.push(field)) == fields_pairs(fields) + opt_pair(
            field.0,
            field.1,
        ),
{
    assert(fields.push(field).drop_last() =~= fields);
}

/// A single optional pair reads back as its value under its name, and any
/// other name is absent.
pub proof fn lemma_opt_pair_lookup(name: Seq<char>, value: Option<Seq<char>>, k: Seq<char>)
    ensures
        lookup(opt_pair(name, value), name) == value,
        k != name ==> lookup(opt_pair(name, value), k) is None,
{
    let s = opt_pair(name, value);
    if value is Some {
        assert(s[0].0 == name);
        assert(has_key(s, name));
    }
    if has_key(s, k) {
        let i = choose|i: int| 0 <= i < s.len() && #[trigger] s[i].0 == k;
        assert(i == 0);
    }
}

/// No two fields have the same name.
pub open spec fn names_distinct(fields: Seq<(Seq<char>, Option<Seq<char>>)>) -> bool {
    forall|i: int, j: int|
        0 <= i < fields.len() && 0 <= j < fields.len() && i != j ==> #[trigger] fields[i].0
            != #[trigger] fields[j].0
}

/// In the query of fields with distinct names, each name reads back as the
/// value of its field (nothing when the field has none), a name of no field
/// is absent, and no name occurs twice.
pub proof fn lemma_fields_lookup(fields: Seq<(Seq<char>, Option<Seq<char>>)>, k: Seq<char>)
    requires
        names_distinct(fields),
    ensures
        keys_unique(fields_pairs(fields)),
        forall|i: int|
            0 <= i < fields.len() && #[trigger] fields[i].0 == k ==> lookup(fields_pairs(fields), k)
                == fields[i].1,
        (forall|i: int| 0 <= i < fields.len() ==> #[trigger] fields[i].0 != k) ==> lookup(
            fields_pairs(fields),
            k,
        ) is None,
    decreases fields.len(),
{
    if fields.len() == 0 {
        assert(!has_key(fields_pairs(fields), k));
    } else {
        let g = fields.drop_last();
        let last = fields.last();
        let n = last.0;
        let s = fields_pairs(g);
        assert(names_distinct(g)) by {
            assert forall|i: int, j: int|
                0 <= i < g.len() && 0 <= j < g.len() && i != j implies #[trigger] g[i].0
                    != #[trigger] g[j].0 by {
                assert(g[i] == fields[i] && g[j] == fields[j]);
            }
        }
        lemma_fields_lookup(g, k);
        lemma_fields_lookup(g, n);
        assert forall|i: int| 0 <= i < g.len() implies #[trigger] g[i].0 != n by {
            assert(g[i] == fields[i]);
            assert(fields[fields.len() - 1] == last);
        }
        assert(!has_key(s, n));
        match last.1 {
            Some(x) => {
                assert(fields_pairs(fields) =~= insert_pair(s, n, x));
                law_insert_then_lookup(s, n, x, k);
            },
            None => {
                assert(fields_pairs(fields) =~= s);
            },
        }
        assert forall|i: int|
            0 <= i < fields.len() && #[trigger] fields[i].0 == k implies lookup(
                fields_pairs(fields),
                k,
            ) == fields[i].1 by {
            if i < fields.len() - 1 {
                assert(g[i] == fields[i]);
                assert(fields[fields.len() - 1] == last);
            }
        }
        if forall|i: int| 0 <= i < fields.len() ==> #[trigger] fields[i].0 != k {
            assert forall|i: int| 0 <= i < g.len() implies #[trigger] g[i].0 != k by {
                assert(g[i] == fields[i]);
            }
            assert(fields[fields.len() - 1] == last);
        }
    }
}

/// Every pair of `s` is named by one of `names`.
pub open spec fn named_among(s: Seq<(Seq<char>, Seq<char>)>, names: Seq<Seq<char>>) -> bool {
    forall|i: int| 0 <= i < s.len() ==> names.contains(#[trigger] s[i].0)
}

/// A name that differs from each of `names` in its length or its first
/// character is not among them.
pub(crate) proof fn lemma_fresh_name(names: Seq<Seq<char>>, name: Seq<char>)
    requires
        name.len() > 0,
        forall|j: int|
            0 <= j < names.len() ==> (#[trigger] names[j]).len() != name.len() || (names[j].len()
                > 0 && names[j][0] != name[0]),
    ensures
        !names.contains(name),
{
    if names.contains(name) {
        let j = choose|j: int| 0 <= j < names.len() && names[j] == name;
        assert(names[j].len() == name.len());
    }
}

/// Sets the parameter `name` when there is a value for it; `name` is not yet
/// among the parameters, so the pair goes to the end.
pub(crate) fn put_param(
    q: &mut QueryParams,
    name: &str,
    value: Option<String>,
    Ghost(names): Ghost<Seq<Seq<char>>>,
)
    requires
        named_among(old(q)@, names),
        !names.contains(name@),
    ensures
        final(q)@ == old(q)@ + opt_pair(name@, string_text(value)),
        named_among(final(q)@, names.push(name@)),
{
    let ghost before = q@;
    match value {
        Some(v) => {
            assert(!has_key(before, name@)) by {
                if has_key(before, name@) {
                    let i = choose|i: int| 0 <= i < before.len() && #[trigger] before[i].0 == name@;
                    assert(names.contains(before[i].0));
                }
            }
            q.insert(String::from_str(name), v);
            assert(q@ =~= before + opt_pair(name@, string_text(Some(v))));
        },
        None => {
            assert(q@ =~= before + opt_pair(name@, string_text(None)));
        },
    }
    assert forall|i: int| 0 <= i < q@.len() implies names.push(name@).contains(#[trigger] q@[i].0) by {
        if i < before.len() {
            assert(names.contains(before[i].0));
            let j = choose|j: int| 0 <= j < names.len() && names[j] == before[i].0;
            assert(names.push(name@)[j] == before[i].0);
        } else {
            assert(names.push(name@)[names.len() as int] == name@);
        }
    }
}

/// Makes a request for `endpoint` with the parameters of `q` (none when `q`
/// is empty).
pub(crate) fn make_request(endpoint: String, q: QueryParams) -> (r: ApiRequest)
    ensures
        is_request(r, endpoint@, q@),
{
    if q.is_empty() {
        assert(q@ =~= Seq::<(Seq<char>, Seq<char>)>::empty());
        ApiRequest { endpoint, query: None }
    } else {
        ApiRequest { endpoint, query: Some(q) }
    }
}

} // verus!
