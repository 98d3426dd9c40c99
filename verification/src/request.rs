//! Construction of REST requests to the Financial Modeling Prep API: the
//! parameters of a call and the URL that carries them.

use vstd::prelude::*;
use crate::json::{JsonScalar, ScalarView, decimal_string, int_text};
use crate::text::{
    ascii_text, ascii_upper, chars_of, compare_text, key_lt, join_text, spec_to_uppercase, to_uppercase,
    TextOrder,
    lemma_key_lt_transitive, lemma_key_lt_irreflexive,
};

verus! {

/// The base URL of the Financial Modeling Prep REST API.
pub const BASE_URL: &'static str = "https://financialmodelingprep.com/api/v3/";

/// The path parameter of a call: one value, or a list of values.
#[derive(Debug, Clone)]
pub enum PathParam {
    Single(String),
    Many(Vec<String>),
}

/// The mathematical value of a `PathParam`.
pub enum PathView {
    Single(Seq<char>),
    Many(Seq<Seq<char>>),
}

impl View for PathParam {
    type V = PathView;

    open spec fn view(&self) -> PathView {
        match self {
            PathParam::Single(s) => PathView::Single(s@),
            PathParam::Many(v) => PathView::Many(v.deep_view()),
        }
    }
}

/// The entries of a query object, as key and value.
pub type QueryView = Seq<(Seq<char>, ScalarView)>;

/// Whether the keys of a query object strictly increase: the order in which
/// a JSON object lists its entries.
pub open spec fn keys_sorted(q: QueryView) -> bool {
    forall|i: int, j: int| 0 <= i < j < q.len() ==> key_lt(#[trigger] q[i].0, #[trigger] q[j].0)
}

/// `after` is `before` with `key` set to `value`: it keeps its keys in
/// order, holds the new entry, and holds every earlier entry of another key.
pub open spec fn inserted(before: QueryView, after: QueryView, key: Seq<char>, value: ScalarView) -> bool {
    &&& keys_sorted(after)
    &&& forall|e: (Seq<char>, ScalarView)|
        #![trigger after.contains(e)]
        after.contains(e) <==> (e == (key, value) || (before.contains(e) && e.0 != key))
}

/// The entries of a query object determine the order in which it lists
/// them: two key-ordered lists of the same entries are equal.
pub proof fn lemma_sorted_entries_determined(a: QueryView, b: QueryView)
    requires
        keys_sorted(a),
        keys_sorted(b),
        forall|e: (Seq<char>, ScalarView)| a.contains(e) <==> b.contains(e),
    ensures
        a == b,
    decreases a.len(),
{
    if a.len() == 0 {
        if b.len() > 0 {
            assert(b.contains(b[0]));
        }
        assert(a =~= b);
    } else {
        assert(a.contains(a[0]));
        assert(b.len() > 0);
        assert(b.contains(b[0]));
        let j = choose|j: int| 0 <= j < b.len() && b[j] == a[0];
        let i = choose|i: int| 0 <= i < a.len() && a[i] == b[0];
        if j > 0 {
            assert(key_lt(b[0].0, b[j].0));
            if i > 0 {
                assert(key_lt(a[0].0, a[i].0));
                lemma_key_lt_transitive(a[0].0, b[0].0, a[0].0);
                lemma_key_lt_irreflexive(a[0].0);
            } else {
                lemma_key_lt_irreflexive(a[0].0);
            }
        }
        assert(a[0] == b[0]);
        let ta = a.drop_first();
        let tb = b.drop_first();
        assert forall|k: int, m: int| 0 <= k < m < ta.len() implies key_lt(
            #[trigger] ta[k].0,
            #[trigger] ta[m].0,
        ) by {
            assert(key_lt(a[k + 1].0, a[m + 1].0));
        }
        assert forall|k: int, m: int| 0 <= k < m < tb.len() implies key_lt(
            #[trigger] tb[k].0,
            #[trigger] tb[m].0,
        ) by {
            assert(key_lt(b[k + 1].0, b[m + 1].0));
        }
        assert forall|e: (Seq<char>, ScalarView)| ta.contains(e) <==> tb.contains(e) by {
            if ta.contains(e) {
                let k = choose|k: int| 0 <= k < ta.len() && ta[k] == e;
                assert(a[k + 1] == e);
                assert(a.contains(e));
                let m = choose|m: int| 0 <= m < b.len() && b[m] == e;
                if m == 0 {
                    assert(key_lt(a[0].0, a[k + 1].0));
                    lemma_key_lt_irreflexive(a[0].0);
                }
                assert(tb[m - 1] == e);
            }
            if tb.contains(e) {
                let k = choose|k: int| 0 <= k < tb.len() && tb[k] == e;
                assert(b[k + 1] == e);
                assert(b.contains(e));
                let m = choose|m: int| 0 <= m < a.len() && a[m] == e;
                if m == 0 {
                    assert(key_lt(b[0].0, b[k + 1].0));
                    lemma_key_lt_irreflexive(b[0].0);
                }
                assert(ta[m - 1] == e);
            }
        }
        lemma_sorted_entries_determined(ta, tb);
        assert(a =~= seq![a[0]] + ta);
        assert(b =~= seq![b[0]] + tb);
    }
}

/// Setting a key is deterministic: the same object with the same key set to
/// the same value gives the same entries in the same order.
pub proof fn lemma_insert_deterministic(q: QueryView, a: QueryView, b: QueryView, key: Seq<char>, value: ScalarView)
    requires
        inserted(q, a, key, value),
        inserted(q, b, key, value),
    ensures
        a == b,
{
    assert forall|e: (Seq<char>, ScalarView)| a.contains(e) <==> b.contains(e) by {}
    lemma_sorted_entries_determined(a, b);
}

/// Setting a key twice keeps only the second value.
pub proof fn lemma_insert_overwrites(
    q0: QueryView,
    q1: QueryView,
    q2: QueryView,
    key: Seq<char>,
    v1: ScalarView,
    v2: ScalarView,
)
    requires
        inserted(q0, q1, key, v1),
        inserted(q1, q2, key, v2),
    ensures
        inserted(q0, q2, key, v2),
{
}

/// Setting two different keys gives the same object in either order.
pub proof fn lemma_insert_commutes(
    q0: QueryView,
    q1: QueryView,
    q2: QueryView,
    q3: QueryView,
    q4: QueryView,
    k1: Seq<char>,
    v1: ScalarView,
    k2: Seq<char>,
    v2: ScalarView,
)
    requires
        k1 != k2,
        inserted(q0, q1, k1, v1),
        inserted(q1, q2, k2, v2),
        inserted(q0, q3, k2, v2),
        inserted(q3, q4, k1, v1),
    ensures
        q2 == q4,
{
    assert forall|e: (Seq<char>, ScalarView)| q2.contains(e) <==> q4.contains(e) by {}
    lemma_sorted_entries_determined(q2, q4);
}

/// The query parameters of a call: a JSON object, whose entries are kept in
/// key order with each key present once.
#[derive(Debug)]
pub struct QueryParams {
    entries: Vec<(String, JsonScalar)>,
}

impl View for QueryParams {
    type V = QueryView;

    closed spec fn view(&self) -> QueryView {
        self.entries@.map_values(|e: (String, JsonScalar)| (e.0@, e.1@))
    }
}

impl QueryParams {
    /// An object holding `entries`, which already list their keys in order.
    pub(crate) fn from_sorted(entries: Vec<(String, JsonScalar)>) -> (q: QueryParams)
        requires
            keys_sorted(entries@.map_values(|e: (String, JsonScalar)| (e.0@, e.1@))),
        ensures
            q@ == entries@.map_values(|e: (String, JsonScalar)| (e.0@, e.1@)),
    {
        QueryParams { entries }
    }

    #[verifier::type_invariant]
    spec fn sorted(self) -> bool {
        keys_sorted(self@)
    }

    /// An object with no entries.
    pub fn new() -> (q: QueryParams)
        ensures
            q@ == Seq::<(Seq<char>, ScalarView)>::empty(),
    {
        let q = QueryParams { entries: Vec::new() };
        assert(q@ =~= Seq::<(Seq<char>, ScalarView)>::empty());
        q
    }

    /// The entries, in key order.
    pub fn entries(&self) -> (r: &Vec<(String, JsonScalar)>)
        ensures
            r@.map_values(|e: (String, JsonScalar)| (e.0@, e.1@)) == self@,
            keys_sorted(self@),
    {
        proof {
            use_type_invariant(self);
        }
        &self.entries
    }

    /// Sets `key` to `value`, replacing an earlier value of `key`.
    pub fn insert(&mut self, key: String, value: JsonScalar)
        ensures
            inserted(old(self)@, final(self)@, key@, value@),
    {
        proof {
            use_type_invariant(&*self);
        }
        let ghost before = self@;
        let mut entries: Vec<(String, JsonScalar)> = Vec::new();
        std::mem::swap(&mut entries, &mut self.entries);
        assert(entries@.map_values(|e: (String, JsonScalar)| (e.0@, e.1@)) == before);
        let k = chars_of(key.as_str());
        let mut p: usize = 0;
        let mut found = false;
        let mut passed = false;
        while p < entries.len() && !found && !passed
            invariant
                k@ == key@,
                p <= entries.len(),
                entries@.map_values(|e: (String, JsonScalar)| (e.0@, e.1@)) == before,
                keys_sorted(before),
                forall|j: int| 0 <= j < p ==> key_lt(#[trigger] before[j].0, key@),
                found ==> p < entries.len() && before[p as int].0 == key@,
                passed ==> p < entries.len() && key_lt(key@, before[p as int].0),
                !(found && passed),
            decreases entries.len() - p + (if found || passed { 0int } else { 1int }),
        {
            let ek = chars_of(entries[p].0.as_str());
            assert(before[p as int].0 == entries@[p as int].0@);
            match compare_text(&ek, &k) {
                TextOrder::Before => {
                    p = p + 1;
                },
                TextOrder::Same => {
                    found = true;
                },
                TextOrder::After => {
                    passed = true;
                },
            }
        }
        let ghost mid = p as int;
        if found {
            entries.remove(p);
        }
        entries.insert(p, (key, value));
        let ghost after = entries@.map_values(|e: (String, JsonScalar)| (e.0@, e.1@));
        proof {
            let kv = (key@, value@);
            if found {
                assert(after =~= before.update(mid, kv));
            } else {
                assert(after =~= before.insert(mid, kv));
                assert forall|j: int| mid <= j < before.len() implies key_lt(
                    key@,
                    #[trigger] before[j].0,
                ) by {
                    if j > mid {
                        assert(passed);
                        assert(key_lt(before[mid].0, before[j].0));
                        lemma_key_lt_transitive(key@, before[mid].0, before[j].0);
                    }
                }
            }
            assert forall|i: int, j: int| 0 <= i < j < after.len() implies key_lt(
                #[trigger] after[i].0,
                #[trigger] after[j].0,
            ) by {
                if found {
                    if i == mid {
                        assert(key_lt(before[i].0, before[j].0));
                    } else if j == mid {
                        assert(key_lt(before[i].0, before[j].0));
                    } else {
                        assert(key_lt(before[i].0, before[j].0));
                    }
                } else {
                    if j < mid {
                        assert(key_lt(before[i].0, before[j].0));
                    } else if i > mid {
                        assert(key_lt(before[i - 1].0, before[j - 1].0));
                    } else if i == mid {
                        assert(key_lt(key@, before[j - 1].0));
                    } else {
                        assert(key_lt(before[i].0, key@));
                    }
                }
            }
            assert forall|e: (Seq<char>, ScalarView)|
                #![trigger after.contains(e)]
                after.contains(e) <==> (e == kv || (before.contains(e) && e.0 != key@)) by {
                if after.contains(e) {
                    let i = choose|i: int| 0 <= i < after.len() && after[i] == e;
                    if e != kv {
                        if found {
                            assert(before[i] == e);
                            if i < mid {
                                assert(key_lt(before[i].0, key@));
                                lemma_key_lt_irreflexive(key@);
                            } else if i > mid {
                                assert(key_lt(before[mid].0, before[i].0));
                                lemma_key_lt_irreflexive(key@);
                            }
                        } else {
                            if i < mid {
                                assert(before[i] == e);
                                assert(key_lt(before[i].0, key@));
                                lemma_key_lt_irreflexive(key@);
                            } else {
                                assert(before[i - 1] == e);
                                assert(key_lt(key@, before[i - 1].0));
                                lemma_key_lt_irreflexive(key@);
                            }
                        }
                    }
                }
                if e == kv {
                    assert(after[mid] == kv);
                } else if before.contains(e) && e.0 != key@ {
                    let i = choose|i: int| 0 <= i < before.len() && before[i] == e;
                    if found {
                        assert(i != mid);
                        assert(after[i] == e);
                    } else if i < mid {
                        assert(after[i] == e);
                    } else {
                        assert(after[i + 1] == e);
                    }
                }
            }
        }
        self.entries = entries;
    }
}

/// The parameters of a call: an optional path parameter and an optional
/// query object.
#[derive(Debug)]
pub struct RequestParams {
    pub path: Option<PathParam>,
    pub query: Option<QueryParams>,
}

/// The mathematical value of `RequestParams`.
pub struct RequestParamsView {
    pub path: Option<PathView>,
    pub query: Option<QueryView>,
}

impl View for RequestParams {
    type V = RequestParamsView;

    open spec fn view(&self) -> RequestParamsView {
        RequestParamsView {
            path: match self.path {
                Some(p) => Some(p@),
                None => None,
            },
            query: match self.query {
                Some(q) => Some(q@),
                None => None,
            },
        }
    }
}

impl RequestParams {
    /// Parameters with neither a path nor a query.
    pub fn new() -> (r: RequestParams)
        ensures
            r@.path is None,
            r@.query is None,
    {
        RequestParams { path: None, query: None }
    }
}

/// Gathers the path and query parameters of a call: the path is always
/// present, the query only when given.
pub fn generate_json(path_param: PathParam, query_param: Option<QueryParams>) -> (r: RequestParams)
    ensures
        r@.path == Some(path_param@),
        r@.query == (match query_param {
            Some(q) => Some(q@),
            None => None::<QueryView>,
        }),
{
    RequestParams { path: Some(path_param), query: query_param }
}

/// The text of a path parameter before it is uppercased: the text of a
/// single value, or the texts of a list joined by commas.
pub open spec fn path_text(p: PathView) -> Seq<char> {
    match p {
        PathView::Single(s) => s,
        PathView::Many(v) => join_text(v, seq![',']),
    }
}

/// A single path value enters as its text; a list enters one value at a
/// time: none give nothing, one gives its text, and each further value
/// follows the ones before it after exactly one comma.
pub proof fn lemma_path_text_grows(values: Seq<Seq<char>>, x: Seq<char>)
    ensures
        path_text(PathView::Single(x)) == x,
        path_text(PathView::Many(Seq::empty())) == Seq::<char>::empty(),
        path_text(PathView::Many(seq![x])) == x,
        values.len() > 0 ==> path_text(PathView::Many(values.push(x))) == path_text(
            PathView::Many(values),
        ) + seq![','] + x,
{
    if values.len() > 0 {
        assert(values.push(x).drop_last() =~= values);
    }
}

/// How a query value is written in a URL: a text as it is, an integer in
/// decimal. A null value is never written.
pub open spec fn query_value_text(v: ScalarView) -> Seq<char> {
    match v {
        ScalarView::Text(s) => s,
        ScalarView::Int(n) => int_text(n),
        ScalarView::Null => Seq::empty(),
    }
}

/// The `key=value` items of a query object, in key order, skipping null
/// values.
pub open spec fn query_items(q: QueryView) -> Seq<Seq<char>>
    decreases q.len(),
{
    if q.len() == 0 {
        Seq::empty()
    } else {
        let rest = query_items(q.drop_last());
        let last = q.last();
        if last.1 is Null {
            rest
        } else {
            rest.push(last.0 + seq!['='] + query_value_text(last.1))
        }
    }
}

/// The query string of a query object.
pub open spec fn query_text(q: QueryView) -> Seq<char> {
    join_text(query_items(q), seq!['&'])
}

/// The URL of a call to `url_path` with `params`, authenticated by `api_key`.
pub open spec fn url_text(url_path: Seq<char>, params: RequestParamsView, api_key: Seq<char>) -> Seq<char> {
    let base = BASE_URL@ + url_path;
    let with_path = match params.path {
        Some(p) => base + seq!['/'] + spec_to_uppercase(path_text(p)),
        None => base,
    };
    let qs = match params.query {
        Some(q) => query_text(q),
        None => Seq::empty(),
    };
    let with_query = if qs.len() > 0 {
        with_path + seq!['?'] + qs + seq!['&']
    } else {
        with_path + seq!['?']
    };
    with_query + "apikey="@ + api_key
}

/// Every URL starts with the base URL and the endpoint path, and ends with
/// the API key; when the query holds no value, the key follows a `?`
/// directly after the path part.
pub proof fn lemma_url_shape(url_path: Seq<char>, params: RequestParamsView, api_key: Seq<char>)
    ensures
        ({
            let u = url_text(url_path, params, api_key);
            let head = BASE_URL@ + url_path;
            let tail = "apikey="@ + api_key;
            &&& u.len() >= head.len() + tail.len()
            &&& u.take(head.len() as int) == head
            &&& u.skip(u.len() - tail.len()) == tail
        }),
        (match params.query {
            Some(q) => query_items(q).len() == 0,
            None => true,
        }) ==> url_text(url_path, params, api_key) == (match params.path {
            Some(p) => BASE_URL@ + url_path + seq!['/'] + spec_to_uppercase(path_text(p)),
            None => BASE_URL@ + url_path,
        }) + seq!['?'] + "apikey="@ + api_key,
{
    let u = url_text(url_path, params, api_key);
    let head = BASE_URL@ + url_path;
    let tail = "apikey="@ + api_key;
    let with_path = match params.path {
        Some(p) => head + seq!['/'] + spec_to_uppercase(path_text(p)),
        None => head,
    };
    let qs = match params.query {
        Some(q) => query_text(q),
        None => Seq::empty(),
    };
    let mid = if qs.len() > 0 {
        seq!['?'] + qs + seq!['&']
    } else {
        seq!['?']
    };
    let rest = match params.path {
        Some(p) => seq!['/'] + spec_to_uppercase(path_text(p)),
        None => Seq::empty(),
    };
    assert(with_path =~= head + rest);
    assert(u =~= head + (rest + mid) + tail);
    assert(u.take(head.len() as int) =~= head);
    assert(u.skip(u.len() - tail.len()) =~= tail);
    match params.query {
        Some(q) => {
            if query_items(q).len() == 0 {
                assert(qs.len() == 0);
            }
        },
        None => {},
    }
}

/// The text of a path parameter before it is uppercased.
fn path_string(p: &PathParam) -> (r: String)
    ensures
        r@ == path_text(p@),
{
    match p {
        PathParam::Single(s) => s.clone(),
        PathParam::Many(v) => {
            let ghost parts = v.deep_view();
            let mut r = String::new();
            let mut i: usize = 0;
            while i < v.len()
                invariant
                    i <= v.len(),
                    parts == v.deep_view(),
                    r@ == join_text(parts.take(i as int), seq![',']),
                decreases v.len() - i,
            {
                assert(parts[i as int] == v@[i as int]@);
                if i > 0 {
                    r.append(",");
                }
                proof {
                    reveal_strlit(",");
                }
                r.append(v[i].as_str());
                proof {
                    let t = parts.take(i + 1);
                    assert(t.drop_last() =~= parts.take(i as int));
                    assert(t.last() == parts[i as int]);
                    if i == 0 {
                        assert(parts.take(0) =~= Seq::<Seq<char>>::empty());
                        assert(r@ =~= v@[i as int]@);
                    } else {
                        assert(r@ =~= join_text(parts.take(i as int), seq![',']) + seq![','] + v@[i as int]@);
                    }
                }
                i = i + 1;
            }
            assert(parts.take(v.len() as int) =~= parts);
            r
        },
    }
}

/// How a non-null query value is written in a URL.
fn query_value_string(v: &JsonScalar) -> (r: String)
    ensures
        r@ == query_value_text(v@),
{
    match v {
        JsonScalar::Text(t) => t.clone(),
        JsonScalar::Int(n) => decimal_string(*n as i64),
        JsonScalar::Null => String::new(),
    }
}

/// The query string of a query object.
fn query_string(q: &QueryParams) -> (r: String)
    ensures
        r@ == query_text(q@),
{
    let entries = q.entries();
    let ghost view = q@;
    let mut r = String::new();
    let mut any = false;
    let mut i: usize = 0;
    while i < entries.len()
        invariant
            i <= entries.len(),
            entries@.map_values(|e: (String, JsonScalar)| (e.0@, e.1@)) == view,
            r@ == join_text(query_items(view.take(i as int)), seq!['&']),
            any == (query_items(view.take(i as int)).len() > 0),
        decreases entries.len() - i,
    {
        let ghost before_items = query_items(view.take(i as int));
        assert(view.take(i + 1).drop_last() =~= view.take(i as int));
        assert(view.take(i + 1).last() == view[i as int]);
        assert(view[i as int] == (entries@[i as int].0@, entries@[i as int].1@));
        match &entries[i].1 {
            JsonScalar::Null => {},
            _ => {
                let value = query_value_string(&entries[i].1);
                let ghost item = entries@[i as int].0@ + seq!['='] + value@;
                if any {
                    r.append("&");
                }
                any = true;
                r.append(entries[i].0.as_str());
                r.append("=");
                r.append(value.as_str());
                proof {
                    reveal_strlit("&");
                    reveal_strlit("=");
                    let items = before_items.push(item);
                    if before_items.len() == 0 {
                        assert(r@ =~= item);
                    } else {
                        assert(items.drop_last() =~= before_items);
                        assert(r@ =~= join_text(before_items, seq!['&']) + seq!['&'] + item);
                    }
                }
            },
        }
        i = i + 1;
    }
    assert(view.take(entries.len() as int) =~= view);
    r
}

/// Builds the URL of a call: the base URL and `url_path`, then the
/// uppercased path parameter after a `/` (a list's values joined by commas),
/// then `?` with the `key=value` items of the query's non-null values,
/// joined by `&` and followed by `&`, or `?` alone when there are none, and
/// last the API key. Texts enter as they are, integers in decimal.
pub fn url(url_path: &str, params: &RequestParams, api_key: &str) -> (r: String)
    ensures
        r@ == url_text(url_path@, params@, api_key@),
        match params@.path {
            Some(p) => ascii_text(path_text(p)) ==> spec_to_uppercase(path_text(p)) == ascii_upper(
                path_text(p),
            ),
            None => true,
        },
{
    let mut r = String::from_str(BASE_URL);
    r.append(url_path);
    match &params.path {
        Some(p) => {
            let text = path_string(p);
            let upper = to_uppercase(text.as_str());
            r.append("/");
            r.append(upper.as_str());
        },
        None => {},
    }
    let qs = match &params.query {
        Some(q) => query_string(q),
        None => String::new(),
    };
    let n = qs.unicode_len();
    if n > 0 {
        r.append("?");
        r.append(qs.as_str());
        r.append("&");
    } else {
        r.append("?");
    }
    r.append("apikey=");
    r.append(api_key);
    proof {
        reveal_strlit("/");
        reveal_strlit("?");
        reveal_strlit("&");
    }
    r
}


/// One call of the API: the endpoint path and its parameters.
#[derive(Debug)]
pub struct ApiRequest {
    pub url_path: String,
    pub params: RequestParams,
}

/// The mathematical value of an `ApiRequest`.
pub struct ApiRequestView {
    pub url_path: Seq<char>,
    pub params: RequestParamsView,
}

impl View for ApiRequest {
    type V = ApiRequestView;

    open spec fn view(&self) -> ApiRequestView {
        ApiRequestView { url_path: self.url_path@, params: self.params@ }
    }
}

/// A call to `path` with no parameters.
pub open spec fn plain_call(path: Seq<char>) -> ApiRequestView {
    ApiRequestView { url_path: path, params: RequestParamsView { path: None, query: None } }
}

/// A call to `path` for one symbol, with an optional query.
pub open spec fn symbol_call(path: Seq<char>, symbol: Seq<char>, query: Option<QueryView>) -> ApiRequestView {
    ApiRequestView {
        url_path: path,
        params: RequestParamsView { path: Some(PathView::Single(symbol)), query },
    }
}

/// A call to `path` for a list of symbols, with an optional query.
pub open spec fn symbols_call(path: Seq<char>, symbols: Seq<Seq<char>>, query: Option<QueryView>) -> ApiRequestView {
    ApiRequestView {
        url_path: path,
        params: RequestParamsView { path: Some(PathView::Many(symbols)), query },
    }
}

/// The JSON value of an optional text: the text, or null.
pub open spec fn opt_text(v: Option<Seq<char>>) -> ScalarView {
    match v {
        Some(s) => ScalarView::Text(s),
        None => ScalarView::Null,
    }
}

/// The JSON value of an optional integer: the integer, or null.
pub open spec fn opt_int(v: Option<i32>) -> ScalarView {
    match v {
        Some(n) => ScalarView::Int(n as int),
        None => ScalarView::Null,
    }
}

/// The view of an optional `&str`.
pub open spec fn opt_view(v: Option<&str>) -> Option<Seq<char>> {
    match v {
        Some(s) => Some(s@),
        None => None,
    }
}

/// The query of a history call: `from`, `serietype`, `timeseries` and `to`,
/// in key order.
pub open spec fn history_query_view(
    start_date: Option<Seq<char>>,
    end_date: Option<Seq<char>>,
    data_type: Option<Seq<char>>,
    limit: Option<i32>,
) -> QueryView {
    seq![
        ("from"@, opt_text(start_date)),
        ("serietype"@, opt_text(data_type)),
        ("timeseries"@, opt_int(limit)),
        ("to"@, opt_text(end_date)),
    ]
}

/// The JSON value of an optional `&str`.
fn text_or_null(v: Option<&str>) -> (r: JsonScalar)
    ensures
        r@ == opt_text(opt_view(v)),
{
    match v {
        Some(s) => JsonScalar::Text(String::from_str(s)),
        None => JsonScalar::Null,
    }
}

/// The query of a history call over a date range, a series type and a limit.
pub fn history_query(
    start_date: Option<&str>,
    end_date: Option<&str>,
    data_type: Option<&str>,
    limit: Option<i32>,
) -> (q: QueryParams)
    ensures
        q@ == history_query_view(opt_view(start_date), opt_view(end_date), opt_view(data_type), limit),
{
    let mut entries: Vec<(String, JsonScalar)> = Vec::new();
    entries.push((String::from_str("from"), text_or_null(start_date)));
    entries.push((String::from_str("serietype"), text_or_null(data_type)));
    entries.push(
        (
            String::from_str("timeseries"),
            match limit {
                Some(n) => JsonScalar::Int(n),
                None => JsonScalar::Null,
            },
        ),
    );
    entries.push((String::from_str("to"), text_or_null(end_date)));
    let ghost v = entries@.map_values(|e: (String, JsonScalar)| (e.0@, e.1@));
    let ghost expected = history_query_view(
        opt_view(start_date),
        opt_view(end_date),
        opt_view(data_type),
        limit,
    );
    proof {
        reveal_strlit("from");
        reveal_strlit("serietype");
        reveal_strlit("timeseries");
        reveal_strlit("to");
        assert(v =~= expected);
        let t = "timeseries"@;
        let o = "to"@;
        assert(t.drop_first()[0] == 'i');
        assert(o.drop_first()[0] == 'o');
        assert(key_lt(t.drop_first(), o.drop_first()));
        assert(key_lt("from"@, "serietype"@));
        assert(key_lt("serietype"@, "timeseries"@));
        assert(key_lt("timeseries"@, "to"@));
        lemma_key_lt_transitive("from"@, "serietype"@, "timeseries"@);
        lemma_key_lt_transitive("from"@, "timeseries"@, "to"@);
        lemma_key_lt_transitive("serietype"@, "timeseries"@, "to"@);
        assert(keys_sorted(v));
    }
    QueryParams::from_sorted(entries)
}

/// The query of a financial-statement call: the period, `annual` unless
/// given.
pub open spec fn period_query_view(period: Option<Seq<char>>) -> QueryView {
    seq![
        (
            "period"@,
            ScalarView::Text(
                match period {
                    Some(p) => p,
                    None => "annual"@,
                },
            ),
        ),
    ]
}

/// The query of a financial-statement call for `period`, `annual` by default.
pub fn period_query(period: Option<&str>) -> (q: QueryParams)
    ensures
        q@ == period_query_view(opt_view(period)),
{
    let chosen = match period {
        Some(p) => p,
        None => "annual",
    };
    let mut entries: Vec<(String, JsonScalar)> = Vec::new();
    entries.push((String::from_str("period"), JsonScalar::Text(String::from_str(chosen))));
    let ghost v = entries@.map_values(|e: (String, JsonScalar)| (e.0@, e.1@));
    assert(v =~= period_query_view(opt_view(period)));
    QueryParams::from_sorted(entries)
}

/// A call to `path` with no parameters.
pub fn make_plain_call(path: &str) -> (r: ApiRequest)
    ensures
        r@ == plain_call(path@),
{
    ApiRequest { url_path: String::from_str(path), params: RequestParams::new() }
}

/// A call to `path` for `symbol`, with an optional query.
pub fn make_symbol_call(path: &str, symbol: &str, query: Option<QueryParams>) -> (r: ApiRequest)
    ensures
        r@ == symbol_call(
            path@,
            symbol@,
            match query {
                Some(q) => Some(q@),
                None => None::<QueryView>,
            },
        ),
{
    let params = generate_json(PathParam::Single(String::from_str(symbol)), query);
    ApiRequest { url_path: String::from_str(path), params }
}

} // verus!
