//! The query builder: turns filter, field-selection, sort and paging options
//! into parameterized SQL against the fixed `inventory` table. Field names are
//! validated against the schema allow-list before they are interpolated; the
//! filter pattern itself is only ever passed as a bound parameter. An invalid
//! filter pattern silently disables filtering, and a companion `COUNT(*)`
//! query is built over the same `WHERE` clause as the paged query.

use crate::options::ListArgs;
use crate::regexp::{regex_compiles, regex_valid};
use crate::schema::{
    is_allowed_field, is_schema_field, lemma_schema_fields_allowed, schema_field_names,
    schema_fields,
};
use crate::text::{dec_str, string_eq_lit, u64_to_string};
use vstd::prelude::*;
use vstd::string::StringExecFns;

verus! {

/// The subsequence of `req` whose names pass the schema allow-list, in the
/// requested order.
pub open spec fn allowed_of(req: Seq<Seq<char>>) -> Seq<Seq<char>>
    decreases req.len(),
{
    if req.len() == 0 {
        Seq::empty()
    } else {
        let prefix = allowed_of(req.drop_last());
        if is_schema_field(req.last()) {
            prefix.push(req.last())
        } else {
            prefix
        }
    }
}

/// The columns a filter applies to: the allow-listed part of the requested
/// fields, or the whole schema list when no fields were requested.
pub open spec fn filter_fields_of(fields: Option<Vec<String>>) -> Seq<Seq<char>> {
    match fields {
        Some(v) => allowed_of(v.deep_view()),
        None => schema_field_names(),
    }
}

/// The disjunction body `f1 REGEXP ? OR f2 REGEXP ? OR ...` over `fields`.
pub open spec fn regexp_conditions(fields: Seq<Seq<char>>) -> Seq<char>
    decreases fields.len(),
{
    if fields.len() == 0 {
        Seq::empty()
    } else if fields.len() == 1 {
        fields[0] + " REGEXP ?"@
    } else {
        regexp_conditions(fields.drop_last()) + " OR "@ + fields.last() + " REGEXP ?"@
    }
}

/// Filtering happens only when a pattern is present, compiles as a regular
/// expression, and at least one allow-listed field is selected.
pub open spec fn filtering_active(filter: Option<String>, fields: Option<Vec<String>>) -> bool {
    &&& filter is Some
    &&& regex_valid(filter.unwrap()@)
    &&& filter_fields_of(fields).len() > 0
}

/// The `WHERE` clause of both the count query and the paged query: a single
/// parenthesized disjunction, or nothing when filtering is inactive.
pub open spec fn where_clause_of(filter: Option<String>, fields: Option<Vec<String>>) -> Seq<
    char,
> {
    if filtering_active(filter, fields) {
        " WHERE ("@ + regexp_conditions(filter_fields_of(fields)) + ")"@
    } else {
        Seq::empty()
    }
}

/// The bound values of the `WHERE` clause: one copy of the pattern per
/// filtered field.
pub open spec fn where_params_of(filter: Option<String>, fields: Option<Vec<String>>) -> Seq<
    Seq<char>,
> {
    if filtering_active(filter, fields) {
        Seq::new(filter_fields_of(fields).len(), |i: int| filter.unwrap()@)
    } else {
        Seq::empty()
    }
}

/// The shared sort direction: `desc` only when explicitly requested, `asc`
/// otherwise.
pub open spec fn direction_of(order_by: Option<String>) -> Seq<char> {
    if order_by is Some && order_by.unwrap()@ == "desc"@ {
        "desc"@
    } else {
        "asc"@
    }
}

/// The columns to sort by: the allow-listed part of the requested list, or
/// nothing when no sort was requested.
pub open spec fn sort_fields_of(sort_by: Option<Vec<String>>) -> Seq<Seq<char>> {
    match sort_by {
        Some(v) => allowed_of(v.deep_view()),
        None => Seq::empty(),
    }
}

/// The list `f1 dir, f2 dir, ...`: one shared direction after every field.
pub open spec fn sort_terms(fields: Seq<Seq<char>>, dir: Seq<char>) -> Seq<char>
    decreases fields.len(),
{
    if fields.len() == 0 {
        Seq::empty()
    } else if fields.len() == 1 {
        fields[0] + " "@ + dir
    } else {
        sort_terms(fields.drop_last(), dir) + ", "@ + fields.last() + " "@ + dir
    }
}

/// The `ORDER BY` clause, or nothing when no allow-listed sort field remains.
pub open spec fn sort_clause_of(sort_by: Option<Vec<String>>, order_by: Option<String>) -> Seq<
    char,
> {
    let fields = sort_fields_of(sort_by);
    if fields.len() == 0 {
        Seq::empty()
    } else {
        " ORDER BY "@ + sort_terms(fields, direction_of(order_by))
    }
}

/// The paging tail: `LIMIT n`, with `OFFSET m` only beside a limit, and
/// nothing at all in `all` mode.
pub open spec fn paging_clause_of(all: bool, limit: Option<u32>, offset: Option<u32>) -> Seq<
    char,
> {
    if all {
        Seq::empty()
    } else {
        match limit {
            Option::None => Seq::empty(),
            Option::Some(l) => " LIMIT "@ + dec_str(l as nat) + match offset {
                Option::None => Seq::<char>::empty(),
                Option::Some(o) => " OFFSET "@ + dec_str(o as nat),
            },
        }
    }
}

/// The companion count query: the same `WHERE` clause as the paged query, no
/// ordering and no paging, so its result is the total before limit and offset.
pub open spec fn count_query_of(args: ListArgs) -> Seq<char> {
    "SELECT COUNT(*) FROM inventory"@ + where_clause_of(args.filter, args.fields)
}

/// The paged query over the short projection.
pub open spec fn short_query_of(args: ListArgs) -> Seq<char> {
    "SELECT Id, Name, AcquiredDate FROM inventory"@ + where_clause_of(args.filter, args.fields)
        + sort_clause_of(args.sort_by, args.order_by) + paging_clause_of(
        args.all,
        args.limit,
        args.offset,
    )
}

/// The paged query over the full projection.
pub open spec fn long_query_of(args: ListArgs) -> Seq<char> {
    "SELECT Id, Name, AcquiredDate, PurchasePrice, PurchaseCurrency, IsUsed, ReceivedFrom, SerialNumber, PurchaseReference, Notes, Extra, FuturePurchase FROM inventory"@
        + where_clause_of(args.filter, args.fields) + sort_clause_of(args.sort_by, args.order_by)
        + paging_clause_of(args.all, args.limit, args.offset)
}

/// Keeps the allow-listed names of `req`, in order.
fn allowed_subset(req: &Vec<String>) -> (v: Vec<String>)
    ensures
        v.deep_view() == allowed_of(req.deep_view()),
{
    let ghost rv = req.deep_view();
    let mut v: Vec<String> = Vec::new();
    proof {
        assert(v.deep_view() =~= allowed_of(rv.take(0)));
    }
    let mut i: usize = 0;
    while i < req.len()
        invariant
            i <= req.len(),
            rv == req.deep_view(),
            rv.len() == req@.len(),
            v.deep_view() == allowed_of(rv.take(i as int)),
        decreases req.len() - i,
    {
        proof {
            assert(rv.take(i + 1).drop_last() =~= rv.take(i as int));
            assert(rv.take(i + 1).last() == rv[i as int]);
            assert(rv[i as int] == req@[i as int]@);
        }
        if is_allowed_field(&req[i]) {
            let f = req[i].clone();
            v.push(f);
        }
        proof {
            assert(v.deep_view() =~= allowed_of(rv.take(i + 1)));
        }
        i = i + 1;
    }
    proof {
        assert(rv.take(req@.len() as int) =~= rv);
    }
    v
}

/// Resolves the columns a filter applies to: the allow-listed part of the
/// explicit selection, or the full schema list.
pub fn resolve_filter_fields(fields: &Option<Vec<String>>) -> (v: Vec<String>)
    ensures
        v.deep_view() == filter_fields_of(*fields),
{
    match fields {
        Some(req) => allowed_subset(req),
        None => schema_fields(),
    }
}

/// Builds the `WHERE` clause and its bound values from the filter options. An
/// invalid pattern, a missing pattern, or an empty field selection all yield
/// no clause and no bound values: the query then runs unfiltered.
pub fn build_filter(filter: &Option<String>, fields: &Option<Vec<String>>) -> (r: (
    String,
    Vec<String>,
))
    ensures
        r.0@ == where_clause_of(*filter, *fields),
        r.1.deep_view() == where_params_of(*filter, *fields),
{
    let inactive = (String::new(), Vec::<String>::new());
    proof {
        assert(inactive.1.deep_view() =~= Seq::<Seq<char>>::empty());
    }
    match filter {
        None => inactive,
        Some(pat) => {
            if !regex_compiles(pat.as_str()) {
                inactive
            } else {
                let ff = resolve_filter_fields(fields);
                let ghost fv = filter_fields_of(*fields);
                if ff.len() == 0 {
                    inactive
                } else {
                    let mut s = String::new();
                    s.append(" WHERE (");
                    proof {
                        assert(s@ =~= " WHERE ("@);
                    }
                    let mut params: Vec<String> = Vec::new();
                    let mut i: usize = 0;
                    while i < ff.len()
                        invariant
                            1 <= ff.len() == fv.len(),
                            i <= ff.len(),
                            fv == ff.deep_view(),
                            i == 0 ==> s@ == " WHERE ("@,
                            i > 0 ==> s@ == " WHERE ("@ + regexp_conditions(fv.take(i as int)),
                            params@.len() == i,
                            forall|j: int| 0 <= j < i ==> #[trigger] params@[j]@ == pat@,
                        decreases ff.len() - i,
                    {
                        if i > 0 {
                            s.append(" OR ");
                        }
                        s.append(ff[i].as_str());
                        s.append(" REGEXP ?");
                        params.push(pat.clone());
                        proof {
                            assert(fv.take(i + 1).drop_last() =~= fv.take(i as int));
                            assert(fv.take(i + 1).last() == fv[i as int]);
                            assert(fv[i as int] == ff@[i as int]@);
                            if i == 0 {
                                assert(regexp_conditions(fv.take(1)) == fv.take(1)[0]
                                    + " REGEXP ?"@);
                                assert(s@ =~= " WHERE ("@ + regexp_conditions(fv.take(1)));
                            } else {
                                assert(s@ =~= " WHERE ("@ + regexp_conditions(fv.take(i + 1)));
                            }
                        }
                        i = i + 1;
                    }
                    s.append(")");
                    proof {
                        assert(fv.take(fv.len() as int) =~= fv);
                        assert(s@ =~= " WHERE ("@ + regexp_conditions(fv) + ")"@);
                        assert(params.deep_view() =~= where_params_of(*filter, *fields));
                    }
                    (s, params)
                }
            }
        },
    }
}

/// Builds the `ORDER BY` clause of the list options: allow-listed sort fields
/// in requested order, each followed by the one shared direction.
pub fn build_sort_clause(args: &ListArgs) -> (s: String)
    ensures
        s@ == sort_clause_of(args.sort_by, args.order_by),
{
    match &args.sort_by {
        None => String::new(),
        Some(req) => {
            let sf = allowed_subset(req);
            let ghost fv = sort_fields_of(args.sort_by);
            if sf.len() == 0 {
                String::new()
            } else {
                let dir = if match &args.order_by {
                    Some(o) => string_eq_lit(o, "desc"),
                    None => false,
                } {
                    "desc"
                } else {
                    "asc"
                };
                assert(dir@ == direction_of(args.order_by));
                let mut s = String::new();
                s.append(" ORDER BY ");
                proof {
                    assert(s@ =~= " ORDER BY "@);
                }
                let mut i: usize = 0;
                while i < sf.len()
                    invariant
                        1 <= sf.len() == fv.len(),
                        i <= sf.len(),
                        fv == sf.deep_view(),
                        dir@ == direction_of(args.order_by),
                        i == 0 ==> s@ == " ORDER BY "@,
                        i > 0 ==> s@ == " ORDER BY "@ + sort_terms(
                            fv.take(i as int),
                            direction_of(args.order_by),
                        ),
                    decreases sf.len() - i,
                {
                    if i > 0 {
                        s.append(", ");
                    }
                    s.append(sf[i].as_str());
                    s.append(" ");
                    s.append(dir);
                    proof {
                        let d = direction_of(args.order_by);
                        assert(fv.take(i + 1).drop_last() =~= fv.take(i as int));
                        assert(fv.take(i + 1).last() == fv[i as int]);
                        assert(fv[i as int] == sf@[i as int]@);
                        if i == 0 {
                            assert(sort_terms(fv.take(1), d) == fv.take(1)[0] + " "@ + d);
                            assert(s@ =~= " ORDER BY "@ + sort_terms(fv.take(1), d));
                        } else {
                            assert(s@ =~= " ORDER BY "@ + sort_terms(fv.take(i + 1), d));
                        }
                    }
                    i = i + 1;
                }
                proof {
                    assert(fv.take(fv.len() as int) =~= fv);
                }
                s
            }
        },
    }
}

/// Builds the `LIMIT` / `OFFSET` tail: nothing in `all` mode, nothing without
/// a limit, and an offset only beside a limit.
pub fn build_paging_clause(all: bool, limit: Option<u32>, offset: Option<u32>) -> (s: String)
    ensures
        s@ == paging_clause_of(all, limit, offset),
{
    if all {
        String::new()
    } else {
        match limit {
            None => String::new(),
            Some(l) => {
                let mut s = String::new();
                s.append(" LIMIT ");
                let n = u64_to_string(l as u64);
                s.append(n.as_str());
                proof {
                    assert(s@ =~= " LIMIT "@ + dec_str(l as nat));
                }
                match offset {
                    None => {
                        proof {
                            assert(s@ =~= paging_clause_of(all, limit, offset));
                        }
                        s
                    },
                    Some(o) => {
                        s.append(" OFFSET ");
                        let m = u64_to_string(o as u64);
                        s.append(m.as_str());
                        proof {
                            assert(s@ =~= paging_clause_of(all, limit, offset));
                        }
                        s
                    },
                }
            },
        }
    }
}

/// Builds the count query and its bound values: the same `WHERE` clause and
/// parameters as the paged query, with no ordering and no paging.
pub fn build_count_query(args: &ListArgs) -> (r: (String, Vec<String>))
    ensures
        r.0@ == count_query_of(*args),
        r.1.deep_view() == where_params_of(args.filter, args.fields),
{
    let (w, params) = build_filter(&args.filter, &args.fields);
    let mut q = String::from_str("SELECT COUNT(*) FROM inventory");
    q.append(w.as_str());
    (q, params)
}

/// Builds the paged query over the short projection, and its bound values.
pub fn build_short_query(args: &ListArgs) -> (r: (String, Vec<String>))
    ensures
        r.0@ == short_query_of(*args),
        r.1.deep_view() == where_params_of(args.filter, args.fields),
{
    let (w, params) = build_filter(&args.filter, &args.fields);
    let mut q = String::from_str("SELECT Id, Name, AcquiredDate FROM inventory");
    q.append(w.as_str());
    let sort = build_sort_clause(args);
    q.append(sort.as_str());
    let paging = build_paging_clause(args.all, args.limit, args.offset);
    q.append(paging.as_str());
    proof {
        assert(q@ =~= short_query_of(*args));
    }
    (q, params)
}

/// Builds the paged query over the full projection, and its bound values.
pub fn build_long_query(args: &ListArgs) -> (r: (String, Vec<String>))
    ensures
        r.0@ == long_query_of(*args),
        r.1.deep_view() == where_params_of(args.filter, args.fields),
{
    let (w, params) = build_filter(&args.filter, &args.fields);
    let mut q = String::from_str(
        "SELECT Id, Name, AcquiredDate, PurchasePrice, PurchaseCurrency, IsUsed, ReceivedFrom, SerialNumber, PurchaseReference, Notes, Extra, FuturePurchase FROM inventory",
    );
    q.append(w.as_str());
    let sort = build_sort_clause(args);
    q.append(sort.as_str());
    let paging = build_paging_clause(args.all, args.limit, args.offset);
    q.append(paging.as_str());
    proof {
        assert(q@ =~= long_query_of(*args));
    }
    (q, params)
}

/// The count query and the paged queries are built over one and the same
/// `WHERE` fragment, and bind exactly the same parameter list; ordering and
/// paging are appended after it and never change it. Running the count query
/// therefore counts exactly the rows the paged query selects from.
pub proof fn lemma_count_query_matches_page_query(args: ListArgs)
    ensures
        count_query_of(args) == "SELECT COUNT(*) FROM inventory"@ + where_clause_of(
            args.filter,
            args.fields,
        ),
        short_query_of(args) == "SELECT Id, Name, AcquiredDate FROM inventory"@ + where_clause_of(
            args.filter,
            args.fields,
        ) + sort_clause_of(args.sort_by, args.order_by) + paging_clause_of(
            args.all,
            args.limit,
            args.offset,
        ),
        long_query_of(args)
            == "SELECT Id, Name, AcquiredDate, PurchasePrice, PurchaseCurrency, IsUsed, ReceivedFrom, SerialNumber, PurchaseReference, Notes, Extra, FuturePurchase FROM inventory"@
            + where_clause_of(args.filter, args.fields) + sort_clause_of(
            args.sort_by,
            args.order_by,
        ) + paging_clause_of(args.all, args.limit, args.offset),
{
}

/// Every name the allow-list filter keeps passes the schema check.
pub proof fn lemma_allowed_of_allowed(req: Seq<Seq<char>>)
    ensures
        forall|i: int|
            0 <= i < allowed_of(req).len() ==> #[trigger] is_schema_field(allowed_of(req)[i]),
    decreases req.len(),
{
    if req.len() > 0 {
        lemma_allowed_of_allowed(req.drop_last());
        let prefix = allowed_of(req.drop_last());
        if is_schema_field(req.last()) {
            assert forall|i: int| 0 <= i < allowed_of(req).len() implies #[trigger] is_schema_field(
                allowed_of(req)[i],
            ) by {
                if i < prefix.len() {
                    assert(allowed_of(req)[i] == prefix[i]);
                } else {
                    assert(allowed_of(req)[i] == req.last());
                }
            }
        }
    }
}

/// The interpolation allow-list invariant: every field name that can reach the
/// `WHERE` clause or the `ORDER BY` clause of a built query is a column of the
/// fixed schema, whatever names were requested. Nothing else is ever
/// concatenated into SQL text; the filter pattern itself is only bound.
pub proof fn lemma_only_schema_fields_interpolated(
    fields: Option<Vec<String>>,
    sort_by: Option<Vec<String>>,
)
    ensures
        forall|i: int|
            0 <= i < filter_fields_of(fields).len() ==> #[trigger] is_schema_field(
                filter_fields_of(fields)[i],
            ),
        forall|i: int|
            0 <= i < sort_fields_of(sort_by).len() ==> #[trigger] is_schema_field(
                sort_fields_of(sort_by)[i],
            ),
{
    lemma_schema_fields_allowed();
    match fields {
        Some(v) => lemma_allowed_of_allowed(v.deep_view()),
        None => {},
    }
    match sort_by {
        Some(v) => lemma_allowed_of_allowed(v.deep_view()),
        None => {},
    }
}

/// A filter pattern that does not compile as a regular expression is ignored:
/// every query is the one that would have been built with no filter at all,
/// and nothing is bound.
pub proof fn lemma_invalid_filter_ignored(args: ListArgs)
    requires
        args.filter is Some,
        !regex_valid(args.filter.unwrap()@),
    ensures
        count_query_of(args) == count_query_of(
            (ListArgs { filter: Option::None, ..args }),
        ),
        short_query_of(args) == short_query_of(
            (ListArgs { filter: Option::None, ..args }),
        ),
        long_query_of(args) == long_query_of(
            (ListArgs { filter: Option::None, ..args }),
        ),
        where_params_of(args.filter, args.fields) == Seq::<Seq<char>>::empty(),
{
}

} // verus!
