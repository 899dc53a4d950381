//! Documents: up to three operations of one kind, as one request.

use vstd::prelude::*;
use crate::error::{FetchError, FetchErrorView};
use crate::fetcher::{decode, payload, selected, target_views, Fetcher, Target};
use crate::traits::{Mutation, Queryable};

verus! {

/// The document that runs the operations `operations`, all of the kind
/// `kind`: the kind, and the operations between braces, a space between
/// each two.
pub open spec fn segment(kind: Seq<char>, operations: Seq<Seq<char>>) -> Seq<char> {
    kind + " { "@ + crate::text::joined(operations, " "@) + " }"@
}

/// The result of the query `name` in `data`.
pub fn dec_query(data: &serde_json::Value, name: &str) -> (out: Result<
    serde_json::Value,
    FetchError,
>)
    ensures
        match out {
            Ok(value) => selected(*data, name@, false) == Some(value),
            Err(error) => error@ == FetchErrorView::Empty && selected(*data, name@, false)
                is None,
        },
{
    decode(data, name, false)
}

/// The result of the mutation `name` in `data`; where it is `explicit`, the
/// rows under `returning`.
pub fn dec_mut(data: &serde_json::Value, name: &str, explicit: bool) -> (out: Result<
    serde_json::Value,
    FetchError,
>)
    ensures
        match out {
            Ok(value) => selected(*data, name@, explicit) == Some(value),
            Err(error) => error@ == FetchErrorView::Empty && selected(*data, name@, explicit)
                is None,
        },
{
    decode(data, name, explicit)
}

/// The document of `kind` that holds the operations `texts`.
fn compose(kind: &str, texts: &Vec<String>) -> (out: String)
    ensures
        out@ == segment(kind@, crate::text::views(texts@)),
{
    let mut out = String::from_str(kind);
    out.append(" { ");
    out.append(crate::text::join(texts, " ").as_str());
    out.append(" }");
    out
}

/// The request that runs one query.
pub fn query1<T1: Queryable>(t1: &T1) -> (out: Fetcher)
    ensures
        out.body@ == payload(segment("query"@, seq![t1.text()])),
        target_views(out.targets@) == seq![(t1.name_text(), false)],
        out.headers@.len() == 0,
{
    let mut texts: Vec<String> = Vec::new();
    texts.push(t1.render());
    let mut targets: Vec<Target> = Vec::new();
    targets.push(Target { name: t1.name(), returning: false });
    Fetcher::new(compose("query", &texts), targets)
}

/// The request that runs two queries.
pub fn query2<T1: Queryable, T2: Queryable>(t1: &T1, t2: &T2) -> (out: Fetcher)
    ensures
        out.body@ == payload(segment("query"@, seq![t1.text(), t2.text()])),
        target_views(out.targets@) == seq![(t1.name_text(), false), (t2.name_text(), false)],
        out.headers@.len() == 0,
{
    let mut texts: Vec<String> = Vec::new();
    texts.push(t1.render());
    texts.push(t2.render());
    let mut targets: Vec<Target> = Vec::new();
    targets.push(Target { name: t1.name(), returning: false });
    targets.push(Target { name: t2.name(), returning: false });
    assert(crate::text::views(texts@) == seq![t1.text(), t2.text()]);
    Fetcher::new(compose("query", &texts), targets)
}

/// The request that runs three queries.
pub fn query3<T1: Queryable, T2: Queryable, T3: Queryable>(t1: &T1, t2: &T2, t3: &T3) -> (out:
    Fetcher)
    ensures
        out.body@ == payload(segment("query"@, seq![t1.text(), t2.text(), t3.text()])),
        target_views(out.targets@) == seq![
            (t1.name_text(), false),
            (t2.name_text(), false),
            (t3.name_text(), false),
        ],
        out.headers@.len() == 0,
{
    let mut texts: Vec<String> = Vec::new();
    texts.push(t1.render());
    texts.push(t2.render());
    texts.push(t3.render());
    let mut targets: Vec<Target> = Vec::new();
    targets.push(Target { name: t1.name(), returning: false });
    targets.push(Target { name: t2.name(), returning: false });
    targets.push(Target { name: t3.name(), returning: false });
    assert(crate::text::views(texts@) == seq![t1.text(), t2.text(), t3.text()]);
    assert(target_views(targets@) == seq![
        (t1.name_text(), false),
        (t2.name_text(), false),
        (t3.name_text(), false),
    ]);
    Fetcher::new(compose("query", &texts), targets)
}

/// The request that runs one mutation.
pub fn mutation1<T1: Mutation>(t1: &T1) -> (out: Fetcher)
    ensures
        out.body@ == payload(segment("mutation"@, seq![t1.text()])),
        target_views(out.targets@) == seq![(t1.name_text(), t1.is_explicit())],
        out.headers@.len() == 0,
{
    let mut texts: Vec<String> = Vec::new();
    texts.push(t1.render());
    let mut targets: Vec<Target> = Vec::new();
    targets.push(Target { name: t1.name(), returning: t1.explicit() });
    Fetcher::new(compose("mutation", &texts), targets)
}

/// The request that runs two mutations.
pub fn mutation2<T1: Mutation, T2: Mutation>(t1: &T1, t2: &T2) -> (out: Fetcher)
    ensures
        out.body@ == payload(segment("mutation"@, seq![t1.text(), t2.text()])),
        target_views(out.targets@) == seq![
            (t1.name_text(), t1.is_explicit()),
            (t2.name_text(), t2.is_explicit()),
        ],
        out.headers@.len() == 0,
{
    let mut texts: Vec<String> = Vec::new();
    texts.push(t1.render());
    texts.push(t2.render());
    let mut targets: Vec<Target> = Vec::new();
    targets.push(Target { name: t1.name(), returning: t1.explicit() });
    targets.push(Target { name: t2.name(), returning: t2.explicit() });
    assert(crate::text::views(texts@) == seq![t1.text(), t2.text()]);
    assert(target_views(targets@) == seq![
        (t1.name_text(), t1.is_explicit()),
        (t2.name_text(), t2.is_explicit()),
    ]);
    Fetcher::new(compose("mutation", &texts), targets)
}

/// The request that runs three mutations.
pub fn mutation3<T1: Mutation, T2: Mutation, T3: Mutation>(t1: &T1, t2: &T2, t3: &T3) -> (out:
    Fetcher)
    ensures
        out.body@ == payload(segment("mutation"@, seq![t1.text(), t2.text(), t3.text()])),
        target_views(out.targets@) == seq![
            (t1.name_text(), t1.is_explicit()),
            (t2.name_text(), t2.is_explicit()),
            (t3.name_text(), t3.is_explicit()),
        ],
        out.headers@.len() == 0,
{
    let mut texts: Vec<String> = Vec::new();
    texts.push(t1.render());
    texts.push(t2.render());
    texts.push(t3.render());
    let mut targets: Vec<Target> = Vec::new();
    targets.push(Target { name: t1.name(), returning: t1.explicit() });
    targets.push(Target { name: t2.name(), returning: t2.explicit() });
    targets.push(Target { name: t3.name(), returning: t3.explicit() });
    assert(crate::text::views(texts@) == seq![t1.text(), t2.text(), t3.text()]);
    assert(target_views(targets@) == seq![
        (t1.name_text(), t1.is_explicit()),
        (t2.name_text(), t2.is_explicit()),
        (t3.name_text(), t3.is_explicit()),
    ]);
    Fetcher::new(compose("mutation", &texts), targets)
}

} // verus!
