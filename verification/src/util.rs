//! The text of an operation, put together from its parts in one call.

use vstd::prelude::*;
use crate::builder::{select, selection};
use crate::fields::{fields_text, Fields};
use crate::text::{join, joined, views};

verus! {

/// The text of one parameter: its value, behind its key and a colon where
/// it has a key.
pub open spec fn param_text(param: (Option<String>, String)) -> Seq<char> {
    match param.0 {
        Some(key) => key@ + ": "@ + param.1@,
        None => param.1@,
    }
}

/// The parameter list: the parameters between parentheses, a comma between
/// each two; nothing at all where there is no parameter.
pub open spec fn listed(params: Seq<(Option<String>, String)>) -> Seq<char> {
    if params.len() == 0 {
        Seq::empty()
    } else {
        "("@ + joined(params.map_values(|p: (Option<String>, String)| param_text(p)), ", "@) + ")"@
    }
}

/// The text of the operation `name` with the parameters `params`, which
/// selects `returning`: under `returning` where that is explicit, and with
/// the count of the affected rows where asked for.
pub fn construct_query(
    name: &str,
    params: &[(Option<String>, String)],
    returning: &Fields,
    affected_rows: bool,
    explicit_returning: bool,
) -> (out: String)
    ensures
        out@ == name@ + listed(params@) + " { "@ + selection(
            fields_text(returning@),
            affected_rows,
            explicit_returning,
        ) + " }"@,
{
    let mut out = String::from_str(name);
    if params.len() > 0 {
        let mut parts: Vec<String> = Vec::new();
        let mut i: usize = 0;
        while i < params.len()
            invariant
                i <= params.len(),
                parts@.len() == i,
                forall|j: int| 0 <= j < i ==> (#[trigger] parts@[j])@ == param_text(params@[j]),
            decreases params.len() - i,
        {
            let part = match &params[i].0 {
                Some(key) => {
                    let mut part = key.clone();
                    part.append(": ");
                    part.append(params[i].1.as_str());
                    part
                },
                None => params[i].1.clone(),
            };
            parts.push(part);
            i += 1;
        }
        assert(views(parts@) == params@.map_values(|p: (Option<String>, String)| param_text(p)));
        out.append("(");
        out.append(join(&parts, ", ").as_str());
        out.append(")");
    }
    out.append(" { ");
    out.append(select(returning, affected_rows, explicit_returning).as_str());
    out.append(" }");
    out
}

} // verus!
