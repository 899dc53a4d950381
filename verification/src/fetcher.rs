//! The fetcher: one document of up to three operations as the body of a
//! request, the headers that go with it, and the reading of the response.

use vstd::prelude::*;
use crate::error::{FetchError, FetchErrorView, GraphqlError, GraphqlErrorView};
use crate::json::{
    failure, items, json_failure, json_items, json_member, json_read, json_text, member, parse,
    text,
};
use crate::text::{escaped, push_escaped};

verus! {

/// Where the result of one operation stands in a response.
#[derive(Debug)]
pub struct Target {
    /// The name of the operation: the key of its result.
    pub name: String,
    /// Whether the rows stand one level down, under `returning`.
    pub returning: bool,
}

impl View for Target {
    type V = (Seq<char>, bool);

    open spec fn view(&self) -> (Seq<char>, bool) {
        (self.name@, self.returning)
    }
}

/// The views of the targets, in order.
pub open spec fn target_views(targets: Seq<Target>) -> Seq<(Seq<char>, bool)> {
    targets.map_values(|t: Target| t@)
}

/// A request that is ready to be sent.
#[derive(Debug)]
pub struct Fetcher {
    /// The body of the request.
    pub body: String,
    /// Where the results of the operations will stand.
    pub targets: Vec<Target>,
    /// The headers, each key once.
    pub headers: Vec<(String, String)>,
}

/// The text of a response, and where the results stand in it.
#[derive(Debug)]
pub struct Wrapper {
    pub text: String,
    pub targets: Vec<Target>,
}

/// The three envelopes of a response.
#[derive(Debug)]
pub enum Response {
    Data { data: serde_json::Value },
    Errors { errors: Vec<GraphqlError> },
    NotFound { code: String, path: String },
}

/// What an envelope holds.
pub enum ResponseView {
    Data { data: serde_json::Value },
    Errors { errors: Seq<GraphqlErrorView> },
    NotFound { code: Seq<char>, path: Seq<char> },
}

impl View for Response {
    type V = ResponseView;

    open spec fn view(&self) -> ResponseView {
        match self {
            Response::Data { data } => ResponseView::Data { data: *data },
            Response::Errors { errors } => ResponseView::Errors { errors: error_views(errors@) },
            Response::NotFound { code, path } => ResponseView::NotFound {
                code: code@,
                path: path@,
            },
        }
    }
}

/// The views of the errors, in order.
pub open spec fn error_views(errors: Seq<GraphqlError>) -> Seq<GraphqlErrorView> {
    errors.map_values(|e: GraphqlError| e@)
}

/// The body of the request for a document: a JSON object with the one
/// string `query`, in which every double quote of the document is escaped.
pub open spec fn payload(document: Seq<char>) -> Seq<char> {
    "{\"query\":\""@ + escaped(document, false) + "\"}"@
}

/// The value of the first header with the key `key`.
pub open spec fn header_value(headers: Seq<(String, String)>, key: Seq<char>) -> Option<Seq<char>>
    decreases headers.len(),
{
    if headers.len() == 0 {
        None
    } else if headers[0].0@ == key {
        Some(headers[0].1@)
    } else {
        header_value(headers.drop_first(), key)
    }
}

/// The headers as a map from key to value.
pub open spec fn header_map(headers: Seq<(String, String)>) -> Map<Seq<char>, Seq<char>> {
    Map::new(
        |key: Seq<char>| header_value(headers, key) is Some,
        |key: Seq<char>| header_value(headers, key).unwrap(),
    )
}

/// Whether no key occurs twice.
pub open spec fn distinct_keys(headers: Seq<(String, String)>) -> bool {
    forall|i: int, j: int|
        0 <= i < j < headers.len() ==> (#[trigger] headers[i]).0@ != (#[trigger] headers[j]).0@
}

/// An error of the backend, where `item` is one: an object with the
/// members `extensions`, of any kind, and `message`, a string.
pub open spec fn graphql_error(item: serde_json::Value) -> Option<GraphqlErrorView> {
    match (json_member(item, "extensions"@), json_member(item, "message"@)) {
        (Some(extensions), Some(message)) => match json_text(message) {
            Some(message) => Some(GraphqlErrorView { extensions, message }),
            None => None,
        },
        _ => None,
    }
}

/// The errors that `body` reports, where it is an error envelope: an object
/// whose member `errors` is an array of errors of the backend.
pub open spec fn reported(body: serde_json::Value) -> Option<Seq<GraphqlErrorView>> {
    match json_member(body, "errors"@) {
        Some(list) => match json_items(list) {
            Some(items) => if forall|i: int|
                0 <= i < items.len() ==> graphql_error(#[trigger] items[i]) is Some {
                Some(items.map_values(|item: serde_json::Value| graphql_error(item).unwrap()))
            } else {
                None
            },
            None => None,
        },
        None => None,
    }
}

/// Code and path, where `body` is a not-found envelope: an object whose
/// members `code` and `path` are strings.
pub open spec fn not_found(body: serde_json::Value) -> Option<(Seq<char>, Seq<char>)> {
    match (json_member(body, "code"@), json_member(body, "path"@)) {
        (Some(code), Some(path)) => match (json_text(code), json_text(path)) {
            (Some(code), Some(path)) => Some((code, path)),
            _ => None,
        },
        _ => None,
    }
}

/// The envelope that `body` is, told by its shape: data where it has the
/// member `data`; else errors, where it reports some; else not found, where
/// it says so; else none.
pub open spec fn envelope(body: serde_json::Value) -> Option<ResponseView> {
    match json_member(body, "data"@) {
        Some(data) => Some(ResponseView::Data { data }),
        None => match reported(body) {
            Some(errors) => Some(ResponseView::Errors { errors }),
            None => match not_found(body) {
                Some((code, path)) => Some(ResponseView::NotFound { code, path }),
                None => None,
            },
        },
    }
}

/// The result of the operation `operation` in `data`: the member of that
/// name, or where `returning` is set and that member has a member
/// `returning`, the latter.
pub open spec fn selected(data: serde_json::Value, operation: Seq<char>, returning: bool) -> Option<
    serde_json::Value,
> {
    match json_member(data, operation) {
        Some(entry) => if returning && json_member(entry, "returning"@) is Some {
            json_member(entry, "returning"@)
        } else {
            Some(entry)
        },
        None => None,
    }
}

/// The results of all targets, in their order; or that one is missing.
pub open spec fn extracted(data: serde_json::Value, targets: Seq<(Seq<char>, bool)>) -> Result<
    Seq<serde_json::Value>,
    FetchErrorView,
> {
    if forall|i: int|
        0 <= i < targets.len() ==> selected(data, (#[trigger] targets[i]).0, targets[i].1) is Some {
        Ok(targets.map_values(|t: (Seq<char>, bool)| selected(data, t.0, t.1).unwrap()))
    } else {
        Err(FetchErrorView::Empty)
    }
}

/// What is said of a body that is JSON, but none of the three envelopes.
pub const NO_ENVELOPE: &'static str = "data did not match any variant of untagged enum Response";

/// What the text of a response is read as: the results of all targets where
/// it is a data envelope that holds them all, and else the one error that
/// says why not.
pub open spec fn parsed(text: Seq<char>, targets: Seq<(Seq<char>, bool)>) -> Result<
    Seq<serde_json::Value>,
    FetchErrorView,
> {
    match json_read(text) {
        Err(error) => Err(FetchErrorView::Serde(error)),
        Ok(body) => match envelope(body) {
            None => Err(FetchErrorView::Serde(json_failure(NO_ENVELOPE@))),
            Some(ResponseView::Data { data }) => extracted(data, targets),
            Some(ResponseView::Errors { errors }) => Err(FetchErrorView::Hasura(errors)),
            Some(ResponseView::NotFound { code, path }) => Err(
                FetchErrorView::NotFound { code, path },
            ),
        },
    }
}

/// What a result of reading says: the values, or the view of the error.
pub open spec fn outcome(result: Result<Vec<serde_json::Value>, FetchError>) -> Result<
    Seq<serde_json::Value>,
    FetchErrorView,
> {
    match result {
        Ok(values) => Ok(values@),
        Err(error) => Err(error@),
    }
}

/// Replacing the value of the first header with the key `key` changes what
/// is found under that key, and nothing else.
proof fn lemma_replaced(
    headers: Seq<(String, String)>,
    i: int,
    entry: (String, String),
    key: Seq<char>,
)
    requires
        0 <= i < headers.len(),
        headers[i].0@ == entry.0@,
        forall|j: int| 0 <= j < i ==> (#[trigger] headers[j]).0@ != entry.0@,
    ensures
        header_value(headers.update(i, entry), key) == if key == entry.0@ {
            Some(entry.1@)
        } else {
            header_value(headers, key)
        },
    decreases i,
{
    let after = headers.update(i, entry);
    if i > 0 {
        assert(after.drop_first() == headers.drop_first().update(i - 1, entry));
        lemma_replaced(headers.drop_first(), i - 1, entry, key);
    } else {
        assert(after.drop_first() == headers.drop_first());
    }
}

/// A header added at the end is found under its key where no earlier one
/// has that key, and changes nothing else.
proof fn lemma_added(headers: Seq<(String, String)>, entry: (String, String), key: Seq<char>)
    ensures
        header_value(headers.push(entry), key) == if header_value(headers, key) is Some {
            header_value(headers, key)
        } else if key == entry.0@ {
            Some(entry.1@)
        } else {
            None
        },
    decreases headers.len(),
{
    let after = headers.push(entry);
    if headers.len() > 0 {
        assert(after.drop_first() == headers.drop_first().push(entry));
        lemma_added(headers.drop_first(), entry, key);
    } else {
        assert(header_value(after.drop_first(), key) is None);
    }
}

/// Where no header has the key `key`, nothing is found under it.
proof fn lemma_absent(headers: Seq<(String, String)>, key: Seq<char>)
    requires
        forall|j: int| 0 <= j < headers.len() ==> (#[trigger] headers[j]).0@ != key,
    ensures
        header_value(headers, key) is None,
    decreases headers.len(),
{
    if headers.len() > 0 {
        lemma_absent(headers.drop_first(), key);
    }
}

impl Fetcher {
    /// Whether no header occurs twice.
    pub open spec fn wf(self) -> bool {
        distinct_keys(self.headers@)
    }

    /// The request for `body`, a document, whose results will stand at
    /// `targets`; without headers so far.
    pub fn new(body: String, targets: Vec<Target>) -> (out: Fetcher)
        ensures
            out.body@ == payload(body@),
            out.targets == targets,
            out.headers@.len() == 0,
            out.wf(),
    {
        let mut text = String::from_str("{\"query\":\"");
        push_escaped(&mut text, body.as_str(), false);
        text.append("\"}");
        Fetcher { body: text, targets, headers: Vec::new() }
    }

    /// Sets the header `key` to `value`, in place of what it was.
    #[verifier::loop_isolation(false)]
    pub fn header(self, key: &str, value: &str) -> (out: Fetcher)
        ensures
            out.body == self.body,
            out.targets == self.targets,
            header_map(out.headers@) == header_map(self.headers@).insert(key@, value@),
            self.wf() ==> out.wf(),
    {
        let mut out = self;
        let ghost before = out.headers@;
        let entry = (String::from_str(key), String::from_str(value));
        let mut i: usize = 0;
        while i < out.headers.len()
            invariant
                i <= out.headers.len(),
                out.headers@ == before,
                out.body == self.body,
                out.targets == self.targets,
                entry.0@ == key@,
                entry.1@ == value@,
                forall|j: int| 0 <= j < i ==> (#[trigger] before[j]).0@ != key@,
            decreases out.headers.len() - i,
        {
            if out.headers[i].0 == entry.0 {
                out.headers.set(i, entry);
                proof {
                    assert forall|k: Seq<char>|
                        header_value(out.headers@, k) == if k == key@ {
                            Some(value@)
                        } else {
                            header_value(before, k)
                        } by {
                        lemma_replaced(before, i as int, entry, k);
                    }
                }
                return out;
            }
            i += 1;
        }
        out.headers.push(entry);
        proof {
            lemma_absent(before, key@);
            assert forall|k: Seq<char>|
                header_value(out.headers@, k) == if k == key@ {
                    Some(value@)
                } else {
                    header_value(before, k)
                } by {
                lemma_added(before, entry, k);
            }
        }
        out
    }

    /// Sets the header of the administrative secret, where one is given.
    pub fn admin(self, admin: Option<String>) -> (out: Fetcher)
        ensures
            out.body == self.body,
            out.targets == self.targets,
            header_map(out.headers@) == match admin {
                Some(secret) => header_map(self.headers@).insert(
                    "x-hasura-admin-secret"@,
                    secret@,
                ),
                None => header_map(self.headers@),
            },
            self.wf() ==> out.wf(),
    {
        match admin {
            Some(secret) => self.header("x-hasura-admin-secret", secret.as_str()),
            None => self,
        }
    }

    /// Sets the header of the authorization, where a token is given.
    pub fn token(self, token: Option<String>) -> (out: Fetcher)
        ensures
            out.body == self.body,
            out.targets == self.targets,
            header_map(out.headers@) == match token {
                Some(token) => header_map(self.headers@).insert("authorization"@, token@),
                None => header_map(self.headers@),
            },
            self.wf() ==> out.wf(),
    {
        match token {
            Some(token) => self.header("authorization", token.as_str()),
            None => self,
        }
    }
}

/// The error of the backend that `item` is, if it is one.
pub fn as_graphql_error(item: &serde_json::Value) -> (out: Option<GraphqlError>)
    ensures
        match out {
            Some(error) => graphql_error(*item) == Some(error@),
            None => graphql_error(*item) is None,
        },
{
    match (member(item, "extensions"), member(item, "message")) {
        (Some(extensions), Some(message)) => match text(message) {
            Some(message) => Some(
                GraphqlError {
                    extensions: extensions.clone(),
                    message: String::from_str(message),
                },
            ),
            None => None,
        },
        _ => None,
    }
}

/// The errors that `body` reports, if it is an error envelope.
#[verifier::loop_isolation(false)]
pub fn as_errors(body: &serde_json::Value) -> (out: Option<Vec<GraphqlError>>)
    ensures
        match out {
            Some(errors) => reported(*body) == Some(error_views(errors@)),
            None => reported(*body) is None,
        },
{
    match member(body, "errors") {
        Some(list) => match items(list) {
            Some(items) => {
                let mut errors: Vec<GraphqlError> = Vec::new();
                let mut i: usize = 0;
                while i < items.len()
                    invariant
                        i <= items.len(),
                        errors@.len() == i,
                        forall|j: int|
                            0 <= j < i ==> graphql_error(#[trigger] items@[j]) == Some(
                                errors@[j]@,
                            ),
                    decreases items.len() - i,
                {
                    match as_graphql_error(&items[i]) {
                        Some(error) => errors.push(error),
                        None => {
                            return None;
                        },
                    }
                    i += 1;
                }
                assert(error_views(errors@) == items@.map_values(
                    |item: serde_json::Value| graphql_error(item).unwrap(),
                ));
                Some(errors)
            },
            None => None,
        },
        None => None,
    }
}

/// Code and path, if `body` is a not-found envelope.
pub fn as_not_found(body: &serde_json::Value) -> (out: Option<(String, String)>)
    ensures
        match out {
            Some((code, path)) => not_found(*body) == Some((code@, path@)),
            None => not_found(*body) is None,
        },
{
    match (member(body, "code"), member(body, "path")) {
        (Some(code), Some(path)) => match (text(code), text(path)) {
            (Some(code), Some(path)) => Some((String::from_str(code), String::from_str(path))),
            _ => None,
        },
        _ => None,
    }
}

/// The envelope that `body` is, told by its shape.
pub fn classify(body: &serde_json::Value) -> (out: Option<Response>)
    ensures
        match out {
            Some(response) => envelope(*body) == Some(response@),
            None => envelope(*body) is None,
        },
{
    match member(body, "data") {
        Some(data) => Some(Response::Data { data: data.clone() }),
        None => match as_errors(body) {
            Some(errors) => Some(Response::Errors { errors }),
            None => match as_not_found(body) {
                Some((code, path)) => Some(Response::NotFound { code, path }),
                None => None,
            },
        },
    }
}

/// The result of the operation `operation` in `data`; where `returning` is
/// set, the rows under `returning` if there are any.
pub fn decode(data: &serde_json::Value, operation: &str, returning: bool) -> (out: Result<
    serde_json::Value,
    FetchError,
>)
    ensures
        match out {
            Ok(value) => selected(*data, operation@, returning) == Some(value),
            Err(error) => error@ == FetchErrorView::Empty && selected(*data, operation@, returning)
                is None,
        },
{
    match member(data, operation) {
        Some(entry) => {
            if returning {
                match member(entry, "returning") {
                    Some(rows) => Ok(rows.clone()),
                    None => Ok(entry.clone()),
                }
            } else {
                Ok(entry.clone())
            }
        },
        None => Err(FetchError::Empty),
    }
}

/// The results of all targets, in their order; none where one is missing.
pub fn extract(data: &serde_json::Value, targets: &Vec<Target>) -> (out: Result<
    Vec<serde_json::Value>,
    FetchError,
>)
    ensures
        outcome(out) == extracted(*data, target_views(targets@)),
{
    let mut values: Vec<serde_json::Value> = Vec::new();
    let mut i: usize = 0;
    while i < targets.len()
        invariant
            i <= targets.len(),
            values@.len() == i,
            forall|j: int|
                0 <= j < i ==> selected(*data, (#[trigger] targets@[j]).name@, targets@[j].returning)
                    == Some(values@[j]),
        decreases targets.len() - i,
    {
        match decode(data, targets[i].name.as_str(), targets[i].returning) {
            Ok(value) => values.push(value),
            Err(error) => {
                assert(selected(
                    *data,
                    target_views(targets@)[i as int].0,
                    target_views(targets@)[i as int].1,
                ) is None);
                return Err(error);
            },
        }
        i += 1;
    }
    assert(values@ == target_views(targets@).map_values(
        |t: (Seq<char>, bool)| selected(*data, t.0, t.1).unwrap(),
    ));
    Ok(values)
}

/// Each result is found by the name of its own operation: it is the same
/// whatever other operations the document holds, and in whatever order.
pub proof fn lemma_each_by_own_name(data: serde_json::Value, targets: Seq<(Seq<char>, bool)>)
    ensures
        extracted(data, targets) matches Ok(values) ==> values.len() == targets.len()
            && forall|i: int|
            0 <= i < targets.len() ==> Some(#[trigger] values[i]) == selected(
                data,
                targets[i].0,
                targets[i].1,
            ),
        extracted(data, targets) is Err <==> exists|i: int|
            0 <= i < targets.len() && selected(data, (#[trigger] targets[i]).0, targets[i].1)
                is None,
{
}

/// Two operations in one document come out as each would alone, and
/// swapped when the operations are.
pub proof fn lemma_order_of_operations(
    data: serde_json::Value,
    first: (Seq<char>, bool),
    second: (Seq<char>, bool),
)
    ensures
        extracted(data, seq![first, second]) matches Ok(values) ==> {
            &&& extracted(data, seq![first]) == Ok::<_, FetchErrorView>(seq![values[0]])
            &&& extracted(data, seq![second]) == Ok::<_, FetchErrorView>(seq![values[1]])
            &&& extracted(data, seq![second, first]) == Ok::<_, FetchErrorView>(
                seq![values[1], values[0]],
            )
        },
{
    let both = seq![first, second];
    if extracted(data, both) is Ok {
        let values = extracted(data, both)->Ok_0;
        assert(extracted(data, seq![first])->Ok_0 =~= seq![values[0]]);
        assert(extracted(data, seq![second])->Ok_0 =~= seq![values[1]]);
        assert(extracted(data, seq![second, first])->Ok_0 =~= seq![values[1], values[0]]);
    }
}

impl Wrapper {
    /// The results of the operations, in their order, where the response is
    /// a data envelope that holds them all; else the error that says why
    /// not. There is no partial success.
    pub fn parse(self) -> (out: Result<Vec<serde_json::Value>, FetchError>)
        ensures
            outcome(out) == parsed(self.text@, target_views(self.targets@)),
    {
        match parse(self.text.as_str()) {
            Err(error) => Err(FetchError::Serde(error)),
            Ok(body) => match classify(&body) {
                None => Err(
                    FetchError::Serde(
                        failure(NO_ENVELOPE),
                    ),
                ),
                Some(Response::Data { data }) => extract(&data, &self.targets),
                Some(Response::Errors { errors }) => Err(FetchError::Hasura(errors)),
                Some(Response::NotFound { code, path }) => Err(
                    FetchError::NotFound { code, path },
                ),
            },
        }
    }
}

} // verus!
