//! The document builder: it puts a name, a list of parameters and a selection
//! together into the text of one operation.

use vstd::prelude::*;
use crate::fields::{fields_text, FieldView, Fields};
use crate::serializer::{to_string, Literal};
use crate::text::{decimal, join, joined, text_of, unsigned, views};
use crate::traits::{IsEmpty, Render};

verus! {

/// A value that stands for a parameter only where it holds something.
pub trait Maybe {
    /// The text of the value, where the parameter is written at all.
    spec fn shown(&self) -> Option<Seq<char>>;

    /// The text of the value, where the parameter is written at all.
    fn maybe(&self) -> (out: Option<String>)
        ensures
            text_of(out) == self.shown(),
    ;
}

/// A value between braces.
pub struct Braced<'a, T: Render>(pub &'a T);

/// A literal; a struct stands between braces.
pub struct Serialized<'a>(pub &'a Literal);

/// A literal; a struct is written flat, without its braces.
pub struct Flattened<'a>(pub &'a Literal);

/// Values with a comma between each two.
pub struct Separated<'a, T: Render>(pub &'a [T]);

/// A list of literals.
pub struct Separalized<'a>(pub &'a [Literal]);

/// The text of each value, in order.
pub open spec fn texts<T: Render>(values: Seq<T>) -> Seq<Seq<char>> {
    values.map_values(|v: T| v.text())
}

/// The text of each literal, in order.
pub open spec fn literal_texts(values: Seq<Literal>) -> Seq<Seq<char>> {
    values.map_values(|v: Literal| v.rendered(true))
}

impl<'a, T: Render> Render for Braced<'a, T> {
    open spec fn text(&self) -> Seq<char> {
        "{ "@ + self.0.text() + " }"@
    }

    fn render(&self) -> (out: String) {
        let mut out = String::from_str("{ ");
        out.append(self.0.render().as_str());
        out.append(" }");
        out
    }
}

impl<'a, T: Render + IsEmpty> Maybe for Braced<'a, T> {
    open spec fn shown(&self) -> Option<Seq<char>> {
        if self.0.holds_nothing() {
            None
        } else {
            Some(self.text())
        }
    }

    fn maybe(&self) -> (out: Option<String>) {
        if self.0.is_empty() {
            None
        } else {
            Some(self.render())
        }
    }
}

/// A value that holds nothing stands for no parameter, and only such a
/// value.
pub proof fn lemma_braced_empty<T: Render + IsEmpty>(value: Braced<'_, T>)
    ensures
        value.shown() is None <==> value.0.holds_nothing(),
{
}

impl<'a> Render for Serialized<'a> {
    open spec fn text(&self) -> Seq<char> {
        self.0.rendered(true)
    }

    fn render(&self) -> (out: String) {
        to_string(self.0, true)
    }
}

impl<'a> Render for Flattened<'a> {
    open spec fn text(&self) -> Seq<char> {
        self.0.rendered(false)
    }

    fn render(&self) -> (out: String) {
        to_string(self.0, false)
    }
}

impl<'a, T: Render> Render for Separated<'a, T> {
    open spec fn text(&self) -> Seq<char> {
        joined(texts(self.0@), ", "@)
    }

    fn render(&self) -> (out: String) {
        let mut parts: Vec<String> = Vec::new();
        let mut i: usize = 0;
        while i < self.0.len()
            invariant
                i <= self.0.len(),
                parts@.len() == i,
                forall|j: int| 0 <= j < i ==> (#[trigger] parts@[j])@ == self.0@[j].text(),
            decreases self.0.len() - i,
        {
            parts.push(self.0[i].render());
            i += 1;
        }
        assert(views(parts@) == texts(self.0@));
        join(&parts, ", ")
    }
}

impl<'a, T: Render> IsEmpty for Separated<'a, T> {
    open spec fn holds_nothing(&self) -> bool {
        self.0@.len() == 0
    }

    fn is_empty(&self) -> (out: bool) {
        self.0.len() == 0
    }
}

impl<'a, T: Render> Maybe for Separated<'a, T> {
    open spec fn shown(&self) -> Option<Seq<char>> {
        if self.0@.len() == 0 {
            None
        } else {
            Some(self.text())
        }
    }

    fn maybe(&self) -> (out: Option<String>) {
        if self.0.len() == 0 {
            None
        } else {
            Some(self.render())
        }
    }
}

impl<'a> Render for Separalized<'a> {
    open spec fn text(&self) -> Seq<char> {
        "["@ + joined(literal_texts(self.0@), ", "@) + "]"@
    }

    fn render(&self) -> (out: String) {
        let mut parts: Vec<String> = Vec::new();
        let mut i: usize = 0;
        while i < self.0.len()
            invariant
                i <= self.0.len(),
                parts@.len() == i,
                forall|j: int| 0 <= j < i ==> (#[trigger] parts@[j])@ == self.0@[j].rendered(true),
            decreases self.0.len() - i,
        {
            parts.push(to_string(&self.0[i], true));
            i += 1;
        }
        assert(views(parts@) == literal_texts(self.0@));
        let mut out = String::from_str("[");
        out.append(join(&parts, ", ").as_str());
        out.append("]");
        out
    }
}

impl<'a> IsEmpty for Separalized<'a> {
    open spec fn holds_nothing(&self) -> bool {
        self.0@.len() == 0
    }

    fn is_empty(&self) -> (out: bool) {
        self.0.len() == 0
    }
}

impl<'a> Maybe for Separalized<'a> {
    open spec fn shown(&self) -> Option<Seq<char>> {
        if self.0@.len() == 0 {
            None
        } else {
            Some(self.text())
        }
    }

    fn maybe(&self) -> (out: Option<String>) {
        if self.0.len() == 0 {
            None
        } else {
            Some(self.render())
        }
    }
}

impl<T: Render> Maybe for Option<T> {
    open spec fn shown(&self) -> Option<Seq<char>> {
        match self {
            Some(value) => Some(value.text()),
            None => None,
        }
    }

    fn maybe(&self) -> (out: Option<String>) {
        match self {
            Some(value) => Some(value.render()),
            None => None,
        }
    }
}

impl Render for u64 {
    open spec fn text(&self) -> Seq<char> {
        decimal(*self as nat)
    }

    fn render(&self) -> (out: String) {
        unsigned(*self)
    }
}

/// What a builder has been given so far.
pub struct BuilderView {
    pub name: Seq<char>,
    pub returning: Seq<FieldView>,
    /// The parameters in the order in which they came: key and text.
    pub params: Seq<(Seq<char>, Seq<char>)>,
    /// The primary key that goes in front of the parameters.
    pub pk: Option<Seq<char>>,
    pub affected: bool,
    pub explicit: bool,
}

/// The parameters with one more, `key`, where `shown` holds a text for it.
pub open spec fn added(
    params: Seq<(Seq<char>, Seq<char>)>,
    key: Seq<char>,
    shown: Option<Seq<char>>,
) -> Seq<(Seq<char>, Seq<char>)> {
    match shown {
        Some(text) => params.push((key, text)),
        None => params,
    }
}

/// The text of each parameter: its key, a colon, its value.
pub open spec fn param_texts(params: Seq<(Seq<char>, Seq<char>)>) -> Seq<Seq<char>> {
    params.map_values(|p: (Seq<char>, Seq<char>)| p.0 + ": "@ + p.1)
}

/// The parameter list. A primary key stands first, with a comma behind it;
/// without one, and without parameters, there is no list and no parenthesis.
pub open spec fn arguments(pk: Option<Seq<char>>, params: Seq<(Seq<char>, Seq<char>)>) -> Seq<
    char,
> {
    let list = joined(param_texts(params), ", "@);
    match pk {
        Some(pk) => "("@ + pk + ", "@ + list + ")"@,
        None => if params.len() == 0 {
            Seq::empty()
        } else {
            "("@ + list + ")"@
        },
    }
}

/// What an operation selects: the fields, under `returning` where that is
/// explicit, and the count of the affected rows behind them where asked for.
pub open spec fn selection(fields: Seq<char>, affected: bool, explicit: bool) -> Seq<char> {
    let rows = if explicit {
        "returning { "@ + fields + " }"@
    } else {
        fields
    };
    if affected {
        rows + " affected_rows"@
    } else {
        rows
    }
}

/// The text of an operation: its name, its parameter list, and its selection
/// between braces.
pub open spec fn document(b: BuilderView) -> Seq<char> {
    b.name + arguments(b.pk, b.params) + " { "@ + selection(
        fields_text(b.returning),
        b.affected,
        b.explicit,
    ) + " }"@
}

/// The text of an operation starts with its name.
pub proof fn lemma_document_starts_with_name(b: BuilderView)
    ensures
        document(b).len() >= b.name.len(),
        document(b).subrange(0, b.name.len() as int) == b.name,
{
}

/// A value that holds nothing leaves no trace: the text of the operation is
/// the same as if the parameter had never been mentioned.
pub proof fn lemma_omitted(b: BuilderView, key: Seq<char>)
    ensures
        document(BuilderView { params: added(b.params, key, None), ..b }) == document(b),
{
}

/// Assembles the text of one operation.
pub struct Builder<'a> {
    name: String,
    returning: &'a Fields,
    params: Vec<(String, String)>,
    pk: Option<String>,
    affected: bool,
    explicit: bool,
}

/// The views of the parameters.
pub open spec fn param_views(params: Seq<(String, String)>) -> Seq<(Seq<char>, Seq<char>)> {
    params.map_values(|p: (String, String)| (p.0@, p.1@))
}

impl<'a> View for Builder<'a> {
    type V = BuilderView;

    closed spec fn view(&self) -> BuilderView {
        BuilderView {
            name: self.name@,
            returning: self.returning@,
            params: param_views(self.params@),
            pk: text_of(self.pk),
            affected: self.affected,
            explicit: self.explicit,
        }
    }
}

/// The text of the selection of an operation.
pub fn select(returning: &Fields, affected: bool, explicit: bool) -> (out: String)
    ensures
        out@ == selection(fields_text(returning@), affected, explicit),
{
    let mut out = String::new();
    if explicit {
        out.append("returning { ");
        out.append(returning.to_string().as_str());
        out.append(" }");
    } else {
        out.append(returning.to_string().as_str());
    }
    if affected {
        out.append(" affected_rows");
    }
    out
}

impl<'a> Builder<'a> {
    /// A builder for the operation `name` that selects `returning`, without
    /// parameters so far.
    pub fn new(name: String, returning: &'a Fields) -> (out: Builder<'a>)
        ensures
            out@ == (BuilderView {
                name: name@,
                returning: returning@,
                params: Seq::empty(),
                pk: None,
                affected: false,
                explicit: false,
            }),
    {
        let out = Builder {
            name,
            returning,
            params: Vec::new(),
            pk: None,
            affected: false,
            explicit: false,
        };
        assert(param_views(out.params@) == Seq::<(Seq<char>, Seq<char>)>::empty());
        out
    }

    /// Adds the parameter `key` with the text of `value`.
    pub fn param<D: Render>(self, key: &str, value: &D) -> (out: Builder<'a>)
        ensures
            out@ == (BuilderView { params: self@.params.push((key@, value.text())), ..self@ }),
    {
        let mut out = self;
        let ghost before = out.params@;
        let entry = (String::from_str(key), value.render());
        out.params.push(entry);
        assert(param_views(before.push(entry)) == param_views(before).push((key@, value.text())));
        out
    }

    /// Adds the parameter `key` where `value` holds something, and nothing
    /// where it does not.
    pub fn maybe<D: Maybe>(self, key: &str, value: &D) -> (out: Builder<'a>)
        ensures
            out@ == (BuilderView { params: added(self@.params, key@, value.shown()), ..self@ }),
    {
        match value.maybe() {
            Some(text) => {
                let mut out = self;
                let ghost before = out.params@;
                let entry = (String::from_str(key), text);
                out.params.push(entry);
                assert(param_views(before.push(entry)) == param_views(before).push(
                    (key@, text@),
                ));
                out
            },
            None => self,
        }
    }

    /// Adds the parameter `key` with the text of `value`, unless the value
    /// holds nothing.
    pub fn vector<D: Render + IsEmpty>(self, key: &str, value: &D) -> (out: Builder<'a>)
        ensures
            out@ == (BuilderView {
                params: added(
                    self@.params,
                    key@,
                    if value.holds_nothing() {
                        None
                    } else {
                        Some(value.text())
                    },
                ),
                ..self@
            }),
    {
        if value.is_empty() {
            self
        } else {
            self.param(key, value)
        }
    }

    /// Whether the count of the affected rows is selected too.
    pub fn affected(self, affected: bool) -> (out: Builder<'a>)
        ensures
            out@ == (BuilderView { affected, ..self@ }),
    {
        let mut out = self;
        out.affected = affected;
        out
    }

    /// Puts the primary key in front of the parameters.
    pub fn pk<D: Render>(self, pk: &D) -> (out: Builder<'a>)
        ensures
            out@ == (BuilderView { pk: Some(pk.text()), ..self@ }),
    {
        let mut out = self;
        out.pk = Some(pk.render());
        out
    }

    /// Whether the fields stand under `returning`.
    pub fn explicit(self, explicit: bool) -> (out: Builder<'a>)
        ensures
            out@ == (BuilderView { explicit, ..self@ }),
    {
        let mut out = self;
        out.explicit = explicit;
        out
    }

    /// The text of the operation.
    pub fn write(self) -> (out: String)
        ensures
            out@ == document(self@),
    {
        let mut out = self.name.clone();
        let mut parts: Vec<String> = Vec::new();
        let mut i: usize = 0;
        while i < self.params.len()
            invariant
                i <= self.params.len(),
                parts@.len() == i,
                forall|j: int|
                    0 <= j < i ==> (#[trigger] parts@[j])@ == self.params@[j].0@ + ": "@
                        + self.params@[j].1@,
            decreases self.params.len() - i,
        {
            let mut part = self.params[i].0.clone();
            part.append(": ");
            part.append(self.params[i].1.as_str());
            parts.push(part);
            i += 1;
        }
        assert(views(parts@) == param_texts(self@.params));
        let list = join(&parts, ", ");
        match &self.pk {
            Some(pk) => {
                out.append("(");
                out.append(pk.as_str());
                out.append(", ");
                out.append(list.as_str());
                out.append(")");
            },
            None => {
                if self.params.len() > 0 {
                    out.append("(");
                    out.append(list.as_str());
                    out.append(")");
                }
            },
        }
        out.append(" { ");
        out.append(select(self.returning, self.affected, self.explicit).as_str());
        out.append(" }");
        out
    }
}

} // verus!
