//! The values that commands take and give.

use vstd::prelude::*;
use crate::span::Span;

verus! {

broadcast use vstd::std_specs::vec::axiom_vec_index_decreases;

/// A value of the shell language, with the place in the source that it
/// comes from.
#[derive(Debug, PartialEq, Eq)]
pub enum Value {
    Nothing { span: Span },
    Bool { val: bool, span: Span },
    Int { val: i64, span: Span },
    String { val: String, span: Span },
    /// A row: column names and as many values.
    Record { cols: Vec<String>, vals: Vec<Value>, span: Span },
    List { vals: Vec<Value>, span: Span },
}

/// What can go wrong when a command runs.
#[derive(Debug, Clone, PartialEq, Eq)]
pub enum ShellError {
    /// A column that is asked for is not there: where it is asked for, and
    /// where the value stands that lacks it.
    CantFindColumn(Span, Span),
    /// A value cannot be looked into by a column name.
    IncompatiblePathAccess(String, Span),
    /// A value has another type than the one asked for.
    TypeMismatch(String, Span),
    /// A block lacks a parameter that it is called with.
    MissingParameter(String, Span),
}

/// One step into a value.
#[derive(Debug, Clone, PartialEq, Eq)]
pub enum PathMember {
    String { val: String, span: Span },
    Int { val: usize, span: Span },
}

/// A path into a value.
#[derive(Debug, Clone, PartialEq, Eq)]
pub struct CellPath {
    pub members: Vec<PathMember>,
}

/// What flows between the commands of a pipeline: one value, or a stream of
/// values.
#[derive(Debug, PartialEq, Eq)]
pub enum PipelineData {
    Value(Value),
    Stream(Vec<Value>),
}

impl PipelineData {
    /// The values that flow: the items of a list or of a stream, and any
    /// other value alone.
    pub open spec fn values(self) -> Seq<Value> {
        match self {
            PipelineData::Value(Value::List { vals, .. }) => vals@,
            PipelineData::Value(value) => seq![value],
            PipelineData::Stream(vals) => vals@,
        }
    }

    /// The values that flow.
    pub fn into_values(self) -> (values: Vec<Value>)
        ensures
            values@ == self.values(),
    {
        match self {
            PipelineData::Value(Value::List { vals, .. }) => vals,
            PipelineData::Value(value) => {
                let mut values: Vec<Value> = Vec::new();
                values.push(value);
                values
            },
            PipelineData::Stream(vals) => vals,
        }
    }
}

/// The texts of a list of strings.
pub open spec fn names(list: Seq<String>) -> Seq<Seq<char>> {
    list.map_values(|name: String| name@)
}

impl Value {
    /// Where the value comes from.
    pub open spec fn spec_span(&self) -> Span {
        match *self {
            Value::Nothing { span } => span,
            Value::Bool { span, .. } => span,
            Value::Int { span, .. } => span,
            Value::String { span, .. } => span,
            Value::Record { span, .. } => span,
            Value::List { span, .. } => span,
        }
    }

    /// Where the value comes from.
    #[verifier::when_used_as_spec(spec_span)]
    pub fn span(&self) -> (span: Span)
        ensures
            span == self.spec_span(),
    {
        match self {
            Value::Nothing { span } => *span,
            Value::Bool { span, .. } => *span,
            Value::Int { span, .. } => *span,
            Value::String { span, .. } => *span,
            Value::Record { span, .. } => *span,
            Value::List { span, .. } => *span,
        }
    }

    /// Whether two values read the same: the same form, the same texts, and
    /// parts that read the same.
    pub open spec fn same(self, other: Value) -> bool
        decreases self,
    {
        match (self, other) {
            (Value::Nothing { span: a }, Value::Nothing { span: b }) => a == b,
            (Value::Bool { val: x, span: a }, Value::Bool { val: y, span: b }) => x == y && a == b,
            (Value::Int { val: x, span: a }, Value::Int { val: y, span: b }) => x == y && a == b,
            (Value::String { val: x, span: a }, Value::String { val: y, span: b }) => x@ == y@
                && a == b,
            (
                Value::Record { cols: c, vals: v, span: a },
                Value::Record { cols: d, vals: w, span: b },
            ) => {
                &&& names(c@) == names(d@)
                &&& v@.len() == w@.len()
                &&& forall|i: int| 0 <= i < v@.len() ==> (#[trigger] v@[i]).same(w@[i])
                &&& a == b
            },
            (Value::List { vals: v, span: a }, Value::List { vals: w, span: b }) => {
                &&& v@.len() == w@.len()
                &&& forall|i: int| 0 <= i < v@.len() ==> (#[trigger] v@[i]).same(w@[i])
                &&& a == b
            },
            _ => false,
        }
    }

    /// A second value that reads the same.
    pub fn copy(&self) -> (same: Value)
        ensures
            self.same(same),
        decreases *self,
    {
        match self {
            Value::Nothing { span } => Value::Nothing { span: *span },
            Value::Bool { val, span } => Value::Bool { val: *val, span: *span },
            Value::Int { val, span } => Value::Int { val: *val, span: *span },
            Value::String { val, span } => Value::String { val: val.clone(), span: *span },
            Value::Record { cols, vals, span } => {
                let mut names_out: Vec<String> = Vec::new();
                let mut i: usize = 0;
                while i < cols.len()
                    invariant
                        i <= cols@.len(),
                        names_out@.len() == i,
                        forall|j: int| 0 <= j < i ==> #[trigger] names_out@[j] == cols@[j],
                    decreases cols@.len() - i,
                {
                    names_out.push(cols[i].clone());
                    i += 1;
                }
                assert(names(cols@) =~= names(names_out@));
                let mut vals_out: Vec<Value> = Vec::new();
                let mut k: usize = 0;
                while k < vals.len()
                    invariant
                        k <= vals@.len(),
                        vals_out@.len() == k,
                        forall|j: int| 0 <= j < k ==> (#[trigger] vals@[j]).same(vals_out@[j]),
                        *self == (Value::Record { cols: *cols, vals: *vals, span: *span }),
                    decreases vals@.len() - k,
                {
                    assert(decreases_to!(*self => self->Record_vals));
                    assert(decreases_to!(self->Record_vals => self->Record_vals@));
                    assert(decreases_to!(self->Record_vals@ => self->Record_vals@[k as int]));
                    vals_out.push(vals[k].copy());
                    k += 1;
                }
                Value::Record { cols: names_out, vals: vals_out, span: *span }
            },
            Value::List { vals, span } => {
                let mut vals_out: Vec<Value> = Vec::new();
                let mut k: usize = 0;
                while k < vals.len()
                    invariant
                        k <= vals@.len(),
                        vals_out@.len() == k,
                        forall|j: int| 0 <= j < k ==> (#[trigger] vals@[j]).same(vals_out@[j]),
                        *self == (Value::List { vals: *vals, span: *span }),
                    decreases vals@.len() - k,
                {
                    assert(decreases_to!(*self => self->List_vals));
                    assert(decreases_to!(self->List_vals => self->List_vals@));
                    assert(decreases_to!(self->List_vals@ => self->List_vals@[k as int]));
                    vals_out.push(vals[k].copy());
                    k += 1;
                }
                Value::List { vals: vals_out, span: *span }
            },
        }
    }
}

} // verus!
