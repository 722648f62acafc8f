//! The filters `all?`, `default` and `reject`: what each does to the values
//! that come down a pipeline.

use vstd::prelude::*;
use crate::ast::{BlockId, Call, Category, Signature, SyntaxShape};
use crate::span::Span;
use crate::value::{names, CellPath, PathMember, PipelineData, ShellError, Value};

verus! {

/// A use of a command, with what it gives where that is known.
#[derive(Debug, PartialEq, Eq)]
pub struct Example {
    pub description: String,
    pub example: String,
    pub result: Option<Value>,
}

/// `all?`: whether every element of the input matches a predicate.
#[derive(Clone, Copy, Debug, PartialEq, Eq, Structural)]
pub struct All;

/// `default`: gives a row a column that it lacks.
#[derive(Clone, Copy, Debug, PartialEq, Eq, Structural)]
pub struct Default;

/// `reject`: takes columns out of a table.
#[derive(Clone, Copy, Debug, PartialEq, Eq, Structural)]
pub struct Reject;

/// Whether every verdict is a yes.
pub open spec fn all_hold(verdicts: Seq<bool>) -> bool {
    forall|i: int| 0 <= i < verdicts.len() ==> verdicts[i]
}

impl All {
    /// The name of the command.
    pub fn name(&self) -> (name: &'static str)
        ensures
            name@ == "all?"@,
    {
        "all?"
    }

    /// What the command is for.
    pub fn usage(&self) -> (usage: &'static str)
        ensures
            usage@ == "Test if every element of the input matches a predicate."@,
    {
        "Test if every element of the input matches a predicate."
    }

    /// The parameters of the command: one condition on rows.
    pub fn signature(&self) -> (signature: Signature)
        ensures
            signature@.name == "all?"@,
            signature@.required_positional.len() == 1,
            signature@.required_positional[0].name@ == "predicate"@,
            signature@.required_positional[0].shape == SyntaxShape::RowCondition,
            signature@.optional_positional.len() == 0,
            signature@.rest_positional is None,
            signature@.named.len() == 0,
            signature@.category == Category::Filters,
    {
        Signature::build("all?").required(
            "predicate",
            SyntaxShape::RowCondition,
            "the predicate that must match",
        ).category(Category::Filters)
    }

    /// Two uses of the command, both of which give `true`.
    pub fn examples(&self) -> (examples: Vec<Example>)
        ensures
            examples@.len() == 2,
            forall|i: int|
                0 <= i < 2 ==> (#[trigger] examples@[i]).result == Some(
                    Value::Bool { val: true, span: Span { start: 0, end: 0 } },
                ),
            examples@[0].example@ == "echo [[status]; [UP] [UP]] | all? status == UP"@,
            examples@[1].example@ == "echo [2 4 6 8] | all? ($it mod 2) == 0"@,
    {
        let mut examples: Vec<Example> = Vec::new();
        examples.push(
            Example {
                description: "Find if services are running".to_owned(),
                example: "echo [[status]; [UP] [UP]] | all? status == UP".to_owned(),
                result: Some(Value::Bool { val: true, span: Span { start: 0, end: 0 } }),
            },
        );
        examples.push(
            Example {
                description: "Check that all values are even".to_owned(),
                example: "echo [2 4 6 8] | all? ($it mod 2) == 0".to_owned(),
                result: Some(Value::Bool { val: true, span: Span { start: 0, end: 0 } }),
            },
        );
        examples
    }

    /// The block of the predicate that a call of the command carries as its
    /// first argument; a call with anything else there is mistyped.
    pub fn predicate(&self, call: &Call) -> (block: Result<BlockId, ShellError>)
        ensures
            match block {
                Ok(id) => call.positional@.len() > 0
                    && call.positional@[0].spec_as_row_condition_block() == Some(id),
                Err(error) => {
                    &&& call.positional@.len() == 0
                        || call.positional@[0].spec_as_row_condition_block() is None
                    &&& error matches ShellError::TypeMismatch(text, at)
                    &&& text@ == "expected row condition"@
                    &&& at == call.head
                },
            },
    {
        if call.positional.len() > 0 {
            match call.positional[0].as_row_condition_block() {
                Some(id) => {
                    return Ok(id);
                },
                None => {},
            }
        }
        Err(ShellError::TypeMismatch("expected row condition".to_owned(), call.head))
    }

    /// What the command gives for the verdicts of the predicate on the
    /// elements of its input: `true` if all of them hold, at the head of the
    /// call.
    pub fn run(&self, verdicts: &[bool], span: Span) -> (output: PipelineData)
        ensures
            output == PipelineData::Value(Value::Bool { val: all_hold(verdicts@), span }),
    {
        let mut i: usize = 0;
        while i < verdicts.len()
            invariant
                i <= verdicts@.len(),
                forall|j: int| 0 <= j < i ==> verdicts@[j],
            decreases verdicts@.len() - i,
        {
            if !verdicts[i] {
                return PipelineData::Value(Value::Bool { val: false, span });
            }
            i += 1;
        }
        PipelineData::Value(Value::Bool { val: true, span })
    }
}

/// Whether one of the names is `name`.
pub open spec fn has_name(list: Seq<String>, name: Seq<char>) -> bool {
    exists|i: int| 0 <= i < list.len() && (#[trigger] list[i])@ == name
}

/// Whether entry `i` is the first with the text `name`.
pub open spec fn is_first_named(list: Seq<String>, name: Seq<char>, i: int) -> bool {
    &&& 0 <= i < list.len()
    &&& list[i]@ == name
    &&& forall|j: int| 0 <= j < i ==> (#[trigger] list[j])@ != name
}

fn position(list: &Vec<String>, name: &String) -> (at: Option<usize>)
    ensures
        match at {
            Some(i) => is_first_named(list@, name@, i as int),
            None => !has_name(list@, name@),
        },
{
    let mut i: usize = 0;
    while i < list.len()
        invariant
            i <= list@.len(),
            forall|j: int| 0 <= j < i ==> (#[trigger] list@[j])@ != name@,
        decreases list@.len() - i,
    {
        if list[i] == *name {
            return Some(i);
        }
        i += 1;
    }
    None
}

/// Whether `after` is the row `before` with the column `column` set to a
/// value that reads as `value`, if the row lacks that column; and `before`
/// itself if it has the column or is no row.
pub open spec fn is_defaulted(
    before: Value,
    column: Seq<char>,
    value: Value,
    after: Value,
) -> bool {
    match before {
        Value::Record { cols, vals, span } if !has_name(cols@, column) => {
            &&& after matches Value::Record { cols: c, vals: v, span: s }
            &&& c@.len() == cols@.len() + 1
            &&& c@.drop_last() == cols@
            &&& c@.last()@ == column
            &&& v@.len() == vals@.len() + 1
            &&& v@.drop_last() == vals@
            &&& value.same(v@.last())
            &&& s == span
        },
        _ => after == before,
    }
}

impl Default {
    /// The name of the command.
    pub fn name(&self) -> (name: &'static str)
        ensures
            name@ == "default"@,
    {
        "default"
    }

    /// What the command is for.
    pub fn usage(&self) -> (usage: &'static str)
        ensures
            usage@ == "Sets a default row's column if missing."@,
    {
        "Sets a default row's column if missing."
    }

    /// The parameters of the command: the name of the column, and its value.
    pub fn signature(&self) -> (signature: Signature)
        ensures
            signature@.name == "default"@,
            signature@.required_positional.len() == 2,
            signature@.required_positional[0].name@ == "column name"@,
            signature@.required_positional[0].shape == SyntaxShape::String,
            signature@.required_positional[1].name@ == "column value"@,
            signature@.required_positional[1].shape == SyntaxShape::Any,
            signature@.optional_positional.len() == 0,
            signature@.rest_positional is None,
            signature@.named.len() == 0,
            signature@.category == Category::Default,
    {
        let first = Signature::build("default").required(
            "column name",
            SyntaxShape::String,
            "the name of the column",
        );
        let ghost one = first@.required_positional;
        let second = first.required(
            "column value",
            SyntaxShape::Any,
            "the value of the column to default",
        );
        assert(second@.required_positional[0] == one[0]) by {
            assert(second@.required_positional.drop_last()[0] == one[0]);
        }
        second
    }

    /// One use of the command: a row of two columns gets a third.
    pub fn examples(&self) -> (examples: Vec<Example>)
        ensures
            examples@.len() == 1,
            examples@[0].example@ == "echo [[\"Hello\" \"World\"]; [1 2]] | default Spam 3"@,
            examples@[0].result is Some,
    {
        let mut cols: Vec<String> = Vec::new();
        cols.push("Hello".to_owned());
        cols.push("World".to_owned());
        cols.push("Spam".to_owned());
        let at = Span { start: 0, end: 0 };
        let mut vals: Vec<Value> = Vec::new();
        vals.push(Value::Int { val: 1, span: at });
        vals.push(Value::Int { val: 2, span: at });
        vals.push(Value::Int { val: 3, span: at });
        let mut rows: Vec<Value> = Vec::new();
        rows.push(Value::Record { cols, vals, span: at });
        let mut examples: Vec<Example> = Vec::new();
        examples.push(
            Example {
                description: "Add the column 'Spam' with default value 3".to_owned(),
                example: "echo [[\"Hello\" \"World\"]; [1 2]] | default Spam 3".to_owned(),
                result: Some(Value::List { vals: rows, span: at }),
            },
        );
        examples
    }

    /// Runs the command on its input.
    pub fn run(&self, column: &String, value: &Value, input: PipelineData) -> (output:
        PipelineData)
        ensures
            defaults_to(column@, *value, input, output),
    {
        default(column, value, input)
    }
}

fn default_item(column: &String, value: &Value, item: Value) -> (after: Value)
    ensures
        is_defaulted(item, column@, *value, after),
{
    match item {
        Value::Record { cols, vals, span } => {
            match position(&cols, column) {
                Some(i) => {
                    assert(cols@[i as int]@ == column@);
                    Value::Record { cols, vals, span }
                },
                None => {
                    let mut cols = cols;
                    let mut vals = vals;
                    let ghost before_cols = cols@;
                    let ghost before_vals = vals@;
                    cols.push(column.clone());
                    vals.push(value.copy());
                    assert(cols@.drop_last() =~= before_cols);
                    assert(vals@.drop_last() =~= before_vals);
                    Value::Record { cols, vals, span }
                },
            }
        },
        other => other,
    }
}

/// Whether `output` holds, for each of `input`, what `default` makes of it.
pub open spec fn are_defaulted(
    input: Seq<Value>,
    column: Seq<char>,
    value: Value,
    output: Seq<Value>,
) -> bool {
    &&& output.len() == input.len()
    &&& forall|i: int|
        0 <= i < input.len() ==> is_defaulted(input[i], column, value, #[trigger] output[i])
}

fn default_items(column: &String, value: &Value, input: Vec<Value>) -> (output: Vec<Value>)
    ensures
        are_defaulted(input@, column@, *value, output@),
{
    let ghost all = input@;
    let mut rest = input;
    let mut output: Vec<Value> = Vec::new();
    while rest.len() > 0
        invariant
            output@.len() + rest@.len() == all.len(),
            rest@ == all.subrange(output@.len() as int, all.len() as int),
            forall|i: int|
                0 <= i < output@.len() ==> is_defaulted(
                    all[i],
                    column@,
                    *value,
                    #[trigger] output@[i],
                ),
        decreases rest@.len(),
    {
        let item = rest.remove(0);
        let after = default_item(column, value, item);
        output.push(after);
        assert(rest@ =~= all.subrange(output@.len() as int, all.len() as int));
    }
    output
}

/// Whether `output` is what `default` gives for `input`: a stream of the
/// items of a list or of a stream, each with the column if it lacked it; and
/// of any other value that value, with the column if it is a row that lacked
/// it.
pub open spec fn defaults_to(
    column: Seq<char>,
    value: Value,
    input: PipelineData,
    output: PipelineData,
) -> bool {
    match input {
        PipelineData::Value(Value::List { vals, .. }) => output matches PipelineData::Stream(
            items,
        ) && are_defaulted(vals@, column, value, items@),
        PipelineData::Stream(vals) => output matches PipelineData::Stream(items)
            && are_defaulted(vals@, column, value, items@),
        PipelineData::Value(item) => output matches PipelineData::Value(after) && is_defaulted(
            item,
            column,
            value,
            after,
        ),
    }
}

/// Gives every row of `input` that lacks the column `column` that column,
/// with a value that reads as `value`. Rows that have the column, and values
/// that are no rows, pass unchanged.
pub fn default(column: &String, value: &Value, input: PipelineData) -> (output: PipelineData)
    ensures
        defaults_to(column@, *value, input, output),
{
    match input {
        PipelineData::Value(Value::List { vals, .. }) => PipelineData::Stream(
            default_items(column, value, vals),
        ),
        PipelineData::Stream(vals) => PipelineData::Stream(default_items(column, value, vals)),
        PipelineData::Value(item) => PipelineData::Value(default_item(column, value, item)),
    }
}

/// The list without the first entry that reads `name`; the last entry takes
/// its place. The list itself if no entry reads `name`.
pub open spec fn without(list: Seq<String>, name: Seq<char>) -> Seq<String> {
    if has_name(list, name) {
        list.update(choose|i: int| is_first_named(list, name, i), list.last()).drop_last()
    } else {
        list
    }
}

/// The columns that are left of `input` after the first `n` of `rejects`
/// were taken out, one after the other.
pub open spec fn kept(input: Seq<String>, rejects: Seq<String>, n: int) -> Seq<String>
    decreases n,
{
    if n <= 0 || n > rejects.len() {
        input
    } else {
        without(kept(input, rejects, n - 1), rejects[n - 1]@)
    }
}

/// The columns of a table that are left after those named in `rejects` were
/// taken out. A column that is taken out leaves its place to the last column.
pub fn get_keep_columns(input: Vec<String>, rejects: Vec<String>) -> (columns: Vec<String>)
    ensures
        columns@ == kept(input@, rejects@, rejects@.len() as int),
{
    let mut columns = input;
    let mut n: usize = 0;
    while n < rejects.len()
        invariant
            n <= rejects@.len(),
            columns@ == kept(input@, rejects@, n as int),
        decreases rejects@.len() - n,
    {
        match position(&columns, &rejects[n]) {
            Some(i) => {
                proof {
                    let first = choose|j: int| is_first_named(columns@, rejects@[n as int]@, j);
                    assert(is_first_named(columns@, rejects@[n as int]@, i as int));
                    if first < i {
                        assert(columns@[first]@ != rejects@[n as int]@);
                    }
                    if i < first {
                        assert(columns@[i as int]@ != rejects@[n as int]@);
                    }
                }
                columns.swap_remove(i);
            },
            None => {},
        }
        n += 1;
    }
    columns
}

/// Whether `columns` are the columns of a table: those of its first row,
/// and one nameless column where the table is empty or starts with something
/// else than a row.
pub open spec fn is_input_cols(input: Seq<Value>, columns: Seq<String>) -> bool {
    if input.len() > 0 && input[0] is Record {
        columns == input[0]->cols@
    } else {
        columns.len() == 1 && columns[0]@ == Seq::<char>::empty()
    }
}

/// The columns of a table.
pub fn get_input_cols(input: &Vec<Value>) -> (columns: Vec<String>)
    ensures
        is_input_cols(input@, columns@),
{
    if input.len() > 0 {
        match &input[0] {
            Value::Record { cols, .. } => {
                let mut columns: Vec<String> = Vec::new();
                let mut i: usize = 0;
                while i < cols.len()
                    invariant
                        i <= cols@.len(),
                        columns@ == cols@.take(i as int),
                    decreases cols@.len() - i,
                {
                    columns.push(cols[i].clone());
                    assert(cols@.take(i + 1) =~= cols@.take(i as int).push(cols@[i as int]));
                    i += 1;
                }
                assert(cols@.take(i as int) =~= cols@);
                return columns;
            },
            _ => {},
        }
    }
    let mut columns: Vec<String> = Vec::new();
    columns.push(String::new());
    columns
}

/// For each column name the path of one step that leads to that column.
pub fn get_cellpath_columns(keep_cols: Vec<String>, span: Span) -> (paths: Vec<CellPath>)
    ensures
        paths@.len() == keep_cols@.len(),
        forall|i: int|
            0 <= i < keep_cols@.len() ==> (#[trigger] paths@[i]).members@ == seq![
                PathMember::String { val: keep_cols@[i], span },
            ],
{
    let mut paths: Vec<CellPath> = Vec::new();
    let mut i: usize = 0;
    while i < keep_cols.len()
        invariant
            i <= keep_cols@.len(),
            paths@.len() == i,
            forall|j: int|
                0 <= j < i ==> (#[trigger] paths@[j]).members@ == seq![
                    PathMember::String { val: keep_cols@[j], span },
                ],
        decreases keep_cols@.len() - i,
    {
        let mut members: Vec<PathMember> = Vec::new();
        members.push(PathMember::String { val: keep_cols[i].clone(), span });
        paths.push(CellPath { members });
        i += 1;
    }
    paths
}

/// Whether `found` is what the column `name` of `value` holds, asked for at
/// `at`: the first column of that name of a row. A row without that column
/// cannot give it, and a value that is no row cannot be looked into.
pub open spec fn is_column(
    value: Value,
    name: Seq<char>,
    at: Span,
    found: Result<Value, ShellError>,
) -> bool {
    match value {
        Value::Record { cols, vals, span } => if exists|i: int|
            is_first_named(cols@, name, i) && i < vals@.len() {
            let i = choose|i: int| is_first_named(cols@, name, i) && i < vals@.len();
            found matches Ok(held) && vals@[i].same(held)
        } else {
            found == Err::<Value, ShellError>(ShellError::CantFindColumn(at, span))
        },
        other => found matches Err(ShellError::IncompatiblePathAccess(text, s)) && text@
            == "column of a value that is no row"@ && s == at,
    }
}

fn column(value: &Value, name: &String, at: Span) -> (found: Result<Value, ShellError>)
    ensures
        is_column(*value, name@, at, found),
{
    match value {
        Value::Record { cols, vals, span } => {
            match position(cols, name) {
                Some(i) => {
                    if i < vals.len() {
                        proof {
                            let first = choose|j: int|
                                is_first_named(cols@, name@, j) && j < vals@.len();
                            assert(is_first_named(cols@, name@, i as int));
                            if first < i {
                                assert(cols@[first]@ != name@);
                            }
                            if i < first {
                                assert(cols@[i as int]@ != name@);
                            }
                        }
                        Ok(vals[i].copy())
                    } else {
                        proof {
                            if exists|j: int| is_first_named(cols@, name@, j) && j < vals@.len() {
                                let first = choose|j: int|
                                    is_first_named(cols@, name@, j) && j < vals@.len();
                                if first < i {
                                    assert(cols@[first]@ != name@);
                                }
                                if i < first {
                                    assert(cols@[i as int]@ != name@);
                                }
                            }
                        }
                        Err(ShellError::CantFindColumn(at, *span))
                    }
                },
                None => {
                    proof {
                        if exists|j: int| is_first_named(cols@, name@, j) && j < vals@.len() {
                            let first = choose|j: int|
                                is_first_named(cols@, name@, j) && j < vals@.len();
                            assert(cols@[first]@ == name@);
                        }
                    }
                    Err(ShellError::CantFindColumn(at, *span))
                },
            }
        },
        _ => Err(
            ShellError::IncompatiblePathAccess("column of a value that is no row".to_owned(), at),
        ),
    }
}

/// Whether `row` is the row of the columns `columns` of `value`, in that
/// order, asked for and standing at `span`.
pub open spec fn is_projection(value: Value, columns: Seq<String>, span: Span, row: Value) -> bool {
    &&& row matches Value::Record { cols, vals, span: s }
    &&& cols@ == columns
    &&& vals@.len() == columns.len()
    &&& forall|i: int|
        0 <= i < columns.len() ==> is_column(
            value,
            (#[trigger] columns[i])@,
            span,
            Ok(vals@[i]),
        )
    &&& s == span
}

fn project(value: &Value, columns: &Vec<String>, span: Span) -> (row: Result<Value, ShellError>)
    ensures
        match row {
            Ok(made) => is_projection(*value, columns@, span, made),
            Err(error) => exists|i: int|
                0 <= i < columns@.len() && #[trigger] is_column(
                    *value,
                    columns@[i]@,
                    span,
                    Err(error),
                ),
        },
{
    let mut cols: Vec<String> = Vec::new();
    let mut vals: Vec<Value> = Vec::new();
    let mut i: usize = 0;
    while i < columns.len()
        invariant
            i <= columns@.len(),
            cols@ == columns@.take(i as int),
            vals@.len() == i,
            forall|j: int|
                0 <= j < i ==> is_column(*value, (#[trigger] columns@[j])@, span, Ok(vals@[j])),
        decreases columns@.len() - i,
    {
        match column(value, &columns[i], span) {
            Ok(held) => {
                cols.push(columns[i].clone());
                vals.push(held);
                assert(columns@.take(i + 1) =~= columns@.take(i as int).push(columns@[i as int]));
            },
            Err(error) => {
                return Err(error);
            },
        }
        i += 1;
    }
    assert(columns@.take(i as int) =~= columns@);
    Ok(Value::Record { cols, vals, span })
}

/// Whether `output` holds, for each of `rows`, the row of its columns
/// `columns`.
pub open spec fn is_table(
    rows: Seq<Value>,
    columns: Seq<String>,
    span: Span,
    output: Seq<Value>,
) -> bool {
    &&& output.len() == rows.len()
    &&& forall|i: int|
        0 <= i < rows.len() ==> is_projection(rows[i], columns, span, #[trigger] output[i])
}

/// Whether `output` is what taking the columns `columns` out of the table
/// `rows` gives: the table of the columns that are left of those of the first
/// row; or, where a row cannot give one of these columns, the error of the
/// first such row and column.
pub open spec fn is_rejected(
    rows: Seq<Value>,
    columns: Seq<String>,
    span: Span,
    output: Result<Vec<Value>, ShellError>,
) -> bool {
    exists|given: Seq<String>|
        {
            let keep = kept(given, columns, columns.len() as int);
            &&& #[trigger] is_input_cols(rows, given)
            &&& match output {
                Ok(table) => is_table(rows, keep, span, table@),
                Err(error) => exists|i: int, j: int|
                    0 <= i < rows.len() && 0 <= j < keep.len() && #[trigger] is_column(
                        rows[i],
                        keep[j]@,
                        span,
                        Err(error),
                    ),
            }
        }
}

fn reject_rows(rows: Vec<Value>, columns: Vec<String>, span: Span) -> (output: Result<
    Vec<Value>,
    ShellError,
>)
    ensures
        is_rejected(rows@, columns@, span, output),
{
    let input_columns = get_input_cols(&rows);
    let ghost given = input_columns@;
    let keep = get_keep_columns(input_columns, columns);
    let mut output: Vec<Value> = Vec::new();
    let mut i: usize = 0;
    while i < rows.len()
        invariant
            i <= rows@.len(),
            output@.len() == i,
            is_input_cols(rows@, given),
            keep@ == kept(given, columns@, columns@.len() as int),
            forall|j: int|
                0 <= j < i ==> is_projection(rows@[j], keep@, span, #[trigger] output@[j]),
        decreases rows@.len() - i,
    {
        match project(&rows[i], &keep, span) {
            Ok(row) => {
                output.push(row);
            },
            Err(error) => {
                proof {
                    let j = choose|j: int|
                        0 <= j < keep@.len() && #[trigger] is_column(
                            rows@[i as int],
                            keep@[j]@,
                            span,
                            Err(error),
                        );
                    assert(is_column(rows@[i as int], keep@[j]@, span, Err(error)));
                    assert(is_input_cols(rows@, given));
                }
                return Err(error);
            },
        }
        i += 1;
    }
    proof {
        assert(is_table(rows@, keep@, span, output@));
        assert(is_input_cols(rows@, given));
    }
    Ok(output)
}

impl Reject {
    /// The name of the command.
    pub fn name(&self) -> (name: &'static str)
        ensures
            name@ == "reject"@,
    {
        "reject"
    }

    /// What the command is for.
    pub fn usage(&self) -> (usage: &'static str)
        ensures
            usage@
                == "Remove the given columns from the table. If you want to remove rows, try 'drop'."@,
    {
        "Remove the given columns from the table. If you want to remove rows, try 'drop'."
    }

    /// The parameters of the command: any number of column names.
    pub fn signature(&self) -> (signature: Signature)
        ensures
            signature@.name == "reject"@,
            signature@.required_positional.len() == 0,
            signature@.optional_positional.len() == 0,
            signature@.rest_positional matches Some(arg) && arg.name@ == "rest"@ && arg.shape
                == SyntaxShape::String,
            signature@.named.len() == 0,
            signature@.category == Category::Filters,
    {
        Signature::build("reject").rest(
            "rest",
            SyntaxShape::String,
            "the names of columns to remove from the table",
        ).category(Category::Filters)
    }

    /// Runs the command on its input.
    pub fn run(&self, span: Span, input: PipelineData, columns: Vec<String>) -> (output: Result<
        PipelineData,
        ShellError,
    >)
        ensures
            rejects_to(span, input, columns@, output),
    {
        reject(span, input, columns)
    }
}

/// Whether `output` is what `reject` gives for `input`.
pub open spec fn rejects_to(
    span: Span,
    input: PipelineData,
    columns: Seq<String>,
    output: Result<PipelineData, ShellError>,
) -> bool {
    if columns.len() == 0 {
        output == Err::<PipelineData, ShellError>(ShellError::CantFindColumn(span, span))
    } else {
        match input {
            PipelineData::Value(Value::List { vals, span: at }) => match output {
                Ok(PipelineData::Stream(table)) => is_rejected(vals@, columns, at, Ok(table)),
                Ok(_) => false,
                Err(error) => is_rejected(vals@, columns, at, Err(error)),
            },
            PipelineData::Stream(vals) => match output {
                Ok(PipelineData::Stream(table)) => is_rejected(vals@, columns, span, Ok(table)),
                Ok(_) => false,
                Err(error) => is_rejected(vals@, columns, span, Err(error)),
            },
            PipelineData::Value(_) => {
                &&& output matches Ok(PipelineData::Value(Value::Record { cols, vals, span: at }))
                &&& cols@.len() == 0
                &&& vals@.len() == 0
                &&& at == span
            },
        }
    }
}

/// Takes the columns named in `columns` out of a table.
///
/// Without a column to take out there is nothing to do: the column cannot
/// be found. A list, or a stream, gives a stream of rows: for each value the
/// row of the columns that are left of those of the first row. A list gives
/// these rows its own span, a stream that of the call. A row that lacks one of
/// the columns left, or a value that is no row, is an error. Any other value
/// gives the row without columns.
pub fn reject(span: Span, input: PipelineData, columns: Vec<String>) -> (output: Result<
    PipelineData,
    ShellError,
>)
    ensures
        rejects_to(span, input, columns@, output),
{
    if columns.len() == 0 {
        return Err(ShellError::CantFindColumn(span, span));
    }
    match input {
        PipelineData::Value(Value::List { vals, span: at }) => {
            match reject_rows(vals, columns, at) {
                Ok(table) => Ok(PipelineData::Stream(table)),
                Err(error) => Err(error),
            }
        },
        PipelineData::Stream(vals) => {
            match reject_rows(vals, columns, span) {
                Ok(table) => Ok(PipelineData::Stream(table)),
                Err(error) => Err(error),
            }
        },
        PipelineData::Value(_) => Ok(
            PipelineData::Value(Value::Record { cols: Vec::new(), vals: Vec::new(), span }),
        ),
    }
}

} // verus!
