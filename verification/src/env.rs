//! Environment variables between text and values.
//!
//! A variable can have two conversions: a block that makes a value of its
//! text, and one that makes text of its value. This module decides what is
//! to be done with a variable, and gathers what came of it; to run a block,
//! and to print a value, is the caller's part.

use vstd::prelude::*;
use crate::ast::{BlockId, VarId};
use crate::span::Span;
use crate::value::{ShellError, Value};
use crate::working_set::WorkingSet;
use crate::model::WorkingSetView;

verus! {

/// The conversions of one environment variable: for each direction the
/// block that converts, and where the conversion is written down.
#[derive(Clone, Copy, Debug, PartialEq, Eq)]
pub struct EnvConversion {
    pub from_string: Option<(BlockId, Span)>,
    pub to_string: Option<(BlockId, Span)>,
}

/// What is to be done with an environment variable.
#[derive(Debug, PartialEq, Eq)]
pub enum Conversion {
    /// Nothing converts it: it stays as it is, and is printed the plain way.
    Plain,
    /// The block is to be run, with the variable bound to its parameter if
    /// that parameter has a name.
    Run { block_id: BlockId, var_id: Option<VarId> },
    /// The block has no parameter to take the variable.
    Fail(ShellError),
}

/// What came of an environment variable.
#[derive(Debug, PartialEq, Eq)]
pub enum Converted {
    /// The value it had, where nothing converts it.
    Kept(Value),
    /// The value that its block made of it.
    Made(Value),
    /// Why there is no value.
    Failed(ShellError),
}

/// Whether `plan` is what is to be done with a variable that the block and
/// place `conversion` convert in a working set: without a conversion, nothing;
/// with a block that has a first parameter, to run it; with any other block,
/// or none, to fail for want of the parameter, at the place of the conversion.
pub open spec fn is_plan(
    working_set: WorkingSetView,
    conversion: Option<(BlockId, Span)>,
    plan: Conversion,
) -> bool {
    match conversion {
        None => plan == Conversion::Plain,
        Some((block_id, at)) => {
            let parameter = if block_id < working_set.blocks.len() {
                working_set.blocks[block_id as int].signature@.positional(0)
            } else {
                None
            };
            match parameter {
                Some(arg) => plan == (Conversion::Run { block_id, var_id: arg.var_id }),
                None => plan matches Conversion::Fail(ShellError::MissingParameter(text, span))
                    && text@ == "block input"@ && span == at,
            }
        },
    }
}

fn plan(working_set: &WorkingSet, conversion: Option<(BlockId, Span)>) -> (plan: Conversion)
    ensures
        is_plan(working_set@, conversion, plan),
{
    match conversion {
        None => Conversion::Plain,
        Some((block_id, at)) => {
            match working_set.get_block(block_id) {
                Some(block) => match block.signature.get_positional(0) {
                    Some(arg) => {
                        return Conversion::Run { block_id, var_id: arg.var_id };
                    },
                    None => {},
                },
                None => {},
            }
            Conversion::Fail(ShellError::MissingParameter("block input".to_owned(), at))
        },
    }
}

/// What is to be done to make a value of the text of an environment
/// variable with the conversions `conversion`.
pub fn env_from_string(working_set: &WorkingSet, conversion: Option<EnvConversion>) -> (plan:
    Conversion)
    ensures
        is_plan(
            working_set@,
            match conversion {
                Some(found) => found.from_string,
                None => None,
            },
            plan,
        ),
{
    match conversion {
        Some(found) => plan(working_set, found.from_string),
        None => plan(working_set, None),
    }
}

/// What is to be done to make text of the value of an environment variable
/// with the conversions `conversion`.
pub fn env_to_string(working_set: &WorkingSet, conversion: Option<EnvConversion>) -> (plan:
    Conversion)
    ensures
        is_plan(
            working_set@,
            match conversion {
                Some(found) => found.to_string,
                None => None,
            },
            plan,
        ),
{
    match conversion {
        Some(found) => plan(working_set, found.to_string),
        None => plan(working_set, None),
    }
}

/// The error of the first text, among the first `n`, that could not be made.
pub open spec fn first_failure(texts: Seq<(String, Result<String, ShellError>)>, n: int) -> Option<
    ShellError,
>
    decreases n,
{
    if n <= 0 || n > texts.len() {
        None
    } else {
        match first_failure(texts, n - 1) {
            Some(error) => Some(error),
            None => match texts[n - 1].1 {
                Err(error) => Some(error),
                Ok(_) => None,
            },
        }
    }
}

/// The texts of all environment variables, by name, once each variable was
/// made text of; or the error of the first variable that could not be.
pub fn env_to_strings(texts: Vec<(String, Result<String, ShellError>)>) -> (all: Result<
    Vec<(String, String)>,
    ShellError,
>)
    ensures
        match first_failure(texts@, texts@.len() as int) {
            Some(error) => all == Err::<Vec<(String, String)>, ShellError>(error),
            None => {
                &&& all matches Ok(pairs)
                &&& pairs@.len() == texts@.len()
                &&& forall|i: int|
                    0 <= i < texts@.len() ==> (#[trigger] pairs@[i]).0 == texts@[i].0
                        && texts@[i].1 == Ok::<String, ShellError>(pairs@[i].1)
            },
        },
{
    let ghost given = texts@;
    let mut rest = texts;
    let mut pairs: Vec<(String, String)> = Vec::new();
    while rest.len() > 0
        invariant
            given == texts@,
            pairs@.len() + rest@.len() == given.len(),
            rest@ == given.subrange(pairs@.len() as int, given.len() as int),
            first_failure(given, pairs@.len() as int) is None,
            forall|i: int|
                0 <= i < pairs@.len() ==> (#[trigger] pairs@[i]).0 == given[i].0 && given[i].1
                    == Ok::<String, ShellError>(pairs@[i].1),
        decreases rest@.len(),
    {
        let ghost at = pairs@.len() as int;
        let (name, text) = rest.remove(0);
        assert(given[at] == (name, text));
        match text {
            Ok(made) => {
                pairs.push((name, made));
                assert(rest@ =~= given.subrange(pairs@.len() as int, given.len() as int));
            },
            Err(error) => {
                proof {
                    assert(first_failure(given, at + 1) == Some(error));
                    lemma_failure_stays(given, at + 1, given.len() as int);
                }
                return Err(error);
            },
        }
    }
    Ok(pairs)
}

proof fn lemma_failure_stays(texts: Seq<(String, Result<String, ShellError>)>, m: int, n: int)
    requires
        0 <= m <= n <= texts.len(),
        first_failure(texts, m) is Some,
    ensures
        first_failure(texts, n) == first_failure(texts, m),
    decreases n - m,
{
    if m < n {
        lemma_failure_stays(texts, m, n - 1);
    }
}

/// The error of the first variable, among the first `n`, of which nothing
/// came.
pub open spec fn first_error_of(outcomes: Seq<(String, Converted)>, n: int) -> Option<ShellError>
    decreases n,
{
    if n <= 0 || n > outcomes.len() {
        None
    } else {
        match first_error_of(outcomes, n - 1) {
            Some(error) => Some(error),
            None => match outcomes[n - 1].1 {
                Converted::Failed(error) => Some(error),
                _ => None,
            },
        }
    }
}

/// The variables, among the first `n`, of which a value came, with that
/// value, in order.
pub open spec fn values_of(outcomes: Seq<(String, Converted)>, n: int) -> Seq<(String, Value)>
    decreases n,
{
    if n <= 0 || n > outcomes.len() {
        Seq::empty()
    } else {
        let earlier = values_of(outcomes, n - 1);
        match outcomes[n - 1].1 {
            Converted::Kept(value) => earlier.push((outcomes[n - 1].0, value)),
            Converted::Made(value) => earlier.push((outcomes[n - 1].0, value)),
            Converted::Failed(_) => earlier,
        }
    }
}

/// The variables of one scope after their conversion, and the first error.
///
/// A variable of which a value came has that value; one of which nothing
/// came is gone. The error is that of the first variable of which nothing
/// came, unless `earlier` is one.
pub fn convert_env_scope(
    outcomes: Vec<(String, Converted)>,
    earlier: Option<ShellError>,
) -> (scope: (
    Vec<(String, Value)>,
    Option<ShellError>,
))
    ensures
        scope.0@ == values_of(outcomes@, outcomes@.len() as int),
        scope.1 == match earlier {
            Some(error) => Some(error),
            None => first_error_of(outcomes@, outcomes@.len() as int),
        },
{
    let ghost given = outcomes@;
    let mut rest = outcomes;
    let mut values: Vec<(String, Value)> = Vec::new();
    let mut error = earlier;
    let mut done: usize = 0;
    let total: usize = rest.len();
    while rest.len() > 0
        invariant
            done + rest@.len() == total,
            total == given.len(),
            rest@ == given.subrange(done as int, total as int),
            values@ == values_of(given, done as int),
            error == match earlier {
                Some(e) => Some(e),
                None => first_error_of(given, done as int),
            },
        decreases rest@.len(),
    {
        let (name, outcome) = rest.remove(0);
        assert(given[done as int] == (name, outcome));
        match outcome {
            Converted::Kept(value) => {
                values.push((name, value));
            },
            Converted::Made(value) => {
                values.push((name, value));
            },
            Converted::Failed(failure) => {
                error = match error {
                    Some(e) => Some(e),
                    None => Some(failure),
                };
            },
        }
        done += 1;
        assert(rest@ =~= given.subrange(done as int, total as int));
    }
    (values, error)
}

/// The first error among the scopes up to `n`, scope by scope.
pub open spec fn first_error_in(scopes: Seq<Vec<(String, Converted)>>, n: int) -> Option<ShellError>
    decreases n,
{
    if n <= 0 || n > scopes.len() {
        None
    } else {
        match first_error_in(scopes, n - 1) {
            Some(error) => Some(error),
            None => first_error_of(scopes[n - 1]@, scopes[n - 1]@.len() as int),
        }
    }
}

/// The environment after the conversion of its variables, scope by scope,
/// and the error of the first variable of which nothing came. The conversion
/// goes on after an error: every variable that can be converted is.
pub fn convert_env_values(scopes: Vec<Vec<(String, Converted)>>) -> (converted: (
    Vec<Vec<(String, Value)>>,
    Option<ShellError>,
))
    ensures
        converted.0@.len() == scopes@.len(),
        forall|i: int|
            0 <= i < scopes@.len() ==> (#[trigger] converted.0@[i])@ == values_of(
                scopes@[i]@,
                scopes@[i]@.len() as int,
            ),
        converted.1 == first_error_in(scopes@, scopes@.len() as int),
{
    let ghost given = scopes@;
    let mut rest = scopes;
    let mut new_scopes: Vec<Vec<(String, Value)>> = Vec::new();
    let mut error: Option<ShellError> = None;
    let mut done: usize = 0;
    let total: usize = rest.len();
    while rest.len() > 0
        invariant
            done + rest@.len() == total,
            total == given.len(),
            new_scopes@.len() == done,
            rest@ == given.subrange(done as int, total as int),
            forall|i: int|
                0 <= i < done ==> (#[trigger] new_scopes@[i])@ == values_of(
                    given[i]@,
                    given[i]@.len() as int,
                ),
            error == first_error_in(given, done as int),
        decreases rest@.len(),
    {
        let scope = rest.remove(0);
        assert(given[done as int] == scope);
        let (values, failure) = convert_env_scope(scope, error);
        new_scopes.push(values);
        error = failure;
        done += 1;
        assert(rest@ =~= given.subrange(done as int, total as int));
    }
    (new_scopes, error)
}

} // verus!
