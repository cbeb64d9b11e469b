use vstd::prelude::*;
use vstd::string::*;

use crate::error::NoirProverError;
use crate::render::InputValue;

verus! {

/// The modulus of the Mersenne-31 field, `2^31 - 1`.
pub const M31_MODULUS: u32 = 2147483647;

/// The field element that a `u32` stands for in the Mersenne-31 field.
pub open spec fn m31_of(v: u32) -> u32 {
    (v % M31_MODULUS) as u32
}

/// Reduces a `u32` into the Mersenne-31 field.
pub fn m31_from_u32(v: u32) -> (r: u32)
    ensures
        r == m31_of(v),
        r < M31_MODULUS,
{
    v % M31_MODULUS
}

/// The executor's inputs for positional values: the first `num_args` of them
/// (all when fewer are given), each reduced into the field.
pub open spec fn runner_inputs(inputs: Seq<u32>, num_args: nat) -> Seq<u32> {
    let n = if inputs.len() < num_args { inputs.len() as int } else { num_args as int };
    inputs.take(n).map_values(|v: u32| m31_of(v))
}

/// Materializes positional inputs against an entry point declaring
/// `num_args` arguments; values beyond that arity are dropped.
pub fn materialize_positional(inputs: &Vec<u32>, num_args: usize) -> (r: Vec<u32>)
    ensures
        r@ == runner_inputs(inputs@, num_args as nat),
{
    let n: usize = if inputs.len() < num_args {
        inputs.len()
    } else {
        num_args
    };
    let mut r: Vec<u32> = Vec::new();
    let mut i: usize = 0;
    while i < n
        invariant
            n <= inputs@.len(),
            n == (if inputs@.len() < num_args { inputs@.len() as int } else { num_args as int }),
            i <= n,
            r@ == inputs@.take(i as int).map_values(|v: u32| m31_of(v)),
        decreases n - i,
    {
        r.push(m31_from_u32(inputs[i]));
        proof {
            assert(inputs@.take(i as int + 1) =~= inputs@.take(i as int).push(inputs@[i as int]));
        }
        i = i + 1;
        proof {
            assert(r@ =~= inputs@.take(i as int).map_values(|v: u32| m31_of(v)));
        }
    }
    r
}

/// Values given beyond an entry point's arity are ignored: appending any
/// values to inputs that already cover the arity leaves the executor's inputs
/// unchanged.
pub proof fn lemma_extra_inputs_ignored(inputs: Seq<u32>, extra: Seq<u32>, num_args: nat)
    requires
        inputs.len() >= num_args,
    ensures
        runner_inputs(inputs + extra, num_args) == runner_inputs(inputs, num_args),
{
    assert((inputs + extra).take(num_args as int) =~= inputs.take(num_args as int));
}

/// How named inputs are to be obtained.
#[derive(Debug, PartialEq, Eq, Structural)]
pub enum InputPlan {
    /// No parameter is declared and no document given: the input set is empty.
    NoInputs,
    /// The document is to be parsed against the declared parameters.
    ParseDocument,
}

/// The text of the error for parameters declared but no input given.
pub open spec fn missing_input_text() -> Seq<char> {
    "The ABI expects parameters but no input were provided."@
}

/// Decides how named inputs are materialized: with no parameter and no
/// document, an empty input set; with parameters and no document, the
/// missing-input error; otherwise the document is parsed.
pub fn plan_named_inputs(num_params: usize, input_json: &str) -> (r: Result<
    InputPlan,
    NoirProverError,
>)
    ensures
        num_params == 0 && input_json@.len() == 0 ==> r == Ok::<InputPlan, NoirProverError>(
            InputPlan::NoInputs,
        ),
        num_params > 0 && input_json@.len() == 0 <==> r is Err,
        input_json@.len() > 0 ==> r == Ok::<InputPlan, NoirProverError>(InputPlan::ParseDocument),
        r matches Err(e) ==> e is CreationError && e->CreationError_0@ == missing_input_text(),
{
    let has_params = num_params > 0;
    let has_input = !input_json.is_empty();
    if !has_params && !has_input {
        return Ok(InputPlan::NoInputs);
    }
    if has_params && !has_input {
        return Err(
            NoirProverError::CreationError(
                String::from_str("The ABI expects parameters but no input were provided."),
            ),
        );
    }
    Ok(InputPlan::ParseDocument)
}

/// The name of the reserved member that carries an expected return value.
pub open spec fn return_name() -> Seq<char> {
    "return"@
}

/// The members other than the reserved one, in their order.
pub open spec fn without_return(fields: Seq<(String, InputValue)>) -> Seq<(String, InputValue)>
    decreases fields.len(),
{
    if fields.len() == 0 {
        fields
    } else {
        let rest = without_return(fields.drop_last());
        if fields.last().0@ == return_name() {
            rest
        } else {
            rest.push(fields.last())
        }
    }
}

/// The value of the reserved member (of its last occurrence), if any.
pub open spec fn return_member(fields: Seq<(String, InputValue)>) -> Option<InputValue>
    decreases fields.len(),
{
    if fields.len() == 0 {
        None
    } else if fields.last().0@ == return_name() {
        Some(fields.last().1)
    } else {
        return_member(fields.drop_last())
    }
}

/// Takes the reserved `return` member out of parsed named inputs: the
/// remaining members, and the expected return value that it held.
pub fn split_return_member(fields: Vec<(String, InputValue)>) -> (r: (
    Vec<(String, InputValue)>,
    Option<InputValue>,
))
    ensures
        r.0@ == without_return(fields@),
        r.1 == return_member(fields@),
{
    let reserved = String::from_str("return");
    let mut rest = fields;
    let mut kept: Vec<(String, InputValue)> = Vec::new();
    let mut found: Option<InputValue> = None;
    let ghost k: int = 0;
    while rest.len() > 0
        invariant
            0 <= k <= fields@.len(),
            rest@ == fields@.skip(k),
            kept@ == without_return(fields@.take(k)),
            found == return_member(fields@.take(k)),
            reserved@ == return_name(),
        decreases rest@.len(),
    {
        let entry = rest.remove(0);
        proof {
            assert(fields@.take(k + 1).drop_last() =~= fields@.take(k));
            assert(fields@.take(k + 1).last() == fields@[k]);
            assert(fields@.skip(k + 1) =~= fields@.skip(k).remove(0));
            k = k + 1;
        }
        if entry.0 == reserved {
            found = Some(entry.1);
        } else {
            kept.push(entry);
        }
    }
    proof {
        assert(fields@.take(k) =~= fields@);
    }
    (kept, found)
}

} // verus!
