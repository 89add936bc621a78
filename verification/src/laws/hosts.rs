//! Calls into host functions, and the console, argument by argument and message by message.

use vstd::prelude::*;

use crate::call::{Finished, Next, SpecCall, Step};
use crate::callback::{
    arguments_step, caught, exec_callback, ArgumentsPending, CallbackOutcome, HostFunction,
    Invocation, ResultPending, ThrowPending,
};
use crate::console::{console_message, level_of, Level};
use crate::context::ContextWrapper;
use crate::error::{seen, ExecutionError, ExecutionErrorOf, SpecExecutionError, ValueError};
use crate::text::decimal;
use crate::value::{JsValue, JsValueOf, Pointer, RawValue, SpecJsValue};

verus! {

/// In a call whose arguments can all be converted, question number `k` is about argument number
/// `k`, and only about that one; so the host function gets, in each place, what the argument in
/// that place converts to. `steps` is such a run: each question is answered with what `decode`
/// makes of the value that it asks about.
pub proof fn law_each_argument_in_its_place(
    context: Pointer,
    raw: Vec<RawValue>,
    decode: spec_fn(RawValue) -> JsValue,
    steps: Seq<Step<ArgumentsPending, Result<Invocation, ExecutionError>>>,
)
    requires
        steps.len() == raw@.len() + 1,
        call_ensures(exec_callback, (context, raw), steps[0]),
        forall|k: int|
            #![trigger steps[k]]
            0 <= k < raw@.len() ==> (steps[k].next matches Next::Await(pending) ==> call_ensures(
                ArgumentsPending::decoded,
                (pending, Ok(decode(steps[k].issued()[0]->Decode_value))),
                steps[k + 1],
            )),
    ensures
        forall|k: int|
            #![trigger steps[k]]
            0 <= k < raw@.len() ==> steps[k].issued() == seq![
                SpecCall::Decode { context, value: raw@[k] },
            ] && steps[k].next is Await,
        steps.last().issued().len() == 0,
        steps.last().next matches Next::Return(Ok(invocation)) && invocation.context == context
            && invocation.args@.len() == raw@.len() && (forall|k: int|
            0 <= k < raw@.len() ==> #[trigger] invocation.args@[k] == decode(raw@[k])),
{
    let places = Seq::new(raw@.len(), |k: int| decode(raw@[k]));
    assert forall|k: int| 0 <= k <= raw@.len() implies #[trigger] arguments_step(
        steps[k],
        context,
        raw@,
        places.take(k),
    ) by {
        lemma_places(context, raw, decode, steps, k as nat);
    }
    assert forall|k: int| #![trigger steps[k]] 0 <= k < raw@.len() implies steps[k].issued()
        == seq![SpecCall::Decode { context, value: raw@[k] }] && steps[k].next is Await by {
        assert(arguments_step(steps[k], context, raw@, places.take(k)));
    }
    let n = raw@.len() as int;
    assert(arguments_step(steps[n], context, raw@, places.take(n)));
    assert(places.take(n) =~= places);
}

proof fn lemma_places(
    context: Pointer,
    raw: Vec<RawValue>,
    decode: spec_fn(RawValue) -> JsValue,
    steps: Seq<Step<ArgumentsPending, Result<Invocation, ExecutionError>>>,
    k: nat,
)
    requires
        k <= raw@.len(),
        steps.len() == raw@.len() + 1,
        call_ensures(exec_callback, (context, raw), steps[0]),
        forall|k: int|
            #![trigger steps[k]]
            0 <= k < raw@.len() ==> (steps[k].next matches Next::Await(pending) ==> call_ensures(
                ArgumentsPending::decoded,
                (pending, Ok(decode(steps[k].issued()[0]->Decode_value))),
                steps[k + 1],
            )),
    ensures
        arguments_step(
            steps[k as int],
            context,
            raw@,
            Seq::new(raw@.len(), |k: int| decode(raw@[k])).take(k as int),
        ),
    decreases k,
{
    let places = Seq::new(raw@.len(), |k: int| decode(raw@[k]));
    if k == 0 {
        assert(places.take(0) =~= Seq::empty());
    } else {
        let j = k - 1;
        lemma_places(context, raw, decode, steps, j as nat);
        assert(places.take(j).push(places[j]) =~= places.take(k as int));
        assert(steps[j].issued()[0] == (SpecCall::Decode { context, value: raw@[j] }));
        assert(steps[j].next is Await);
    }
}

/// A call of a host function starts as any call does, in the function's own context.
pub proof fn law_host_function_is_called(
    context: ContextWrapper,
    name: &str,
    function: HostFunction,
    raw: Vec<RawValue>,
    step: Step<ArgumentsPending, Result<Invocation, ExecutionError>>,
)
    requires
        call_ensures(HostFunction::new, (&context, name), function),
        call_ensures(HostFunction::call, (&function, raw), step),
    ensures
        function.context == context.context,
        function.name@ == name@,
        raw@.len() > 0 ==> step.issued() == seq![
            SpecCall::Decode { context: context.context, value: raw@[0] },
        ] && (step.next matches Next::Await(pending) && pending.context == context.context
            && pending.raw@ == raw@ && pending.converted@.len() == 0),
        raw@.len() == 0 ==> step.issued().len() == 0 && (step.next matches Next::Return(
            Ok(invocation),
        ) && invocation.context == context.context && invocation.args@.len() == 0),
{
}

/// An argument that cannot be converted ends the call, and the error tells its number and why.
pub proof fn law_argument_that_fails(
    pending: ArgumentsPending,
    message: String,
    step: Step<ArgumentsPending, Result<Invocation, ExecutionError>>,
)
    requires
        call_ensures(ArgumentsPending::decoded, (pending, Err(message)), step),
    ensures
        step.issued().len() == 0,
        step.next matches Next::Return(result) && seen(result) == Err::<Invocation, _>(
            SpecExecutionError::Internal(
                "failed to deserialize arguments "@ + decimal(pending.converted@.len())
                    + " (zero-based) to JS value, "@ + message@,
            ),
        ),
{
}

/// Decimal numbers: a number below ten is its digit, and any other is that of its tenth part
/// followed by its last digit.
pub proof fn law_decimal(n: nat)
    ensures
        n < 10 ==> decimal(n).len() == 1 && decimal(n)[0] as u32 == 0x30 + n,
        n >= 10 ==> decimal(n) == decimal(n / 10) + decimal(n % 10),
{
    if n >= 10 {
        assert(decimal(n) =~= decimal(n / 10) + decimal(n % 10));
    }
}

/// What a host function returns is converted, whole, for the engine, and the engine gets just what
/// that gives.
pub proof fn law_result_reaches_engine(
    invocation: Invocation,
    value: JsValue,
    step: Step<ResultPending, Result<RawValue, ExecutionError>>,
    pending: ResultPending,
    raw: RawValue,
    result: Result<RawValue, ExecutionError>,
    kept: Result<RawValue, ExecutionError>,
    function: HostFunction,
    shown: &str,
    reply: Step<ThrowPending, RawValue>,
)
    requires
        call_ensures(Invocation::completed, (invocation, CallbackOutcome::Returned(value)), step),
        call_ensures(ResultPending::encoded, (pending, Ok(raw)), result),
        call_ensures(caught, (Some(result),), kept),
        call_ensures(HostFunction::reply, (&function, kept, shown), reply),
    ensures
        step.issued() == seq![
            SpecCall::Encode { context: invocation.context, value: value@ },
        ],
        step.next is Await,
        reply.issued().len() == 0,
        reply.next == Next::<ThrowPending, RawValue>::Return(raw),
{
}

/// A result that cannot be converted is an error that tells why; so is a call whose types do not
/// fit, and one in which something panicked.
pub proof fn law_call_that_fails(
    pending: ResultPending,
    message: String,
    unconverted: Result<RawValue, ExecutionError>,
    invocation: Invocation,
    error: ValueError,
    mismatch: Step<ResultPending, Result<RawValue, ExecutionError>>,
    text: String,
    failed: Step<ResultPending, Result<RawValue, ExecutionError>>,
    panicked: Result<RawValue, ExecutionError>,
)
    requires
        call_ensures(ResultPending::encoded, (pending, Err(message)), unconverted),
        call_ensures(
            Invocation::completed,
            (invocation, CallbackOutcome::Mismatch(error)),
            mismatch,
        ),
        call_ensures(Invocation::completed, (invocation, CallbackOutcome::Failed(text)), failed),
        call_ensures(caught, (None,), panicked),
    ensures
        seen(unconverted) == Err::<RawValue, _>(
            SpecExecutionError::Internal(
                "failed to serialize rust value to js value, "@ + message@,
            ),
        ),
        mismatch.issued().len() == 0 && failed.issued().len() == 0,
        mismatch.next matches Next::Return(result) && seen(result) == Err::<RawValue, _>(
            SpecExecutionError::Conversion(error@),
        ),
        failed.next matches Next::Return(result) && seen(result) == Err::<RawValue, _>(
            SpecExecutionError::Exception(SpecJsValue::String(text@)),
        ),
        seen(panicked) == Err::<RawValue, _>(SpecExecutionError::Internal("Callback panicked!"@)),
{
}

/// An error of a call is thrown in the engine: an exception as the value that it holds, any other
/// error as a message with the function's name and the error as it is shown. What is converted is
/// what is thrown.
pub proof fn law_error_is_thrown(
    function: HostFunction,
    error: ExecutionError,
    shown: &str,
    reply: Step<ThrowPending, RawValue>,
    raw: RawValue,
    finished: Finished<RawValue>,
)
    requires
        call_ensures(HostFunction::reply, (&function, Err(error), shown), reply),
        reply.next matches Next::Await(pending) ==> call_ensures(
            ThrowPending::encoded,
            (pending, raw),
            finished,
        ),
    ensures
        error matches ExecutionErrorOf::Exception(value) ==> reply.issued() == seq![
            SpecCall::Encode { context: function.context, value: value@ },
        ],
        !(error is Exception) ==> reply.issued() == seq![
            SpecCall::Encode {
                context: function.context,
                value: SpecJsValue::String("Failed to call ["@ + function.name@ + "], "@ + shown@),
            },
        ],
        finished.issued() == seq![SpecCall::Throw { context: function.context, value: raw }],
        finished.result == (RawValue { tag: 6, payload: 0 }),
{
}

/// Each level of the console has its name, and there are no other names.
pub proof fn law_console_levels(name: &str, level: Option<Level>)
    requires
        call_ensures(level_of, (name,), level),
    ensures
        level == Some(Level::Trace) <==> name@ == "trace"@,
        level == Some(Level::Debug) <==> name@ == "debug"@,
        level == Some(Level::Log) <==> name@ == "log"@,
        level == Some(Level::Info) <==> name@ == "info"@,
        level == Some(Level::Warn) <==> name@ == "warn"@,
        level == Some(Level::Error) <==> name@ == "error"@,
{
    reveal_strlit("trace");
    reveal_strlit("debug");
    reveal_strlit("log");
    reveal_strlit("info");
    reveal_strlit("warn");
    reveal_strlit("error");
    assert("trace"@[0] != "debug"@[0]);
    assert("log"@.len() == 3 && "info"@.len() == 4 && "warn"@.len() == 4);
    assert("info"@[0] != "warn"@[0]);
    assert("trace"@[0] != "error"@[0]);
    assert("debug"@[0] != "error"@[0]);
}

/// A call of the console with a level and at least one value logs all the values behind the level,
/// in order, at that level. Without a value, and without a level, nothing is logged.
pub proof fn law_console_logs(
    args: Vec<JsValue>,
    name: &str,
    level: Option<Level>,
    message: Option<(Level, Vec<JsValue>)>,
)
    requires
        args@.len() > 0 ==> (args@[0] matches JsValueOf::String(text) ==> text@ == name@),
        call_ensures(level_of, (name,), level),
        call_ensures(console_message, (args,), message),
    ensures
        message is Some <==> args@.len() > 1 && args@[0] is String && level is Some,
        message matches Some((logged, values)) ==> Some(logged) == level && values@.len()
            == args@.len() - 1 && (forall|i: int|
            0 <= i < values@.len() ==> #[trigger] values@[i] == args@[i + 1]),
{
}

} // verus!
