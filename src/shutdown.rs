//! Best-effort shutdown of several providers, with their failures aggregated
//! into one error.
use vstd::prelude::*;

verus! {

/// Separator between the messages of an aggregated failure.
pub const MESSAGE_SEPARATOR: &'static str = ", ";

/// Label of a failure of the trace provider.
pub const TRACER_LABEL: &'static str = "tracer";

/// Label of a failure of the log provider.
pub const LOGGER_LABEL: &'static str = "logger";

pub open spec fn separator() -> Seq<char> {
    ", "@
}

pub open spec fn tracer_label() -> Seq<char> {
    "tracer"@
}

pub open spec fn logger_label() -> Seq<char> {
    "logger"@
}

/// The failure of one provider shutdown, reported as one message.
#[derive(Debug)]
pub struct ShutdownError {
    pub message: String,
}

/// The view of a provider shutdown outcome, its failure as a message.
pub open spec fn outcome_view(r: Result<(), String>) -> Result<(), Seq<char>> {
    match r {
        Ok(()) => Ok(()),
        Err(e) => Err(e@),
    }
}

/// The view of an optional provider shutdown outcome.
pub open spec fn opt_outcome_view(r: Option<Result<(), String>>) -> Option<Result<(), Seq<char>>> {
    match r {
        Some(o) => Some(outcome_view(o)),
        None => None,
    }
}

/// The message that reports a failure of the provider named `label`.
pub open spec fn labelled(label: Seq<char>, message: Seq<char>) -> Seq<char> {
    label + ": "@ + message
}

/// The message for one outcome: none on success, the labelled message on failure.
pub open spec fn failure_of(label: Seq<char>, outcome: Result<(), Seq<char>>) -> Seq<Seq<char>> {
    match outcome {
        Ok(()) => Seq::empty(),
        Err(m) => seq![labelled(label, m)],
    }
}

/// The messages of every failing provider: the trace provider's first, then the
/// log provider's when there is one.
pub open spec fn failures(trace: Result<(), Seq<char>>, log: Option<Result<(), Seq<char>>>) -> Seq<
    Seq<char>,
> {
    failure_of(tracer_label(), trace) + match log {
        Some(o) => failure_of(logger_label(), o),
        None => Seq::empty(),
    }
}

/// The parts joined by `sep`.
pub open spec fn join(parts: Seq<Seq<char>>, sep: Seq<char>) -> Seq<char>
    decreases parts.len(),
{
    if parts.len() == 0 {
        Seq::empty()
    } else if parts.len() == 1 {
        parts[0]
    } else {
        join(parts.drop_last(), sep) + sep + parts.last()
    }
}

/// The views of a sequence of strings.
pub open spec fn views(v: Seq<String>) -> Seq<Seq<char>> {
    v.map_values(|s: String| s@)
}

/// `t` occurs in `s`.
pub open spec fn contains(s: Seq<char>, t: Seq<char>) -> bool {
    exists|i: int| 0 <= i && i + t.len() <= s.len() && #[trigger] s.subrange(i, i + t.len()) == t
}

/// The parts joined by `sep`.
pub fn join_messages(parts: &Vec<String>, sep: &str) -> (r: String)
    ensures
        r@ == join(views(parts@), sep@),
{
    let mut acc = String::new();
    let mut i: usize = 0;
    while i < parts.len()
        invariant
            i <= parts@.len(),
            acc@ == join(views(parts@).subrange(0, i as int), sep@),
        decreases parts@.len() - i,
    {
        if i > 0 {
            acc.append(sep);
        }
        acc.append(parts[i].as_str());
        proof {
            let next = views(parts@).subrange(0, i + 1);
            assert(next.drop_last() =~= views(parts@).subrange(0, i as int));
            if i == 0 {
                assert(acc@ =~= next[0]);
            }
        }
        i = i + 1;
    }
    assert(views(parts@).subrange(0, i as int) =~= views(parts@));
    acc
}

/// The labelled message for a failed outcome.
fn labelled_message(label: &str, message: String) -> (r: String)
    ensures
        r@ == labelled(label@, message@),
{
    String::from_str(label).concat(": ").concat(message.as_str())
}

/// Aggregates the outcomes of the trace provider's shutdown and, when there is
/// one, the log provider's: success when no provider failed, otherwise one
/// error whose message joins every failure in that order.
pub fn shutdown_outcome(trace: Result<(), String>, log: Option<Result<(), String>>) -> (r: Result<
    (),
    ShutdownError,
>)
    ensures
        r is Ok <==> failures(outcome_view(trace), opt_outcome_view(log)).len() == 0,
        r matches Err(e) ==> e.message@ == join(
            failures(outcome_view(trace), opt_outcome_view(log)),
            separator(),
        ),
{
    proof {
        reveal_strlit("tracer");
        reveal_strlit("logger");
        reveal_strlit(", ");
    }
    let mut errs: Vec<String> = Vec::new();
    if let Err(e) = trace {
        errs.push(labelled_message(TRACER_LABEL, e));
    }
    if let Some(Err(e)) = log {
        errs.push(labelled_message(LOGGER_LABEL, e));
    }
    assert(views(errs@) =~= failures(outcome_view(trace), opt_outcome_view(log)));
    if errs.len() == 0 {
        Ok(())
    } else {
        Err(ShutdownError { message: join_messages(&errs, MESSAGE_SEPARATOR) })
    }
}

/// When both providers fail, the aggregated message is the trace provider's
/// labelled message, the separator, then the log provider's, so it names both
/// providers; a failure of the first never hides the second.
pub proof fn shutdown_reports_both_failures(trace_message: Seq<char>, log_message: Seq<char>)
    ensures
        join(failures(Err(trace_message), Some(Err(log_message))), separator()) == labelled(
            tracer_label(),
            trace_message,
        ) + separator() + labelled(logger_label(), log_message),
        contains(
            join(failures(Err(trace_message), Some(Err(log_message))), separator()),
            tracer_label(),
        ),
        contains(
            join(failures(Err(trace_message), Some(Err(log_message))), separator()),
            logger_label(),
        ),
        contains(
            join(failures(Err(trace_message), Some(Err(log_message))), separator()),
            trace_message,
        ),
        contains(
            join(failures(Err(trace_message), Some(Err(log_message))), separator()),
            log_message,
        ),
{
    reveal_strlit("tracer");
    reveal_strlit("logger");
    reveal_strlit(", ");
    reveal_strlit(": ");
    let parts = failures(Err(trace_message), Some(Err(log_message)));
    let t = labelled(tracer_label(), trace_message);
    let l = labelled(logger_label(), log_message);
    assert(parts =~= seq![t, l]);
    assert(parts.drop_last() =~= seq![t]);
    assert(join(seq![t], separator()) == t);
    assert(parts.last() == l);
    let s = join(parts, separator());
    assert(s == t + separator() + l);
    let lstart: int = t.len() as int + separator().len() as int;
    assert(s =~= tracer_label() + ": "@ + trace_message + separator() + logger_label() + ": "@
        + log_message);
    let z: int = 0;
    assert(s.subrange(z, z + tracer_label().len()) =~= tracer_label());
    assert(s.subrange(lstart, lstart + logger_label().len()) =~= logger_label());
    let tm: int = tracer_label().len() as int + 2;
    assert(s.subrange(tm, tm + trace_message.len()) =~= trace_message);
    let lm: int = lstart + logger_label().len() + 2;
    assert(s.subrange(lm, lm + log_message.len()) =~= log_message);
}

/// Shutdown succeeds exactly when no provider failed, and a single failure is
/// reported alone under its provider's label.
pub proof fn shutdown_single_failure(
    trace: Result<(), Seq<char>>,
    log: Option<Result<(), Seq<char>>>,
)
    ensures
        (failures(trace, log).len() == 0) <==> (trace is Ok && !(log matches Some(Err(_)))),
        trace is Err && !(log matches Some(Err(_))) ==> join(failures(trace, log), separator())
            == labelled(tracer_label(), trace->Err_0),
        trace is Ok && log is Some && log->Some_0 is Err ==> join(failures(trace, log), separator())
            == labelled(logger_label(), log->Some_0->Err_0),
{
    match trace {
        Ok(()) => {
            match log {
                Some(Err(m)) => {
                    assert(failures(trace, log) =~= seq![labelled(logger_label(), m)]);
                },
                Some(Ok(())) => {
                    assert(failures(trace, log) =~= Seq::<Seq<char>>::empty());
                },
                None => {
                    assert(failures(trace, log) =~= Seq::<Seq<char>>::empty());
                },
            }
        },
        Err(m) => {
            match log {
                Some(Err(l)) => {
                    assert(failures(trace, log).len() == 2);
                },
                _ => {
                    assert(failures(trace, log) =~= seq![labelled(tracer_label(), m)]);
                },
            }
        },
    }
}

} // verus!
