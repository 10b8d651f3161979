//! The ordered stack of event-processing layers, chosen from the enabled
//! capabilities.
use vstd::prelude::*;
use vstd::string::*;

verus! {

/// Optional capabilities of the telemetry pipeline.
#[derive(Clone, Copy, Debug, PartialEq, Eq, Structural)]
pub struct Capabilities {
    /// Render events on the console.
    pub console_log: bool,
    /// Export events as log records through a log provider.
    pub otlp_log: bool,
}

/// One stage of the event-processing stack.
#[derive(Clone, Copy, Debug, PartialEq, Eq, Structural)]
pub enum LayerKind {
    /// Severity/module filter; always first.
    Filter,
    /// Compact single-line console output.
    ConsoleFormat,
    /// Forwards events to the log provider as log records.
    LogBridge,
    /// Forwards spans to the trace provider; always last.
    TraceForward,
}

/// How the console layer renders an event.
#[derive(Clone, Copy, Debug, PartialEq, Eq, Structural)]
pub struct ConsoleFormat {
    pub show_target: bool,
    pub show_thread_ids: bool,
    pub show_file: bool,
    pub show_line_number: bool,
}

/// The layers for the given capabilities, in order: the filter, the console
/// formatter when enabled, the log bridge when enabled, the span forwarder.
pub open spec fn planned_layers(caps: Capabilities) -> Seq<LayerKind> {
    seq![LayerKind::Filter] + (if caps.console_log {
        seq![LayerKind::ConsoleFormat]
    } else {
        Seq::empty()
    }) + (if caps.otlp_log {
        seq![LayerKind::LogBridge]
    } else {
        Seq::empty()
    }) + seq![LayerKind::TraceForward]
}

/// The ordered layer stack for `caps`.
pub fn layer_plan(caps: Capabilities) -> (r: Vec<LayerKind>)
    ensures
        r@ == planned_layers(caps),
{
    let mut layers: Vec<LayerKind> = Vec::new();
    layers.push(LayerKind::Filter);
    if caps.console_log {
        layers.push(LayerKind::ConsoleFormat);
    }
    if caps.otlp_log {
        layers.push(LayerKind::LogBridge);
    }
    layers.push(LayerKind::TraceForward);
    assert(layers@ =~= planned_layers(caps));
    layers
}

/// Filter directive used when none is configured or the configured one is invalid.
pub const DEFAULT_FILTER: &'static str = "info";

/// One compact line with thread id, source file and line number, without the
/// event's target.
pub open spec fn compact_console() -> ConsoleFormat {
    ConsoleFormat {
        show_target: false,
        show_thread_ids: true,
        show_file: true,
        show_line_number: true,
    }
}

/// The console rendering to install for `caps`, if any.
pub open spec fn console_for(caps: Capabilities) -> Option<ConsoleFormat> {
    if caps.console_log {
        Some(compact_console())
    } else {
        None
    }
}

/// The filter directives in force: the configured ones when present and
/// valid, else "info".
pub open spec fn filter_choice(configured: Option<Seq<char>>, valid: bool) -> Seq<char> {
    match configured {
        Some(d) => if valid { d } else { "info"@ },
        None => "info"@,
    }
}

/// The console rendering: one compact line with thread id, source file and
/// line number, without the event's target.
pub fn console_format() -> (r: ConsoleFormat)
    ensures
        r == compact_console(),
{
    ConsoleFormat {
        show_target: false,
        show_thread_ids: true,
        show_file: true,
        show_line_number: true,
    }
}

/// What the subscriber is given for `caps`: the console rendering when
/// console output is enabled, and whether events are bridged to the log
/// provider (exactly when log export is enabled).
pub fn subscriber_layers(caps: Capabilities) -> (r: (Option<ConsoleFormat>, bool))
    ensures
        r.0 == console_for(caps),
        r.1 == caps.otlp_log,
{
    let console = if caps.console_log {
        Some(console_format())
    } else {
        None
    };
    (console, caps.otlp_log)
}

/// The filter directives to install, given the configured ones and whether
/// they parse: those when present and valid, else "info".
pub fn filter_directives(configured: Option<String>, valid: bool) -> (r: String)
    ensures
        r@ == filter_choice(crate::config::opt_view(configured), valid),
{
    proof {
        reveal_strlit("info");
    }
    match configured {
        Some(d) => if valid {
            d
        } else {
            String::from_str(DEFAULT_FILTER)
        },
        None => String::from_str(DEFAULT_FILTER),
    }
}

/// With neither optional capability the stack is exactly the filter and the
/// span forwarder.
pub proof fn minimal_stack()
    ensures
        planned_layers(Capabilities { console_log: false, otlp_log: false }) == seq![
            LayerKind::Filter,
            LayerKind::TraceForward,
        ],
{
    assert(planned_layers(Capabilities { console_log: false, otlp_log: false }) =~= seq![
        LayerKind::Filter,
        LayerKind::TraceForward,
    ]);
}

/// Every stack starts with the filter and ends with the span forwarder, and
/// holds the console formatter or the log bridge exactly when its capability
/// is enabled, each at most once.
pub proof fn stack_respects_capabilities(caps: Capabilities)
    ensures
        planned_layers(caps)[0] == LayerKind::Filter,
        planned_layers(caps).last() == LayerKind::TraceForward,
        planned_layers(caps).len() == 2 + (if caps.console_log { 1int } else { 0 }) + (
        if caps.otlp_log {
            1int
        } else {
            0
        }),
        planned_layers(caps).contains(LayerKind::ConsoleFormat) <==> caps.console_log,
        planned_layers(caps).contains(LayerKind::LogBridge) <==> caps.otlp_log,
        planned_layers(caps).filter(|k: LayerKind| k == LayerKind::Filter).len() == 1,
{
    let p = planned_layers(caps);
    if caps.console_log {
        assert(p[1] == LayerKind::ConsoleFormat);
    }
    if caps.otlp_log {
        assert(p[p.len() - 2] == LayerKind::LogBridge);
    }
    reveal_with_fuel(Seq::filter, 5);
    assert(p.filter(|k: LayerKind| k == LayerKind::Filter) =~= seq![LayerKind::Filter]);
}

} // verus!
