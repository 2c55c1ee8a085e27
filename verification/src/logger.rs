//! Loggers: an ordered set of render targets gated by a minimum severity.
//!
//! A render target is outside work (writing to a console, a file, a
//! callback), so the library identifies each target by a numeric handle
//! chosen by the embedding application; [`Logger::log`] decides which
//! handles must be invoked, in which order and with which context, and the
//! application performs the invocations.

use vstd::prelude::*;
use vstd::string::StringExecFns;

use crate::LogContext;
use crate::pad_to;
use crate::internal::PadState;
use crate::level::{LogLevel, SEVERITY_INFO, Style, apply_style, styled_ok};
use crate::time::LocalTime;
use crate::time::now_parts;

verus! {

/// The well-known handle of the standard-output target that embedding
/// applications provide for [`Logger::default`].
pub const DEFAULT_CONSOLE_TARGET: u64 = 0;

/// An ordered set of render-target handles, gated by a minimum severity.
///
/// Built by consuming builder steps before being moved into the registry;
/// immutable once installed.
#[derive(Debug, Clone, PartialEq, Eq)]
pub struct Logger {
    pub min_severity: u32,
    pub targets: Vec<u64>,
}

impl Logger {
    /// An empty logger: no targets, minimum severity 0 (accepts every
    /// message).
    pub fn new() -> (r: Logger)
        ensures
            r.min_severity == 0,
            r.targets@ == Seq::<u64>::empty(),
    {
        Logger { min_severity: 0, targets: Vec::new() }
    }

    /// The canonical configuration: minimum severity INFO, one target,
    /// the standard-output console target.
    pub fn default() -> (r: Logger)
        ensures
            r.min_severity == SEVERITY_INFO,
            r.targets@ == seq![DEFAULT_CONSOLE_TARGET],
    {
        let r = Logger::new().set_min_severity(SEVERITY_INFO).add_target(DEFAULT_CONSOLE_TARGET);
        proof {
            assert(r.targets@ =~= seq![DEFAULT_CONSOLE_TARGET]);
        }
        r
    }

    /// Set the minimum severity a message needs to be dispatched; a
    /// builder step that keeps the targets.
    pub fn set_min_severity(self, min_severity: u32) -> (r: Logger)
        ensures
            r.min_severity == min_severity,
            r.targets@ == self.targets@,
    {
        Logger { min_severity, ..self }
    }

    /// Append a render-target handle; targets accumulate in registration
    /// order and are never replaced.
    pub fn add_target(self, target: u64) -> (r: Logger)
        ensures
            r.min_severity == self.min_severity,
            r.targets@ == self.targets@.push(target),
    {
        let mut targets = self.targets;
        targets.push(target);
        Logger { min_severity: self.min_severity, targets }
    }

    /// Build the per-call snapshot a log call hands to the targets: the
    /// given level, module, source position and message, the padding
    /// maximums as they stand now, and the clock reading of this moment.
    pub fn create_context<'l>(
        &'l self,
        level: &'l LogLevel,
        module: String,
        position: (u32, u32),
        text: String,
        pad: &PadState,
    ) -> (r: LogContext<'l>)
        ensures
            r.logger == self,
            r.module@ == module@,
            r.position == position,
            r.level == level,
            r.text@ == text@,
            r.pad == *pad,
            r.time.nanos < 2_000_000_000,
            r.local.wf(),
    {
        let (time, local) = now_parts();
        LogContext { logger: self, time, local, module, position, level, text, pad: *pad }
    }

    /// Gate and dispatch a message: a message below the minimum severity
    /// is silently skipped; one at or above it is to be rendered exactly
    /// once per configured target, in registration order, with the given
    /// context.  The caller performs the returned invocations.
    pub fn log<'l>(&self, context: LogContext<'l>) -> (r: Option<Dispatch<'l>>)
        ensures
            r is Some <==> context.level.severity >= self.min_severity,
            r is Some ==> r->0.targets@ == self.targets@ && r->0.context == context,
    {
        if context.level().get_severity() >= self.min_severity {
            let n = self.targets.len();
            let mut targets: Vec<u64> = Vec::new();
            let mut i: usize = 0;
            while i < n
                invariant
                    i <= n,
                    n == self.targets@.len(),
                    targets@ == self.targets@.subrange(0, i as int),
                decreases n - i,
            {
                targets.push(self.targets[i]);
                i = i + 1;
                proof {
                    assert(targets@ =~= self.targets@.subrange(0, i as int));
                }
            }
            proof {
                assert(targets@ =~= self.targets@);
            }
            Some(Dispatch { context, targets })
        } else {
            None
        }
    }
}

/// What a gated log call asks the embedding application to do: invoke the
/// listed target handles, in order, each with the given context.
pub struct Dispatch<'l> {
    pub context: LogContext<'l>,
    pub targets: Vec<u64>,
}

/// The pieces of a default console line: the rendered local time styled
/// dimmed bright green (`t`), the padded module path styled dimmed green
/// (`m`), the level name styled in the level's own style before padding
/// (`f`), and the message in the level's style (`x`), joined by the
/// bracketed separators.
pub open spec fn default_line_parts(
    local: LocalTime,
    module: Seq<char>,
    level: LogLevel,
    text: Seq<char>,
    pad: PadState,
    t: Seq<char>,
    m: Seq<char>,
    f: Seq<char>,
    x: Seq<char>,
    r: Seq<char>,
) -> bool {
    &&& styled_ok(Style::BrightGreenDimmed, local.rendered(), t)
    &&& styled_ok(Style::GreenDimmed, pad_to(module, module.len(), pad.max_module_len as nat), m)
    &&& styled_ok(level.style, level.name@, f)
    &&& styled_ok(level.style, text, x)
    &&& r == " [ "@ + t + " ] [ "@ + m + " ] [ "@ + pad_to(
        f,
        level.name@.len(),
        pad.max_level_name_len as nat,
    ) + " ] "@ + x
}

/// The line the default console target prints for a context: the local
/// time, the padded module path, the styled and padded level name, and
/// the styled message, each between brackets.
pub fn default_line(context: &LogContext<'_>) -> (r: String)
    requires
        context.local.wf(),
    ensures
        exists|t: Seq<char>, m: Seq<char>, f: Seq<char>, x: Seq<char>|
            #[trigger] default_line_parts(
                context.local,
                context.module@,
                *context.level,
                context.text@,
                context.pad,
                t,
                m,
                f,
                x,
                r@,
            ),
{
    let time_styled = apply_style(&Style::BrightGreenDimmed, context.time_local().render().as_str());
    let module_styled = apply_style(&Style::GreenDimmed, context.module_p().as_str());
    let level_part = context.level_name_fp();
    let message_part = context.formatted(context.message());
    let mut out = String::from_str(" [ ");
    out.append(time_styled.as_str());
    out.append(" ] [ ");
    out.append(module_styled.as_str());
    out.append(" ] [ ");
    out.append(level_part.as_str());
    out.append(" ] ");
    out.append(message_part.as_str());
    proof {
        let f = choose|f: Seq<char>|
            #[trigger] styled_ok(context.level.style, context.level.name@, f) && level_part@
                == pad_to(f, context.level.name@.len(), context.pad.max_level_name_len as nat);
        assert(default_line_parts(
            context.local,
            context.module@,
            *context.level,
            context.text@,
            context.pad,
            time_styled@,
            module_styled@,
            f,
            message_part@,
            out@,
        ));
    }
    out
}

} // verus!
