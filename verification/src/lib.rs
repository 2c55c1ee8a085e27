//! A structured, leveled logging library with hierarchical logger resolution.
//!
//! Modules register a logger (or an explicit "use my parent's logger" marker)
//! under their module path; a log call resolves the calling module to the
//! nearest configured ancestor, checks the message's severity against the
//! logger's minimum, and hands back the ordered list of render targets to
//! invoke together with a [`LogContext`] snapshot of the call.

use vstd::prelude::*;
use vstd::string::StrSliceExecFns;
use vstd::string::StringExecFns;

pub mod internal;
pub mod level;
pub mod logger;
pub mod time;

use crate::internal::PadState;
use crate::level::{LogLevel, styled_ok};
use crate::logger::Logger;
use crate::time::{Timestamp, LocalTime};

verus! {

/// `text` padded on the right with spaces up to `target` columns, where
/// `raw_len` is the number of characters the text occupies visually:
/// invisible characters (such as colour escape sequences) make the text
/// longer than `raw_len`, and the padding leaves them out of the count so
/// that columns still line up.
pub open spec fn pad_to(text: Seq<char>, raw_len: nat, target: nat) -> Seq<char> {
    if target > raw_len {
        text + Seq::new((target - raw_len) as nat, |i: int| ' ')
    } else {
        text
    }
}

/// The per-call snapshot handed to every render target: when and where
/// the log call happened, at which level, with which message, and the
/// padding maximums as they stood at that moment.
///
/// Built fresh for each log call by `Logger::create_context`, passed by
/// reference to each target, and discarded after dispatch.
pub struct LogContext<'l> {
    pub logger: &'l Logger,
    pub time: Timestamp,
    pub local: LocalTime,
    pub module: String,
    pub position: (u32, u32),
    pub level: &'l LogLevel,
    pub text: String,
    pub pad: PadState,
}

impl<'l> LogContext<'l> {
    /// The UTC instant of the log call.
    pub fn time_utc(&self) -> (r: Timestamp)
        ensures
            r == self.time,
    {
        self.time
    }

    /// The local calendar fields of the log call's instant.
    pub fn time_local(&self) -> (r: LocalTime)
        ensures
            r == self.local,
    {
        self.local
    }

    /// The module the log call was made in.
    pub fn module(&self) -> (r: String)
        ensures
            r@ == self.module@,
    {
        self.module.clone()
    }

    /// The module path padded to the widest module path seen.
    pub fn module_p(&self) -> (r: String)
        ensures
            r@ == pad_to(self.module@, self.module@.len(), self.pad.max_module_len as nat),
    {
        let m = self.module();
        let len = m.as_str().unicode_len();
        self.padded(m, len, self.pad.max_module_len)
    }

    /// The module path in the level's style.
    pub fn module_f(&self) -> (r: String)
        ensures
            styled_ok(self.level.style, self.module@, r@),
    {
        self.formatted(self.module())
    }

    /// The module path padded, then styled.
    pub fn module_pf(&self) -> (r: String)
        ensures
            styled_ok(
                self.level.style,
                pad_to(self.module@, self.module@.len(), self.pad.max_module_len as nat),
                r@,
            ),
    {
        self.formatted(self.module_p())
    }

    /// The module path styled, then padded; the padding discounts the
    /// invisible styling characters.
    pub fn module_fp(&self) -> (r: String)
        ensures
            exists|f: Seq<char>|
                #[trigger] styled_ok(self.level.style, self.module@, f) && r@ == pad_to(
                    f,
                    self.module@.len(),
                    self.pad.max_module_len as nat,
                ),
    {
        let m = self.module();
        let raw_len = m.as_str().unicode_len();
        let f = self.module_f();
        let r = self.padded(f, raw_len, self.pad.max_module_len);
        r
    }

    /// The line the log call was made at.
    pub fn line(&self) -> (r: u32)
        ensures
            r == self.position.0,
    {
        self.position.0
    }

    /// The column the log call was made at.
    pub fn column(&self) -> (r: u32)
        ensures
            r == self.position.1,
    {
        self.position.1
    }

    /// The level the message was logged at.
    pub fn level(&self) -> (r: &'l LogLevel)
        ensures
            r == self.level,
    {
        self.level
    }

    /// The level's name.
    pub fn level_name(&self) -> (r: String)
        ensures
            r@ == self.level.name@,
    {
        self.level.get_name()
    }

    /// The level name padded to the widest level name seen.
    pub fn level_name_p(&self) -> (r: String)
        ensures
            r@ == pad_to(
                self.level.name@,
                self.level.name@.len(),
                self.pad.max_level_name_len as nat,
            ),
    {
        let n = self.level_name();
        let len = n.as_str().unicode_len();
        self.padded(n, len, self.pad.max_level_name_len)
    }

    /// The level name in the level's style.
    pub fn level_name_f(&self) -> (r: String)
        ensures
            styled_ok(self.level.style, self.level.name@, r@),
    {
        self.formatted(self.level_name())
    }

    /// The level name padded, then styled.
    pub fn level_name_pf(&self) -> (r: String)
        ensures
            styled_ok(
                self.level.style,
                pad_to(self.level.name@, self.level.name@.len(), self.pad.max_level_name_len as nat),
                r@,
            ),
    {
        self.formatted(self.level_name_p())
    }

    /// The level name styled, then padded; the padding discounts the
    /// invisible styling characters.
    pub fn level_name_fp(&self) -> (r: String)
        ensures
            exists|f: Seq<char>|
                #[trigger] styled_ok(self.level.style, self.level.name@, f) && r@ == pad_to(
                    f,
                    self.level.name@.len(),
                    self.pad.max_level_name_len as nat,
                ),
    {
        let n = self.level_name();
        let raw_len = n.as_str().unicode_len();
        let f = self.level_name_f();
        let r = self.padded(f, raw_len, self.pad.max_level_name_len);
        r
    }

    /// The message the log call carried.
    pub fn message(&self) -> (r: String)
        ensures
            r@ == self.text@,
    {
        self.text.clone()
    }

    /// Render text in the style of the level the message was logged at.
    pub fn formatted(&self, text: String) -> (r: String)
        ensures
            styled_ok(self.level.style, text@, r@),
    {
        self.level.format(text)
    }

    /// Pad `text` on the right with spaces up to `target_len` columns,
    /// counting only `len` of its characters as visible.
    fn padded(&self, text: String, len: usize, target_len: usize) -> (r: String)
        ensures
            r@ == pad_to(text@, len as nat, target_len as nat),
    {
        let ghost spaces = if target_len > len {
            (target_len - len) as nat
        } else {
            0nat
        };
        let ghost text0 = text@;
        let mut out = text;
        let mut z: usize = if target_len > len {
            target_len - len
        } else {
            0
        };
        proof {
            assert(text0 + Seq::new(0nat, |i: int| ' ') =~= text0);
        }
        while z > 0
            invariant
                z <= spaces,
                out@ == text0 + Seq::new((spaces - z) as nat, |i: int| ' '),
            decreases z,
        {
            out.append(" ");
            z = z - 1;
            proof {
                reveal_strlit(" ");
                assert(out@ =~= text0 + Seq::new((spaces - z) as nat, |i: int| ' '));
            }
        }
        proof {
            assert(out@ =~= pad_to(text0, len as nat, target_len as nat));
        }
        out
    }
}

/// The error conditions of the library: both represent configuration
/// mistakes rather than recoverable runtime events.
#[derive(Debug, Clone, PartialEq, Eq)]
pub enum LogError {
    /// No logger is registered for the given module path, nor for any of
    /// its ancestors up to and including the root path.
    LoggerNotRegistered { module: String },
    /// A one-shot initialisation guard was invoked a second time.
    DoubleInitialization,
}

} // verus!
