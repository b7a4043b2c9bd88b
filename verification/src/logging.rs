//! The log levels that a reload command may name.

use crate::text::same_text;
use vstd::prelude::*;

verus! {

/// The logging target of the sidecar.
pub const SIDECAR_LOG_TARGET: &'static str = "vscode_r_ark_sidecar";

/// Whether `level` is one of `error`, `warn`, `info`, `debug`, `trace`.
pub open spec fn is_log_level(level: Seq<char>) -> bool {
    level == "error"@ || level == "warn"@ || level == "info"@ || level == "debug"@ || level
        == "trace"@
}

/// The filter directive that sets the sidecar's own target to `level`.
pub open spec fn level_directive(level: Seq<char>) -> Seq<char> {
    SIDECAR_LOG_TARGET@ + "="@ + level
}

/// Whether `level` is a log level.
pub fn valid_log_level(level: &str) -> (valid: bool)
    ensures
        valid == is_log_level(level@),
{
    same_text(level, "error") || same_text(level, "warn") || same_text(level, "info") || same_text(
        level,
        "debug",
    ) || same_text(level, "trace")
}

/// The filter directive for `level`: the sidecar's target, `=` and the
/// level; `None` where `level` is not a log level.
pub fn build_level_filter(level: &str) -> (directive: Option<String>)
    ensures
        match directive {
            Some(d) => is_log_level(level@) && d@ == level_directive(level@),
            None => !is_log_level(level@),
        },
{
    if !valid_log_level(level) {
        return None;
    }
    let mut directive = SIDECAR_LOG_TARGET.to_string();
    directive.append("=");
    directive.append(level);
    Some(directive)
}

} // verus!
