//! Free-standing ingestion helper used by producers to log through any
//! `LogHandle` capability.

use vstd::prelude::*;
use crate::component::ComponentId;
use crate::logger::{LogHandle, LogLevel, LogRecord, push_model};

verus! {

/// Logs a message to the provided logger.
pub fn log_raw<L: LogHandle>(
    logger: &mut L,
    component: ComponentId,
    level: LogLevel,
    message: &'static str,
)
    requires
        old(logger).handle_inv(),
    ensures
        final(logger).handle_inv(),
        final(logger).handle_cap() == old(logger).handle_cap(),
        final(logger).buffered() == push_model(
            old(logger).buffered(),
            old(logger).handle_cap(),
            LogRecord { level, component, message },
        ),
{
    logger.log_message(component, level, message);
}

} // verus!
