//! The process-scoped context: the root of the ownership chain.
//!
//! Every other object is created against a live context (directly or
//! through a device) and must be destroyed before it.  The context
//! counts its live children, so destroying it while an instance or a
//! filter still exists is ruled out by contract rather than by
//! convention.

use vstd::prelude::*;

verus! {

/// Logging verbosity, from silent to per-call tracing.
#[allow(non_camel_case_types)]
#[derive(Clone, Copy, Debug, PartialEq, Eq, Structural)]
pub enum LogLevel {
    LOG_NONE,
    LOG_FATAL,
    LOG_ERR,
    LOG_WARN,
    LOG_INFO,
    LOG_DEBUG,
    LOG_TRACE,
}

/// Which log sink the context forwards messages to.
#[derive(Clone, Copy, Debug, PartialEq, Eq, Structural)]
pub enum LogFunction {
    LogColor,
    LogSimple,
    NoLog,
}

/// Construction parameters for a [`Context`]: a log sink selection
/// and a verbosity level.
#[derive(Clone, Copy, Debug, PartialEq, Eq, Structural)]
pub struct ContextParams {
    pub log_cb: LogFunction,
    pub log_level: LogLevel,
}

impl ContextParams {
    pub fn new(log_cb: &LogFunction, log_level: &LogLevel) -> (r: ContextParams)
        ensures
            r.log_cb == *log_cb,
            r.log_level == *log_level,
    {
        ContextParams { log_cb: *log_cb, log_level: *log_level }
    }
}

impl Default for ContextParams {
    /// The default parameters keep logging disabled.
    fn default() -> (r: ContextParams)
        ensures
            r.log_cb == LogFunction::NoLog,
            r.log_level == LogLevel::LOG_NONE,
    {
        ContextParams { log_cb: LogFunction::NoLog, log_level: LogLevel::LOG_NONE }
    }
}

/// The process-scoped handle.  `ctx == 0` means the context has been
/// destroyed; every downstream creation call demands a live context.
pub struct Context {
    /// Model handle; 0 once destroyed.
    pub ctx: u64,
    pub log_cb: LogFunction,
    pub log_level: LogLevel,
    /// Instances and filters created from this context and not yet
    /// destroyed.
    pub live_children: u64,
    /// Model handle generator for children.
    pub next_child: u64,
}

impl Context {
    pub open spec fn is_alive(&self) -> bool {
        self.ctx != 0
    }

    pub fn new(params: &ContextParams) -> (r: Context)
        ensures
            r.is_alive(),
            r.log_cb == params.log_cb,
            r.log_level == params.log_level,
            r.live_children == 0,
            r.next_child == 1,
    {
        Context {
            ctx: 1,
            log_cb: params.log_cb,
            log_level: params.log_level,
            live_children: 0,
            next_child: 1,
        }
    }

    /// Reconfigures the log sink and level of a live context without
    /// invalidating any object created from it.
    pub fn update(&mut self, ctx_params: Option<&ContextParams>)
        requires
            old(self).is_alive(),
        ensures
            final(self).ctx == old(self).ctx,
            final(self).live_children == old(self).live_children,
            final(self).next_child == old(self).next_child,
            match ctx_params {
                Some(p) => final(self).log_cb == p.log_cb && final(self).log_level == p.log_level,
                None => final(self).log_cb == LogFunction::NoLog && final(self).log_level
                    == LogLevel::LOG_NONE,
            },
    {
        match ctx_params {
            Some(p) => {
                self.log_cb = p.log_cb;
                self.log_level = p.log_level;
            },
            None => {
                self.log_cb = LogFunction::NoLog;
                self.log_level = LogLevel::LOG_NONE;
            },
        }
    }

    /// Releases the context.  It must be the last lifecycle event: a
    /// live context may only be destroyed once no child outlives it.
    /// Destroying an already-destroyed context is a safe no-op.
    pub fn destroy(&mut self)
        requires
            old(self).is_alive() ==> old(self).live_children == 0,
        ensures
            !final(self).is_alive(),
            final(self).ctx == 0,
            final(self).log_cb == old(self).log_cb,
            final(self).log_level == old(self).log_level,
            final(self).live_children == old(self).live_children,
            final(self).next_child == old(self).next_child,
    {
        self.ctx = 0;
    }
}

impl Default for Context {
    /// A context with the default (silent) log parameters.
    fn default() -> (r: Context)
        ensures
            r.is_alive(),
            r.log_cb == LogFunction::NoLog,
            r.log_level == LogLevel::LOG_NONE,
            r.live_children == 0,
            r.next_child == 1,
    {
        Context {
            ctx: 1,
            log_cb: LogFunction::NoLog,
            log_level: LogLevel::LOG_NONE,
            live_children: 0,
            next_child: 1,
        }
    }
}

} // verus!
