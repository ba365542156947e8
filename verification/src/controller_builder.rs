//! Builder for creating thread controllers.

use vstd::prelude::*;
use crate::controller::ThreadControllerImpl;
use crate::logging::SimpleLogger;

verus! {

/// Builder for creating thread controllers: collects the default
/// refresh interval, the logger, and the model directory before the
/// controller is built.
pub struct ThreadControllerBuilder {
    /// Default refresh interval in milliseconds
    default_refresh_interval: u64,
    /// Logger
    logger: Option<SimpleLogger>,
    /// Model directory
    model_dir: Option<String>,
}

impl ThreadControllerBuilder {
    /// The default refresh interval, for contracts.
    pub closed spec fn default_refresh_interval_spec(self) -> u64 {
        self.default_refresh_interval
    }

    /// The model directory, for contracts.
    pub closed spec fn model_dir_spec(self) -> Option<String> {
        self.model_dir
    }

    /// Create a new thread controller builder with the default refresh
    /// interval.
    pub fn new() -> (r: Self)
        ensures
            r.default_refresh_interval_spec() == 100,
            r.model_dir_spec() is None,
    {
        ThreadControllerBuilder {
            default_refresh_interval: 100,
            logger: Option::None,
            model_dir: Option::None,
        }
    }

    /// Set the default refresh interval.
    pub fn default_refresh_interval(self, interval_ms: u64) -> (r: Self)
        ensures
            r.default_refresh_interval_spec() == interval_ms,
            r.model_dir_spec() == self.model_dir_spec(),
    {
        ThreadControllerBuilder { default_refresh_interval: interval_ms, ..self }
    }

    /// Set the logger.
    pub fn with_logger(self, logger: SimpleLogger) -> (r: Self)
        ensures
            r.default_refresh_interval_spec() == self.default_refresh_interval_spec(),
            r.model_dir_spec() == self.model_dir_spec(),
    {
        ThreadControllerBuilder { logger: Option::Some(logger), ..self }
    }

    /// Set the model directory.
    pub fn model_dir(self, dir: Option<String>) -> (r: Self)
        ensures
            r.default_refresh_interval_spec() == self.default_refresh_interval_spec(),
            r.model_dir_spec() == dir,
    {
        ThreadControllerBuilder { model_dir: dir, ..self }
    }

    /// Build a thread controller with the collected settings.
    pub fn build(self) -> (r: ThreadControllerImpl)
        ensures
            r.wf(),
            r.ids() =~= Seq::<u32>::empty(),
            r.default_refresh_interval_spec() == self.default_refresh_interval_spec(),
    {
        let mut controller = match self.logger {
            Option::Some(logger) => ThreadControllerImpl::with_logger(logger),
            Option::None => ThreadControllerImpl::new(),
        };
        controller.set_default_refresh_interval(self.default_refresh_interval);
        controller
    }
}

impl Default for ThreadControllerBuilder {
    fn default() -> (r: Self)
        ensures
            r.default_refresh_interval_spec() == 100,
            r.model_dir_spec() is None,
    {
        ThreadControllerBuilder::new()
    }
}

} // verus!
