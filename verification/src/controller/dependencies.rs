//! Explicit dependencies used by the application controller.
//!
//! The controller orchestrates OBS work but should not know how configuration
//! or secrets are persisted. These traits keep those boundary details
//! injectable without introducing a larger application framework.

use vstd::prelude::*;
use std::sync::Arc;
use crate::infra::error::AppError;
use crate::storage::config::AppConfig;

verus! {

/// Source of the application configuration.
pub trait AppConfigProvider: Send + Sync {
    /// The configuration currently in effect.
    fn load_config(&self) -> AppConfig;
}

/// Source of the OBS websocket password.
pub trait ObsPasswordProvider: Send + Sync {
    /// The stored password, if one is set.
    fn obs_password(&self) -> Result<Option<String>, AppError>;
}

/// The configuration and password sources the controller works with.
pub struct ControllerDependencies<C: AppConfigProvider, P: ObsPasswordProvider> {
    config_provider: Arc<C>,
    password_provider: Arc<P>,
}

impl<C: AppConfigProvider, P: ObsPasswordProvider> Clone for ControllerDependencies<C, P> {
    fn clone(&self) -> (d: Self)
        ensures
            d.config_source() == self.config_source(),
            d.password_source() == self.password_source(),
    {
        ControllerDependencies {
            config_provider: Arc::clone(&self.config_provider),
            password_provider: Arc::clone(&self.password_provider),
        }
    }
}

impl<C: AppConfigProvider, P: ObsPasswordProvider> ControllerDependencies<C, P> {
    /// Bundle the two sources.
    pub fn new(config_provider: Arc<C>, password_provider: Arc<P>) -> (d: Self)
        ensures
            d.config_source() == config_provider,
            d.password_source() == password_provider,
    {
        ControllerDependencies { config_provider, password_provider }
    }

    /// Configuration source in use.
    pub closed spec fn config_source(&self) -> Arc<C> {
        self.config_provider
    }

    /// Password source in use.
    pub closed spec fn password_source(&self) -> Arc<P> {
        self.password_provider
    }

    /// The configuration, as the configuration source reports it.
    pub fn load_config(&self) -> (c: AppConfig)
        ensures
            call_ensures(C::load_config, (&*self.config_source(),), c),
    {
        self.config_provider.load_config()
    }

    /// The OBS password, as the password source reports it.
    pub fn obs_password(&self) -> (r: Result<Option<String>, AppError>)
        ensures
            call_ensures(P::obs_password, (&*self.password_source(),), r),
    {
        self.password_provider.obs_password()
    }
}

} // verus!
