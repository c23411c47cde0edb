//! The state the application holds once it has started.

use vstd::prelude::*;

use crate::config::AppConfig;
use crate::wallet::LoadedWallet;

verus! {

/// The application's configuration, wallet and runtime identity.
#[derive(Debug)]
pub struct AppState {
    pub runtime: RuntimeState,
    pub config: AppConfig,
    pub wallet: LoadedWallet,
}

/// The name and environment the application runs under.
#[derive(Debug)]
pub struct RuntimeState {
    pub app_name: String,
    pub environment: String,
}

/// The words the start-up summary shows for the optional parts.
#[derive(Debug, Clone, Copy)]
pub struct StartupStatuses {
    pub fallback_rpc: &'static str,
    pub yellowstone: &'static str,
    pub watcher: &'static str,
    pub watcher_websocket: &'static str,
}

/// `configured` or `not configured`.
pub open spec fn configured_word(present: bool) -> Seq<char> {
    if present {
        "configured"@
    } else {
        "not configured"@
    }
}

/// `enabled` or `disabled`.
pub open spec fn enabled_word(on: bool) -> Seq<char> {
    if on {
        "enabled"@
    } else {
        "disabled"@
    }
}

fn configured_str(present: bool) -> (r: &'static str)
    ensures
        r@ == configured_word(present),
{
    if present {
        "configured"
    } else {
        "not configured"
    }
}

fn enabled_str(on: bool) -> (r: &'static str)
    ensures
        r@ == enabled_word(on),
{
    if on {
        "enabled"
    } else {
        "disabled"
    }
}

impl AppState {
    /// Whether the fallback RPC and Yellowstone are configured, and whether
    /// the watcher and its websocket are enabled, in the summary's words.
    pub fn startup_statuses(&self) -> (r: StartupStatuses)
        ensures
            r.fallback_rpc@ == configured_word(self.config.network.fallback_http_rpc is Some),
            r.yellowstone@ == configured_word(self.config.network.yellowstone is Some),
            r.watcher@ == enabled_word(self.config.watcher.enabled),
            r.watcher_websocket@ == enabled_word(self.config.watcher.websocket.enabled),
    {
        StartupStatuses {
            fallback_rpc: configured_str(self.config.network.fallback_http_rpc.is_some()),
            yellowstone: configured_str(self.config.network.yellowstone.is_some()),
            watcher: enabled_str(self.config.watcher.enabled),
            watcher_websocket: enabled_str(self.config.watcher.websocket.enabled),
        }
    }

    /// The state for `config` and `wallet`; the runtime identity is copied from
    /// the configuration.
    pub fn new(config: AppConfig, wallet: LoadedWallet) -> (r: AppState)
        ensures
            r.runtime.app_name == config.runtime.app_name,
            r.runtime.environment == config.runtime.environment,
            r.config == config,
            r.wallet == wallet,
    {
        let runtime = RuntimeState {
            app_name: config.runtime.app_name.clone(),
            environment: config.runtime.environment.clone(),
        };
        AppState { runtime, config, wallet }
    }
}

} // verus!
