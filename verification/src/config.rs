//! The application configuration and the checks it must pass before use.

use vstd::prelude::*;

use crate::errors::{validation_error, ConfigError};
use crate::text::{is_blank, spec_is_blank};

verus! {

/// The whole configuration file.
#[derive(Debug, Clone)]
pub struct AppConfig {
    pub runtime: RuntimeConfig,
    pub logging: LoggingConfig,
    pub wallet: WalletConfig,
    pub network: NetworkConfig,
    pub watcher: WatcherConfig,
}

#[derive(Debug, Clone)]
pub struct RuntimeConfig {
    pub app_name: String,
    pub environment: String,
}

#[derive(Debug, Clone)]
pub struct LoggingConfig {
    pub level: String,
}

#[derive(Debug, Clone)]
pub struct WalletConfig {
    pub keypair_path: String,
    pub mode: String,
}

#[derive(Debug, Clone)]
pub struct NetworkConfig {
    pub http_rpc: HttpRpcConfig,
    pub yellowstone: Option<YellowstoneConfig>,
    pub fallback_http_rpc: Option<HttpRpcEndpointConfig>,
}

#[derive(Debug, Clone)]
pub struct HttpRpcConfig {
    pub label: String,
    pub url: String,
    pub request_timeout_secs: u64,
    pub health_check_interval_secs: u64,
    pub blockhash_refresh_interval_secs: u64,
    pub heartbeat_interval_secs: u64,
    pub commitment: String,
}

#[derive(Debug, Clone)]
pub struct HttpRpcEndpointConfig {
    pub label: String,
    pub url: String,
}

#[derive(Debug, Clone)]
pub struct YellowstoneConfig {
    pub endpoint: String,
    pub auth_token: Option<String>,
    pub connect_timeout_secs: u64,
    pub reconnect_base_delay_secs: u64,
    pub reconnect_max_delay_secs: u64,
    pub stream_liveness_timeout_secs: u64,
}

/// Settings of the on-chain activity watcher.
#[derive(Debug, Clone)]
pub struct WatcherConfig {
    pub enabled: bool,
    pub heartbeat_interval_secs: u64,
    pub silence_warning_secs: u64,
    pub websocket: WatcherWebSocketConfig,
    pub mayhem: MayhemProgramConfig,
}

/// The websocket the watcher subscribes through.
#[derive(Debug, Clone)]
pub struct WatcherWebSocketConfig {
    pub enabled: bool,
    pub url: String,
    pub commitment: String,
}

/// The program whose logs the watcher follows.
#[derive(Debug, Clone)]
pub struct MayhemProgramConfig {
    pub program_id: String,
}

/// The message of the first check that a Yellowstone section fails, if any.
pub open spec fn yellowstone_violation(y: YellowstoneConfig) -> Option<Seq<char>> {
    if spec_is_blank(y.endpoint@) {
        Some("network.yellowstone.endpoint must not be empty when yellowstone is provided"@)
    } else if y.connect_timeout_secs == 0 {
        Some("network.yellowstone.connect_timeout_secs must be greater than 0"@)
    } else if y.reconnect_base_delay_secs == 0 {
        Some("network.yellowstone.reconnect_base_delay_secs must be greater than 0"@)
    } else if y.reconnect_max_delay_secs == 0 {
        Some("network.yellowstone.reconnect_max_delay_secs must be greater than 0"@)
    } else if y.stream_liveness_timeout_secs == 0 {
        Some("network.yellowstone.stream_liveness_timeout_secs must be greater than 0"@)
    } else if y.reconnect_base_delay_secs > y.reconnect_max_delay_secs {
        Some(
            "network.yellowstone.reconnect_base_delay_secs must be less than or equal to network.yellowstone.reconnect_max_delay_secs"@,
        )
    } else {
        None
    }
}

/// The message of the first check that a fallback endpoint fails, if any.
pub open spec fn fallback_violation(f: HttpRpcEndpointConfig) -> Option<Seq<char>> {
    if spec_is_blank(f.url@) {
        Some("network.fallback_http_rpc.url must not be empty when provided"@)
    } else if spec_is_blank(f.label@) {
        Some("network.fallback_http_rpc.label must not be empty when provided"@)
    } else {
        None
    }
}

/// The message of the first check, in the order the checks are made, that
/// the configuration fails; `None` when it passes all of them.
pub open spec fn first_violation(c: AppConfig) -> Option<Seq<char>> {
    let rpc = c.network.http_rpc;
    if spec_is_blank(c.runtime.app_name@) {
        Some("runtime.app_name must not be empty"@)
    } else if spec_is_blank(c.runtime.environment@) {
        Some("runtime.environment must not be empty"@)
    } else if spec_is_blank(c.logging.level@) {
        Some("logging.level must not be empty"@)
    } else if spec_is_blank(c.wallet.keypair_path@) {
        Some("wallet.keypair_path must not be empty"@)
    } else if spec_is_blank(rpc.url@) {
        Some("network.http_rpc.url must not be empty"@)
    } else if rpc.request_timeout_secs == 0 {
        Some("network.http_rpc.request_timeout_secs must be greater than 0"@)
    } else if rpc.health_check_interval_secs == 0 {
        Some("network.http_rpc.health_check_interval_secs must be greater than 0"@)
    } else if rpc.blockhash_refresh_interval_secs == 0 {
        Some("network.http_rpc.blockhash_refresh_interval_secs must be greater than 0"@)
    } else if spec_is_blank(rpc.commitment@) {
        Some("network.http_rpc.commitment must not be empty"@)
    } else if spec_is_blank(rpc.label@) {
        Some("network.http_rpc.label must not be empty"@)
    } else if rpc.heartbeat_interval_secs == 0 {
        Some("network.http_rpc.heartbeat_interval_secs must be greater than 0"@)
    } else if c.network.yellowstone is Some && yellowstone_violation(
        c.network.yellowstone->0,
    ) is Some {
        yellowstone_violation(c.network.yellowstone->0)
    } else if c.network.fallback_http_rpc is Some {
        fallback_violation(c.network.fallback_http_rpc->0)
    } else {
        None
    }
}

/// A configuration that passes every check has its required texts filled in,
/// every interval positive, and a Yellowstone reconnect delay that starts no
/// later than it ends.
pub proof fn lemma_valid_config_properties(c: AppConfig)
    requires
        first_violation(c) is None,
    ensures
        !spec_is_blank(c.runtime.app_name@),
        !spec_is_blank(c.runtime.environment@),
        !spec_is_blank(c.logging.level@),
        !spec_is_blank(c.wallet.keypair_path@),
        !spec_is_blank(c.network.http_rpc.url@),
        !spec_is_blank(c.network.http_rpc.commitment@),
        !spec_is_blank(c.network.http_rpc.label@),
        c.network.http_rpc.request_timeout_secs > 0,
        c.network.http_rpc.health_check_interval_secs > 0,
        c.network.http_rpc.blockhash_refresh_interval_secs > 0,
        c.network.http_rpc.heartbeat_interval_secs > 0,
        c.network.yellowstone matches Some(y) ==> {
            &&& !spec_is_blank(y.endpoint@)
            &&& y.connect_timeout_secs > 0
            &&& y.stream_liveness_timeout_secs > 0
            &&& 0 < y.reconnect_base_delay_secs <= y.reconnect_max_delay_secs
        },
        c.network.fallback_http_rpc matches Some(f) ==> !spec_is_blank(f.url@) && !spec_is_blank(
            f.label@,
        ),
{
}

/// A configuration whose required texts are filled in, whose intervals are
/// all positive, whose Yellowstone section (if any) has an endpoint, positive
/// timeouts and a base reconnect delay of at most the maximum, and whose
/// fallback endpoint (if any) has a URL and a label, passes every check;
/// nothing else (such as the Yellowstone auth token) is looked at.
pub proof fn lemma_config_meeting_every_check_is_valid(c: AppConfig)
    requires
        !spec_is_blank(c.runtime.app_name@),
        !spec_is_blank(c.runtime.environment@),
        !spec_is_blank(c.logging.level@),
        !spec_is_blank(c.wallet.keypair_path@),
        !spec_is_blank(c.network.http_rpc.url@),
        !spec_is_blank(c.network.http_rpc.commitment@),
        !spec_is_blank(c.network.http_rpc.label@),
        c.network.http_rpc.request_timeout_secs > 0,
        c.network.http_rpc.health_check_interval_secs > 0,
        c.network.http_rpc.blockhash_refresh_interval_secs > 0,
        c.network.http_rpc.heartbeat_interval_secs > 0,
        c.network.yellowstone matches Some(y) ==> {
            &&& !spec_is_blank(y.endpoint@)
            &&& y.connect_timeout_secs > 0
            &&& y.stream_liveness_timeout_secs > 0
            &&& 0 < y.reconnect_base_delay_secs <= y.reconnect_max_delay_secs
        },
        c.network.fallback_http_rpc matches Some(f) ==> !spec_is_blank(f.url@) && !spec_is_blank(
            f.label@,
        ),
    ensures
        first_violation(c) is None,
{
}

impl AppConfig {
    /// Check the configuration: `Ok(())` when every check passes, else the
    /// validation error of the first check that fails.
    pub fn validate(&self) -> (r: Result<(), ConfigError>)
        ensures
            r is Ok <==> first_violation(*self) is None,
            r matches Err(e) ==> (e matches ConfigError::Validation(m) && first_violation(*self)
                == Some(m@)),
    {
        let rpc = &self.network.http_rpc;
        if is_blank(self.runtime.app_name.as_str()) {
            return Err(validation_error("runtime.app_name must not be empty"));
        }
        if is_blank(self.runtime.environment.as_str()) {
            return Err(validation_error("runtime.environment must not be empty"));
        }
        if is_blank(self.logging.level.as_str()) {
            return Err(validation_error("logging.level must not be empty"));
        }
        if is_blank(self.wallet.keypair_path.as_str()) {
            return Err(validation_error("wallet.keypair_path must not be empty"));
        }
        if is_blank(rpc.url.as_str()) {
            return Err(validation_error("network.http_rpc.url must not be empty"));
        }
        if rpc.request_timeout_secs == 0 {
            return Err(
                validation_error("network.http_rpc.request_timeout_secs must be greater than 0"),
            );
        }
        if rpc.health_check_interval_secs == 0 {
            return Err(
                validation_error(
                    "network.http_rpc.health_check_interval_secs must be greater than 0",
                ),
            );
        }
        if rpc.blockhash_refresh_interval_secs == 0 {
            return Err(
                validation_error(
                    "network.http_rpc.blockhash_refresh_interval_secs must be greater than 0",
                ),
            );
        }
        if is_blank(rpc.commitment.as_str()) {
            return Err(validation_error("network.http_rpc.commitment must not be empty"));
        }
        if is_blank(rpc.label.as_str()) {
            return Err(validation_error("network.http_rpc.label must not be empty"));
        }
        if rpc.heartbeat_interval_secs == 0 {
            return Err(
                validation_error("network.http_rpc.heartbeat_interval_secs must be greater than 0"),
            );
        }
        if let Some(yellowstone) = &self.network.yellowstone {
            if is_blank(yellowstone.endpoint.as_str()) {
                return Err(
                    validation_error(
                        "network.yellowstone.endpoint must not be empty when yellowstone is provided",
                    ),
                );
            }
            if yellowstone.connect_timeout_secs == 0 {
                return Err(
                    validation_error(
                        "network.yellowstone.connect_timeout_secs must be greater than 0",
                    ),
                );
            }
            if yellowstone.reconnect_base_delay_secs == 0 {
                return Err(
                    validation_error(
                        "network.yellowstone.reconnect_base_delay_secs must be greater than 0",
                    ),
                );
            }
            if yellowstone.reconnect_max_delay_secs == 0 {
                return Err(
                    validation_error(
                        "network.yellowstone.reconnect_max_delay_secs must be greater than 0",
                    ),
                );
            }
            if yellowstone.stream_liveness_timeout_secs == 0 {
                return Err(
                    validation_error(
                        "network.yellowstone.stream_liveness_timeout_secs must be greater than 0",
                    ),
                );
            }
            if yellowstone.reconnect_base_delay_secs > yellowstone.reconnect_max_delay_secs {
                return Err(
                    validation_error(
                        "network.yellowstone.reconnect_base_delay_secs must be less than or equal to network.yellowstone.reconnect_max_delay_secs",
                    ),
                );
            }
        }
        if let Some(fallback) = &self.network.fallback_http_rpc {
            if is_blank(fallback.url.as_str()) {
                return Err(
                    validation_error("network.fallback_http_rpc.url must not be empty when provided"),
                );
            }
            if is_blank(fallback.label.as_str()) {
                return Err(
                    validation_error(
                        "network.fallback_http_rpc.label must not be empty when provided",
                    ),
                );
            }
        }
        Ok(())
    }
}

} // verus!
