use vstd::prelude::*;

pub mod defaults;

use defaults::{DEFAULT_CRON, PASSWORD, USERNAME};

verus! {

/// Text written to a configuration file that does not exist yet.
pub const DEFAULT_CONFIG_TEMPLATE: &'static str = r#"# ==========================================
# Hedwig Configuration File
# ==========================================

# [Required] Gmail Username
# Please enter your full email address.
username = "YOUR_GMAIL@gmail.com"

# [Required] Gmail App Password
# Note: This is NOT your standard Google login password.
# You must generate an App Password in your Google Account settings:
# Security -> 2-Step Verification -> App passwords
password = "YOUR_APP_PASSWORD"

# [Required] Cron Schedule Expression
# Format: Sec  Min  Hour  Day  Month  Week  [Year]
# Examples:
# - Every minute (at 0s):               "0 * * * * *"
# - Every 5 minutes:                    "0 */5 * * * *"
# - At 9:30 AM every day:               "0 30 9 * * *"
# - Every 30 seconds:                   "0/30 * * * * *"
# - Every hour in 08:00-18:00(default)  "0 0 8-18 * * *"
cron_expr = "0 0 8-18 * * *"

# [Optional] HTTP Proxy Address
# Useful if you cannot connect to Gmail directly.
# Examples: "http://127.0.0.1:1087
# If you don't need a proxy, keep the line below commented out.
# proxy_addr = "http://127.0.0.1:7890"
"#;

/// The application's settings, as read from the configuration file.
#[derive(Debug, Clone)]
pub struct AppConfig {
    pub username: String,
    pub password: String,
    pub proxy_addr: Option<String>,
    pub cron_expr: String,
}

/// A configuration can be used to log in: neither credential is empty and
/// neither is still the placeholder of the template.
pub open spec fn credentials_usable(username: Seq<char>, password: Seq<char>) -> bool {
    !(username == USERNAME@ || password == PASSWORD@ || username.len() == 0 || password.len()
        == 0)
}

impl AppConfig {
    /// Spec-level view of [`AppConfig::is_valid`].
    pub open spec fn spec_is_valid(&self) -> bool {
        credentials_usable(self.username@, self.password@)
    }

    /// Whether the configuration holds real credentials.
    pub fn is_valid(&self) -> (r: bool)
        ensures
            r == self.spec_is_valid(),
    {
        let placeholder_user = USERNAME.to_owned();
        let placeholder_password = PASSWORD.to_owned();
        !(self.username == placeholder_user || self.password == placeholder_password
            || self.username.as_str().is_empty() || self.password.as_str().is_empty())
    }
}

/// The cron expression used when the configuration file names none.
pub fn default_cron() -> (r: String)
    ensures
        r@ == DEFAULT_CRON@,
{
    DEFAULT_CRON.to_owned()
}

impl Default for AppConfig {
    fn default() -> (r: Self)
        ensures
            r.username@ == USERNAME@,
            r.password@ == PASSWORD@,
            r.cron_expr@ == DEFAULT_CRON@,
            r.proxy_addr is None,
    {
        AppConfig {
            username: USERNAME.to_owned(),
            password: PASSWORD.to_owned(),
            cron_expr: DEFAULT_CRON.to_owned(),
            proxy_addr: None,
        }
    }
}

/// The configuration that is used before any file was read is not usable:
/// it still holds the template's placeholder credentials.
pub proof fn default_config_is_not_valid(cfg: AppConfig)
    requires
        cfg.username@ == USERNAME@,
        cfg.password@ == PASSWORD@,
    ensures
        !cfg.spec_is_valid(),
{
}

/// A configuration holds usable credentials exactly when the user name and the
/// password are both non-empty and neither is the template's placeholder.
pub proof fn valid_iff_real_credentials(cfg: AppConfig)
    ensures
        cfg.spec_is_valid() <==> (cfg.username@.len() > 0 && cfg.password@.len() > 0
            && cfg.username@ != USERNAME@ && cfg.password@ != PASSWORD@),
{
}

} // verus!
