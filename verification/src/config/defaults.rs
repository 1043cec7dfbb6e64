use vstd::prelude::*;

verus! {

/// Placeholder user name written into a fresh configuration file.
pub const USERNAME: &'static str = "YOUR_GMAIL@gmail.com";

/// Placeholder app password written into a fresh configuration file.
pub const PASSWORD: &'static str = "YOUR_APP_PASSWORD";

/// File name of the configuration file inside the configuration directory.
pub const CFG_FILE_NAME: &'static str = "config.toml";

/// Cron expression used when the configuration names none: every hour from 08:00 to 18:00.
pub const DEFAULT_CRON: &'static str = "0 0 8-18 * * *";

} // verus!
