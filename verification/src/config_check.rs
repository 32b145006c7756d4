//! Start-up checks of the driver configuration.
use vstd::prelude::*;

verus! {

/// Why a driver refuses to start.
#[derive(Debug, Clone, Copy, PartialEq, Eq, Structural)]
pub enum ConfigError {
    /// Monitors are enabled but the status page is not configured.
    InstatusMissing,
    /// Database writes are enabled without a database URL.
    ClickhouseUrlMissing,
    /// Database writes are enabled without a database name.
    ClickhouseDbMissing,
    /// Database writes are enabled without a database user.
    ClickhouseUserMissing,
}

/// The first configuration problem found, in the order the driver checks them.
pub open spec fn config_problem(
    monitors_enabled: bool,
    instatus_configured: bool,
    enable_db_writes: bool,
    url: Seq<char>,
    db: Seq<char>,
    username: Seq<char>,
) -> Option<ConfigError> {
    if monitors_enabled && !instatus_configured {
        Some(ConfigError::InstatusMissing)
    } else if enable_db_writes && url.len() == 0 {
        Some(ConfigError::ClickhouseUrlMissing)
    } else if enable_db_writes && db.len() == 0 {
        Some(ConfigError::ClickhouseDbMissing)
    } else if enable_db_writes && username.len() == 0 {
        Some(ConfigError::ClickhouseUserMissing)
    } else {
        None
    }
}

/// Checks the options a driver starts with: monitors need the status page
/// configured, and database writes need a URL, a database name and a user.
pub fn validate_driver_options(
    monitors_enabled: bool,
    instatus_configured: bool,
    enable_db_writes: bool,
    url: &str,
    db: &str,
    username: &str,
) -> (r: Result<(), ConfigError>)
    ensures
        match config_problem(monitors_enabled, instatus_configured, enable_db_writes, url@, db@, username@) {
            Some(e) => r == Err::<(), ConfigError>(e),
            None => r == Ok::<(), ConfigError>(()),
        },
{
    if monitors_enabled && !instatus_configured {
        return Err(ConfigError::InstatusMissing);
    }
    if enable_db_writes {
        if url.unicode_len() == 0 {
            return Err(ConfigError::ClickhouseUrlMissing);
        }
        if db.unicode_len() == 0 {
            return Err(ConfigError::ClickhouseDbMissing);
        }
        if username.unicode_len() == 0 {
            return Err(ConfigError::ClickhouseUserMissing);
        }
    }
    Ok(())
}

/// The component id a monitor reports under.
pub open spec fn effective_id(monitors_enabled: bool, configured: Seq<char>) -> Seq<char> {
    if monitors_enabled { configured } else { Seq::<char>::empty() }
}

/// The component id a monitor reports under: the configured one when
/// monitors are enabled, else empty (so the monitor only logs).
pub fn effective_component_id(monitors_enabled: bool, configured: &str) -> (r: String)
    ensures
        r@ == effective_id(monitors_enabled, configured@),
{
    if monitors_enabled {
        String::from_str(configured)
    } else {
        String::new()
    }
}

/// Law: with monitors disabled no monitor reports to the status page: every
/// component id is empty, and an empty id disables reporting.
pub proof fn law_disabled_monitors_never_report(monitors_enabled: bool, configured: Seq<char>)
    requires
        !monitors_enabled,
    ensures
        !(effective_id(monitors_enabled, configured).len() > 0),
{
}

/// What a driver does about database migrations at start-up.
#[derive(Debug, Clone, Copy, PartialEq, Eq, Structural)]
pub enum MigrationStep {
    /// Database writes are disabled: no migrations.
    SkipWritesDisabled,
    /// Migrations were asked to be skipped.
    SkipRequested,
    /// Run the migrations, resetting the database first when asked.
    Run {
        /// Drop and recreate the database before migrating.
        reset_db: bool,
    },
}

/// Migrations run only when database writes are enabled and migrations are
/// not skipped.
pub fn migration_step(enable_db_writes: bool, skip_migrations: bool, reset_db: bool) -> (r: MigrationStep)
    ensures
        r == if !enable_db_writes {
            MigrationStep::SkipWritesDisabled
        } else if skip_migrations {
            MigrationStep::SkipRequested
        } else {
            MigrationStep::Run { reset_db }
        },
{
    if !enable_db_writes {
        MigrationStep::SkipWritesDisabled
    } else if skip_migrations {
        MigrationStep::SkipRequested
    } else {
        MigrationStep::Run { reset_db }
    }
}

} // verus!
