//! Persistence configuration: database backend, indexing, archival and
//! backup policies, storage queries, schemas and storage statistics.

use vstd::prelude::*;
use crate::text::owned;

verus! {

/// Database backend type.
#[derive(Clone, Copy, Debug, PartialEq, Eq, Structural)]
pub enum DatabaseBackend {
    /// SQLite (file-based, single process)
    SQLite,
    /// PostgreSQL (server-based, multi-process)
    PostgreSQL,
}

/// Database connection configuration.
#[derive(Clone, Debug)]
pub struct DatabaseConfig {
    /// Backend type
    pub backend: DatabaseBackend,
    /// Connection string (SQLite path or PostgreSQL URL)
    pub connection_string: String,
    /// Maximum connection pool size
    pub max_connections: u32,
    /// Enable query logging
    pub query_logging: bool,
    /// Automatic archival after N days
    pub auto_archive_days: Option<u32>,
}

impl DatabaseConfig {
    /// SQLite configuration for local development: one connection, no
    /// logging, no automatic archival.
    pub fn sqlite(path: &str) -> (c: Self)
        ensures
            c.backend == DatabaseBackend::SQLite,
            c.connection_string@ == path@,
            c.max_connections == 1,
            !c.query_logging,
            c.auto_archive_days is None,
    {
        DatabaseConfig {
            backend: DatabaseBackend::SQLite,
            connection_string: owned(path),
            max_connections: 1,
            query_logging: false,
            auto_archive_days: None,
        }
    }

    /// PostgreSQL configuration for production: sixteen connections, no
    /// logging, archival after 90 days.
    pub fn postgresql(url: &str) -> (c: Self)
        ensures
            c.backend == DatabaseBackend::PostgreSQL,
            c.connection_string@ == url@,
            c.max_connections == 16,
            !c.query_logging,
            c.auto_archive_days == Some(90u32),
    {
        DatabaseConfig {
            backend: DatabaseBackend::PostgreSQL,
            connection_string: owned(url),
            max_connections: 16,
            query_logging: false,
            auto_archive_days: Some(90),
        }
    }

    /// The same configuration with query logging enabled.
    pub fn with_logging(self) -> (c: Self)
        ensures
            c.query_logging,
            c.backend == self.backend,
            c.connection_string == self.connection_string,
            c.max_connections == self.max_connections,
            c.auto_archive_days == self.auto_archive_days,
    {
        let mut c = self;
        c.query_logging = true;
        c
    }

    /// The same configuration with archival after `days` days.
    pub fn with_auto_archive(self, days: u32) -> (c: Self)
        ensures
            c.auto_archive_days == Some(days),
            c.backend == self.backend,
            c.connection_string == self.connection_string,
            c.max_connections == self.max_connections,
            c.query_logging == self.query_logging,
    {
        let mut c = self;
        c.auto_archive_days = Some(days);
        c
    }
}

impl Default for DatabaseConfig {
    /// SQLite on `pyterrain.db`.
    fn default() -> (c: Self)
        ensures
            c.backend == DatabaseBackend::SQLite,
            c.connection_string@ == "pyterrain.db"@,
            c.max_connections == 1,
            !c.query_logging,
            c.auto_archive_days is None,
    {
        Self::sqlite("pyterrain.db")
    }
}

/// Database statistics.
#[derive(Clone, Debug)]
pub struct DatabaseStats {
    /// Total observations
    pub total_observations: u64,
    /// Active observations (not archived)
    pub active_observations: u64,
    /// Archived observations
    pub archived_observations: u64,
    /// Unique robots
    pub unique_robots: u32,
    /// Unique sensor types
    pub unique_sensor_types: u32,
    /// Database size (bytes)
    pub database_size_bytes: u64,
    /// Oldest observation timestamp
    pub oldest_timestamp_us: Option<i64>,
    /// Newest observation timestamp
    pub newest_timestamp_us: Option<i64>,
}

impl Default for DatabaseStats {
    /// All counts zero, no timestamps.
    fn default() -> (s: Self)
        ensures
            s.total_observations == 0,
            s.active_observations == 0,
            s.archived_observations == 0,
            s.unique_robots == 0,
            s.unique_sensor_types == 0,
            s.database_size_bytes == 0,
            s.oldest_timestamp_us is None,
            s.newest_timestamp_us is None,
    {
        DatabaseStats {
            total_observations: 0,
            active_observations: 0,
            archived_observations: 0,
            unique_robots: 0,
            unique_sensor_types: 0,
            database_size_bytes: 0,
            oldest_timestamp_us: None,
            newest_timestamp_us: None,
        }
    }
}

/// Which columns are indexed.
#[derive(Clone, Copy, Debug, PartialEq, Eq, Structural)]
pub struct IndexConfig {
    /// Index on timestamp (for time-range queries)
    pub index_timestamp: bool,
    /// Index on robot_id (for robot-specific queries)
    pub index_robot_id: bool,
    /// Index on sensor_type
    pub index_sensor_type: bool,
    /// Spatial index on location (if supported)
    pub index_location: bool,
    /// Index on confidence
    pub index_confidence: bool,
}

impl IndexConfig {
    /// Every index enabled.
    pub fn all() -> (c: Self)
        ensures
            c == (IndexConfig {
                index_timestamp: true,
                index_robot_id: true,
                index_sensor_type: true,
                index_location: true,
                index_confidence: true,
            }),
    {
        IndexConfig {
            index_timestamp: true,
            index_robot_id: true,
            index_sensor_type: true,
            index_location: true,
            index_confidence: true,
        }
    }

    /// Only the timestamp index (faster writes).
    pub fn minimal() -> (c: Self)
        ensures
            c == (IndexConfig {
                index_timestamp: true,
                index_robot_id: false,
                index_sensor_type: false,
                index_location: false,
                index_confidence: false,
            }),
    {
        IndexConfig {
            index_timestamp: true,
            index_robot_id: false,
            index_sensor_type: false,
            index_location: false,
            index_confidence: false,
        }
    }
}

impl Default for IndexConfig {
    /// Every index enabled.
    fn default() -> (c: Self)
        ensures
            c.index_timestamp && c.index_robot_id && c.index_sensor_type && c.index_location
                && c.index_confidence,
    {
        Self::all()
    }
}

/// Archival policy for the data lifecycle.
#[derive(Clone, Copy, Debug, PartialEq, Eq, Structural)]
pub struct ArchivalPolicy {
    /// Archive observations older than N days
    pub archive_after_days: u32,
    /// Delete archived observations after N days
    pub delete_after_days: u32,
    /// Enable compression for archived data
    pub compress_archived: bool,
    /// Compression level (1-9)
    pub compression_level: u8,
}

impl ArchivalPolicy {
    /// Policy with the given horizons, compressing archives at level 6.
    pub fn new(archive_days: u32, delete_days: u32) -> (p: Self)
        ensures
            p == (ArchivalPolicy {
                archive_after_days: archive_days,
                delete_after_days: delete_days,
                compress_archived: true,
                compression_level: 6,
            }),
    {
        ArchivalPolicy {
            archive_after_days: archive_days,
            delete_after_days: delete_days,
            compress_archived: true,
            compression_level: 6,
        }
    }
}

impl Default for ArchivalPolicy {
    /// Archive after 90 days, delete after a year.
    fn default() -> (p: Self)
        ensures
            p.archive_after_days == 90,
            p.delete_after_days == 365,
            p.compress_archived,
            p.compression_level == 6,
    {
        Self::new(90, 365)
    }
}

/// Backup configuration.
#[derive(Clone, Debug)]
pub struct BackupConfig {
    /// Enable automatic backups
    pub enabled: bool,
    /// Backup interval (hours)
    pub interval_hours: u32,
    /// Backup directory path
    pub backup_directory: String,
    /// Number of backups to retain
    pub retain_count: u32,
    /// Compress backups
    pub compress: bool,
}

impl BackupConfig {
    /// Daily compressed backups into `directory`, keeping seven.
    pub fn new(directory: &str) -> (c: Self)
        ensures
            c.enabled,
            c.interval_hours == 24,
            c.backup_directory@ == directory@,
            c.retain_count == 7,
            c.compress,
    {
        BackupConfig {
            enabled: true,
            interval_hours: 24,
            backup_directory: owned(directory),
            retain_count: 7,
            compress: true,
        }
    }

    /// No backups.
    pub fn disabled() -> (c: Self)
        ensures
            !c.enabled,
            c.interval_hours == 24,
            c.backup_directory@ == Seq::<char>::empty(),
            c.retain_count == 0,
            !c.compress,
    {
        BackupConfig {
            enabled: false,
            interval_hours: 24,
            backup_directory: String::new(),
            retain_count: 0,
            compress: false,
        }
    }
}

} // verus!

verus! {

/// Storage query: time range, optional robot and sensor filters and a
/// result limit. (Geographic bounds and a confidence floor are
/// floating-point filters applied by the caller.)
#[derive(Clone, Debug)]
pub struct StorageQuery {
    /// Start timestamp (microseconds)
    pub from_timestamp_us: i64,
    /// End timestamp (microseconds)
    pub to_timestamp_us: i64,
    /// Filter by robot IDs
    pub robot_ids: Option<Vec<String>>,
    /// Filter by sensor types
    pub sensor_types: Option<Vec<String>>,
    /// Limit result count
    pub limit: Option<u32>,
}

impl StorageQuery {
    /// Query over `[from, to]` without filters or limit.
    pub fn new(from: i64, to: i64) -> (q: Self)
        ensures
            q.from_timestamp_us == from,
            q.to_timestamp_us == to,
            q.robot_ids is None,
            q.sensor_types is None,
            q.limit is None,
    {
        StorageQuery { from_timestamp_us: from, to_timestamp_us: to, robot_ids: None, sensor_types: None, limit: None }
    }

    /// The same query restricted to the given robots.
    pub fn with_robots(self, robots: Vec<String>) -> (q: Self)
        ensures
            q.robot_ids == Some(robots),
            q.from_timestamp_us == self.from_timestamp_us,
            q.to_timestamp_us == self.to_timestamp_us,
            q.sensor_types == self.sensor_types,
            q.limit == self.limit,
    {
        let mut q = self;
        q.robot_ids = Some(robots);
        q
    }

    /// The same query restricted to the given sensor types.
    pub fn with_sensors(self, sensors: Vec<String>) -> (q: Self)
        ensures
            q.sensor_types == Some(sensors),
            q.from_timestamp_us == self.from_timestamp_us,
            q.to_timestamp_us == self.to_timestamp_us,
            q.robot_ids == self.robot_ids,
            q.limit == self.limit,
    {
        let mut q = self;
        q.sensor_types = Some(sensors);
        q
    }

    /// The same query returning at most `limit` results.
    pub fn with_limit(self, limit: u32) -> (q: Self)
        ensures
            q.limit == Some(limit),
            q.from_timestamp_us == self.from_timestamp_us,
            q.to_timestamp_us == self.to_timestamp_us,
            q.robot_ids == self.robot_ids,
            q.sensor_types == self.sensor_types,
    {
        let mut q = self;
        q.limit = Some(limit);
        q
    }
}

/// Schema creation SQL for SQLite.
pub open spec fn sqlite_schema() -> Seq<char> {
    "\nCREATE TABLE IF NOT EXISTS observations (\n    observation_id TEXT PRIMARY KEY,\n    robot_id TEXT NOT NULL,\n    sensor_type TEXT NOT NULL,\n    location TEXT NOT NULL,\n    timestamp_us INTEGER NOT NULL,\n    confidence REAL NOT NULL,\n    value TEXT NOT NULL,\n    metadata TEXT,\n    archived BOOLEAN DEFAULT 0,\n    archived_at INTEGER\n);\n\nCREATE INDEX IF NOT EXISTS idx_timestamp ON observations(timestamp_us);\nCREATE INDEX IF NOT EXISTS idx_robot_id ON observations(robot_id);\nCREATE INDEX IF NOT EXISTS idx_sensor_type ON observations(sensor_type);\nCREATE INDEX IF NOT EXISTS idx_archived ON observations(archived);\n\nCREATE TABLE IF NOT EXISTS snapshots (\n    snapshot_id TEXT PRIMARY KEY,\n    timestamp_us INTEGER NOT NULL,\n    point_count INTEGER,\n    bounds_min_x REAL,\n    bounds_min_y REAL,\n    bounds_min_z REAL,\n    bounds_max_x REAL,\n    bounds_max_y REAL,\n    bounds_max_z REAL,\n    metadata TEXT\n);\n\nCREATE INDEX IF NOT EXISTS idx_snapshot_timestamp ON snapshots(timestamp_us);\n\nCREATE TABLE IF NOT EXISTS changes (\n    change_id TEXT PRIMARY KEY,\n    baseline_snapshot_id TEXT NOT NULL,\n    current_snapshot_id TEXT NOT NULL,\n    timestamp_us INTEGER NOT NULL,\n    changed_count INTEGER,\n    added_count INTEGER,\n    removed_count INTEGER,\n    change_percentage REAL,\n    metadata TEXT,\n    FOREIGN KEY(baseline_snapshot_id) REFERENCES snapshots(snapshot_id),\n    FOREIGN KEY(current_snapshot_id) REFERENCES snapshots(snapshot_id)\n);\n\nCREATE INDEX IF NOT EXISTS idx_change_timestamp ON changes(timestamp_us);\n        "@
}

/// Schema creation SQL for PostgreSQL.
pub open spec fn postgresql_schema() -> Seq<char> {
    "\nCREATE TABLE IF NOT EXISTS observations (\n    observation_id TEXT PRIMARY KEY,\n    robot_id TEXT NOT NULL,\n    sensor_type TEXT NOT NULL,\n    location GEOMETRY NOT NULL,\n    timestamp_us BIGINT NOT NULL,\n    confidence REAL NOT NULL,\n    value JSONB NOT NULL,\n    metadata JSONB,\n    archived BOOLEAN DEFAULT FALSE,\n    archived_at BIGINT\n);\n\nCREATE INDEX IF NOT EXISTS idx_timestamp ON observations(timestamp_us);\nCREATE INDEX IF NOT EXISTS idx_robot_id ON observations(robot_id);\nCREATE INDEX IF NOT EXISTS idx_sensor_type ON observations(sensor_type);\nCREATE INDEX IF NOT EXISTS idx_archived ON observations(archived);\nCREATE INDEX IF NOT EXISTS idx_location ON observations USING GIST(location);\n\nCREATE TABLE IF NOT EXISTS snapshots (\n    snapshot_id TEXT PRIMARY KEY,\n    timestamp_us BIGINT NOT NULL,\n    point_count INTEGER,\n    bounds BOX3D,\n    metadata JSONB\n);\n\nCREATE INDEX IF NOT EXISTS idx_snapshot_timestamp ON snapshots(timestamp_us);\n\nCREATE TABLE IF NOT EXISTS changes (\n    change_id TEXT PRIMARY KEY,\n    baseline_snapshot_id TEXT NOT NULL REFERENCES snapshots(snapshot_id),\n    current_snapshot_id TEXT NOT NULL REFERENCES snapshots(snapshot_id),\n    timestamp_us BIGINT NOT NULL,\n    changed_count INTEGER,\n    added_count INTEGER,\n    removed_count INTEGER,\n    change_percentage REAL,\n    metadata JSONB\n);\n\nCREATE INDEX IF NOT EXISTS idx_change_timestamp ON changes(timestamp_us);\n        "@
}

/// Whether `c` is the SQLite configuration for `path`.
pub open spec fn is_sqlite_config(c: DatabaseConfig, path: Seq<char>) -> bool {
    &&& c.backend == DatabaseBackend::SQLite
    &&& c.connection_string@ == path
    &&& c.max_connections == 1
    &&& !c.query_logging
    &&& c.auto_archive_days is None
}

/// Whether `c` is the PostgreSQL configuration for `url`.
pub open spec fn is_postgresql_config(c: DatabaseConfig, url: Seq<char>) -> bool {
    &&& c.backend == DatabaseBackend::PostgreSQL
    &&& c.connection_string@ == url
    &&& c.max_connections == 16
    &&& !c.query_logging
    &&& c.auto_archive_days == Some(90u32)
}

/// Every index enabled.
pub open spec fn all_indexes() -> IndexConfig {
    IndexConfig {
        index_timestamp: true,
        index_robot_id: true,
        index_sensor_type: true,
        index_location: true,
        index_confidence: true,
    }
}

/// Whether `b` is the daily backup configuration into `./backups`.
pub open spec fn is_default_backup(b: BackupConfig) -> bool {
    &&& b.enabled
    &&& b.interval_hours == 24
    &&& b.backup_directory@ == "./backups"@
    &&& b.retain_count == 7
    &&& b.compress
}

/// Persistence settings of a deployment: backend, indexes, archival and
/// backups, and the last statistics read. (Query timing metrics are
/// floating point and tracked by the caller.)
#[derive(Clone, Debug)]
pub struct PersistenceManager {
    pub config: DatabaseConfig,
    pub index_config: IndexConfig,
    pub archival_policy: ArchivalPolicy,
    pub backup_config: BackupConfig,
    /// Recent stats cache
    pub stats: Option<DatabaseStats>,
}

impl PersistenceManager {
    /// Manager on SQLite at `path` with every index, the default archival
    /// policy and daily backups into `./backups`.
    pub fn sqlite(path: &str) -> (m: Self)
        ensures
            is_sqlite_config(m.config, path@),
            m.index_config == all_indexes(),
            m.archival_policy == (ArchivalPolicy {
                archive_after_days: 90,
                delete_after_days: 365,
                compress_archived: true,
                compression_level: 6,
            }),
            is_default_backup(m.backup_config),
            m.stats is None,
    {
        PersistenceManager {
            config: DatabaseConfig::sqlite(path),
            index_config: IndexConfig::default(),
            archival_policy: ArchivalPolicy::default(),
            backup_config: BackupConfig::new("./backups"),
            stats: None,
        }
    }

    /// Manager on PostgreSQL at `url`, otherwise as `sqlite`.
    pub fn postgresql(url: &str) -> (m: Self)
        ensures
            is_postgresql_config(m.config, url@),
            m.index_config == all_indexes(),
            m.archival_policy == (ArchivalPolicy {
                archive_after_days: 90,
                delete_after_days: 365,
                compress_archived: true,
                compression_level: 6,
            }),
            is_default_backup(m.backup_config),
            m.stats is None,
    {
        PersistenceManager {
            config: DatabaseConfig::postgresql(url),
            index_config: IndexConfig::default(),
            archival_policy: ArchivalPolicy::default(),
            backup_config: BackupConfig::new("./backups"),
            stats: None,
        }
    }

    /// The same manager with the given index configuration.
    pub fn with_indexes(self, config: IndexConfig) -> (m: Self)
        ensures
            m.index_config == config,
            m.config == self.config,
            m.archival_policy == self.archival_policy,
            m.backup_config == self.backup_config,
            m.stats == self.stats,
    {
        let mut m = self;
        m.index_config = config;
        m
    }

    /// The same manager with the given archival policy.
    pub fn with_archival(self, policy: ArchivalPolicy) -> (m: Self)
        ensures
            m.archival_policy == policy,
            m.config == self.config,
            m.index_config == self.index_config,
            m.backup_config == self.backup_config,
            m.stats == self.stats,
    {
        let mut m = self;
        m.archival_policy = policy;
        m
    }

    /// The same manager with the given backup configuration.
    pub fn with_backups(self, config: BackupConfig) -> (m: Self)
        ensures
            m.backup_config == config,
            m.config == self.config,
            m.index_config == self.index_config,
            m.archival_policy == self.archival_policy,
            m.stats == self.stats,
    {
        let mut m = self;
        m.backup_config = config;
        m
    }

    /// Schema creation SQL (SQLite).
    pub fn get_sqlite_schema() -> (s: &'static str)
        ensures
            s@ == sqlite_schema(),
    {
        "\nCREATE TABLE IF NOT EXISTS observations (\n    observation_id TEXT PRIMARY KEY,\n    robot_id TEXT NOT NULL,\n    sensor_type TEXT NOT NULL,\n    location TEXT NOT NULL,\n    timestamp_us INTEGER NOT NULL,\n    confidence REAL NOT NULL,\n    value TEXT NOT NULL,\n    metadata TEXT,\n    archived BOOLEAN DEFAULT 0,\n    archived_at INTEGER\n);\n\nCREATE INDEX IF NOT EXISTS idx_timestamp ON observations(timestamp_us);\nCREATE INDEX IF NOT EXISTS idx_robot_id ON observations(robot_id);\nCREATE INDEX IF NOT EXISTS idx_sensor_type ON observations(sensor_type);\nCREATE INDEX IF NOT EXISTS idx_archived ON observations(archived);\n\nCREATE TABLE IF NOT EXISTS snapshots (\n    snapshot_id TEXT PRIMARY KEY,\n    timestamp_us INTEGER NOT NULL,\n    point_count INTEGER,\n    bounds_min_x REAL,\n    bounds_min_y REAL,\n    bounds_min_z REAL,\n    bounds_max_x REAL,\n    bounds_max_y REAL,\n    bounds_max_z REAL,\n    metadata TEXT\n);\n\nCREATE INDEX IF NOT EXISTS idx_snapshot_timestamp ON snapshots(timestamp_us);\n\nCREATE TABLE IF NOT EXISTS changes (\n    change_id TEXT PRIMARY KEY,\n    baseline_snapshot_id TEXT NOT NULL,\n    current_snapshot_id TEXT NOT NULL,\n    timestamp_us INTEGER NOT NULL,\n    changed_count INTEGER,\n    added_count INTEGER,\n    removed_count INTEGER,\n    change_percentage REAL,\n    metadata TEXT,\n    FOREIGN KEY(baseline_snapshot_id) REFERENCES snapshots(snapshot_id),\n    FOREIGN KEY(current_snapshot_id) REFERENCES snapshots(snapshot_id)\n);\n\nCREATE INDEX IF NOT EXISTS idx_change_timestamp ON changes(timestamp_us);\n        "
    }

    /// Schema creation SQL (PostgreSQL).
    pub fn get_postgresql_schema() -> (s: &'static str)
        ensures
            s@ == postgresql_schema(),
    {
        "\nCREATE TABLE IF NOT EXISTS observations (\n    observation_id TEXT PRIMARY KEY,\n    robot_id TEXT NOT NULL,\n    sensor_type TEXT NOT NULL,\n    location GEOMETRY NOT NULL,\n    timestamp_us BIGINT NOT NULL,\n    confidence REAL NOT NULL,\n    value JSONB NOT NULL,\n    metadata JSONB,\n    archived BOOLEAN DEFAULT FALSE,\n    archived_at BIGINT\n);\n\nCREATE INDEX IF NOT EXISTS idx_timestamp ON observations(timestamp_us);\nCREATE INDEX IF NOT EXISTS idx_robot_id ON observations(robot_id);\nCREATE INDEX IF NOT EXISTS idx_sensor_type ON observations(sensor_type);\nCREATE INDEX IF NOT EXISTS idx_archived ON observations(archived);\nCREATE INDEX IF NOT EXISTS idx_location ON observations USING GIST(location);\n\nCREATE TABLE IF NOT EXISTS snapshots (\n    snapshot_id TEXT PRIMARY KEY,\n    timestamp_us BIGINT NOT NULL,\n    point_count INTEGER,\n    bounds BOX3D,\n    metadata JSONB\n);\n\nCREATE INDEX IF NOT EXISTS idx_snapshot_timestamp ON snapshots(timestamp_us);\n\nCREATE TABLE IF NOT EXISTS changes (\n    change_id TEXT PRIMARY KEY,\n    baseline_snapshot_id TEXT NOT NULL REFERENCES snapshots(snapshot_id),\n    current_snapshot_id TEXT NOT NULL REFERENCES snapshots(snapshot_id),\n    timestamp_us BIGINT NOT NULL,\n    changed_count INTEGER,\n    added_count INTEGER,\n    removed_count INTEGER,\n    change_percentage REAL,\n    metadata JSONB\n);\n\nCREATE INDEX IF NOT EXISTS idx_change_timestamp ON changes(timestamp_us);\n        "
    }
}

impl Default for PersistenceManager {
    /// SQLite on `pyterrain.db`.
    fn default() -> (m: Self)
        ensures
            is_sqlite_config(m.config, "pyterrain.db"@),
            m.index_config == all_indexes(),
            is_default_backup(m.backup_config),
            m.stats is None,
    {
        Self::sqlite("pyterrain.db")
    }
}

} // verus!
