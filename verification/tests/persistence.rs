use pyterrain_map::persistence::{
    ArchivalPolicy, BackupConfig, DatabaseBackend, DatabaseConfig, DatabaseStats, IndexConfig,
    PersistenceManager, StorageQuery,
};

#[test]
fn test_database_config_sqlite() {
    let config = DatabaseConfig::sqlite("test.db");
    assert_eq!(config.backend, DatabaseBackend::SQLite);
    assert_eq!(config.connection_string, "test.db");
    assert_eq!(config.max_connections, 1);
}

#[test]
fn test_database_config_postgresql() {
    let config = DatabaseConfig::postgresql("postgresql://localhost/terrain");
    assert_eq!(config.backend, DatabaseBackend::PostgreSQL);
    assert_eq!(config.max_connections, 16);
}

#[test]
fn test_database_config_with_logging() {
    let config = DatabaseConfig::sqlite("test.db").with_logging();
    assert!(config.query_logging);
}

#[test]
fn test_database_config_with_archive() {
    let config = DatabaseConfig::sqlite("test.db").with_auto_archive(30);
    assert_eq!(config.auto_archive_days, Some(30));
}

#[test]
fn database_config_defaults() {
    let config = DatabaseConfig::default();
    assert_eq!(config.backend, DatabaseBackend::SQLite);
    assert!(!config.query_logging);
    assert_eq!(config.auto_archive_days, None);
    let pg = DatabaseConfig::postgresql("postgresql://x").with_logging().with_auto_archive(7);
    assert_eq!(pg.connection_string, "postgresql://x");
    assert!(pg.query_logging);
    assert_eq!(pg.auto_archive_days, Some(7));
}

#[test]
fn test_database_stats_default() {
    let stats = DatabaseStats::default();
    assert_eq!(stats.total_observations, 0);
    assert_eq!(stats.archived_observations, 0);
}

#[test]
fn test_index_config_all() {
    let config = IndexConfig::all();
    assert!(config.index_timestamp);
    assert!(config.index_location);
}

#[test]
fn test_index_config_minimal() {
    let config = IndexConfig::minimal();
    assert!(config.index_timestamp);
    assert!(!config.index_robot_id);
}

#[test]
fn test_archival_policy_creation() {
    let policy = ArchivalPolicy::new(30, 90);
    assert_eq!(policy.archive_after_days, 30);
    assert_eq!(policy.delete_after_days, 90);
}

#[test]
fn test_backup_config_creation() {
    let config = BackupConfig::new("./backups");
    assert!(config.enabled);
    assert_eq!(config.interval_hours, 24);
    assert_eq!(config.retain_count, 7);
}

#[test]
fn test_backup_config_disabled() {
    let config = BackupConfig::disabled();
    assert!(!config.enabled);
}

#[test]
fn test_storage_query_creation() {
    let query = StorageQuery::new(1000, 2000);
    assert_eq!(query.from_timestamp_us, 1000);
    assert_eq!(query.to_timestamp_us, 2000);
    assert!(query.robot_ids.is_none());
}

#[test]
fn test_storage_query_with_robots() {
    let query = StorageQuery::new(1000, 2000)
        .with_robots(vec!["robot1".to_string(), "robot2".to_string()]);
    assert_eq!(query.robot_ids.unwrap().len(), 2);
}

#[test]
fn storage_query_filters_compose() {
    let query = StorageQuery::new(0, 10)
        .with_sensors(vec!["lidar".to_string()])
        .with_limit(5)
        .with_robots(vec![]);
    assert_eq!(query.sensor_types, Some(vec!["lidar".to_string()]));
    assert_eq!(query.limit, Some(5));
    assert_eq!(query.robot_ids, Some(vec![]));
    assert_eq!(query.to_timestamp_us, 10);
}

#[test]
fn test_persistence_manager_sqlite() {
    let manager = PersistenceManager::sqlite("test.db");
    assert_eq!(manager.config.backend, DatabaseBackend::SQLite);
}

#[test]
fn test_persistence_manager_postgresql() {
    let manager = PersistenceManager::postgresql("postgresql://localhost/terrain");
    assert_eq!(manager.config.backend, DatabaseBackend::PostgreSQL);
}

#[test]
fn test_persistence_manager_with_indexes() {
    let config = IndexConfig::minimal();
    let manager = PersistenceManager::sqlite("test.db").with_indexes(config);
    assert!(!manager.index_config.index_robot_id);
}

#[test]
fn persistence_manager_defaults() {
    let manager = PersistenceManager::default();
    assert_eq!(manager.config.connection_string, "pyterrain.db");
    assert_eq!(manager.index_config, IndexConfig::all());
    assert_eq!(manager.archival_policy.archive_after_days, 90);
    assert_eq!(manager.archival_policy.delete_after_days, 365);
    assert_eq!(manager.backup_config.backup_directory, "./backups");
    assert!(manager.stats.is_none());
    let tuned = manager
        .with_archival(ArchivalPolicy::new(1, 2))
        .with_backups(BackupConfig::disabled());
    assert_eq!(tuned.archival_policy.delete_after_days, 2);
    assert!(!tuned.backup_config.enabled);
}

#[test]
fn test_sqlite_schema() {
    let schema = PersistenceManager::get_sqlite_schema();
    assert!(schema.contains("CREATE TABLE"));
    assert!(schema.contains("observations"));
    assert!(schema.contains("snapshots"));
}

#[test]
fn test_postgresql_schema() {
    let schema = PersistenceManager::get_postgresql_schema();
    assert!(schema.contains("CREATE TABLE"));
    assert!(schema.contains("GEOMETRY"));
}
