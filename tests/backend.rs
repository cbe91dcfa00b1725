use grocerynana_backend::config::{bind_address, database_url, DEFAULT_DATABASE_URL};
use grocerynana_backend::cors::{CorsPolicy, PREFLIGHT_MAX_AGE_SECS};
use grocerynana_backend::responses::{
    health_check, hello_world, STATUS_INTERNAL_ERROR, STATUS_OK,
};
use grocerynana_backend::routes::{dispatch, dispatch_status, Dispatch, Method, Route};
use grocerynana_backend::startup::{
    Startup, StartupAction, StartupEvent, StartupFailure, StartupPhase,
};
use grocerynana_backend::text::str_eq;

#[test]
fn hello_reply_is_the_fixed_greeting() {
    let r = hello_world();
    assert_eq!(r.status, 200);
    assert_eq!(r.body.message, "Hello World from GroceryNana Backend!");
}

#[test]
fn hello_reply_is_the_same_every_time() {
    let a = hello_world();
    for _ in 0..10 {
        let b = hello_world();
        assert_eq!(a.status, b.status);
        assert_eq!(a.body.message, b.body.message);
    }
}

#[test]
fn health_reply_when_database_answers() {
    let r = health_check(true);
    assert_eq!(r.status, 200);
    assert_eq!(r.status, STATUS_OK);
    assert_eq!(r.body.status, "ok");
    assert_eq!(r.body.message, "Database connected");
}

#[test]
fn health_reply_when_database_fails() {
    let r = health_check(false);
    assert_eq!(r.status, 500);
    assert_eq!(r.status, STATUS_INTERNAL_ERROR);
    assert_eq!(r.body.status, "error");
    assert_eq!(r.body.message, "Database connection failed");
}

#[test]
fn get_root_goes_to_hello() {
    assert_eq!(dispatch(Method::Get, "/"), Dispatch::Handler(Route::Hello));
}

#[test]
fn get_health_goes_to_health() {
    assert_eq!(dispatch(Method::Get, "/api/health"), Dispatch::Handler(Route::Health));
}

#[test]
fn other_methods_on_routed_paths_are_not_allowed() {
    for m in [Method::Post, Method::Put, Method::Patch, Method::Delete, Method::Head, Method::Options, Method::Other] {
        assert_eq!(dispatch(m, "/"), Dispatch::MethodNotAllowed);
        assert_eq!(dispatch(m, "/api/health"), Dispatch::MethodNotAllowed);
    }
    assert_eq!(dispatch_status(Dispatch::MethodNotAllowed), Some(405));
}

#[test]
fn unknown_paths_are_not_found() {
    for p in ["", "/api", "/api/health/", "/API/health", "//", "/hello", "/api/healthz"] {
        assert_eq!(dispatch(Method::Get, p), Dispatch::NotFound);
    }
    assert_eq!(dispatch_status(Dispatch::NotFound), Some(404));
    assert_eq!(dispatch_status(Dispatch::Handler(Route::Hello)), None);
}

#[test]
fn strings_compare_by_characters() {
    assert!(str_eq("", ""));
    assert!(str_eq("/api/health", "/api/health"));
    assert!(str_eq("héllo", "héllo"));
    assert!(!str_eq("/", ""));
    assert!(!str_eq("abc", "abd"));
    assert!(!str_eq("é", "e"));
}

#[test]
fn database_url_defaults_to_local_file() {
    assert_eq!(database_url(None), "sqlite:./database.db");
    assert_eq!(DEFAULT_DATABASE_URL, "sqlite:./database.db");
}

#[test]
fn database_url_keeps_configured_value() {
    assert_eq!(database_url(Some("sqlite::memory:".to_string())), "sqlite::memory:");
    assert_eq!(database_url(Some(String::new())), "");
}

#[test]
fn server_binds_all_interfaces_on_8080() {
    assert_eq!(bind_address(), "0.0.0.0:8080");
}

#[test]
fn cors_policy_allows_everything_with_hour_long_preflight() {
    let p = CorsPolicy::permissive();
    assert!(p.any_origin);
    assert!(p.any_method);
    assert!(p.any_header);
    assert_eq!(p.max_age_secs, 3600);
    assert_eq!(PREFLIGHT_MAX_AGE_SECS, 3600);
}

#[test]
fn startup_reaches_bind_after_pool_and_migrations() {
    let mut s = Startup::new();
    assert_eq!(s.action(), StartupAction::ConnectPool);
    s.on_event(StartupEvent::PoolCreated);
    assert_eq!(s.action(), StartupAction::RunMigrations);
    s.on_event(StartupEvent::MigrationsApplied);
    assert_eq!(s.action(), StartupAction::Bind);
    assert_eq!(s.phase(), StartupPhase::Serving);
}

#[test]
fn startup_with_unusable_database_aborts_before_bind() {
    let mut s = Startup::new();
    s.on_event(StartupEvent::PoolFailed);
    assert_eq!(s.action(), StartupAction::Abort(StartupFailure::Pool));
    s.on_event(StartupEvent::PoolCreated);
    s.on_event(StartupEvent::MigrationsApplied);
    assert_eq!(s.action(), StartupAction::Abort(StartupFailure::Pool));
    assert_eq!(StartupFailure::Pool.message(), "Failed to create database pool");
}

#[test]
fn startup_with_failing_migrations_aborts() {
    let mut s = Startup::new();
    s.on_event(StartupEvent::PoolCreated);
    s.on_event(StartupEvent::MigrationsFailed);
    assert_eq!(s.phase(), StartupPhase::Aborted(StartupFailure::Migrations));
    assert_eq!(s.action(), StartupAction::Abort(StartupFailure::Migrations));
    assert_eq!(StartupFailure::Migrations.message(), "Failed to run migrations");
}

#[test]
fn startup_ignores_events_out_of_turn() {
    let mut s = Startup::new();
    s.on_event(StartupEvent::MigrationsApplied);
    assert_eq!(s.phase(), StartupPhase::Connecting);
    s.on_event(StartupEvent::PoolCreated);
    s.on_event(StartupEvent::PoolFailed);
    assert_eq!(s.phase(), StartupPhase::Migrating);
}

#[test]
fn startup_on_already_migrated_database_serves() {
    // Nothing pending is still a successful migration run.
    let mut s = Startup::new();
    s.on_event(StartupEvent::PoolCreated);
    s.on_event(StartupEvent::MigrationsApplied);
    s.on_event(StartupEvent::MigrationsApplied);
    assert_eq!(s.action(), StartupAction::Bind);
}
