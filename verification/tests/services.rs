use std::collections::HashSet;

use arena_core::CodeRunner;
use arena_core::GameSpeed;
use arena_core::GameStats;
use arena_core::GemType;
use arena_core::HeartbeatAction;
use arena_core::Language;
use arena_core::MapSize;
use arena_core::MetricsCollector;
use arena_core::RoomManager;
use arena_core::RoomSettings;
use arena_core::ServerConfig;
use arena_core::ServiceError;
use arena_core::generate_room_code;
use arena_core::heartbeat_action;

const CODE_ALPHABET: &str = "ABCDEFGHJKLMNPQRSTUVWXYZ23456789";

#[test]
fn join_codes_use_only_the_permitted_alphabet_at_fixed_length() {
    for _ in 0..200 {
        let code = generate_room_code();
        assert_eq!(code.len(), 6);
        for c in code.chars() {
            assert!(CODE_ALPHABET.contains(c), "unexpected code letter {}", c);
        }
    }
}

#[test]
fn registry_never_hands_out_the_same_code_twice() {
    let mut registry = RoomManager::new();
    let mut codes = HashSet::new();
    for i in 0..32 {
        let code = registry.register_room(format!("room-{}", i)).unwrap();
        assert!(codes.insert(code.clone()), "code {} repeated", code);
        let resolved = registry.resolve_code(&code).unwrap();
        assert_eq!(resolved, &format!("room-{}", i));
    }
    assert!(registry.resolve_code(&"??????".to_string()).is_none());
}

#[test]
fn heartbeat_disconnects_only_after_the_timeout() {
    assert_eq!(heartbeat_action(0), HeartbeatAction::Ping);
    assert_eq!(heartbeat_action(10000), HeartbeatAction::Ping);
    assert_eq!(heartbeat_action(10001), HeartbeatAction::Disconnect);
}

#[test]
fn room_settings_default_to_a_four_player_medium_room() {
    let s = RoomSettings::default();
    assert_eq!(s.max_players, 4);
    assert_eq!(s.speed, GameSpeed::Normal);
    assert!(s.power_ups_enabled);
    assert_eq!(s.rounds, 1);
    assert_eq!(s.map_size, MapSize::Medium);
}

#[test]
fn speed_tiers_and_map_sizes_carry_their_fixed_values() {
    assert_eq!(GameSpeed::Slow.to_millis(), 200);
    assert_eq!(GameSpeed::Normal.to_millis(), 150);
    assert_eq!(GameSpeed::Fast.to_millis(), 100);
    assert_eq!(MapSize::Small.dimensions(), (40, 30));
    assert_eq!(MapSize::Medium.dimensions(), (50, 35));
    assert_eq!(MapSize::Large.dimensions(), (60, 40));
}

#[test]
fn metrics_average_over_recorded_requests() {
    let mut m = MetricsCollector::new();
    assert_eq!(m.avg_response_time_ms(), 0);
    m.record_request(10);
    m.record_request(30);
    assert_eq!(m.total_requests, 2);
    assert_eq!(m.avg_response_time_ms(), 20);
    m.record_error();
    assert_eq!(m.total_errors, 1);
    assert_eq!(m.total_requests, 2);
}

#[test]
fn server_config_defaults_match_the_documented_values() {
    let c = ServerConfig::default();
    assert_eq!(c.host, "127.0.0.1");
    assert_eq!(c.port, 8080);
    assert_eq!(c.workers, 4);
    assert_eq!(c.keep_alive, 75);
    assert_eq!(c.client_timeout, 30);
    assert_eq!(c.shutdown_timeout, 60);
    assert!(c.enable_cors);
    assert_eq!(c.max_connections, 25000);
    assert!(!c.tls_enabled);
}

#[test]
fn service_errors_carry_their_label_and_message() {
    let e = ServiceError::BadRequest("broken".to_string());
    assert_eq!(e.message(), "Bad Request: broken");
    let body = e.to_error_response();
    assert_eq!(body.error, "bad_request");
    assert_eq!(body.message, "broken");

    let e = ServiceError::NotFound("room".to_string());
    assert_eq!(e.message(), "Not Found: room");
    assert_eq!(e.to_error_response().error, "not_found");

    let e = ServiceError::Unauthorized("who".to_string());
    assert_eq!(e.to_error_response().error, "unauthorized");

    let e = ServiceError::InternalServerError("boom".to_string());
    assert_eq!(e.to_error_response().error, "internal_server_error");
}

#[test]
fn languages_know_their_extensions_and_images() {
    assert_eq!(Language::Python.extension(), "py");
    assert_eq!(Language::JavaScript.extension(), "js");
    assert_eq!(Language::Rust.extension(), "rs");
    assert_eq!(Language::Go.extension(), "go");
    assert_eq!(Language::Java.extension(), "java");
    assert_eq!(Language::Cpp.extension(), "cpp");
    assert_eq!(Language::Python.docker_image(), "python:3.11-slim");
    assert_eq!(Language::Cpp.docker_image(), "gcc:13-bookworm");
}

#[test]
fn compile_and_run_commands_have_the_documented_shape() {
    let c = Language::Rust.compile_command("/tmp/x.rs").unwrap();
    assert_eq!(c, vec!["rustc", "/tmp/x.rs", "-o", "/tmp/output"]);
    let c = Language::Cpp.compile_command("/tmp/x.cpp").unwrap();
    assert_eq!(c[0], "g++");
    let c = Language::Java.compile_command("/tmp/Main.java").unwrap();
    assert_eq!(c, vec!["javac", "/tmp/Main.java"]);
    assert!(Language::Python.compile_command("/tmp/x.py").is_none());
    assert!(Language::Go.compile_command("/tmp/x.go").is_none());

    assert_eq!(Language::Python.run_command("/code"), vec!["python3", "/code"]);
    assert_eq!(Language::Go.run_command("/code"), vec!["go", "run", "/code"]);
    assert_eq!(Language::Rust.run_command("/code"), vec!["/tmp/output"]);
    assert_eq!(Language::Java.run_command("/tmp/Main.java"), vec!["java", "Main"]);
}

#[test]
fn code_screening_rejects_blacklisted_patterns_and_oversize() {
    let runner = CodeRunner::new(None);
    assert!(runner.validate_code("println!(\"hi\")").is_ok());
    assert!(runner.validate_code("x = 1; rm -rf /").is_err());
    assert!(runner.validate_code("import subprocess.run").is_err());
    let big = "a".repeat(100_001);
    assert!(runner.validate_code(&big).is_err());
    assert_eq!(runner.container_manager.get_active_count(), 0);
}

#[test]
fn output_truncation_cuts_at_the_limit_and_marks_the_cut() {
    let short = "hello".to_string();
    assert_eq!(arena_core::truncate_output(&short), "hello");
    let long = "x".repeat(100_123);
    let cut = arena_core::truncate_output(&long);
    assert!(cut.starts_with(&"x".repeat(100_000)));
    assert!(cut.ends_with("[... Output truncated at 100KB ...]"));
    assert_eq!(cut.chars().filter(|c| *c == 'x').count(), 100_000);
}

#[test]
fn gems_have_colors_and_random_draws_are_never_empty() {
    assert_eq!(GemType::Red.color_code(), "#EF4444");
    assert_eq!(GemType::Empty.color_code(), "#000000");
    assert!(GemType::Empty.is_empty());
    assert!(!GemType::Pink.is_empty());
    for _ in 0..100 {
        assert!(!GemType::random().is_empty());
    }
}

#[test]
fn game_stats_start_at_level_one_with_zero_counters() {
    let g = GameStats::default();
    assert_eq!(g.total_score, 0);
    assert_eq!(g.moves_made, 0);
    assert_eq!(g.matches_found, 0);
    assert_eq!(g.largest_combo, 0);
    assert_eq!(g.power_ups_used, 0);
    assert_eq!(g.time_elapsed, 0);
    assert_eq!(g.level, 1);
}
