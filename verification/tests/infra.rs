use byebyedpi_core::infra::event_tag::{
    injected_filter_clause, is_injected_packet, tag_injected_packet, tcp_payload_offset, InjectionTag, TagRegistry,
};
use byebyedpi_core::infra::named_pipe::{pipe_step, PipeMessage, PipeServer, PipeStep, PIPE_NAME};
use byebyedpi_core::infra::sentinel::{determine_path, Sentinel, StopStep, CHECK_INTERVAL_SECS};
use byebyedpi_core::infra::windivert_driver::{
    is_driver_loaded, judge_start, missing_driver, StartError, DRIVER_FILENAME,
};

fn build_tcp_packet() -> Vec<u8> {
    let mut pkt = vec![0u8; 60];
    pkt[0] = 0x45;
    pkt[9] = 6;
    pkt[2..4].copy_from_slice(&60u16.to_be_bytes());
    pkt[32] = 0x50;
    pkt
}

fn fixed_tag() -> InjectionTag {
    InjectionTag::from_bytes([0x5a, 1, 2, 3, 4, 5, 6, 7, 8, 9, 10, 11, 12, 13, 14, 15])
}

#[test]
fn test_tag_in_tcp_payload() {
    let tag = fixed_tag();
    let mut pkt = build_tcp_packet();
    assert_eq!(tcp_payload_offset(&pkt), Some(40));

    tag_injected_packet(&tag, &mut pkt);
    assert!(is_injected_packet(&tag, &pkt));

    assert_eq!(pkt[0], 0x45);
    assert_eq!(pkt[9], 6);
    assert_ne!(pkt[40], 0);
}

#[test]
fn test_non_tcp_packet_not_tagged() {
    let tag = fixed_tag();
    let mut pkt = vec![0u8; 20];
    pkt[0] = 0x45;
    pkt[9] = 17;
    tag_injected_packet(&tag, &mut pkt);
    assert!(!is_injected_packet(&tag, &pkt));
}

#[test]
fn test_short_payload_no_tag() {
    let mut registry = TagRegistry::new();
    let tag = registry.tag();
    let mut pkt = build_tcp_packet();
    tag_injected_packet(&tag, &mut pkt);
    assert!(is_injected_packet(&tag, &pkt));
}

#[test]
fn test_empty_packet_no_panic() {
    let tag = fixed_tag();
    let mut empty: Vec<u8> = vec![];
    tag_injected_packet(&tag, &mut empty);
    assert!(!is_injected_packet(&tag, &empty));
}

#[test]
fn test_filter_clause_format() {
    let clause = injected_filter_clause(&fixed_tag());
    assert!(clause.starts_with("not (tcp.PayloadLength >= 16"));
}

#[test]
fn test_ip_header_preserved() {
    let mut pkt = build_tcp_packet();
    let original_ip = pkt[..20].to_vec();
    tag_injected_packet(&fixed_tag(), &mut pkt);
    assert_eq!(pkt[..20], original_ip[..]);
}

#[test]
fn a_chosen_tag_is_kept() {
    let mut registry = TagRegistry::new();
    let mut a = build_tcp_packet();
    let mut b = build_tcp_packet();
    tag_injected_packet(&registry.tag(), &mut a);
    tag_injected_packet(&registry.tag(), &mut b);
    assert_eq!(a, b);
    registry.reset_injection_tag();
    assert!(is_injected_packet(&registry.tag(), &a));
    assert!(!is_injected_packet(&InjectionTag::generate(), &a));
}

#[test]
fn test_sentinel_create_and_check() {
    let sentinel = Sentinel::with_path("/tmp/sentinel".to_string());
    assert!(sentinel.is_running());
    assert_eq!(sentinel.path(), "/tmp/sentinel");
    assert_eq!(sentinel.check_interval_secs(), CHECK_INTERVAL_SECS);
}

#[test]
fn test_sentinel_stop() {
    let mut sentinel = Sentinel::with_path("sentinel".to_string());
    assert!(sentinel.is_running());
    assert_eq!(sentinel.stop(true), StopStep::RemoveFile);
    assert!(!sentinel.is_running());
    assert_eq!(sentinel.stop(false), StopStep::Nothing);
    assert!(!sentinel.is_running());
}

#[test]
fn test_sentinel_stop_soft() {
    let mut sentinel = Sentinel::with_path("sentinel".to_string());
    sentinel.stop_soft();
    assert!(!sentinel.is_running());
}

#[test]
fn test_sentinel_file_deleted_externally() {
    let mut sentinel = Sentinel::with_path("sentinel".to_string());
    assert!(sentinel.monitor_step(true));
    assert!(sentinel.is_running());
    assert!(!sentinel.monitor_step(false));
    assert!(!sentinel.is_running());
    assert!(!sentinel.monitor_step(true));
    assert_eq!(Sentinel::with_path("x".to_string()).stop(false), StopStep::NoFile);
}

#[test]
fn sentinel_paths_fall_back() {
    assert_eq!(determine_path(Some("C:"), Some("D:")), vec!["C:", "ByeDPI", "sentinel"]);
    assert_eq!(determine_path(None, Some("D:")), vec!["D:", "ByeDPI", "sentinel"]);
    assert_eq!(determine_path(None, None), vec!["sentinel"]);
}

#[test]
fn the_pipe_has_its_name() {
    assert_eq!(PipeServer::new().pipe_path(), "\\\\.\\pipe\\FreeDPI_agent");
    assert_eq!(PipeServer::default().pipe_path(), PIPE_NAME);
    assert_eq!(PipeMessage::Ping.tag(), "ping");
    assert_eq!(PipeMessage::TestStrategy { domain: "a".into(), technique: "b".into() }.tag(), "test_strategy");
    assert_eq!(pipe_step(false, true, true, 1), PipeStep::Wait);
    assert_eq!(pipe_step(true, true, true, 1), PipeStep::Answer);
    assert_eq!(pipe_step(true, true, true, 0), PipeStep::Close);
    assert_eq!(pipe_step(true, false, true, 9), PipeStep::Close);
}

#[test]
fn test_bundled_driver_path() {
    assert!(DRIVER_FILENAME.contains("WinDivert64.sys"));
    assert_eq!(
        missing_driver("x"),
        "WinDivert driver not found at x. Bundle WinDivert64.sys with the application."
    );
}

#[test]
fn driver_states_are_read() {
    assert!(is_driver_loaded(Some("STATE : 4 RUNNING")));
    assert!(!is_driver_loaded(Some("STATE : 1 STOPPED")));
    assert!(!is_driver_loaded(Some("4")));
    assert!(!is_driver_loaded(None));
    assert_eq!(judge_start(None), Ok(()));
    assert_eq!(judge_start(Some(1056)), Ok(()));
    assert_eq!(judge_start(Some(577)), Err(StartError::BlockedByIntegrity));
    assert_eq!(judge_start(Some(5)), Err(StartError::AccessDenied));
    assert_eq!(judge_start(Some(1275)), Err(StartError::BlockedBySecurity));
    assert_eq!(judge_start(Some(-7)), Err(StartError::Other(-7)));
    assert_eq!(StartError::Other(-7).message(), "StartService failed with error code: -7");
}
