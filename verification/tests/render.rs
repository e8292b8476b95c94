use headless_browser::render::{
    calculate_max_renderer_process_hosts, get_platform_max_renderer_process_count,
    get_platform_process_limit, make_renderer_limit_flag, max_renderer_for_limit,
    platform_limit_from_cpus, renderer_host_limit,
};

#[test]
fn platform_limit_scales_with_cpus() {
    assert_eq!(platform_limit_from_cpus(1), 10);
    assert_eq!(platform_limit_from_cpus(8), 80);
}

#[test]
fn renderer_cap_from_limit() {
    assert_eq!(max_renderer_for_limit(40), 20);
    assert_eq!(max_renderer_for_limit(u64::MAX), 82);
}

#[test]
fn renderer_host_limit_formula() {
    // 16384 MiB / 2 / 85 = 96, clamped by the platform cap.
    assert_eq!(renderer_host_limit(16384, 40, true), 40);
    assert_eq!(renderer_host_limit(16384, 200, true), 96);
    // 16384 / 2 / 60 = 136 with narrow pointers.
    assert_eq!(renderer_host_limit(16384, 200, false), 136);
    // Tiny machines still get the minimum of three.
    assert_eq!(renderer_host_limit(128, 200, true), 3);
    assert_eq!(renderer_host_limit(0, 200, true), 3);
}

#[test]
fn machine_limits_respect_floors() {
    assert!(get_platform_process_limit() >= 10);
    assert!(get_platform_max_renderer_process_count() >= 5);
    assert!(calculate_max_renderer_process_hosts(true) >= 3);
}

#[test]
fn renderer_limit_flag_shape() {
    assert_eq!(
        make_renderer_limit_flag(96),
        b"--renderer-process-limit=96".to_vec()
    );
}
