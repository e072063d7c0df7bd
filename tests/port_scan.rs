use yukari_engine::port::{scan_step, ScanStep, BASE_PORT, LAST_PORT};

/// Runs the scan from `BASE_PORT`, where `free(p)` tells whether port `p` binds.
fn run_scan(free: &dyn Fn(u16) -> bool) -> (u16, Vec<u16>) {
    let mut port = BASE_PORT;
    let mut tried = Vec::new();
    loop {
        tried.push(port);
        match scan_step(port, LAST_PORT, free(port)) {
            ScanStep::Start(p) => return (p, tried),
            ScanStep::Probe(p) => port = p,
        }
    }
}

#[test]
fn scan_starts_on_base_port_when_free() {
    let (port, tried) = run_scan(&|_| true);
    assert_eq!(port, 50027);
    assert_eq!(tried, vec![50027]);
}

#[test]
fn scan_skips_consecutive_occupied_ports() {
    let (port, tried) = run_scan(&|p| p >= 50030);
    assert_eq!(port, 50030);
    assert_eq!(tried, vec![50027, 50028, 50029, 50030]);
}

#[test]
fn scan_takes_first_free_port_not_a_later_one() {
    let (port, _) = run_scan(&|p| p == 50031 || p == 50040);
    assert_eq!(port, 50031);
}

#[test]
fn scan_settles_on_last_port_when_all_occupied() {
    let (port, tried) = run_scan(&|_| false);
    assert_eq!(port, 50050);
    assert_eq!(tried.len(), 24);
    assert_eq!(*tried.last().unwrap(), 50050);
}

#[test]
fn scan_last_port_free_only() {
    let (port, _) = run_scan(&|p| p == 50050);
    assert_eq!(port, 50050);
}

#[test]
fn scan_step_single_moves() {
    assert_eq!(scan_step(50027, 50050, true), ScanStep::Start(50027));
    assert_eq!(scan_step(50027, 50050, false), ScanStep::Probe(50028));
    assert_eq!(scan_step(50050, 50050, false), ScanStep::Start(50050));
    assert_eq!(scan_step(65535, 65535, false), ScanStep::Start(65535));
}
