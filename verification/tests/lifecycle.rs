//! Handle lifecycle and round-robin dispatch, exercised through the public
//! registry API with plain integer stand-ins as pool instances.

use kokoro_bridge::boundary::commit_init;
use kokoro_bridge::bridge::AsyncBridge;
use kokoro_bridge::errors::InitError;
use kokoro_bridge::engine::EngineHandle;
use kokoro_bridge::pool::InstancePool;
use kokoro_bridge::registry::Registry;

fn make_engine(instances: Vec<u32>) -> EngineHandle<u32> {
    let bridge = AsyncBridge::new(2).expect("runtime build");
    let pool = InstancePool::from_instances(instances);
    EngineHandle::new(bridge, pool)
}

#[test]
fn fresh_registry_has_no_open_tokens() {
    let reg: Registry<u32> = Registry::new();
    assert_eq!(reg.count_slots(), 0);
    assert!(!reg.token_open(0));
    assert!(!reg.token_open(1));
    assert!(!reg.token_open(u64::MAX));
}

#[test]
fn install_returns_nonzero_token_naming_the_engine() {
    let mut reg: Registry<u32> = Registry::new();
    let t = reg.install(make_engine(vec![10, 20]));
    assert_ne!(t, 0);
    assert!(reg.token_open(t));
    assert_eq!(reg.count_slots(), 1);
    assert_eq!(reg.instance_for(t, 0), Some(&10));
    assert_eq!(reg.instance_for(t, 1), Some(&20));
    assert_eq!(reg.instance_for(t, 2), None);
}

#[test]
fn route_on_zero_token_returns_none_and_touches_nothing() {
    let mut reg: Registry<u32> = Registry::new();
    let t = reg.install(make_engine(vec![10, 20]));
    assert_eq!(reg.route(0), None);
    // The untouched engine still starts its cycle at instance 0.
    assert_eq!(reg.route(t), Some(0));
}

#[test]
fn route_on_unknown_token_returns_none() {
    let mut reg: Registry<u32> = Registry::new();
    assert_eq!(reg.route(1), None);
    assert_eq!(reg.route(42), None);
    assert_eq!(reg.route(u64::MAX), None);
}

#[test]
fn round_robin_visits_instances_in_index_order_then_wraps() {
    let mut reg: Registry<u32> = Registry::new();
    let t = reg.install(make_engine(vec![5, 6, 7]));
    let picks: Vec<Option<usize>> = (0..6).map(|_| reg.route(t)).collect();
    assert_eq!(
        picks,
        vec![Some(0), Some(1), Some(2), Some(0), Some(1), Some(2)]
    );
}

#[test]
fn single_instance_pool_always_selects_index_zero() {
    let mut reg: Registry<u32> = Registry::new();
    let t = reg.install(make_engine(vec![9]));
    for _ in 0..4 {
        assert_eq!(reg.route(t), Some(0));
    }
}

#[test]
fn close_releases_the_token_and_routing_stops() {
    let mut reg: Registry<u32> = Registry::new();
    let t = reg.install(make_engine(vec![1, 2]));
    assert_eq!(reg.route(t), Some(0));
    reg.close(t);
    assert!(!reg.token_open(t));
    assert_eq!(reg.route(t), None);
    assert_eq!(reg.instance_for(t, 0), None);
}

#[test]
fn close_on_zero_token_is_a_no_op() {
    let mut reg: Registry<u32> = Registry::new();
    let t = reg.install(make_engine(vec![1]));
    reg.close(0);
    assert!(reg.token_open(t));
    assert_eq!(reg.count_slots(), 1);
}

#[test]
fn close_leaves_other_handles_untouched() {
    let mut reg: Registry<u32> = Registry::new();
    let t1 = reg.install(make_engine(vec![1, 2]));
    let t2 = reg.install(make_engine(vec![3, 4]));
    assert_ne!(t1, t2);
    assert_eq!(reg.route(t1), Some(0));
    reg.close(t1);
    assert!(!reg.token_open(t1));
    assert!(reg.token_open(t2));
    assert_eq!(reg.route(t2), Some(0));
    assert_eq!(reg.route(t2), Some(1));
    assert_eq!(reg.instance_for(t2, 0), Some(&3));
}

#[test]
fn tokens_are_never_reused_after_close() {
    let mut reg: Registry<u32> = Registry::new();
    let t1 = reg.install(make_engine(vec![1]));
    reg.close(t1);
    let t2 = reg.install(make_engine(vec![2]));
    assert_ne!(t1, t2);
    assert!(!reg.token_open(t1));
    assert!(reg.token_open(t2));
}

#[test]
fn engine_size_reports_the_pool_size() {
    let e = make_engine(vec![1, 2, 3, 4]);
    assert_eq!(e.size(), 4);
}

#[test]
fn acquire_is_a_pure_mapping_from_counter_to_instance() {
    let pool = InstancePool::from_instances(vec![10, 20, 30]);
    assert_eq!(pool.size(), 3);
    assert_eq!(pool.acquire(0), (0, &10));
    assert_eq!(pool.acquire(1), (1, &20));
    assert_eq!(pool.acquire(2), (2, &30));
    assert_eq!(pool.acquire(4), (1, &20));
    // Stateless: the same counter value always selects the same instance.
    assert_eq!(pool.acquire(4), (1, &20));
    assert_eq!(pool.select_index(u64::MAX), 0);
}

#[test]
fn full_handle_scenario_with_two_instances() {
    let mut reg: Registry<u32> = Registry::new();
    let h = reg.install(make_engine(vec![100, 200]));
    assert_ne!(h, 0);
    // Two sequential requests advance the selected index by one, modulo 2.
    let first = reg.route(h).unwrap();
    let second = reg.route(h).unwrap();
    assert_eq!(first, 0);
    assert_eq!(second, (first + 1) % 2);
    assert_eq!(reg.instance_for(h, first), Some(&100));
    assert_eq!(reg.instance_for(h, second), Some(&200));
    // Closing the handle invalidates it without corrupting any other handle.
    let other = reg.install(make_engine(vec![7]));
    reg.close(h);
    assert_eq!(reg.route(h), None);
    assert_eq!(reg.route(other), Some(0));
}

#[test]
fn commit_init_issues_a_token_iff_construction_succeeded() {
    let mut reg: Registry<u32> = Registry::new();
    let bridge = AsyncBridge::new(2).expect("runtime build");
    let pool = InstancePool::from_instances(vec![1, 2]);
    let t = commit_init(&mut reg, Ok((bridge, pool)));
    assert_ne!(t, 0);
    assert!(reg.token_open(t));
    assert_eq!(reg.count_slots(), 1);
}

#[test]
fn commit_init_on_a_failed_build_leaves_the_registry_untouched() {
    let mut reg: Registry<u32> = Registry::new();
    let kept = reg.install(make_engine(vec![1]));
    let t = commit_init::<u32>(&mut reg, Err(InitError::CommitFromFile));
    assert_eq!(t, 0);
    assert_eq!(reg.count_slots(), 1);
    assert!(reg.token_open(kept));
    let t2 = commit_init::<u32>(&mut reg, Err(InitError::RuntimeBuild));
    assert_eq!(t2, 0);
    assert_eq!(reg.count_slots(), 1);
}
