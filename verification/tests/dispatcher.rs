use indexmap::IndexMap;
use tokio_sky::dispatcher::{
    roundrobin_step, DispatchError, DispatchPlan, Dispatcher, InternalDispatchError, RoundRobinStep, RouterType,
    StatusResult, TrySendFailure,
};

fn stages(entries: &[(&str, u64)]) -> IndexMap<String, u64> {
    let mut m = IndexMap::new();
    for (name, handle) in entries {
        m.insert(name.to_string(), *handle);
    }
    m
}

fn broadcast_handles(d: &Dispatcher) -> Vec<u64> {
    match d.dispatch(0u8, None) {
        DispatchPlan::SendToAll { handles, .. } => handles,
        DispatchPlan::Done(Err(DispatchError::NotExist(_))) => vec![],
        other => panic!("unexpected plan {:?}", other),
    }
}

#[test]
fn new_refuses_shared_channel() {
    let r = Dispatcher::new(stages(&[("a", 1), ("b", 1)]), RouterType::RoundRobin);
    assert!(matches!(r, Err(StatusResult::SendersRepetive)));
}

#[test]
fn new_accepts_distinct_destinations() {
    let d = Dispatcher::new(stages(&[("a", 1), ("b", 2)]), RouterType::Broadcast).unwrap();
    assert_eq!(d.router_type(), RouterType::Broadcast);
    assert_eq!(broadcast_handles(&d), vec![1, 2]);
}

#[test]
fn roundrobin_without_destination_gives_message_back() {
    let d = Dispatcher::new(stages(&[]), RouterType::RoundRobin).unwrap();
    assert!(matches!(d.dispatch(7u32, None), DispatchPlan::Done(Err(DispatchError::NotExist(7)))));
}

#[test]
fn roundrobin_single_destination_closed_is_dropped() {
    let mut d = Dispatcher::new(stages(&[("a", 9)]), RouterType::RoundRobin).unwrap();
    assert!(matches!(d.dispatch(5u32, None), DispatchPlan::SendToOnly { handle: 9, msg: 5 }));
    assert!(matches!(d.roundrobin_single::<u32>(Ok(())), Ok(())));
    assert!(matches!(d.roundrobin_single(Err(5u32)), Err(DispatchError::NotExist(5))));
    assert!(matches!(d.dispatch(6u32, None), DispatchPlan::Done(Err(DispatchError::NotExist(6)))));
}

#[test]
fn roundrobin_takes_turns() {
    let mut d = Dispatcher::new(stages(&[("a", 10), ("b", 11), ("c", 12)]), RouterType::RoundRobin).unwrap();
    assert!(matches!(d.dispatch(1u8, None), DispatchPlan::TryInTurn(1)));
    let picks: Vec<(usize, u64)> = (0..6).map(|_| d.logic_roundrobin_target()).collect();
    assert_eq!(picks, vec![(0, 10), (1, 11), (2, 12), (0, 10), (1, 11), (2, 12)]);
}

#[test]
fn roundrobin_closed_destination_swaps_last_in() {
    let mut d = Dispatcher::new(stages(&[("a", 10), ("b", 11), ("c", 12)]), RouterType::RoundRobin).unwrap();
    let (index, handle) = d.logic_roundrobin_target();
    assert_eq!((index, handle), (0, 10));
    let r = d.logic_roundrobin(index, Err(TrySendFailure::Closed(4u8)));
    assert!(matches!(r, Err(InternalDispatchError::DestinationDown(4))));
    assert_eq!(d.logic_roundrobin_target(), (1, 11));
    assert_eq!(d.logic_roundrobin_target(), (0, 12));
}

#[test]
fn roundrobin_full_destination_is_kept() {
    let mut d = Dispatcher::new(stages(&[("a", 10), ("b", 11)]), RouterType::RoundRobin).unwrap();
    let (index, _) = d.logic_roundrobin_target();
    let r = d.logic_roundrobin(index, Err(TrySendFailure::Full(3u8)));
    assert!(matches!(r, Err(InternalDispatchError::Full(3))));
    assert!(matches!(d.logic_roundrobin::<u8>(1, Ok(())), Ok(())));
    assert_eq!(d.logic_roundrobin_target(), (1, 11));
}

#[test]
fn roundrobin_last_destination_closed_is_not_exist() {
    let mut d = Dispatcher::new(stages(&[("a", 10), ("b", 11)]), RouterType::RoundRobin).unwrap();
    assert!(matches!(d.logic_roundrobin(0, Err(TrySendFailure::Closed(1u8))), Err(InternalDispatchError::DestinationDown(1))));
    assert!(matches!(d.logic_roundrobin(0, Err(TrySendFailure::Closed(2u8))), Err(InternalDispatchError::NotExist(2))));
    assert!(matches!(d.dispatch(3u8, None), DispatchPlan::Done(Err(DispatchError::NotExist(3)))));
}

#[test]
fn roundrobin_step_retries_or_finishes() {
    assert!(matches!(roundrobin_step::<u8>(Ok(())), RoundRobinStep::Finished(Ok(()))));
    assert!(matches!(roundrobin_step(Err(InternalDispatchError::Full(1u8))), RoundRobinStep::Retry(1)));
    assert!(matches!(roundrobin_step(Err(InternalDispatchError::DestinationDown(2u8))), RoundRobinStep::Retry(2)));
    assert!(matches!(
        roundrobin_step(Err(InternalDispatchError::NotExist(3u8))),
        RoundRobinStep::Finished(Err(DispatchError::NotExist(3)))
    ));
}

#[test]
fn broadcast_drops_closed_but_never_the_last() {
    let mut d = Dispatcher::new(stages(&[("a", 1), ("b", 2), ("c", 3)]), RouterType::Broadcast).unwrap();
    assert!(matches!(d.broadcast_finish::<u8>(vec![true, false, true]), Ok(())));
    assert_eq!(broadcast_handles(&d), vec![3, 2]);
}

#[test]
fn broadcast_single_closed_destination_is_dropped() {
    let mut d = Dispatcher::new(stages(&[("a", 1)]), RouterType::Broadcast).unwrap();
    assert!(matches!(d.broadcast_finish::<u8>(vec![true]), Ok(())));
    assert!(matches!(d.dispatch(8u8, None), DispatchPlan::Done(Err(DispatchError::NotExist(8)))));
}

#[test]
fn broadcast_without_destination_gives_message_back() {
    let d = Dispatcher::new(stages(&[]), RouterType::Broadcast).unwrap();
    assert!(matches!(d.dispatch(2u8, None), DispatchPlan::Done(Err(DispatchError::NotExist(2)))));
}

#[test]
fn partition_routes_to_a_destination_of_the_map() {
    let d = Dispatcher::new(stages(&[("a", 100), ("b", 101), ("c", 102)]), RouterType::Partition).unwrap();
    for key in ["admin", "client", "x", "y"] {
        match d.dispatch(1u8, Some(key.to_string())) {
            DispatchPlan::SendToPartition { index, handle, msg } => {
                assert!(index < 3);
                assert_eq!(handle, 100 + index as u64);
                assert_eq!(msg, 1);
            },
            other => panic!("unexpected plan {:?}", other),
        }
    }
}

#[test]
fn partition_same_key_same_destination() {
    let d = Dispatcher::new(stages(&[("a", 100), ("b", 101), ("c", 102)]), RouterType::Partition).unwrap();
    let first = match d.dispatch(1u8, Some("user-7".to_string())) {
        DispatchPlan::SendToPartition { index, .. } => index,
        other => panic!("unexpected plan {:?}", other),
    };
    for _ in 0..5 {
        assert!(matches!(
            d.dispatch(1u8, Some("user-7".to_string())),
            DispatchPlan::SendToPartition { index, .. } if index == first
        ));
    }
}

#[test]
fn partition_without_destination_is_not_found() {
    let d = Dispatcher::new(stages(&[]), RouterType::Partition).unwrap();
    assert!(matches!(d.dispatch(1u8, Some("k".to_string())), DispatchPlan::Done(Err(DispatchError::NotFound))));
}

#[test]
fn partition_route_follows_the_map() {
    let d = Dispatcher::new(stages(&[("a", 100), ("b", 101)]), RouterType::Partition).unwrap();
    assert_eq!(d.partition_route(Some(1)), Some((1, 101)));
    assert_eq!(d.partition_route(Some(2)), None);
    assert_eq!(d.partition_route(None), None);
}

#[test]
fn partition_closed_destination_is_dropped() {
    let mut d = Dispatcher::new(stages(&[("a", 100), ("b", 101), ("c", 102)]), RouterType::Partition).unwrap();
    assert!(matches!(d.partition_finish::<u8>(0, Ok(())), Ok(())));
    assert_eq!(d.partition_route(Some(0)), Some((0, 100)));
    assert!(matches!(d.partition_finish(0, Err(5u8)), Err(DispatchError::NotFound)));
    assert_eq!(d.partition_route(Some(0)), Some((0, 102)));
    assert_eq!(d.partition_route(Some(2)), None);
}

#[test]
fn roundrobin_alternates_between_two() {
    let mut d = Dispatcher::new(stages(&[("0", 0), ("1", 1)]), RouterType::RoundRobin).unwrap();
    let picks: Vec<u64> = (0..4).map(|_| d.logic_roundrobin_target().1).collect();
    assert_eq!(picks, vec![0, 1, 0, 1]);
}

#[test]
fn roundrobin_not_exist_only_after_all_closed() {
    let mut d = Dispatcher::new(stages(&[("a", 1), ("b", 2), ("c", 3)]), RouterType::RoundRobin).unwrap();
    let mut msg = 9u8;
    let mut attempts = 0;
    let result = loop {
        let (index, _) = d.logic_roundrobin_target();
        attempts += 1;
        match roundrobin_step(d.logic_roundrobin(index, Err(TrySendFailure::Closed(msg)))) {
            RoundRobinStep::Retry(m) => msg = m,
            RoundRobinStep::Finished(r) => break r,
        }
    };
    assert_eq!(attempts, 3);
    assert!(matches!(result, Err(DispatchError::NotExist(9))));
}
