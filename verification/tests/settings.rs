use std::time::Duration;
use tokio_sky::builtin::kafka_processor::{owned_delivery_result, Offset, Partition, ProcKafkaMessage};
use tokio_sky::builtin::kafka_producer::ProdKafkaMessage;
use tokio_sky::builtin::naming::{client_name, InstanceCounter};
use tokio_sky::builtin::{pulsar_batcher, pulsar_processor, pulsar_producer};
use tokio_sky::batcher::BatcherTerminate;
use tokio_sky::decimal::{render_decimal, render_i32};
use tokio_sky::topology::{
    batcher_settings, fill_timeout, processor_settings, producer_settings, stage_names, ProcessingType,
    StageSettings,
};

#[test]
fn producer_settings_defaults() {
    assert_eq!(producer_settings(0, 0, 2), Some(StageSettings { concurrency: 1, buffer_size: 100 }));
    assert_eq!(producer_settings(-3, 7, 1), Some(StageSettings { concurrency: 1, buffer_size: 7 }));
    assert_eq!(producer_settings(4, 7, 1), Some(StageSettings { concurrency: 4, buffer_size: 7 }));
    assert_eq!(producer_settings(4, 7, 0), None);
}

#[test]
fn processor_settings_defaults() {
    assert_eq!(processor_settings(0, 0), StageSettings { concurrency: 1, buffer_size: 10 });
    assert_eq!(processor_settings(3, 5), StageSettings { concurrency: 3, buffer_size: 5 });
}

#[test]
fn batcher_settings_defaults() {
    let s = batcher_settings(0, 0, 0, Duration::ZERO);
    assert_eq!((s.concurrency, s.buffer_size, s.batch_size), (1, 10, 100));
    assert_eq!(s.batch_timeout, Duration::from_millis(50));
    let t = batcher_settings(2, 3, 4, Duration::from_secs(1));
    assert_eq!((t.concurrency, t.buffer_size, t.batch_size), (2, 3, 4));
    assert_eq!(t.batch_timeout, Duration::from_secs(1));
}

#[test]
fn fill_timeouts() {
    assert_eq!(fill_timeout(&ProcessingType::RealTime), Duration::from_millis(1));
    assert_eq!(fill_timeout(&ProcessingType::Batch), Duration::from_millis(50));
    assert_eq!(fill_timeout(&ProcessingType::CustomTimeout(Duration::from_millis(7))), Duration::from_millis(7));
}

#[test]
fn stage_names_count_from_zero() {
    assert_eq!(stage_names(3), vec!["0".to_string(), "1".to_string(), "2".to_string()]);
    assert_eq!(stage_names(12)[11], "11");
    assert!(stage_names(0).is_empty());
    assert!(stage_names(-1).is_empty());
}

#[test]
fn decimal_rendering() {
    assert_eq!(render_decimal(0), "0");
    assert_eq!(render_decimal(1230), "1230");
    assert_eq!(render_decimal(u64::MAX), u64::MAX.to_string());
    assert_eq!(render_i32(-42), "-42");
    assert_eq!(render_i32(i32::MIN), i32::MIN.to_string());
    assert_eq!(render_i32(i32::MAX), i32::MAX.to_string());
}

#[test]
fn client_names() {
    assert_eq!(client_name("pulsar", 7), "pulsar-7");
    assert_eq!(client_name("p", -1), "p--1");
    assert_eq!(pulsar_producer::subscription_name("pulsar", 12), "pulsar-12_subscription");
}

#[test]
fn instance_numbers_start_at_one_and_wrap() {
    let mut c = InstanceCounter::new();
    assert_eq!(pulsar_producer::get_new_id(&mut c), 1);
    assert_eq!(pulsar_processor::get_new_id(&mut c), 2);
    assert_eq!(pulsar_batcher::get_new_id(&mut c), 3);
    let mut w = InstanceCounter { next: i32::MAX };
    assert_eq!(pulsar_producer::get_new_id(&mut w), i32::MAX);
    assert_eq!(pulsar_producer::get_new_id(&mut w), i32::MIN);
}

#[test]
fn kafka_delivery_results() {
    let msg = ProcKafkaMessage { key: vec![1], payload: "p".to_string(), topic: "t".to_string(), partition: 0 };
    match owned_delivery_result(Ok((3, 42)), msg.clone()) {
        Ok((p, o)) => {
            assert_eq!(p, Partition(3));
            assert_eq!(o, Offset(42));
        },
        Err(_) => panic!("expected a delivery"),
    }
    match owned_delivery_result(Err(rdkafka::error::KafkaError::Canceled), msg) {
        Err((e, m)) => {
            assert!(matches!(e, rdkafka::error::KafkaError::Canceled));
            assert_eq!(m.payload, "p");
        },
        Ok(_) => panic!("expected an error"),
    }
}

#[test]
fn kafka_message_payloads() {
    let m = ProdKafkaMessage::from_parts::<()>(Some(vec![1, 2]), Some(Ok("hello".to_string())), "t".to_string(), 4);
    assert_eq!(m.payload, "hello");
    assert_eq!(m.key, Some(vec![1, 2]));
    assert_eq!((m.topic.as_str(), m.partition), ("t", 4));
    assert_eq!(ProdKafkaMessage::from_parts::<()>(None, None, "t".to_string(), 0).payload, "");
    assert_eq!(ProdKafkaMessage::from_parts(None, Some(Err(())), "t".to_string(), 0).payload, "");
}

#[test]
fn stage_names_make_a_valid_dispatcher() {
    let mut m = indexmap::IndexMap::new();
    for (i, name) in stage_names(25).into_iter().enumerate() {
        m.insert(name, i as u64);
    }
    assert_eq!(m.len(), 25);
    assert!(tokio_sky::dispatcher::Dispatcher::new(m, tokio_sky::dispatcher::RouterType::RoundRobin).is_ok());
}

#[test]
fn batch_outcome_gives_back_the_batch() {
    assert!(matches!(pulsar_batcher::batch_outcome::<u8, ()>(Ok(()), vec![1, 2]), Ok(())));
    match pulsar_batcher::batch_outcome(Err("down"), vec![1u8, 2]) {
        Err(BatcherTerminate(b)) => assert_eq!(b, vec![1, 2]),
        Ok(()) => panic!("expected the batch back"),
    }
}

#[test]
fn ids_count_from_one() {
    let mut c = InstanceCounter::new();
    let ids: Vec<i32> = (0..5).map(|_| pulsar_processor::get_new_id(&mut c)).collect();
    assert_eq!(ids, vec![1, 2, 3, 4, 5]);
}

#[test]
fn kafka_fill_timeout_is_fifty_ms() {
    assert_eq!(tokio_sky::builtin::kafka_producer::kafka_fill_timeout(), Duration::from_millis(50));
}
