use snowflake::SnowflakeIdGenerator;
use delay_timer::entity::SharedHeader;
use delay_timer::prelude::{get_timestamp, get_timestamp_micros, timestamp};

#[test]
fn clock_readings_agree() {
    let seconds = get_timestamp();
    let micros = get_timestamp_micros();
    assert!(seconds > 1_600_000_000);
    assert!(micros / 1_000_000 >= seconds as u128);
    assert!(timestamp() >= seconds);
}

#[test]
fn fresh_core_has_an_empty_wheel() {
    let header: SharedHeader<()> = SharedHeader::new(42, SnowflakeIdGenerator::new(1, 1));
    assert_eq!(header.wheel_queue.len(), 3600);
    assert!(header.task_flag_map.is_empty());
    assert_eq!(header.second_hand, 0);
    assert_eq!(header.global_time, 42);
    assert!(header.shared_motivation);
}
