use mnn::bench::{ScheduleConfigItem, ScheduleConfigItems};
use mnn::schedule::{FORWARD_AUTO, FORWARD_CPU};
use mnn::{ForwardType, MemoryMode, PowerMode, PrecisionMode};

fn items() -> ScheduleConfigItems {
    ScheduleConfigItems::new(
        vec![ForwardType::CPU, ForwardType::Auto],
        vec![PowerMode::Normal, PowerMode::High],
        vec![PrecisionMode::Normal],
        vec![MemoryMode::Low, MemoryMode::High, MemoryMode::Normal],
    )
}

#[test]
fn combinations_count() {
    let s = items();
    assert_eq!(s.combinations(), 12);
    assert!(!s.is_empty());
    assert!(!s.is_single());
    assert_eq!(s.items().len(), 12);
}

#[test]
fn combinations_order() {
    let v = items().items();
    assert_eq!(
        v[0],
        ScheduleConfigItem::new(ForwardType::CPU, PowerMode::Normal, PrecisionMode::Normal, MemoryMode::Low)
    );
    assert_eq!(
        v[1],
        ScheduleConfigItem::new(ForwardType::CPU, PowerMode::Normal, PrecisionMode::Normal, MemoryMode::High)
    );
    assert_eq!(
        v[3],
        ScheduleConfigItem::new(ForwardType::CPU, PowerMode::High, PrecisionMode::Normal, MemoryMode::Low)
    );
    assert_eq!(
        v[11],
        ScheduleConfigItem::new(ForwardType::Auto, PowerMode::High, PrecisionMode::Normal, MemoryMode::Normal)
    );
}

#[test]
fn single_and_empty() {
    let one = ScheduleConfigItems::new(
        vec![ForwardType::CPU],
        vec![PowerMode::Normal],
        vec![PrecisionMode::Normal],
        vec![MemoryMode::Normal],
    );
    assert!(one.is_single());
    assert_eq!(one.items().len(), 1);
    let none = ScheduleConfigItems::new(vec![], vec![PowerMode::Normal], vec![], vec![]);
    assert!(none.is_empty());
    assert_eq!(none.combinations(), 0);
    assert!(none.items().is_empty());
}

#[test]
fn item_schedule_config() {
    let c = ScheduleConfigItem::new(ForwardType::Auto, PowerMode::High, PrecisionMode::Low, MemoryMode::High)
        .into_schedule_config();
    assert_eq!(c.forward_code(), FORWARD_AUTO);
    assert_eq!(c.backup_code(), FORWARD_CPU);
    let b = c.backend_config().unwrap();
    assert_eq!(b.get_power_mode(), PowerMode::High);
    assert_eq!(b.get_precision_mode(), PrecisionMode::Low);
    assert_eq!(b.get_memory_mode(), MemoryMode::High);
}
