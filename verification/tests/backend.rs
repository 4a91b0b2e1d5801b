use mnn::backend::{MODE_HIGH, MODE_LOW, MODE_NORMAL, PRECISION_LOW_BF16};
use mnn::{BackendConfig, ErrorKind, MemoryMode, PowerMode, PrecisionMode};

#[test]
fn mode_names() {
    assert_eq!(PowerMode::Low.to_str(), "low");
    assert_eq!(PowerMode::Normal.to_str(), "normal");
    assert_eq!(PowerMode::High.to_str(), "high");
    assert_eq!(MemoryMode::Low.to_str(), "low");
    assert_eq!(MemoryMode::Normal.to_str(), "normal");
    assert_eq!(MemoryMode::High.to_str(), "high");
    assert_eq!(PrecisionMode::LowBf16.to_str(), "low_bf16");
    assert_eq!(PrecisionMode::Low.to_str(), "low");
    assert_eq!(PrecisionMode::Normal.to_str(), "normal");
    assert_eq!(PrecisionMode::High.to_str(), "high");
}

#[test]
fn mode_names_parse_back() {
    for m in [PowerMode::Low, PowerMode::Normal, PowerMode::High] {
        assert_eq!(m.to_str().parse::<PowerMode>().unwrap(), m);
    }
    for m in [MemoryMode::Low, MemoryMode::Normal, MemoryMode::High] {
        assert_eq!(m.to_str().parse::<MemoryMode>().unwrap(), m);
    }
    for m in [
        PrecisionMode::Low,
        PrecisionMode::Normal,
        PrecisionMode::High,
        PrecisionMode::LowBf16,
    ] {
        assert_eq!(m.to_str().parse::<PrecisionMode>().unwrap(), m);
    }
}

#[test]
fn unknown_mode_name_is_a_parse_error() {
    let e = "medium".parse::<PowerMode>().unwrap_err();
    assert_eq!(e.kind(), ErrorKind::ParseError);
    let e = "low_bf16".parse::<MemoryMode>().unwrap_err();
    assert_eq!(e.kind(), ErrorKind::ParseError);
    let e = "LOW".parse::<PrecisionMode>().unwrap_err();
    assert_eq!(e.kind(), ErrorKind::ParseError);
    let e = PowerMode::from_name("").unwrap_err();
    assert_eq!(e.into_inner(), ErrorKind::ParseError);
}

#[test]
fn native_mode_codes() {
    assert_eq!(PowerMode::Normal.to_mnn_sys(), MODE_NORMAL);
    assert_eq!(PowerMode::High.to_mnn_sys(), MODE_HIGH);
    assert_eq!(PowerMode::Low.to_mnn_sys(), MODE_LOW);
    assert_eq!(MODE_NORMAL, 0);
    assert_eq!(MODE_HIGH, 1);
    assert_eq!(MODE_LOW, 2);
    assert_eq!(PrecisionMode::LowBf16.to_mnn_sys(), PRECISION_LOW_BF16);
    assert_eq!(PRECISION_LOW_BF16, 3);
    // unknown codes read as normal
    assert_eq!(PowerMode::from_mnn_sys(7), PowerMode::Normal);
    assert_eq!(MemoryMode::from_mnn_sys(3), MemoryMode::Normal);
    assert_eq!(PrecisionMode::from_mnn_sys(99), PrecisionMode::Normal);
    assert_eq!(PrecisionMode::from_mnn_sys(3), PrecisionMode::LowBf16);
}

#[test]
fn new_backend_config_is_normal() {
    let c = BackendConfig::new();
    assert_eq!(c.get_memory_mode(), MemoryMode::Normal);
    assert_eq!(c.get_power_mode(), PowerMode::Normal);
    assert_eq!(c.get_precision_mode(), PrecisionMode::Normal);
    assert_eq!(c.flags(), 0);
    let d = BackendConfig::default();
    assert_eq!(d.get_power_mode(), PowerMode::Normal);
}

#[test]
fn backend_config_reads_back_what_was_set() {
    let mut c = BackendConfig::new();
    c.set_memory_mode(MemoryMode::High);
    c.set_precision_mode(PrecisionMode::LowBf16);
    c.set_power_mode(PowerMode::Low);
    c.set_flags(5);
    assert_eq!(c.get_memory_mode(), MemoryMode::High);
    assert_eq!(c.get_precision_mode(), PrecisionMode::LowBf16);
    assert_eq!(c.get_power_mode(), PowerMode::Low);
    assert_eq!(c.flags(), 5);
    c.set_memory_mode(MemoryMode::Low);
    assert_eq!(c.get_memory_mode(), MemoryMode::Low);
    assert_eq!(c.get_power_mode(), PowerMode::Low);
}

#[test]
fn backend_config_builders() {
    let c = BackendConfig::new()
        .with_power_mode(PowerMode::High)
        .with_precision_mode(PrecisionMode::High)
        .with_memory_mode(MemoryMode::Low)
        .with_flags(3);
    assert_eq!(c.get_power_mode(), PowerMode::High);
    assert_eq!(c.get_precision_mode(), PrecisionMode::High);
    assert_eq!(c.get_memory_mode(), MemoryMode::Low);
    assert_eq!(c.flags(), 3);
}
