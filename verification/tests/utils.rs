use win_opt::format_uptime;
use win_opt::text::{i32_to_dec, u64_to_dec};

#[test]
fn test_format_uptime_seconds() {
    assert_eq!(format_uptime(0), "0 segundos");
    assert_eq!(format_uptime(1), "1 segundo");
    assert_eq!(format_uptime(30), "30 segundos");
    assert_eq!(format_uptime(59), "59 segundos");
}

#[test]
fn test_format_uptime_minutes() {
    assert_eq!(format_uptime(60), "1 minuto");
    assert_eq!(format_uptime(120), "2 minutos");
    assert_eq!(format_uptime(3540), "59 minutos");
}

#[test]
fn test_format_uptime_hours() {
    assert_eq!(format_uptime(3600), "1 hora, 0 minutos");
    assert_eq!(format_uptime(3661), "1 hora, 1 minuto");
    assert_eq!(format_uptime(7200), "2 horas, 0 minutos");
}

#[test]
fn test_format_uptime_days() {
    assert_eq!(format_uptime(86400), "1 día, 0 horas, 0 minutos");
    assert_eq!(format_uptime(90061), "1 día, 1 hora, 1 minuto");
    assert_eq!(format_uptime(172800), "2 días, 0 horas, 0 minutos");
}

#[test]
fn test_format_uptime_large_values() {
    // 7 days
    assert_eq!(format_uptime(604800), "7 días, 0 horas, 0 minutos");
    // 30 days
    assert_eq!(format_uptime(2592000), "30 días, 0 horas, 0 minutos");
}

#[test]
fn test_decimal_rendering() {
    assert_eq!(u64_to_dec(0), "0");
    assert_eq!(u64_to_dec(7), "7");
    assert_eq!(u64_to_dec(1234567890), "1234567890");
    assert_eq!(u64_to_dec(u64::MAX), "18446744073709551615");
    assert_eq!(i32_to_dec(-5), "-5");
    assert_eq!(i32_to_dec(i32::MIN), "-2147483648");
    assert_eq!(i32_to_dec(42), "42");
}
