use r2ox::arch::x86_64::gdt;
use r2ox::arch::x86_64::interrupts::pic::{InterruptIndex, PIC_1_OFFSET, PIC_2_OFFSET};
use r2ox::framebuffer::{pixel_offset, FILL_COLOR};
use r2ox::logging::{enabled, format_record, level_tag, LogLevel};
use r2ox::serial::{SERIAL1_COM, SERIAL2_COM};

#[test]
fn interrupt_vectors() {
    assert_eq!(InterruptIndex::Timer.as_u8(), 32);
    assert_eq!(InterruptIndex::Keyboard.as_u8(), 33);
    assert_eq!(InterruptIndex::Timer.as_usize(), 32);
    assert_eq!(InterruptIndex::Keyboard.as_usize(), 33);
    assert_eq!(PIC_1_OFFSET, 32);
    assert_eq!(PIC_2_OFFSET, 40);
}

#[test]
fn gdt_init_does_nothing() {
    gdt::init();
    assert_eq!(gdt::DOUBLE_FAULT_1ST_INDEX, 0);
    assert_eq!(gdt::DOUBLE_FAULT_STACK_SIZE, 4096 * 5);
}

#[test]
fn serial_ports() {
    assert_eq!(SERIAL1_COM, 0x3f8);
    assert_eq!(SERIAL2_COM, 0x2f8);
}

#[test]
fn level_tags() {
    assert_eq!(level_tag(LogLevel::Error), "\x1b[1;31mERROR\x1b[0m");
    assert_eq!(level_tag(LogLevel::Warn), "\x1b[1;33mWARN\x1b[0m");
    assert_eq!(level_tag(LogLevel::Info), "\x1b[1;34mINFO\x1b[0m");
    assert_eq!(level_tag(LogLevel::Debug), "\x1b[1;32mDEBUG\x1b[0m");
    assert_eq!(level_tag(LogLevel::Trace), "\x1b[1;37mTRACE\x1b[0m");
}

#[test]
fn every_level_is_enabled() {
    assert!(enabled(LogLevel::Trace));
    assert!(enabled(LogLevel::Error));
}

#[test]
fn record_line_with_file() {
    assert_eq!(
        format_record(LogLevel::Warn, "r2ox", Some("src/main.rs"), "damnit"),
        "[\x1b[1;33mWARN\x1b[0m] r2ox src/main.rs: damnit\n"
    );
}

#[test]
fn record_line_without_file() {
    assert_eq!(
        format_record(LogLevel::Info, "kernel", None, "booted"),
        "[\x1b[1;34mINFO\x1b[0m] kernel <unknown>: booted\n"
    );
}

#[test]
fn pixel_offsets() {
    assert_eq!(pixel_offset(0, 0, 4096), 0);
    assert_eq!(pixel_offset(5, 0, 4096), 5);
    assert_eq!(pixel_offset(5, 2, 4096), 2 * 1024 + 5);
    assert_eq!(pixel_offset(1, 3, 6), 3 * 6 / 4 + 1);
    assert_eq!(FILL_COLOR, 0x696969);
}
