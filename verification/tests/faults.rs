use trapcore::display::DisplayAction;
use trapcore::fault::{double_fault, page_fault, StackFrame};
use trapcore::render::Color;
use x86_64::structures::idt::{InterruptStackFrameValue, PageFaultErrorCode};
use x86_64::VirtAddr;

fn frame() -> StackFrame {
    StackFrame {
        instruction_pointer: 0x20_1000,
        code_segment: 8,
        cpu_flags: 0x202,
        stack_pointer: 0x7fff_ffff_f000,
        stack_segment: 0,
    }
}

fn frame_value() -> InterruptStackFrameValue {
    InterruptStackFrameValue {
        instruction_pointer: VirtAddr::new(0x20_1000),
        code_segment: 8,
        cpu_flags: 0x202,
        stack_pointer: VirtAddr::new(0x7fff_ffff_f000),
        stack_segment: 0,
    }
}

#[test]
fn double_fault_paints_the_alert_color() {
    assert_eq!(double_fault(), DisplayAction::Clear(Color { red: 255, green: 0, blue: 0 }));
}

#[test]
fn page_fault_report_names_the_address_and_the_write_flag() {
    let report = page_fault(0xdead_beef, 0b10, &frame());
    assert!(report.contains("0xdeadbeef"));
    assert!(report.contains("CAUSED_BY_WRITE"));
    assert!(!report.contains("USER_MODE"));
    assert!(report.starts_with("Page Fault\nAddress: "));
}

#[test]
fn page_fault_report_is_laid_out_line_by_line() {
    let report = page_fault(0xdead_beef, 0b10, &frame());
    let expected = "Page Fault\n\
Address: VirtAddr(0xdeadbeef)\n\
Error Code: PageFaultErrorCode(CAUSED_BY_WRITE)\n\
InterruptStackFrame {\n    \
    instruction_pointer: VirtAddr(\n        \
        0x201000,\n    \
    ),\n    \
    code_segment: 8,\n    \
    cpu_flags: 0x202,\n    \
    stack_pointer: VirtAddr(\n        \
        0x7ffffffff000,\n    \
    ),\n    \
    stack_segment: 0,\n\
}";
    assert_eq!(report, expected);
}

#[test]
fn page_fault_report_prints_as_the_processor_types_do() {
    let report = page_fault(0x4444_4444_0000, 0b101, &frame());
    let expected = format!(
        "Page Fault\nAddress: {:?}\nError Code: {:?}\n{:#?}",
        VirtAddr::new(0x4444_4444_0000),
        PageFaultErrorCode::PROTECTION_VIOLATION | PageFaultErrorCode::USER_MODE,
        frame_value()
    );
    assert_eq!(report, expected);
}

#[test]
fn page_fault_report_keeps_unknown_bits_of_the_error_code() {
    let report = page_fault(0, 1 << 40, &frame());
    let expected = format!(
        "Page Fault\nAddress: {:?}\nError Code: {:?}\n{:#?}",
        VirtAddr::new(0),
        PageFaultErrorCode::from_bits_retain(1 << 40),
        frame_value()
    );
    assert_eq!(report, expected);
    assert!(report.contains("0x10000000000"));
}

#[test]
fn page_fault_report_of_a_high_half_address() {
    let report = page_fault(0xffff_8000_0000_1000, 0, &frame());
    assert!(report.contains("Address: VirtAddr(0xffff800000001000)\n"));
}

#[test]
fn page_fault_reports_differ_by_their_inputs() {
    let read = page_fault(0x1000, 0, &frame());
    let write = page_fault(0x1000, 0b10, &frame());
    let elsewhere = page_fault(0x2000, 0, &frame());
    let mut other_frame = frame();
    other_frame.cpu_flags = 0x246;
    let later = page_fault(0x1000, 0, &other_frame);
    assert_ne!(read, write);
    assert_ne!(read, elsewhere);
    assert_ne!(read, later);
    assert!(later.contains("cpu_flags: 0x246"));
}
