//! The handlers of the two processor exceptions that this kernel serves.
//! Both are fatal: the entry point shows what the handler answers, then
//! halts the processor for good. Neither acknowledges anything: an exception
//! is no hardware interrupt.

use vstd::prelude::*;
use vstd::string::StringExecFns;
use x86_64::VirtAddr;
use x86_64::structures::idt::{InterruptStackFrameValue, PageFaultErrorCode};
use crate::display::DisplayAction;
use crate::render::Color;

verus! {

/// What the processor saved before it entered a handler.
#[derive(Clone, Copy, Debug, PartialEq, Eq, Structural)]
pub struct StackFrame {
    pub instruction_pointer: u64,
    pub code_segment: u64,
    pub cpu_flags: u64,
    pub stack_pointer: u64,
    pub stack_segment: u64,
}

/// How `x86_64` prints the virtual address `address`.
pub uninterp spec fn address_text(address: u64) -> Seq<char>;

/// How `x86_64` prints the page-fault error code of the bits `bits`.
pub uninterp spec fn error_code_text(bits: u64) -> Seq<char>;

/// How `x86_64` prints the saved context `frame`, one field to a line.
pub uninterp spec fn frame_text(frame: StackFrame) -> Seq<char>;

/// The `Debug` print of `VirtAddr` of `x86_64`, for the address that
/// `VirtAddr::new_truncate` makes of `address`.
#[verifier::external_body]
fn format_address(address: u64) -> (text: String)
    ensures
        text@ == address_text(address),
{
    format!("{:?}", VirtAddr::new_truncate(address))
}

/// The `Debug` print of `PageFaultErrorCode` of `x86_64`, for the code that
/// has exactly the bits `bits`.
#[verifier::external_body]
fn format_error_code(bits: u64) -> (text: String)
    ensures
        text@ == error_code_text(bits),
{
    format!("{:?}", PageFaultErrorCode::from_bits_retain(bits))
}

/// The pretty `Debug` print of `InterruptStackFrameValue` of `x86_64`, for
/// the value whose fields are those of `frame`.
#[verifier::external_body]
fn format_frame(frame: &StackFrame) -> (text: String)
    ensures
        text@ == frame_text(*frame),
{
    format!(
        "{:#?}",
        InterruptStackFrameValue {
            instruction_pointer: VirtAddr::new_truncate(frame.instruction_pointer),
            code_segment: frame.code_segment,
            cpu_flags: frame.cpu_flags,
            stack_pointer: VirtAddr::new_truncate(frame.stack_pointer),
            stack_segment: frame.stack_segment,
        }
    )
}

/// The report of a page fault: a title, the address, the error code and the
/// saved context, each on a line of its own.
pub open spec fn report_text(address: u64, error_code: u64, frame: StackFrame) -> Seq<char> {
    "Page Fault\nAddress: "@ + address_text(address) + "\nError Code: "@ + error_code_text(
        error_code,
    ) + "\n"@ + frame_text(frame)
}

/// The double fault: the display is painted in the alert color.
pub fn double_fault() -> (action: DisplayAction)
    ensures
        action == DisplayAction::Clear(Color::alert()),
{
    DisplayAction::Clear(Color::alert())
}

/// The page fault, for the faulting address that was read from the
/// processor, the bits of the error code, and the saved context: the text of
/// the report to show. Nothing is done to recover.
pub fn page_fault(address: u64, error_code: u64, frame: &StackFrame) -> (report: String)
    ensures
        report@ == report_text(address, error_code, *frame),
{
    let mut report = String::from_str("Page Fault\nAddress: ");
    let address_part = format_address(address);
    report.append(address_part.as_str());
    report.append("\nError Code: ");
    let code_part = format_error_code(error_code);
    report.append(code_part.as_str());
    report.append("\n");
    let frame_part = format_frame(frame);
    report.append(frame_part.as_str());
    report
}

} // verus!
