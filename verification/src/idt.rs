//! Interrupt vectors and the layout of the interrupt descriptor table.
//!
//! The table that the processor reads holds entry points, which only the
//! kernel binary has. This module decides what stands at each of the 256
//! vectors: which handler, and on which stack.

use vstd::prelude::*;

verus! {

/// The vector at which the chained interrupt controllers deliver their first line.
pub const PIC_OFFSET: u8 = 32;

/// The vector of the double-fault exception.
pub const DOUBLE_FAULT_VECTOR: u8 = 8;

/// The vector of the page-fault exception.
pub const PAGE_FAULT_VECTOR: u8 = 14;

/// The number of vectors of the table.
pub const VECTORS: usize = 256;

/// The number of stacks that the interrupt stack table can name.
pub const INTERRUPT_STACKS: u16 = 7;

/// A hardware interrupt line that this kernel serves.
#[derive(Debug, Copy, Clone, Ord, PartialOrd, Eq, PartialEq, Hash, Structural)]
pub enum InterruptIndex {
    Timer,
    Keyboard,
}

impl InterruptIndex {
    /// The line of the interrupt controllers that the device is wired to.
    pub open spec fn line(self) -> u8 {
        match self {
            InterruptIndex::Timer => 0,
            InterruptIndex::Keyboard => 1,
        }
    }

    /// The vector of this line: the controllers' offset plus the line's number.
    pub open spec fn vector(self) -> u8 {
        (PIC_OFFSET + self.line()) as u8
    }

    /// The vector of this line, as the interrupt controllers take it.
    pub fn as_u8(self) -> (vector: u8)
        ensures
            vector == self.vector(),
    {
        match self {
            InterruptIndex::Timer => PIC_OFFSET,
            InterruptIndex::Keyboard => PIC_OFFSET + 1,
        }
    }

    /// The vector of this line, as an index into the table.
    pub fn as_usize(self) -> (vector: usize)
        ensures
            vector == self.vector(),
    {
        self.as_u8() as usize
    }
}

/// The vector tells the lines apart: two lines with one vector are one line.
/// Every line lies on the first of the two chained controllers, above the 32
/// vectors that the processor keeps for its exceptions.
pub proof fn vectors_tell_the_lines_apart(first: InterruptIndex, second: InterruptIndex)
    ensures
        first.vector() == second.vector() ==> first == second,
        first.vector() == PIC_OFFSET + first.line(),
        PIC_OFFSET <= first.vector() < PIC_OFFSET + 8,
        32 <= first.vector(),
{
}

/// The handlers of this kernel.
#[derive(Debug, Copy, Clone, Eq, PartialEq, Structural)]
pub enum Handler {
    Timer,
    Keyboard,
    DoubleFault,
    PageFault,
}

/// One bound entry of the table.
#[derive(Debug, Copy, Clone, Eq, PartialEq, Structural)]
pub struct Binding {
    /// The handler that the processor enters.
    pub handler: Handler,
    /// The stack of the interrupt stack table that the processor switches
    /// to, or `None` for the stack that was in use.
    pub stack_index: Option<u16>,
}

/// A defect of the boot-time configuration. None can be recovered from:
/// boot code stops on it.
#[derive(Debug, Copy, Clone, Eq, PartialEq, Structural)]
pub enum ConfigError {
    /// The interrupt stack table has no stack of the given index.
    StackIndexOutOfRange,
    /// A step of bringing interrupts up was taken out of turn, or twice.
    StepOutOfOrder,
}

/// What the built table holds at `vector`, with the double-fault handler on
/// stack `double_fault_stack`.
pub open spec fn binding_at(vector: int, double_fault_stack: u16) -> Option<Binding> {
    if vector == DOUBLE_FAULT_VECTOR {
        Some(Binding { handler: Handler::DoubleFault, stack_index: Some(double_fault_stack) })
    } else if vector == PAGE_FAULT_VECTOR {
        Some(Binding { handler: Handler::PageFault, stack_index: None })
    } else if vector == InterruptIndex::Timer.vector() {
        Some(Binding { handler: Handler::Timer, stack_index: None })
    } else if vector == InterruptIndex::Keyboard.vector() {
        Some(Binding { handler: Handler::Keyboard, stack_index: None })
    } else {
        None
    }
}

/// The built table: one entry for each vector, in order.
pub open spec fn built(double_fault_stack: u16) -> Seq<Option<Binding>> {
    Seq::new(VECTORS as nat, |vector: int| binding_at(vector, double_fault_stack))
}

/// The vectors at which `table` has a handler.
pub open spec fn bound_vectors(table: Seq<Option<Binding>>) -> Set<int> {
    Set::new(|vector: int| 0 <= vector < table.len() && table[vector] is Some)
}

/// The layout of an interrupt descriptor table: for each vector, what is
/// bound to it, if anything.
pub struct InterruptTable {
    slots: Vec<Option<Binding>>,
}

impl View for InterruptTable {
    type V = Seq<Option<Binding>>;

    closed spec fn view(&self) -> Seq<Option<Binding>> {
        self.slots@
    }
}

impl InterruptTable {
    #[verifier::type_invariant]
    spec fn has_all_vectors(self) -> bool {
        self.slots@.len() == VECTORS
    }

    /// Builds the table of this kernel: the double-fault handler on the stack
    /// of the given index, the page-fault handler, and the handlers of the
    /// timer and the keyboard at their vectors. Every other vector is left
    /// unbound. An index that the interrupt stack table does not have is refused.
    pub fn build(double_fault_stack: u16) -> (result: Result<InterruptTable, ConfigError>)
        ensures
            result is Ok <==> double_fault_stack < INTERRUPT_STACKS,
            result matches Ok(table) ==> table@ == built(double_fault_stack),
            result matches Err(error) ==> error == ConfigError::StackIndexOutOfRange,
    {
        if double_fault_stack >= INTERRUPT_STACKS {
            return Err(ConfigError::StackIndexOutOfRange);
        }
        let mut slots: Vec<Option<Binding>> = Vec::new();
        let mut vector: usize = 0;
        while vector < VECTORS
            invariant
                vector <= VECTORS,
                slots@.len() == vector,
                forall|i: int| 0 <= i < vector ==> slots@[i] == None::<Binding>,
            decreases VECTORS - vector,
        {
            slots.push(None);
            vector = vector + 1;
        }
        slots[InterruptIndex::Timer.as_usize()] = Some(
            Binding { handler: Handler::Timer, stack_index: None },
        );
        slots[InterruptIndex::Keyboard.as_usize()] = Some(
            Binding { handler: Handler::Keyboard, stack_index: None },
        );
        slots[DOUBLE_FAULT_VECTOR as usize] = Some(
            Binding { handler: Handler::DoubleFault, stack_index: Some(double_fault_stack) },
        );
        slots[PAGE_FAULT_VECTOR as usize] = Some(
            Binding { handler: Handler::PageFault, stack_index: None },
        );
        assert(slots@ =~= built(double_fault_stack));
        Ok(InterruptTable { slots })
    }

    /// What is bound to `vector`, if anything.
    pub fn binding(&self, vector: u8) -> (binding: Option<Binding>)
        ensures
            self@.len() == VECTORS,
            binding == self@[vector as int],
    {
        proof {
            use_type_invariant(self);
        }
        self.slots[vector as usize]
    }
}

/// The built table binds a handler at the vectors of the double fault, the
/// page fault, the timer and the keyboard, and nowhere else: four in all.
pub proof fn built_table_binds_four_vectors(double_fault_stack: u16)
    ensures
        bound_vectors(built(double_fault_stack)) =~= set![
            DOUBLE_FAULT_VECTOR as int,
            PAGE_FAULT_VECTOR as int,
            InterruptIndex::Timer.vector() as int,
            InterruptIndex::Keyboard.vector() as int,
        ],
        bound_vectors(built(double_fault_stack)).len() == 4,
{
    let bound = bound_vectors(built(double_fault_stack));
    let four = set![8int, 14int, 32int, 33int];
    assert(bound =~= four);
    assert(four.len() == 4) by {
        let one = set![8int];
        let two = one.insert(14);
        let three = two.insert(32);
        assert(four =~= three.insert(33));
    }
}

} // verus!
