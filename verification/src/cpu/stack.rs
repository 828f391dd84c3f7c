//! The stack helper: a descending pointer over a caller-supplied stack
//! area. A pointer of 0xFF means empty; a push decrements the pointer and
//! then writes at it, a pop reads at the pointer and then increments.
//! 16-bit values travel little-endian and move the pointer by two.

use vstd::prelude::*;
use vstd::string::StringExecFns;

verus! {

/// A stack failure: a push onto a full area or a pop from an empty one.
#[derive(Debug, PartialEq)]
pub struct StackError {
    pub message: String,
}

impl View for StackError {
    type V = Seq<char>;

    open spec fn view(&self) -> Seq<char> {
        self.message@
    }
}

/// The message of `StackError::overflow`.
pub open spec fn spec_msg_stack_overflow() -> Seq<char> {
    "Stack overflow occurred"@
}

/// The message of `StackError::underflow`.
pub open spec fn spec_msg_stack_underflow() -> Seq<char> {
    "Stack underflow; unable to pop from empty stack"@
}

impl StackError {
    /// A push onto a full stack.
    pub fn overflow() -> (r: StackError)
        ensures
            r@ == spec_msg_stack_overflow(),
    {
        StackError { message: String::from_str("Stack overflow occurred") }
    }

    /// A pop from an empty stack.
    pub fn underflow() -> (r: StackError)
        ensures
            r@ == spec_msg_stack_underflow(),
    {
        StackError { message: String::from_str("Stack underflow; unable to pop from empty stack") }
    }
}

/// The descending stack pointer. The stack area it indexes into is
/// handed to each operation by the caller.
pub struct Stack {
    /// The current top of the stack: 0xFF when empty, decreasing as
    /// values are pushed.
    pub pointer: usize,
}

impl Stack {
    /// An empty stack: the pointer rests at 0xFF.
    pub fn new() -> (r: Stack)
        ensures
            r.pointer == 0xFF,
    {
        Stack { pointer: 0xFF }
    }

    /// Pushes one byte: decrements the pointer, then writes at it. Fails
    /// with an overflow when the pointer is already at the bottom, and
    /// then changes nothing.
    pub fn push(&mut self, stack_area: &mut Vec<u8>, val: u8) -> (r: Result<(), StackError>)
        requires
            old(self).pointer <= old(stack_area)@.len(),
        ensures
            final(self).pointer <= final(stack_area)@.len(),
            final(stack_area)@.len() == old(stack_area)@.len(),
            if old(self).pointer > 0 {
                r is Ok && final(self).pointer == old(self).pointer - 1 && final(stack_area)@
                    == old(stack_area)@.update(old(self).pointer - 1, val)
            } else {
                r matches Err(e) && e@ == spec_msg_stack_overflow()
                    && final(self).pointer == old(self).pointer
                    && final(stack_area)@ == old(stack_area)@
            },
    {
        if self.pointer > 0 {
            self.pointer = self.pointer - 1;
            stack_area[self.pointer] = val;
            Ok(())
        } else {
            Err(StackError::overflow())
        }
    }

    /// Pushes a 16-bit value as two bytes, low first, and moves the
    /// pointer down by two. Fails with an overflow when fewer than two
    /// slots remain, and then changes nothing.
    pub fn push_u16(&mut self, stack_area: &mut Vec<u8>, val: u16) -> (r: Result<(), StackError>)
        requires
            old(self).pointer <= old(stack_area)@.len(),
        ensures
            final(self).pointer <= final(stack_area)@.len(),
            final(stack_area)@.len() == old(stack_area)@.len(),
            if old(self).pointer > 1 {
                r is Ok && final(self).pointer == old(self).pointer - 2 && final(stack_area)@
                    == old(stack_area)@.update(old(self).pointer - 2, (val % 256) as u8).update(
                    old(self).pointer - 1,
                    (val / 256) as u8,
                )
            } else {
                r matches Err(e) && e@ == spec_msg_stack_overflow()
                    && final(self).pointer == old(self).pointer
                    && final(stack_area)@ == old(stack_area)@
            },
    {
        if self.pointer > 1 {
            stack_area[self.pointer - 2] = (val % 256) as u8;
            stack_area[self.pointer - 1] = (val / 256) as u8;
            self.pointer = self.pointer - 2;
            Ok(())
        } else {
            Err(StackError::overflow())
        }
    }

    /// Pops one byte: reads at the pointer, then increments it. Fails
    /// with an underflow when the stack is empty, and then changes
    /// nothing.
    pub fn pop(&mut self, stack_area: &Vec<u8>) -> (r: Result<u8, StackError>)
        requires
            old(self).pointer == 0xFF || old(self).pointer < stack_area@.len(),
        ensures
            if old(self).pointer == 0xFF {
                r matches Err(e) && e@ == spec_msg_stack_underflow()
                    && final(self).pointer == old(self).pointer
            } else {
                r == Ok::<u8, StackError>(stack_area@[old(self).pointer as int])
                    && final(self).pointer == old(self).pointer + 1
            },
    {
        if self.pointer == 0xFF {
            Err(StackError::underflow())
        } else {
            let n = stack_area.len();
            let val = stack_area[self.pointer];
            self.pointer = self.pointer + 1;
            Ok(val)
        }
    }

    /// Pops a 16-bit value, low byte from the pointer, and moves the
    /// pointer up by two. Fails with an underflow when fewer than two
    /// values are on the stack, and then changes nothing.
    pub fn pop_u16(&mut self, stack_area: &Vec<u8>) -> (r: Result<u16, StackError>)
        requires
            old(self).pointer >= 0xFE || old(self).pointer + 1 < stack_area@.len(),
        ensures
            if old(self).pointer < 0xFE {
                r == Ok::<u16, StackError>(
                    (stack_area@[old(self).pointer as int] + stack_area@[old(self).pointer + 1]
                        * 0x100) as u16,
                ) && final(self).pointer == old(self).pointer + 2
            } else {
                r matches Err(e) && e@ == spec_msg_stack_underflow()
                    && final(self).pointer == old(self).pointer
            },
    {
        if self.pointer < 0xFE {
            let n = stack_area.len();
            let lo = stack_area[self.pointer];
            let hi = stack_area[self.pointer + 1];
            self.pointer = self.pointer + 2;
            Ok(lo as u16 + (hi as u16) * 0x100)
        } else {
            Err(StackError::underflow())
        }
    }
}

/// The stack area and pointer after a whole sequence of bytes is
/// pushed, first element first.
pub open spec fn spec_push_all(area: Seq<u8>, sp: int, vs: Seq<u8>) -> (Seq<u8>, int)
    decreases vs.len(),
{
    if vs.len() == 0 {
        (area, sp)
    } else {
        spec_push_all(area.update(sp - 1, vs[0]), sp - 1, vs.drop_first())
    }
}

/// Push-then-pop reversal: after a sequence of bytes is pushed, the
/// pointer has moved down by its length and successive pops (which read
/// at the pointer and move it up) hand the bytes back in reverse order.
/// Slots outside the pushed run keep their old bytes.
pub proof fn lemma_stack_push_pop_reversed(area: Seq<u8>, sp: int, vs: Seq<u8>)
    requires
        vs.len() <= sp <= area.len(),
    ensures
        ({
            let (area2, sp2) = spec_push_all(area, sp, vs);
            &&& sp2 == sp - vs.len()
            &&& area2.len() == area.len()
            &&& forall|j: int| 0 <= j < vs.len() ==> #[trigger] area2[sp2 + j] == vs[vs.len() - 1 - j]
            &&& forall|k: int|
                0 <= k < area.len() && !(sp - vs.len() <= k < sp) ==> area2[k] == area[k]
        }),
    decreases vs.len(),
{
    if vs.len() > 0 {
        let pushed = area.update(sp - 1, vs[0]);
        lemma_stack_push_pop_reversed(pushed, sp - 1, vs.drop_first());
        let (area2, sp2) = spec_push_all(area, sp, vs);
        assert forall|j: int| 0 <= j < vs.len() implies #[trigger] area2[sp2 + j] == vs[vs.len() - 1
            - j] by {
            if j < vs.len() - 1 {
                assert(vs.drop_first()[vs.len() - 2 - j] == vs[vs.len() - 1 - j]);
            } else {
                assert(area2[sp - 1] == pushed[sp - 1]);
            }
        }
    }
}

/// A 16-bit push followed by a 16-bit pop hands the value back: the two
/// bytes written little-endian at the moved pointer reassemble to the
/// pushed word.
pub proof fn lemma_stack_push_pop_u16(area: Seq<u8>, sp: int, v: u16)
    requires
        2 <= sp <= area.len(),
    ensures
        ({
            let area2 = area.update(sp - 2, (v % 256) as u8).update(sp - 1, (v / 256) as u8);
            area2[sp - 2] + area2[sp - 1] * 0x100 == v
        }),
{
}

} // verus!
