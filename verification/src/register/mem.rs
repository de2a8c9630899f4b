//! Allocation on the traced process's stack.

use vstd::prelude::*;
use crate::errors::{Error, Result};
use crate::register::{Registers, RegistersView, Word};
use crate::platform::red_zone;

verus! {

/// The size actually carved out for a request of `size` bytes: the first
/// allocation of a trap also skips the platform's red zone.
pub open spec fn corrected_size(regs: RegistersView, size: int) -> int {
    if regs.untouched() {
        size + red_zone(regs.platform)
    } else {
        size
    }
}

/// Whether moving the stack pointer by the corrected size would reach
/// address zero (going down) or the top of the address space (going up).
pub open spec fn leaves_address_space(regs: RegistersView, size: int) -> bool {
    let corrected = corrected_size(regs, size);
    ||| corrected > 0 && regs.stack_pointer <= corrected
    ||| corrected < 0 && regs.stack_pointer >= usize::MAX - (-corrected)
}

/// The register set after a request of `size` bytes was granted. The stack
/// grows downward: a positive size lowers the pointer.
pub open spec fn after_alloc(regs: RegistersView, size: int) -> RegistersView {
    RegistersView {
        stack_pointer: (regs.stack_pointer - corrected_size(regs, size)) as Word,
        ..regs
    }
}

/// The diagnostic of a refused request.
pub open spec fn overflow_message() -> Seq<char> {
    "when allocating memory, under/overflow detected"@
}

pub trait PtraceMemoryAllocator: View<V = RegistersView> + Sized {
    /// Reserves `size` bytes in the traced process's memory and returns the
    /// address of the reserved region. `size` may be negative.
    ///
    /// A request that would leave the address space is refused with a
    /// bad-address error, and `self` stays exactly as it was.
    fn alloc_mem(&mut self, size: isize) -> (result: Result<Word>)
        ensures
            match result {
                Ok(address) => {
                    &&& !leaves_address_space(old(self)@, size as int)
                    &&& address == old(self)@.stack_pointer - corrected_size(
                        old(self)@,
                        size as int,
                    )
                    &&& final(self)@ == after_alloc(old(self)@, size as int)
                },
                Err(error) => {
                    &&& leaves_address_space(old(self)@, size as int)
                    &&& error.is_bad_address(overflow_message())
                    &&& *final(self) == *old(self)
                },
            },
    ;
}

impl PtraceMemoryAllocator for Registers {
    /// Moves the working stack pointer. Only the register set changes: the
    /// traced process sees nothing until the caller writes the registers
    /// back.
    fn alloc_mem(&mut self, size: isize) -> (result: Result<Word>) {
        let stack_pointer: i128 = self.stack_pointer as i128;
        let corrected: i128 = if self.stack_pointer == self.original_stack_pointer() {
            size as i128 + self.platform().red_zone_size() as i128
        } else {
            size as i128
        };

        if (corrected > 0 && stack_pointer <= corrected) || (corrected < 0 && stack_pointer
            >= usize::MAX as i128 - (-corrected)) {
            return Err(Error::bad_address("when allocating memory, under/overflow detected"));
        }
        self.stack_pointer = (stack_pointer - corrected) as Word;
        Ok(self.stack_pointer)
    }
}

/// The register set after each request of `sizes` was made in turn, a refused
/// one leaving it as it was.
pub open spec fn after_requests(regs: RegistersView, sizes: Seq<isize>) -> RegistersView
    decreases sizes.len(),
{
    if sizes.len() == 0 {
        regs
    } else {
        let before = after_requests(regs, sizes.drop_last());
        if leaves_address_space(before, sizes.last() as int) {
            before
        } else {
            after_alloc(before, sizes.last() as int)
        }
    }
}

/// The sum of the requested sizes.
pub open spec fn total_size(sizes: Seq<isize>) -> int
    decreases sizes.len(),
{
    if sizes.len() == 0 {
        0
    } else {
        total_size(sizes.drop_last()) + sizes.last()
    }
}

/// A granted request moves the stack pointer by exactly the corrected size,
/// and the new pointer is an address: nothing wraps around.
pub proof fn lemma_granted_address(regs: RegistersView, size: isize)
    requires
        !leaves_address_space(regs, size as int),
    ensures
        after_alloc(regs, size as int).stack_pointer == regs.stack_pointer - corrected_size(
            regs,
            size as int,
        ),
        corrected_size(regs, size as int) > 0 ==> 0 < after_alloc(regs, size as int).stack_pointer
            < regs.stack_pointer,
        corrected_size(regs, size as int) < 0 ==> regs.stack_pointer < after_alloc(
            regs,
            size as int,
        ).stack_pointer < usize::MAX,
{
}

/// An allocation changes the working stack pointer and nothing else: the
/// snapshot, the process and the platform stay as they were.
pub proof fn lemma_alloc_keeps_snapshot(regs: RegistersView, size: isize)
    ensures
        after_alloc(regs, size as int).original_stack_pointer == regs.original_stack_pointer,
        after_alloc(regs, size as int).pid == regs.pid,
        after_alloc(regs, size as int).platform == regs.platform,
{
}

/// The red zone is added to a request exactly when the working stack pointer
/// still equals the snapshot.
pub proof fn lemma_red_zone_iff_untouched(regs: RegistersView, size: isize)
    ensures
        regs.untouched() ==> corrected_size(regs, size as int) == size + red_zone(regs.platform),
        !regs.untouched() ==> corrected_size(regs, size as int) == size,
        red_zone(regs.platform) != 0 ==> (corrected_size(regs, size as int) != size
            <==> regs.untouched()),
{
}

/// A request of no bytes is always granted and leaves the stack pointer where
/// it is, provided no red zone is due: either the platform has none, or an
/// earlier allocation has already moved the pointer.
pub proof fn lemma_zero_request(regs: RegistersView)
    requires
        !regs.untouched() || red_zone(regs.platform) == 0,
    ensures
        !leaves_address_space(regs, 0),
        after_alloc(regs, 0) == regs,
{
}

/// Of two allocations granted one after the other, starting from the
/// snapshot, only the first skips the red zone, provided the first moved the
/// pointer or the platform has no red zone.
pub proof fn lemma_red_zone_only_on_first(
    regs: RegistersView,
    first: isize,
    second: isize,
)
    requires
        regs.untouched(),
        corrected_size(regs, first as int) != 0 || red_zone(regs.platform) == 0,
        !leaves_address_space(regs, first as int),
        !leaves_address_space(after_alloc(regs, first as int), second as int),
    ensures
        corrected_size(regs, first as int) == first + red_zone(regs.platform),
        corrected_size(after_alloc(regs, first as int), second as int) == second,
        after_alloc(after_alloc(regs, first as int), second as int).stack_pointer
            == regs.stack_pointer - red_zone(regs.platform) - first - second,
{
}

/// However many allocations follow the first of a trap, the red zone is
/// skipped once: when every request is granted and, on a platform with a red
/// zone, the pointer never comes back to the snapshot in between, the pointer
/// ends below its start by the red zone plus the sum of the requests.
pub proof fn lemma_red_zone_once(regs: RegistersView, sizes: Seq<isize>)
    requires
        regs.untouched(),
        sizes.len() >= 1,
        forall|k: int|
            0 <= k < sizes.len() ==> !leaves_address_space(
                #[trigger] after_requests(regs, sizes.take(k)),
                sizes[k] as int,
            ),
        red_zone(regs.platform) != 0 ==> forall|k: int|
            1 <= k < sizes.len() ==> !(#[trigger] after_requests(regs, sizes.take(k))).untouched(),
    ensures
        after_requests(regs, sizes).stack_pointer == regs.stack_pointer - red_zone(regs.platform)
            - total_size(sizes),
        after_requests(regs, sizes).original_stack_pointer == regs.original_stack_pointer,
        after_requests(regs, sizes).platform == regs.platform,
        after_requests(regs, sizes).pid == regs.pid,
    decreases sizes.len(),
{
    let n = sizes.len() as int;
    let init = sizes.drop_last();
    assert(sizes.take(n - 1) =~= init);
    if n == 1 {
        assert(after_requests(regs, init) == regs);
        assert(total_size(init) == 0);
    } else {
        assert forall|k: int| 0 <= k < init.len() implies !leaves_address_space(
            #[trigger] after_requests(regs, init.take(k)),
            init[k] as int,
        ) by {
            assert(init.take(k) =~= sizes.take(k));
        }
        if red_zone(regs.platform) != 0 {
            assert forall|k: int| 1 <= k < init.len() implies !(#[trigger] after_requests(
                regs,
                init.take(k),
            )).untouched() by {
                assert(init.take(k) =~= sizes.take(k));
            }
            assert(!after_requests(regs, sizes.take(n - 1)).untouched());
        }
        lemma_red_zone_once(regs, init);
    }
}

} // verus!
