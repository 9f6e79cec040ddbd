//! The memory arena: an owned, zero-initialised byte store covering the whole
//! address space, reached only through bounds-checked accessors. It is held
//! as fixed-size pages, each allocated the first time it is written, so that
//! an untouched arena costs almost nothing.

use vstd::prelude::*;

use crate::error::ExecutionError;

verus! {

/// Number of addressable bytes: the full 32-bit address space (4 GiB).
pub const MEMORY_SIZE: u64 = 4294967296;

/// Bytes per page of the arena.
const PAGE_SIZE: usize = 65536;
/// Pages in the arena: `PAGE_COUNT * PAGE_SIZE == MEMORY_SIZE`.
const PAGE_COUNT: usize = 65536;

/// Relies on `<[u8] as PartialEq>::eq`: two slices are equal exactly when
/// they hold the same bytes in the same order.
#[verifier::external_body]
fn same_bytes(a: &[u8], b: &[u8]) -> (r: bool)
    ensures
        r == (a@ == b@),
{
    a == b
}

/// The byte at `offset` of a page; a page never written holds zeros.
spec fn page_byte(page: Vec<u8>, offset: int) -> u8 {
    if page@.len() == 0 {
        0
    } else {
        page@[offset]
    }
}

/// A byte store of exactly `MEMORY_SIZE` bytes, owned by one machine.
pub struct Memory {
    pages: Vec<Vec<u8>>,
}

impl View for Memory {
    type V = Seq<u8>;

    /// The arena's contents, byte by byte.
    closed spec fn view(&self) -> Seq<u8> {
        Seq::new(
            MEMORY_SIZE as nat,
            |a: int| page_byte(self.pages@[a / PAGE_SIZE as int], a % PAGE_SIZE as int),
        )
    }
}

impl Memory {
    /// There are `PAGE_COUNT` pages, each empty or `PAGE_SIZE` bytes long.
    pub closed spec fn well_paged(&self) -> bool {
        &&& self.pages@.len() == PAGE_COUNT
        &&& forall|p: int|
            0 <= p < PAGE_COUNT ==> (#[trigger] self.pages@[p])@.len() == 0
                || self.pages@[p]@.len() == PAGE_SIZE
    }

    /// The arena is well formed and spans the whole address space.
    pub open spec fn wf(&self) -> bool {
        self.well_paged() && self@.len() == MEMORY_SIZE
    }

    /// Creates the arena with every byte zero.
    pub fn new() -> (m: Memory)
        ensures
            m.wf(),
            forall|a: int| 0 <= a < MEMORY_SIZE ==> #[trigger] m@[a] == 0,
    {
        let mut pages: Vec<Vec<u8>> = Vec::new();
        while pages.len() < PAGE_COUNT
            invariant
                pages@.len() <= PAGE_COUNT,
                forall|p: int| 0 <= p < pages@.len() ==> (#[trigger] pages@[p])@.len() == 0,
            decreases PAGE_COUNT - pages@.len(),
        {
            pages.push(Vec::new());
        }
        Memory { pages }
    }

    /// Reads the byte at `address`; an address past the arena is a `MemoryFault`.
    pub fn read_byte(&self, address: u64) -> (r: Result<u8, ExecutionError>)
        requires
            self.wf(),
        ensures
            address < MEMORY_SIZE ==> r == Ok::<u8, ExecutionError>(self@[address as int]),
            address >= MEMORY_SIZE ==> r == Err::<u8, ExecutionError>(ExecutionError::MemoryFault),
    {
        if address < MEMORY_SIZE {
            let page = (address / PAGE_SIZE as u64) as usize;
            let offset = (address % PAGE_SIZE as u64) as usize;
            assert(page < PAGE_COUNT) by (nonlinear_arith)
                requires
                    page == address / 65536,
                    address < 0x1_0000_0000,
            ;
            if self.pages[page].len() == 0 {
                Ok(0)
            } else {
                Ok(self.pages[page][offset])
            }
        } else {
            Err(ExecutionError::MemoryFault)
        }
    }

    /// Writes `value` at `address`; an address past the arena is a
    /// `MemoryFault` and leaves the arena as it was.
    pub fn write_byte(&mut self, address: u64, value: u8) -> (r: Result<(), ExecutionError>)
        requires
            old(self).wf(),
        ensures
            final(self).wf(),
            address < MEMORY_SIZE ==> r is Ok && final(self)@ == old(self)@.update(address as int, value),
            address >= MEMORY_SIZE ==> r == Err::<(), ExecutionError>(ExecutionError::MemoryFault)
                && final(self)@ == old(self)@,
    {
        if address < MEMORY_SIZE {
            let page = (address / PAGE_SIZE as u64) as usize;
            let offset = (address % PAGE_SIZE as u64) as usize;
            assert(page < PAGE_COUNT) by (nonlinear_arith)
                requires
                    page == address / 65536,
                    address < 0x1_0000_0000,
            ;
            if self.pages[page].len() == 0 {
                let fresh: Vec<u8> = vec![0u8; PAGE_SIZE];
                self.pages.set(page, fresh);
                assert(self@ =~= old(self)@);
            }
            let ghost before = self@;
            let page_bytes = &mut self.pages[page];
            page_bytes.set(offset, value);
            assert(self@ =~= before.update(address as int, value)) by {
                assert forall|a: int| 0 <= a < MEMORY_SIZE && a != address implies
                    #[trigger] self@[a] == before[a] by {
                    if a / PAGE_SIZE as int == page as int {
                        assert(a % PAGE_SIZE as int != offset as int);
                    }
                }
            }
            Ok(())
        } else {
            Err(ExecutionError::MemoryFault)
        }
    }

    /// Whether every byte of the arena is zero. Pages never written are zero
    /// by construction; each written page is compared with a zero page.
    pub fn is_zeroed(&self) -> (r: bool)
        requires
            self.wf(),
        ensures
            r == forall|a: int| 0 <= a < MEMORY_SIZE ==> #[trigger] self@[a] == 0,
    {
        let zeros: Vec<u8> = vec![0u8; PAGE_SIZE];
        let mut p: usize = 0;
        while p < PAGE_COUNT
            invariant
                self.wf(),
                p <= PAGE_COUNT,
                zeros@.len() == PAGE_SIZE,
                forall|k: int| 0 <= k < PAGE_SIZE ==> #[trigger] zeros@[k] == 0,
                forall|a: int| 0 <= a < p * PAGE_SIZE ==> #[trigger] self@[a] == 0,
            decreases PAGE_COUNT - p,
        {
            let page = &self.pages[p];
            if page.len() != 0 {
                if !same_bytes(page.as_slice(), zeros.as_slice()) {
                    assert(exists|k: int| 0 <= k < PAGE_SIZE && page@[k] != zeros@[k]) by {
                        if forall|k: int| 0 <= k < PAGE_SIZE ==> page@[k] == zeros@[k] {
                            assert(page@ =~= zeros@);
                        }
                    }
                    let ghost k = choose|k: int| 0 <= k < PAGE_SIZE && page@[k] != zeros@[k];
                    let ghost a = p * PAGE_SIZE + k;
                    assert(a / PAGE_SIZE as int == p && a % PAGE_SIZE as int == k);
                    assert(self@[a] != 0);
                    return false;
                }
            }
            assert forall|a: int| 0 <= a < (p + 1) * PAGE_SIZE implies #[trigger] self@[a] == 0 by {
                if a >= p * PAGE_SIZE {
                    assert(a / PAGE_SIZE as int == p);
                    if page@.len() != 0 {
                        assert(page@[a % PAGE_SIZE as int] == zeros@[a % PAGE_SIZE as int]);
                    }
                }
            }
            p = p + 1;
        }
        true
    }
}

} // verus!
