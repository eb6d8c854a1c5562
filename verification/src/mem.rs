//! Memory primitives for cross-process buffer transfer: nonzero word
//! quantities for addresses and sizes, and the range type combining both.
//! Zero is reserved on the wire to mean "absent", so a zero address or
//! size must never reach the transfer protocol; the nonzero invariant is
//! enforced at construction and carried by the type.

use vstd::prelude::*;
use crate::error::Error;

verus! {

/// A machine word known to be nonzero. Addresses and sizes of transferable
/// memory are carried as this type, which makes them distinguishable from
/// the zero word that the wire codec uses for "absent".
#[derive(Debug, Clone, Copy, PartialEq, Eq)]
pub struct NonZeroWord {
    word: usize,
}

/// A nonzero machine address.
pub type MemoryAddress = NonZeroWord;

/// A nonzero size in bytes.
pub type MemorySize = NonZeroWord;

impl NonZeroWord {
    #[verifier::type_invariant]
    spec fn type_inv(self) -> bool {
        self.word != 0
    }

    /// The word carried.
    pub closed spec fn value(self) -> usize {
        self.word
    }

    /// The (ghost) word with the given value. Only `new` can make an
    /// executable one, so every executable `NonZeroWord` is nonzero; a
    /// ghost one is well formed when `wf()` holds.
    pub closed spec fn spec_new(word: usize) -> NonZeroWord {
        NonZeroWord { word }
    }

    /// A ghost value is well formed when it is nonzero, as every
    /// executable value is.
    pub open spec fn wf(self) -> bool {
        self.value() != 0
    }

    pub proof fn lemma_spec_new_value(word: usize)
        ensures
            NonZeroWord::spec_new(word).value() == word,
    {
    }

    /// Two words with the same value are the same word.
    pub proof fn lemma_value_injective(a: NonZeroWord)
        ensures
            NonZeroWord::spec_new(a.value()) == a,
    {
    }

    /// Some word for every nonzero value, and nothing for zero.
    pub fn new(word: usize) -> (r: Option<NonZeroWord>)
        ensures
            r == if word == 0 { None::<NonZeroWord> } else {
                Some(NonZeroWord::spec_new(word))
            },
    {
        if word == 0 {
            None
        } else {
            Some(NonZeroWord { word })
        }
    }

    /// The value, always nonzero.
    pub fn get(&self) -> (r: usize)
        ensures
            r == self.value(),
            r != 0,
    {
        proof {
            use_type_invariant(self);
        }
        self.word
    }
}

/// A contiguous region of memory eligible for cross-process transfer:
/// a nonzero address and a nonzero size.
#[derive(Debug, Clone, Copy, PartialEq, Eq)]
pub struct MemoryRange {
    pub addr: MemoryAddress,
    pub size: MemorySize,
}

impl MemoryRange {
    /// A ghost range is well formed when both fields are.
    pub open spec fn wf(self) -> bool {
        self.addr.wf() && self.size.wf()
    }

    /// The range at `addr` of `size` bytes; a zero address or a zero size
    /// is rejected with `BadAddress`, the hard boundary that keeps zero
    /// out of the transfer protocol.
    pub fn new(addr: usize, size: usize) -> (r: Result<MemoryRange, Error>)
        ensures
            addr == 0 || size == 0 ==> r == Err::<MemoryRange, Error>(Error::BadAddress),
            addr != 0 && size != 0 ==> r == Ok::<MemoryRange, Error>(MemoryRange {
                addr: MemoryAddress::spec_new(addr),
                size: MemorySize::spec_new(size),
            }),
    {
        let addr = match MemoryAddress::new(addr) {
            None => return Err(Error::BadAddress),
            Some(a) => a,
        };
        let size = match MemorySize::new(size) {
            None => return Err(Error::BadAddress),
            Some(s) => s,
        };
        Ok(MemoryRange { addr, size })
    }

    /// The range assembled from already-validated parts.
    pub fn from_parts(addr: MemoryAddress, size: MemorySize) -> (r: MemoryRange)
        ensures
            r == (MemoryRange { addr, size }),
    {
        MemoryRange { addr, size }
    }

    /// The size of the region in bytes.
    pub fn len(&self) -> (r: usize)
        ensures
            r == self.size.value(),
            r != 0,
    {
        self.size.get()
    }

    /// Whether the region covers at least one byte; always holds, since
    /// the size is nonzero by construction.
    pub fn is_empty(&self) -> (r: bool)
        ensures
            r == (self.size.value() > 0),
    {
        self.size.get() > 0
    }

    /// The numeric address of the first byte, for the transport edge that
    /// turns it into a pointer.
    pub fn as_ptr(&self) -> (r: usize)
        ensures
            r == self.addr.value(),
            r != 0,
    {
        self.addr.get()
    }

    /// The numeric address of the first byte of the writable view.
    pub fn as_mut_ptr(&self) -> (r: usize)
        ensures
            r == self.addr.value(),
            r != 0,
    {
        self.addr.get()
    }
}

/// Which memory region a mapping operation affects.
#[derive(Debug, Clone, Copy, PartialEq, Eq)]
pub enum MemoryType {
    /// Where addresses go when no virtual address is specified.
    Default,
    /// Where addresses begin when the heap is grown.
    Heap,
    /// Where messages land when passed to a process.
    Messages,
    /// Defines the end of the region, unlike the other types.
    Stack,
}

impl MemoryType {
    /// The region selector each transport integer decodes to;
    /// unrecognized selectors fall back to `Default`.
    pub open spec fn from_selector(arg: usize) -> MemoryType {
        if arg == 2 { MemoryType::Heap }
        else if arg == 3 { MemoryType::Messages }
        else if arg == 4 { MemoryType::Stack }
        else { MemoryType::Default }
    }
}

impl From<usize> for MemoryType {
    fn from(arg: usize) -> (r: MemoryType)
        ensures
            r == MemoryType::from_selector(arg),
    {
        match arg {
            2 => MemoryType::Heap,
            3 => MemoryType::Messages,
            4 => MemoryType::Stack,
            _ => MemoryType::Default,
        }
    }
}

impl vstd::std_specs::convert::FromSpecImpl<usize> for MemoryType {
    open spec fn obeys_from_spec() -> bool {
        true
    }

    open spec fn from_spec(arg: usize) -> MemoryType {
        MemoryType::from_selector(arg)
    }
}

} // verus!
