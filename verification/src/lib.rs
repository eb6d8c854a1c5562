//! Message-passing primitives of a microkernel IPC layer: identifiers,
//! memory-transfer descriptors, the tagged message model, and the wire
//! codec that carries messages and kernel results across the syscall
//! boundary as fixed-width word frames.

pub mod bounce;
pub mod error;
pub mod geometry;
pub mod ids;
pub mod mem;
pub mod message;
pub mod opcode;
pub mod sysresult;

pub use error::Error;
pub use ids::{CID, Context, MessageSender, PID, ProcessId, SID, TID, pid_from_usize};
pub use mem::{MemoryAddress, MemoryRange, MemorySize, MemoryType, NonZeroWord};
pub use message::{DisposalAction, MemoryMessage, Message, MessageEnvelope, ScalarMessage};
pub use sysresult::SysResult;
