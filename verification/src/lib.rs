//! A fixed-capacity byte buffer with independent read and write cursors.
//!
//! The buffer owns (or exclusively borrows) a byte store of fixed length. Bytes
//! are appended at the write cursor and consumed at the read cursor; space in
//! front of the read cursor is reclaimed by compaction. Scoped reader and writer
//! handles expose the unread and the free region in place and apply their effect
//! on the cursors when they are released.
//!
//! Every executable function carries a contract over the mathematical model in
//! [`model`], and the laws that relate the operations are proved in [`laws`].

pub mod buffer;
pub mod error;
pub mod io;
pub mod laws;
pub mod model;
pub mod read;
pub mod slices;
pub mod storage;
pub mod write;

pub use buffer::{new_stack_buffer, Buffer, ReadWrite};
pub use error::BufferError;
pub use io::IoStatus;
pub use read::{BufferReader, Reader};
pub use model::{BufferView, ReaderView, Step, WriterView};
pub use storage::Storage;
pub use write::{BufferWriter, Write};
