//! Engine of a scrollable viewer over an addressable byte stream: viewport
//! windowing around a pointer address, little-endian multi-format decoding,
//! byte annotation, and grid construction, all exact and overflow-safe.

pub mod annotate;
pub mod decode;
pub mod grid;
pub mod instruction;
pub mod navigate;
pub mod state;
pub mod viewport;

pub use annotate::Annotation;
pub use annotate::annotate;
pub use decode::Decoded;
pub use decode::as_i8;
pub use decode::as_i16;
pub use decode::as_i32;
pub use decode::decode_at;
pub use decode::decode_u8;
pub use decode::decode_u16;
pub use decode::decode_u32;
pub use grid::GridRow;
pub use grid::HexCell;
pub use grid::address_label;
pub use grid::ascii_glyph;
pub use grid::build_grid;
pub use grid::hex8;
pub use grid::hex_pair;
pub use instruction::InstructionProvider;
pub use instruction::InstructionRow;
pub use instruction::InstructionViewState;
pub use instruction::build_instruction_rows;
pub use instruction::instruction_beginning;
pub use instruction::instruction_row_address;
pub use instruction::prepare_instruction_frame;
pub use navigate::step_forward_byte;
pub use navigate::step_backward_byte;
pub use state::MemoryProvider;
pub use state::MemoryViewState;
pub use state::prepare_frame;
pub use viewport::Viewport;
pub use viewport::compute_viewport;
