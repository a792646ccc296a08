//! Table-driven cyclic redundancy checks (CRC) over byte streams, for 16-,
//! 32- and 64-bit variants defined by a generator polynomial, an initial
//! register value, a bit-reflection convention and a final XOR mask.

pub mod bits;
pub mod crc16;
pub mod crc32;
pub mod crc64;
pub mod engine;
pub mod model;
