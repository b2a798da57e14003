//! A catalog of microcontroller devices read from the `<devices>` section of a
//! CMSIS-Pack description: the family / subFamily / device / variant hierarchy
//! is walked, attributes are merged with their precedence rules, and one
//! `Device` record is emitted per leaf.

pub mod text;
pub mod keyed;
pub mod xml;
pub mod kinds;
pub mod attr;
pub mod memory;
pub mod algorithm;
pub mod debug;
pub mod processor;
pub mod device;
pub mod laws;

pub use algorithm::Algorithm;
pub use debug::{AccessPort, DebugBuilder, DebugsBuilder};
pub use device::{parse_device, parse_devices, parse_family, parse_sub_family, Device, DeviceBuilder, Devices};
pub use kinds::{AlgorithmStyle, Core, PdscError, ValueKind, FPU, MPU};
pub use memory::{merge_memories, Memories, Memory, MemoryPermissions};
pub use processor::{Processor, ProcessorBuilder, ProcessorsBuilder};
pub use xml::Element;
