//! The enumerations read from attribute values, and the error type of the crate.
use vstd::prelude::*;

use crate::text::str_eq;

verus! {

/// An ARM processor core, named by its canonical ARM name; `Any` is the wildcard `*`.
#[derive(Debug, Clone, Copy, PartialEq, Eq, Structural)]
pub enum Core {
    Any,
    CortexM0,
    CortexM0Plus,
    CortexM1,
    CortexM3,
    CortexM4,
    CortexM7,
    CortexM23,
    CortexM33,
    CortexM35P,
    CortexM55,
    CortexM85,
    StarMC1,
    SC000,
    SC300,
    ARMV8MBL,
    ARMV8MML,
    ARMV81MML,
    CortexR4,
    CortexR5,
    CortexR7,
    CortexR8,
    CortexA5,
    CortexA7,
    CortexA8,
    CortexA9,
    CortexA15,
    CortexA17,
    CortexA32,
    CortexA35,
    CortexA53,
    CortexA57,
    CortexA72,
    CortexA73,
}

/// The floating-point unit of a processor; `NotPresent` is written `None` in attributes.
#[derive(Debug, Clone, Copy, PartialEq, Eq, Structural)]
pub enum FPU {
    NotPresent,
    SinglePrecision,
    DoublePrecision,
}

/// Whether a processor has a memory protection unit.
#[derive(Debug, Clone, Copy, PartialEq, Eq, Structural)]
pub enum MPU {
    NotPresent,
    Present,
}

/// The calling convention of a flash algorithm.
#[derive(Debug, Clone, Copy, PartialEq, Eq, Structural)]
pub enum AlgorithmStyle {
    Keil,
    IAR,
    CMSIS,
}

/// What an attribute value was meant to name.
#[derive(Debug, Clone, Copy, PartialEq, Eq, Structural)]
pub enum ValueKind {
    Core,
    Fpu,
    Mpu,
    AlgorithmStyle,
    Boolean,
}

/// Why an element or a device could not be read.
#[derive(Debug, Clone, PartialEq, Eq)]
pub enum PdscError {
    /// A required attribute is absent.
    MissingAttribute,
    /// A numeric attribute is not a number of the expected width.
    InvalidNumber,
    /// An enumerated attribute holds a value outside its vocabulary.
    UnknownValue { kind: ValueKind, value: String },
    /// A `<debug>` element names an access port that its parent does not declare.
    AccessPortNotFound(u32),
    /// A `<memory>` element has neither `id` nor `name`.
    MemoryWithoutName,
    /// A device ends up without a name.
    DeviceWithoutName,
    /// A device ends up without a family.
    DeviceWithoutFamily,
    /// A device ends up without any processor.
    DeviceWithoutProcessor(String),
    /// A processor ends up without a core.
    NoCore,
}

/// `e` reports the value `s` as unknown for a `kind`.
pub open spec fn is_unknown(e: PdscError, kind: ValueKind, s: Seq<char>) -> bool {
    match e {
        PdscError::UnknownValue { kind: k, value } => k == kind && value@ == s,
        _ => false,
    }
}

/// The core that `s` names.
pub open spec fn core_of(s: Seq<char>) -> Option<Core> {
    if s == "Cortex-M0"@ {
        Some(Core::CortexM0)
    } else if s == "Cortex-M0+"@ {
        Some(Core::CortexM0Plus)
    } else if s == "Cortex-M1"@ {
        Some(Core::CortexM1)
    } else if s == "Cortex-M3"@ {
        Some(Core::CortexM3)
    } else if s == "Cortex-M4"@ {
        Some(Core::CortexM4)
    } else if s == "Cortex-M7"@ {
        Some(Core::CortexM7)
    } else if s == "Cortex-M23"@ {
        Some(Core::CortexM23)
    } else if s == "Cortex-M33"@ {
        Some(Core::CortexM33)
    } else if s == "Cortex-M35P"@ {
        Some(Core::CortexM35P)
    } else if s == "Cortex-M55"@ {
        Some(Core::CortexM55)
    } else if s == "Cortex-M85"@ {
        Some(Core::CortexM85)
    } else if s == "Star-MC1"@ {
        Some(Core::StarMC1)
    } else if s == "SC000"@ {
        Some(Core::SC000)
    } else if s == "SC300"@ {
        Some(Core::SC300)
    } else if s == "ARMV8MBL"@ {
        Some(Core::ARMV8MBL)
    } else if s == "ARMV8MML"@ {
        Some(Core::ARMV8MML)
    } else if s == "ARMV81MML"@ {
        Some(Core::ARMV81MML)
    } else if s == "Cortex-R4"@ {
        Some(Core::CortexR4)
    } else if s == "Cortex-R5"@ {
        Some(Core::CortexR5)
    } else if s == "Cortex-R7"@ {
        Some(Core::CortexR7)
    } else if s == "Cortex-R8"@ {
        Some(Core::CortexR8)
    } else if s == "Cortex-A5"@ {
        Some(Core::CortexA5)
    } else if s == "Cortex-A7"@ {
        Some(Core::CortexA7)
    } else if s == "Cortex-A8"@ {
        Some(Core::CortexA8)
    } else if s == "Cortex-A9"@ {
        Some(Core::CortexA9)
    } else if s == "Cortex-A15"@ {
        Some(Core::CortexA15)
    } else if s == "Cortex-A17"@ {
        Some(Core::CortexA17)
    } else if s == "Cortex-A32"@ {
        Some(Core::CortexA32)
    } else if s == "Cortex-A35"@ {
        Some(Core::CortexA35)
    } else if s == "Cortex-A53"@ {
        Some(Core::CortexA53)
    } else if s == "Cortex-A57"@ {
        Some(Core::CortexA57)
    } else if s == "Cortex-A72"@ {
        Some(Core::CortexA72)
    } else if s == "Cortex-A73"@ {
        Some(Core::CortexA73)
    } else if s == "*"@ {
        Some(Core::Any)
    } else {
        None
    }
}

/// The floating-point unit that `s` names, symbolically or by number.
pub open spec fn fpu_of(s: Seq<char>) -> Option<FPU> {
    if s == "FPU"@ {
        Some(FPU::SinglePrecision)
    } else if s == "SP_FPU"@ {
        Some(FPU::SinglePrecision)
    } else if s == "1"@ {
        Some(FPU::SinglePrecision)
    } else if s == "None"@ {
        Some(FPU::NotPresent)
    } else if s == "0"@ {
        Some(FPU::NotPresent)
    } else if s == "DP_FPU"@ {
        Some(FPU::DoublePrecision)
    } else if s == "2"@ {
        Some(FPU::DoublePrecision)
    } else {
        None
    }
}

/// The MPU presence that `s` names, symbolically or by number.
pub open spec fn mpu_of(s: Seq<char>) -> Option<MPU> {
    if s == "MPU"@ {
        Some(MPU::Present)
    } else if s == "1"@ {
        Some(MPU::Present)
    } else if s == "None"@ {
        Some(MPU::NotPresent)
    } else if s == "0"@ {
        Some(MPU::NotPresent)
    } else {
        None
    }
}

/// The algorithm style that `s` names.
pub open spec fn style_of(s: Seq<char>) -> Option<AlgorithmStyle> {
    if s == "Keil"@ {
        Some(AlgorithmStyle::Keil)
    } else if s == "IAR"@ {
        Some(AlgorithmStyle::IAR)
    } else if s == "CMSIS"@ {
        Some(AlgorithmStyle::CMSIS)
    } else {
        None
    }
}

/// The boolean that `s` names: `true`/`1` or `false`/`0`.
pub open spec fn bool_of(s: Seq<char>) -> Option<bool> {
    if s == "true"@ || s == "1"@ {
        Some(true)
    } else if s == "false"@ || s == "0"@ {
        Some(false)
    } else {
        None
    }
}

impl Core {
    /// Reads a core from its canonical ARM name, or `*` for any core.
    pub fn from_str(s: &str) -> (r: Result<Core, PdscError>)
        ensures
            r is Ok <==> core_of(s@) is Some,
            r matches Ok(v) ==> core_of(s@) == Some(v),
            r matches Err(e) ==> is_unknown(e, ValueKind::Core, s@),
    {
        if str_eq(s, "Cortex-M0") {
            Ok(Core::CortexM0)
        } else if str_eq(s, "Cortex-M0+") {
            Ok(Core::CortexM0Plus)
        } else if str_eq(s, "Cortex-M1") {
            Ok(Core::CortexM1)
        } else if str_eq(s, "Cortex-M3") {
            Ok(Core::CortexM3)
        } else if str_eq(s, "Cortex-M4") {
            Ok(Core::CortexM4)
        } else if str_eq(s, "Cortex-M7") {
            Ok(Core::CortexM7)
        } else if str_eq(s, "Cortex-M23") {
            Ok(Core::CortexM23)
        } else if str_eq(s, "Cortex-M33") {
            Ok(Core::CortexM33)
        } else if str_eq(s, "Cortex-M35P") {
            Ok(Core::CortexM35P)
        } else if str_eq(s, "Cortex-M55") {
            Ok(Core::CortexM55)
        } else if str_eq(s, "Cortex-M85") {
            Ok(Core::CortexM85)
        } else if str_eq(s, "Star-MC1") {
            Ok(Core::StarMC1)
        } else if str_eq(s, "SC000") {
            Ok(Core::SC000)
        } else if str_eq(s, "SC300") {
            Ok(Core::SC300)
        } else if str_eq(s, "ARMV8MBL") {
            Ok(Core::ARMV8MBL)
        } else if str_eq(s, "ARMV8MML") {
            Ok(Core::ARMV8MML)
        } else if str_eq(s, "ARMV81MML") {
            Ok(Core::ARMV81MML)
        } else if str_eq(s, "Cortex-R4") {
            Ok(Core::CortexR4)
        } else if str_eq(s, "Cortex-R5") {
            Ok(Core::CortexR5)
        } else if str_eq(s, "Cortex-R7") {
            Ok(Core::CortexR7)
        } else if str_eq(s, "Cortex-R8") {
            Ok(Core::CortexR8)
        } else if str_eq(s, "Cortex-A5") {
            Ok(Core::CortexA5)
        } else if str_eq(s, "Cortex-A7") {
            Ok(Core::CortexA7)
        } else if str_eq(s, "Cortex-A8") {
            Ok(Core::CortexA8)
        } else if str_eq(s, "Cortex-A9") {
            Ok(Core::CortexA9)
        } else if str_eq(s, "Cortex-A15") {
            Ok(Core::CortexA15)
        } else if str_eq(s, "Cortex-A17") {
            Ok(Core::CortexA17)
        } else if str_eq(s, "Cortex-A32") {
            Ok(Core::CortexA32)
        } else if str_eq(s, "Cortex-A35") {
            Ok(Core::CortexA35)
        } else if str_eq(s, "Cortex-A53") {
            Ok(Core::CortexA53)
        } else if str_eq(s, "Cortex-A57") {
            Ok(Core::CortexA57)
        } else if str_eq(s, "Cortex-A72") {
            Ok(Core::CortexA72)
        } else if str_eq(s, "Cortex-A73") {
            Ok(Core::CortexA73)
        } else if str_eq(s, "*") {
            Ok(Core::Any)
        } else {
            Err(PdscError::UnknownValue { kind: ValueKind::Core, value: s.to_owned() })
        }
    }
}

impl FPU {
    /// Reads `FPU`, `SP_FPU`, `DP_FPU`, `None` or the numbers `0`, `1`, `2`.
    pub fn from_str(s: &str) -> (r: Result<FPU, PdscError>)
        ensures
            r is Ok <==> fpu_of(s@) is Some,
            r matches Ok(v) ==> fpu_of(s@) == Some(v),
            r matches Err(e) ==> is_unknown(e, ValueKind::Fpu, s@),
    {
        if str_eq(s, "FPU") {
            Ok(FPU::SinglePrecision)
        } else if str_eq(s, "SP_FPU") {
            Ok(FPU::SinglePrecision)
        } else if str_eq(s, "1") {
            Ok(FPU::SinglePrecision)
        } else if str_eq(s, "None") {
            Ok(FPU::NotPresent)
        } else if str_eq(s, "0") {
            Ok(FPU::NotPresent)
        } else if str_eq(s, "DP_FPU") {
            Ok(FPU::DoublePrecision)
        } else if str_eq(s, "2") {
            Ok(FPU::DoublePrecision)
        } else {
            Err(PdscError::UnknownValue { kind: ValueKind::Fpu, value: s.to_owned() })
        }
    }
}

impl MPU {
    /// Reads `MPU`, `None` or the numbers `1`, `0`.
    pub fn from_str(s: &str) -> (r: Result<MPU, PdscError>)
        ensures
            r is Ok <==> mpu_of(s@) is Some,
            r matches Ok(v) ==> mpu_of(s@) == Some(v),
            r matches Err(e) ==> is_unknown(e, ValueKind::Mpu, s@),
    {
        if str_eq(s, "MPU") {
            Ok(MPU::Present)
        } else if str_eq(s, "1") {
            Ok(MPU::Present)
        } else if str_eq(s, "None") {
            Ok(MPU::NotPresent)
        } else if str_eq(s, "0") {
            Ok(MPU::NotPresent)
        } else {
            Err(PdscError::UnknownValue { kind: ValueKind::Mpu, value: s.to_owned() })
        }
    }
}

impl AlgorithmStyle {
    /// Reads `Keil`, `IAR` or `CMSIS`.
    pub fn from_str(s: &str) -> (r: Result<AlgorithmStyle, PdscError>)
        ensures
            r is Ok <==> style_of(s@) is Some,
            r matches Ok(v) ==> style_of(s@) == Some(v),
            r matches Err(e) ==> is_unknown(e, ValueKind::AlgorithmStyle, s@),
    {
        if str_eq(s, "Keil") {
            Ok(AlgorithmStyle::Keil)
        } else if str_eq(s, "IAR") {
            Ok(AlgorithmStyle::IAR)
        } else if str_eq(s, "CMSIS") {
            Ok(AlgorithmStyle::CMSIS)
        } else {
            Err(PdscError::UnknownValue { kind: ValueKind::AlgorithmStyle, value: s.to_owned() })
        }
    }
}

/// Reads a boolean written `true`, `false`, `1` or `0`.
pub fn parse_number_bool(s: &str) -> (r: Result<bool, PdscError>)
    ensures
        r is Ok <==> bool_of(s@) is Some,
        r matches Ok(v) ==> bool_of(s@) == Some(v),
        r matches Err(e) ==> is_unknown(e, ValueKind::Boolean, s@),
{
    if str_eq(s, "true") {
        Ok(true)
    } else if str_eq(s, "1") {
        Ok(true)
    } else if str_eq(s, "false") {
        Ok(false)
    } else if str_eq(s, "0") {
        Ok(false)
    } else {
        Err(PdscError::UnknownValue { kind: ValueKind::Boolean, value: s.to_owned() })
    }
}

} // verus!
