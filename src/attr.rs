//! Typed reads of one attribute of an element.
use vstd::prelude::*;

use crate::kinds::{
    bool_of, core_of, fpu_of, mpu_of, style_of, AlgorithmStyle, Core, PdscError, FPU, MPU,
    parse_number_bool,
};
use crate::text::{bounded_value, hex_or_decimal_value, parse_decimal, parse_hex_or_decimal};
use crate::xml::Element;

verus! {

/// The decimal number, at most `max`, held by attribute `name` of `e`.
pub open spec fn number_attr(e: Element, name: Seq<char>, max: nat) -> Option<nat> {
    match e.attr(name) {
        Some(v) => bounded_value(v@, 10, max),
        None => None,
    }
}

/// The hexadecimal (`0x` prefix) or decimal number, at most `max`, held by
/// attribute `name` of `e`.
pub open spec fn hex_attr(e: Element, name: Seq<char>, max: nat) -> Option<nat> {
    match e.attr(name) {
        Some(v) => hex_or_decimal_value(v@, max),
        None => None,
    }
}

/// The core named by attribute `name` of `e`.
pub open spec fn core_attr(e: Element, name: Seq<char>) -> Option<Core> {
    match e.attr(name) {
        Some(v) => core_of(v@),
        None => None,
    }
}

/// The floating-point unit named by attribute `name` of `e`.
pub open spec fn fpu_attr(e: Element, name: Seq<char>) -> Option<FPU> {
    match e.attr(name) {
        Some(v) => fpu_of(v@),
        None => None,
    }
}

/// The MPU presence named by attribute `name` of `e`.
pub open spec fn mpu_attr(e: Element, name: Seq<char>) -> Option<MPU> {
    match e.attr(name) {
        Some(v) => mpu_of(v@),
        None => None,
    }
}

/// The algorithm style named by attribute `name` of `e`.
pub open spec fn style_attr(e: Element, name: Seq<char>) -> Option<AlgorithmStyle> {
    match e.attr(name) {
        Some(v) => style_of(v@),
        None => None,
    }
}

/// The boolean held by attribute `name` of `e`.
pub open spec fn bool_attr(e: Element, name: Seq<char>) -> Option<bool> {
    match e.attr(name) {
        Some(v) => bool_of(v@),
        None => None,
    }
}

/// The decimal `u8` held by attribute `name` of `e`.
pub open spec fn u8_attr(e: Element, name: Seq<char>) -> Option<u8> {
    match number_attr(e, name, u8::MAX as nat) {
        Some(v) => Some(v as u8),
        None => None,
    }
}

/// The decimal `u32` held by attribute `name` of `e`.
pub open spec fn u32_attr(e: Element, name: Seq<char>) -> Option<u32> {
    match number_attr(e, name, u32::MAX as nat) {
        Some(v) => Some(v as u32),
        None => None,
    }
}

/// The decimal `usize` held by attribute `name` of `e`.
pub open spec fn usize_attr(e: Element, name: Seq<char>) -> Option<usize> {
    match number_attr(e, name, usize::MAX as nat) {
        Some(v) => Some(v as usize),
        None => None,
    }
}

/// The error for a numeric attribute that could not be read.
pub open spec fn number_error(e: Element, name: Seq<char>) -> PdscError {
    if e.attr(name) is None {
        PdscError::MissingAttribute
    } else {
        PdscError::InvalidNumber
    }
}

/// Reads attribute `name` of `e` as a decimal number no larger than `max`.
pub fn attr_number(e: &Element, name: &str, max: u64) -> (r: Result<u64, PdscError>)
    ensures
        r is Ok <==> number_attr(*e, name@, max as nat) is Some,
        r matches Ok(v) ==> number_attr(*e, name@, max as nat) == Some(v as nat),
        r matches Err(err) ==> err == number_error(*e, name@),
{
    match e.attribute(name) {
        None => Err(PdscError::MissingAttribute),
        Some(v) => match parse_decimal(v.as_str(), max) {
            Some(n) => Ok(n),
            None => Err(PdscError::InvalidNumber),
        },
    }
}

/// Reads attribute `name` of `e` as a number no larger than `max`, in
/// hexadecimal after a `0x` / `0X` prefix and in decimal otherwise.
pub fn attr_hex(e: &Element, name: &str, max: u64) -> (r: Result<u64, PdscError>)
    ensures
        r is Ok <==> hex_attr(*e, name@, max as nat) is Some,
        r matches Ok(v) ==> hex_attr(*e, name@, max as nat) == Some(v as nat),
        r matches Err(err) ==> err == number_error(*e, name@),
{
    match e.attribute(name) {
        None => Err(PdscError::MissingAttribute),
        Some(v) => match parse_hex_or_decimal(v.as_str(), max) {
            Some(n) => Ok(n),
            None => Err(PdscError::InvalidNumber),
        },
    }
}

/// Reads attribute `name` of `e` as a decimal `u8`.
pub fn attr_u8(e: &Element, name: &str) -> (r: Option<u8>)
    ensures
        r == u8_attr(*e, name@),
{
    match attr_number(e, name, u8::MAX as u64) {
        Ok(v) => Some(v as u8),
        Err(_) => None,
    }
}

/// Reads attribute `name` of `e` as a decimal `u32`.
pub fn attr_u32(e: &Element, name: &str) -> (r: Option<u32>)
    ensures
        r == u32_attr(*e, name@),
{
    match attr_number(e, name, u32::MAX as u64) {
        Ok(v) => Some(v as u32),
        Err(_) => None,
    }
}

/// Reads attribute `name` of `e` as a decimal `usize`.
pub fn attr_usize(e: &Element, name: &str) -> (r: Option<usize>)
    ensures
        r == usize_attr(*e, name@),
{
    match attr_number(e, name, usize::MAX as u64) {
        Ok(v) => Some(v as usize),
        Err(_) => None,
    }
}

/// Reads attribute `name` of `e` as a core.
pub fn attr_core(e: &Element, name: &str) -> (r: Option<Core>)
    ensures
        r == core_attr(*e, name@),
{
    match e.attribute(name) {
        None => None,
        Some(v) => match Core::from_str(v.as_str()) {
            Ok(c) => Some(c),
            Err(_) => None,
        },
    }
}

/// Reads attribute `name` of `e` as a floating-point unit.
pub fn attr_fpu(e: &Element, name: &str) -> (r: Option<FPU>)
    ensures
        r == fpu_attr(*e, name@),
{
    match e.attribute(name) {
        None => None,
        Some(v) => match FPU::from_str(v.as_str()) {
            Ok(c) => Some(c),
            Err(_) => None,
        },
    }
}

/// Reads attribute `name` of `e` as an MPU presence.
pub fn attr_mpu(e: &Element, name: &str) -> (r: Option<MPU>)
    ensures
        r == mpu_attr(*e, name@),
{
    match e.attribute(name) {
        None => None,
        Some(v) => match MPU::from_str(v.as_str()) {
            Ok(c) => Some(c),
            Err(_) => None,
        },
    }
}

/// Reads attribute `name` of `e` as an algorithm style.
pub fn attr_style(e: &Element, name: &str) -> (r: Option<AlgorithmStyle>)
    ensures
        r == style_attr(*e, name@),
{
    match e.attribute(name) {
        None => None,
        Some(v) => match AlgorithmStyle::from_str(v.as_str()) {
            Ok(c) => Some(c),
            Err(_) => None,
        },
    }
}

/// Reads attribute `name` of `e` as a boolean (`true`, `false`, `1`, `0`).
pub fn attr_bool(e: &Element, name: &str) -> (r: Option<bool>)
    ensures
        r == bool_attr(*e, name@),
{
    match e.attribute(name) {
        None => None,
        Some(v) => match parse_number_bool(v.as_str()) {
            Ok(c) => Some(c),
            Err(_) => None,
        },
    }
}

/// A copy of attribute `name` of `e`.
pub fn attr_string(e: &Element, name: &str) -> (r: Option<String>)
    ensures
        r == e.attr(name@),
{
    match e.attribute(name) {
        None => None,
        Some(v) => Some(v.clone()),
    }
}

} // verus!
