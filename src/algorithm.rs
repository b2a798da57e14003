//! Flash programming algorithms.
use vstd::prelude::*;

use crate::attr::{attr_bool, attr_hex, attr_style, bool_attr, hex_attr, number_error, style_attr};
use crate::kinds::{AlgorithmStyle, PdscError};
use crate::text::{as_u64, forward_slashes, normalize_path};
use crate::xml::Element;

verus! {

/// A flash algorithm: the file holding it, the flash range it programs and
/// where it runs.
#[derive(Debug, Clone, PartialEq, Eq)]
pub struct Algorithm {
    /// The path of the algorithm file, with forward slashes only.
    pub file_name: String,
    pub start: u64,
    pub size: u64,
    pub default: bool,
    pub ram_start: Option<u64>,
    pub ram_size: Option<u64>,
    pub style: AlgorithmStyle,
}

/// The error, if any, that reading `<algorithm>` element `e` meets first.
pub open spec fn algorithm_error(e: Element) -> Option<PdscError> {
    if e.attr("name"@) is None {
        Some(PdscError::MissingAttribute)
    } else if hex_attr(e, "start"@, u64::MAX as nat) is None {
        Some(number_error(e, "start"@))
    } else if hex_attr(e, "size"@, u64::MAX as nat) is None {
        Some(number_error(e, "size"@))
    } else {
        None
    }
}

/// An algorithm as a value: its path as characters.
pub struct AlgorithmView {
    pub file_name: Seq<char>,
    pub start: u64,
    pub size: u64,
    pub default: bool,
    pub ram_start: Option<u64>,
    pub ram_size: Option<u64>,
    pub style: AlgorithmStyle,
}

impl View for Algorithm {
    type V = AlgorithmView;

    open spec fn view(&self) -> AlgorithmView {
        AlgorithmView {
            file_name: self.file_name@,
            start: self.start,
            size: self.size,
            default: self.default,
            ram_start: self.ram_start,
            ram_size: self.ram_size,
            style: self.style,
        }
    }
}

/// The algorithm that `<algorithm>` element `e` describes, where
/// `algorithm_error(e)` is `None`.
pub open spec fn algorithm_spec(e: Element) -> AlgorithmView {
    AlgorithmView {
        file_name: forward_slashes(e.attr("name"@).unwrap()@),
        start: hex_attr(e, "start"@, u64::MAX as nat).unwrap() as u64,
        size: hex_attr(e, "size"@, u64::MAX as nat).unwrap() as u64,
        default: bool_attr(e, "default"@).unwrap_or(false),
        ram_start: as_u64(hex_attr(e, "RAMstart"@, u64::MAX as nat)),
        ram_size: as_u64(hex_attr(e, "RAMsize"@, u64::MAX as nat)),
        style: style_attr(e, "style"@).unwrap_or(AlgorithmStyle::Keil),
    }
}

impl Algorithm {
    /// Reads an `<algorithm>` element.
    pub fn from_elem(e: &Element) -> (r: Result<Algorithm, PdscError>)
        ensures
            r is Ok <==> algorithm_error(*e) is None,
            r matches Ok(a) ==> a@ == algorithm_spec(*e),
            r matches Ok(a) ==> forall|i: int| 0 <= i < a.file_name@.len() ==> a.file_name@[i] != '\\',
            r matches Err(err) ==> algorithm_error(*e) == Some(err),
    {
        let default = match attr_bool(e, "default") {
            Some(b) => b,
            None => false,
        };
        let file_name = match e.attribute("name") {
            Some(n) => normalize_path(n.as_str()),
            None => return Err(PdscError::MissingAttribute),
        };
        let style = match attr_style(e, "style") {
            Some(s) => s,
            None => AlgorithmStyle::Keil,
        };
        let start = match attr_hex(e, "start", u64::MAX) {
            Ok(v) => v,
            Err(err) => return Err(err),
        };
        let size = match attr_hex(e, "size", u64::MAX) {
            Ok(v) => v,
            Err(err) => return Err(err),
        };
        let ram_start = match attr_hex(e, "RAMstart", u64::MAX) {
            Ok(v) => Some(v),
            Err(_) => None,
        };
        let ram_size = match attr_hex(e, "RAMsize", u64::MAX) {
            Ok(v) => Some(v),
            Err(_) => None,
        };
        Ok(Algorithm { file_name, start, size, default, ram_start, ram_size, style })
    }

    /// A copy of this algorithm.
    pub fn duplicate(&self) -> (r: Algorithm)
        ensures
            r == *self,
    {
        Algorithm {
            file_name: self.file_name.clone(),
            start: self.start,
            size: self.size,
            default: self.default,
            ram_start: self.ram_start,
            ram_size: self.ram_size,
            style: self.style,
        }
    }
}

} // verus!
