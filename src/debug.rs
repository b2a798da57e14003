//! Debug descriptors: `<debug>` elements, with their access port resolved
//! against the `accessportV1` / `accessportV2` descriptors of their parent.
use vstd::prelude::*;

use crate::attr::{
    attr_hex, attr_number, attr_string, attr_u32, attr_u8, attr_usize, hex_attr, number_attr,
    number_error, u32_attr, u8_attr, usize_attr,
};
use crate::kinds::PdscError;
use crate::memory::clone_opt_string;
use crate::text::str_eq;
use crate::xml::Element;

verus! {

/// How a debugger reaches a processor's access port: by index (ADIv5) or by
/// address (ADIv6).
#[derive(Debug, Clone, Copy, PartialEq, Eq, Structural)]
pub enum AccessPort {
    Index(u8),
    Address(u64),
}

impl Default for AccessPort {
    fn default() -> (r: AccessPort)
        ensures
            r == AccessPort::Index(0),
    {
        AccessPort::Index(0)
    }
}

/// The debug attributes declared by one `<debug>` element.
#[derive(Debug, Clone, PartialEq, Eq)]
pub struct Debug {
    pub dp: Option<u8>,
    pub ap: Option<AccessPort>,
    pub address: Option<u32>,
    pub svd: Option<String>,
    pub name: Option<String>,
    pub unit: Option<usize>,
    pub default_reset_sequence: Option<String>,
}

/// A `<debug>` element read, before it is frozen into a `Debug`.
#[derive(Debug, Clone, PartialEq, Eq)]
pub struct DebugBuilder {
    pub dp: Option<u8>,
    pub ap: Option<AccessPort>,
    pub address: Option<u32>,
    pub svd: Option<String>,
    pub name: Option<String>,
    pub unit: Option<usize>,
    pub default_reset_sequence: Option<String>,
}

/// The record that builder `b` freezes into.
pub open spec fn frozen(b: DebugBuilder) -> Debug {
    Debug {
        dp: b.dp,
        ap: b.ap,
        address: b.address,
        svd: b.svd,
        name: b.name,
        unit: b.unit,
        default_reset_sequence: b.default_reset_sequence,
    }
}

/// The records that builders `bs` freeze into.
pub open spec fn frozen_all(bs: Seq<DebugBuilder>) -> Seq<Debug> {
    bs.map_values(|b: DebugBuilder| frozen(b))
}

/// `t` is the tag of an access-port descriptor.
pub open spec fn is_ap_tag(t: Seq<char>) -> bool {
    t == "accessportV1"@ || t == "accessportV2"@
}

/// Some child of `p` is an access-port descriptor.
pub open spec fn has_ap_children(p: Element) -> bool {
    exists|i: int| 0 <= i < p.children@.len() && is_ap_tag(#[trigger] p.children@[i].tag@)
}

/// The first access-port descriptor among `cs` whose `__apid` is `id`.
pub open spec fn find_ap(cs: Seq<Element>, id: nat) -> Option<Element>
    decreases cs.len(),
{
    if cs.len() == 0 {
        None
    } else if is_ap_tag(cs[0].tag@) && number_attr(cs[0], "__apid"@, u32::MAX as nat) == Some(id) {
        Some(cs[0])
    } else {
        find_ap(cs.drop_first(), id)
    }
}

/// An access port given by index, if the index is known.
pub open spec fn index_port(v: Option<u8>) -> Option<AccessPort> {
    match v {
        Some(i) => Some(AccessPort::Index(i)),
        None => None,
    }
}

/// An access port given by address, if the address is known.
pub open spec fn address_port(v: Option<nat>) -> Option<AccessPort> {
    match v {
        Some(a) => Some(AccessPort::Address(a as u64)),
        None => None,
    }
}

/// The debug port and access port that a `<debug>` element `e` with parent
/// `p` names, or why they cannot be found.
pub open spec fn debug_link(e: Element, p: Element) -> Result<(Option<u8>, Option<AccessPort>), PdscError> {
    if has_ap_children(p) {
        match number_attr(e, "__apid"@, u32::MAX as nat) {
            None => Err(number_error(e, "__apid"@)),
            Some(id) => match find_ap(p.children@, id) {
                None => Err(PdscError::AccessPortNotFound(id as u32)),
                Some(c) => Ok(
                    (
                        u8_attr(c, "__dp"@),
                        if c.tag@ == "accessportV1"@ {
                            index_port(u8_attr(c, "index"@))
                        } else {
                            address_port(hex_attr(c, "address"@, u64::MAX as nat))
                        },
                    ),
                ),
            },
        }
    } else {
        Ok((u8_attr(e, "__dp"@), index_port(u8_attr(e, "__ap"@))))
    }
}

/// The builder that `<debug>` element `e` with parent `p` gives, if its
/// access port can be resolved.
pub open spec fn debug_entry(e: Element, p: Element) -> Option<DebugBuilder> {
    match debug_link(e, p) {
        Ok((dp, ap)) => Some(
            DebugBuilder {
                dp,
                ap,
                address: u32_attr(e, "address"@),
                svd: e.attr("svd"@),
                name: e.attr("Pname"@),
                unit: usize_attr(e, "Punit"@),
                default_reset_sequence: e.attr("defaultResetSequence"@),
            },
        ),
        Err(_) => None,
    }
}

fn is_ap_descriptor(c: &Element) -> (r: bool)
    ensures
        r == is_ap_tag(c.tag@),
{
    c.has_tag("accessportV1") || c.has_tag("accessportV2")
}

fn any_ap_child(p: &Element) -> (r: bool)
    ensures
        r == has_ap_children(*p),
{
    let n = p.children.len();
    let mut i: usize = 0;
    while i < n
        invariant
            n == p.children@.len(),
            i <= n,
            forall|j: int| 0 <= j < i ==> !is_ap_tag(#[trigger] p.children@[j].tag@),
        decreases n - i,
    {
        if is_ap_descriptor(&p.children[i]) {
            return true;
        }
        i += 1;
    }
    false
}

fn find_ap_child(p: &Element, id: u32) -> (r: Option<&Element>)
    ensures
        r is Some <==> find_ap(p.children@, id as nat) is Some,
        r matches Some(c) ==> find_ap(p.children@, id as nat) == Some(*c),
{
    let n = p.children.len();
    let mut i: usize = 0;
    assert(p.children@.subrange(0, n as int) =~= p.children@);
    while i < n
        invariant
            n == p.children@.len(),
            i <= n,
            find_ap(p.children@, id as nat) == find_ap(p.children@.subrange(i as int, n as int), id as nat),
        decreases n - i,
    {
        let ghost rest = p.children@.subrange(i as int, n as int);
        assert(rest.drop_first() =~= p.children@.subrange(i + 1, n as int));
        let c = &p.children[i];
        if is_ap_descriptor(c) {
            match attr_number(c, "__apid", u32::MAX as u64) {
                Ok(v) => {
                    if v == id as u64 {
                        return Some(c);
                    }
                },
                Err(_) => {},
            }
        }
        i += 1;
    }
    None
}

impl DebugBuilder {
    /// Reads `<debug>` element `e` whose parent is `p`. Where `p` declares
    /// access ports, the port is the one whose `__apid` matches that of `e`;
    /// otherwise `__dp` and `__ap` are read off `e` itself.
    pub fn from_elem_and_parent(e: &Element, p: &Element) -> (r: Result<DebugBuilder, PdscError>)
        ensures
            r is Ok <==> debug_link(*e, *p) is Ok,
            r matches Err(err) ==> debug_link(*e, *p) == Err::<(Option<u8>, Option<AccessPort>), PdscError>(err),
            r matches Ok(b) ==> debug_entry(*e, *p) == Some(b),
    {
        let (dp, ap) = if any_ap_child(p) {
            let id = match attr_number(e, "__apid", u32::MAX as u64) {
                Ok(v) => v as u32,
                Err(err) => return Err(err),
            };
            let c = match find_ap_child(p, id) {
                Some(c) => c,
                None => return Err(PdscError::AccessPortNotFound(id)),
            };
            let dp = attr_u8(c, "__dp");
            if c.has_tag("accessportV1") {
                (
                    dp,
                    match attr_u8(c, "index") {
                        Some(i) => Some(AccessPort::Index(i)),
                        None => None,
                    },
                )
            } else {
                (
                    dp,
                    match attr_hex(c, "address", u64::MAX) {
                        Ok(a) => Some(AccessPort::Address(a)),
                        Err(_) => None,
                    },
                )
            }
        } else {
            (
                attr_u8(e, "__dp"),
                match attr_u8(e, "__ap") {
                    Some(i) => Some(AccessPort::Index(i)),
                    None => None,
                },
            )
        };
        Ok(DebugBuilder {
            dp,
            ap,
            address: attr_u32(e, "address"),
            svd: attr_string(e, "svd"),
            name: attr_string(e, "Pname"),
            unit: attr_usize(e, "Punit"),
            default_reset_sequence: attr_string(e, "defaultResetSequence"),
        })
    }

    /// The record this builder holds.
    pub fn build(self) -> (r: Debug)
        ensures
            r == frozen(self),
    {
        Debug {
            dp: self.dp,
            ap: self.ap,
            address: self.address,
            svd: self.svd,
            name: self.name,
            unit: self.unit,
            default_reset_sequence: self.default_reset_sequence,
        }
    }

    /// A copy of this builder.
    pub fn duplicate(&self) -> (r: DebugBuilder)
        ensures
            r == *self,
    {
        DebugBuilder {
            dp: self.dp,
            ap: self.ap,
            address: self.address,
            svd: clone_opt_string(&self.svd),
            name: clone_opt_string(&self.name),
            unit: self.unit,
            default_reset_sequence: clone_opt_string(&self.default_reset_sequence),
        }
    }
}

/// The `<debug>` elements gathered for one level of the hierarchy and, after
/// merging, for all the levels above it; nearer levels come first.
#[derive(Debug, Clone)]
pub struct DebugsBuilder(pub Vec<DebugBuilder>);

impl DebugsBuilder {
    /// Reads `<debug>` element `e` whose parent is `p` into a list of one.
    pub fn from_elem_and_parent(e: &Element, p: &Element) -> (r: Result<DebugsBuilder, PdscError>)
        ensures
            r is Ok <==> debug_link(*e, *p) is Ok,
            r matches Err(err) ==> debug_link(*e, *p) == Err::<(Option<u8>, Option<AccessPort>), PdscError>(err),
            r matches Ok(d) ==> debug_entry(*e, *p) == Some(d.0@[0]) && d.0@.len() == 1,
    {
        match DebugBuilder::from_elem_and_parent(e, p) {
            Ok(b) => Ok(DebugsBuilder(vec![b])),
            Err(err) => Err(err),
        }
    }

    /// These entries followed by those of `parent`.
    pub fn merge(self, parent: &DebugsBuilder) -> (r: DebugsBuilder)
        ensures
            r.0@ == self.0@ + parent.0@,
    {
        let mut v = self.0;
        let ghost start = v@;
        let n = parent.0.len();
        let mut i: usize = 0;
        while i < n
            invariant
                n == parent.0@.len(),
                i <= n,
                v@ == start + parent.0@.subrange(0, i as int),
            decreases n - i,
        {
            v.push(parent.0[i].duplicate());
            assert(v@ =~= start + parent.0@.subrange(0, i + 1));
            i += 1;
        }
        assert(parent.0@.subrange(0, n as int) =~= parent.0@);
        DebugsBuilder(v)
    }

    /// Appends the entries of `other`.
    pub fn merge_into(&mut self, other: DebugsBuilder)
        ensures
            final(self).0@ == old(self).0@ + other.0@,
    {
        let mut o = other.0;
        self.0.append(&mut o);
    }

    /// The records, in order.
    pub fn build(self) -> (r: Vec<Debug>)
        ensures
            r@ == frozen_all(self.0@),
    {
        let mut out: Vec<Debug> = Vec::new();
        let n = self.0.len();
        let mut i: usize = 0;
        while i < n
            invariant
                n == self.0@.len(),
                i <= n,
                out@.len() == i,
                forall|j: int| 0 <= j < i ==> out@[j] == frozen(self.0@[j]),
            decreases n - i,
        {
            out.push(self.0[i].duplicate().build());
            i += 1;
        }
        assert(out@ =~= frozen_all(self.0@));
        out
    }
}

} // verus!
