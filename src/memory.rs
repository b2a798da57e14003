//! Memory regions: access permissions, one region, and the set of regions of a
//! device keyed by name.
use vstd::prelude::*;

use crate::attr::{attr_bool, attr_hex, attr_string, bool_attr, hex_attr, number_error};
use crate::keyed::{entries_map, keys_unique, Keyed};
use crate::kinds::PdscError;
use crate::text::{has_substring, str_contains};
use crate::xml::Element;

verus! {

/// Access rights of a memory region.
#[derive(Debug, Clone, Copy, PartialEq, Eq, Structural)]
pub struct MemoryPermissions {
    pub read: bool,
    pub write: bool,
    pub execute: bool,
    pub peripheral: bool,
    pub secure: bool,
    pub non_secure: bool,
    pub non_secure_callable: bool,
}

/// The permissions spelled by the letters `r w x p s n c` of `s`.
pub open spec fn permissions_of(s: Seq<char>) -> MemoryPermissions {
    MemoryPermissions {
        read: s.contains('r'),
        write: s.contains('w'),
        execute: s.contains('x'),
        peripheral: s.contains('p'),
        secure: s.contains('s'),
        non_secure: s.contains('n'),
        non_secure_callable: s.contains('c'),
    }
}

/// Read, write and execute as given; no other right.
pub open spec fn rwx(read: bool, write: bool, execute: bool) -> MemoryPermissions {
    MemoryPermissions {
        read,
        write,
        execute,
        peripheral: false,
        secure: false,
        non_secure: false,
        non_secure_callable: false,
    }
}

/// The permissions of a region without an `access` attribute: `rx` for an id
/// containing `ROM`, else `rw` for one containing `RAM`, else none.
pub open spec fn default_permissions(id: Seq<char>) -> MemoryPermissions {
    if has_substring(id, seq!['R', 'O', 'M']) {
        rwx(true, false, true)
    } else if has_substring(id, seq!['R', 'A', 'M']) {
        rwx(true, true, false)
    } else {
        rwx(false, false, false)
    }
}

impl MemoryPermissions {
    /// Decodes the letters `r w x p s n c`; any other character is ignored.
    pub fn from_str(input: &str) -> (r: MemoryPermissions)
        ensures
            r == permissions_of(input@),
    {
        let mut ret = MemoryPermissions {
            read: false,
            write: false,
            execute: false,
            peripheral: false,
            secure: false,
            non_secure: false,
            non_secure_callable: false,
        };
        let n = input.unicode_len();
        let mut i: usize = 0;
        while i < n
            invariant
                n == input@.len(),
                i <= n,
                ret == permissions_of(input@.subrange(0, i as int)),
            decreases n - i,
        {
            let c = input.get_char(i);
            let ghost pre = input@.subrange(0, i as int);
            let ghost next = input@.subrange(0, i + 1);
            assert(next =~= pre.push(c));
            assert forall|x: char| next.contains(x) <==> (pre.contains(x) || x == c) by {
                if next.contains(x) {
                    let k = choose|k: int| 0 <= k < next.len() && next[k] == x;
                    if k < pre.len() {
                        assert(pre[k] == x);
                    }
                }
                if pre.contains(x) {
                    let k = choose|k: int| 0 <= k < pre.len() && pre[k] == x;
                    assert(next[k] == x);
                }
                if x == c {
                    assert(next[i as int] == x);
                }
            }
            if c == 'r' {
                ret.read = true;
            } else if c == 'w' {
                ret.write = true;
            } else if c == 'x' {
                ret.execute = true;
            } else if c == 'p' {
                ret.peripheral = true;
            } else if c == 's' {
                ret.secure = true;
            } else if c == 'n' {
                ret.non_secure = true;
            } else if c == 'c' {
                ret.non_secure_callable = true;
            }
            i += 1;
        }
        assert(input@.subrange(0, n as int) =~= input@);
        ret
    }

    /// The permissions assumed for a region whose id is `id` and that has no
    /// `access` attribute.
    pub fn for_region_id(id: &str) -> (r: MemoryPermissions)
        ensures
            r == default_permissions(id@),
    {
        let rom = "ROM";
        let ram = "RAM";
        proof {
            reveal_strlit("ROM");
            reveal_strlit("RAM");
        }
        assert(rom@ =~= seq!['R', 'O', 'M']);
        assert(ram@ =~= seq!['R', 'A', 'M']);
        let (read, write, execute) = if str_contains(id, rom) {
            (true, false, true)
        } else if str_contains(id, ram) {
            (true, true, false)
        } else {
            (false, false, false)
        };
        MemoryPermissions {
            read,
            write,
            execute,
            peripheral: false,
            secure: false,
            non_secure: false,
            non_secure_callable: false,
        }
    }
}

/// One memory region.
#[derive(Debug, Clone, PartialEq, Eq)]
pub struct Memory {
    pub p_name: Option<String>,
    pub access: MemoryPermissions,
    pub start: u64,
    pub size: u64,
    pub startup: bool,
    pub default: bool,
}

/// A copy of an optional string.
pub fn clone_opt_string(s: &Option<String>) -> (r: Option<String>)
    ensures
        r == *s,
{
    match s {
        Some(v) => Some(v.clone()),
        None => None,
    }
}

impl Memory {
    /// A copy of this region.
    pub fn duplicate(&self) -> (r: Memory)
        ensures
            r == *self,
    {
        Memory {
            p_name: clone_opt_string(&self.p_name),
            access: self.access,
            start: self.start,
            size: self.size,
            startup: self.startup,
            default: self.default,
        }
    }
}

/// The access rights of the region described by `e`.
pub open spec fn access_of(e: Element) -> MemoryPermissions {
    match e.attr("access"@) {
        Some(a) => permissions_of(a@),
        None => default_permissions(
            match e.attr("id"@) {
                Some(id) => id@,
                None => Seq::empty(),
            },
        ),
    }
}

/// The key of the region described by `e`: its `id`, else its `name`.
pub open spec fn region_name(e: Element) -> Option<String> {
    match e.attr("id"@) {
        Some(id) => Some(id),
        None => e.attr("name"@),
    }
}

/// The error, if any, that reading `<memory>` element `e` meets first.
pub open spec fn memory_error(e: Element) -> Option<PdscError> {
    if region_name(e) is None {
        Some(PdscError::MemoryWithoutName)
    } else if hex_attr(e, "start"@, u64::MAX as nat) is None {
        Some(number_error(e, "start"@))
    } else if hex_attr(e, "size"@, u64::MAX as nat) is None {
        Some(number_error(e, "size"@))
    } else {
        None
    }
}

/// The key and the region that `<memory>` element `e` describes, if it can
/// be read.
pub open spec fn memory_entry(e: Element) -> Option<(String, Memory)> {
    if memory_error(e) is Some {
        None
    } else {
        Some(
            (
                region_name(e).unwrap(),
                Memory {
                    p_name: e.attr("Pname"@),
                    access: access_of(e),
                    start: hex_attr(e, "start"@, u64::MAX as nat).unwrap() as u64,
                    size: hex_attr(e, "size"@, u64::MAX as nat).unwrap() as u64,
                    startup: bool_attr(e, "startup"@).unwrap_or(false),
                    default: bool_attr(e, "default"@).unwrap_or(false),
                },
            ),
        )
    }
}

/// Reads a `<memory>` element into its key and its region.
pub fn memory_from_elem(e: &Element) -> (r: Result<(String, Memory), PdscError>)
    ensures
        r is Ok <==> memory_error(*e) is None,
        r matches Ok(entry) ==> memory_entry(*e) == Some(entry),
        r matches Err(err) ==> memory_error(*e) == Some(err),
{
    let access = match e.attribute("access") {
        Some(a) => MemoryPermissions::from_str(a.as_str()),
        None => match e.attribute("id") {
            Some(id) => MemoryPermissions::for_region_id(id.as_str()),
            None => {
                let empty = "";
                proof {
                    reveal_strlit("");
                }
                MemoryPermissions::for_region_id(empty)
            },
        },
    };
    let name = match attr_string(e, "id") {
        Some(id) => id,
        None => match attr_string(e, "name") {
            Some(n) => n,
            None => return Err(PdscError::MemoryWithoutName),
        },
    };
    let p_name = attr_string(e, "Pname");
    let start = match attr_hex(e, "start", u64::MAX) {
        Ok(v) => v,
        Err(err) => return Err(err),
    };
    let size = match attr_hex(e, "size", u64::MAX) {
        Ok(v) => v,
        Err(err) => return Err(err),
    };
    let startup = match attr_bool(e, "startup") {
        Some(b) => b,
        None => false,
    };
    let default = match attr_bool(e, "default") {
        Some(b) => b,
        None => false,
    };
    Ok((name, Memory { p_name, access, start, size, startup, default }))
}

/// The memory regions of a device, keyed by region name.
#[derive(Debug)]
pub struct Memories(Keyed<Memory>);

impl View for Memories {
    type V = Map<Seq<char>, Memory>;

    closed spec fn view(&self) -> Map<Seq<char>, Memory> {
        self.0@
    }
}

impl Memories {
    /// No region.
    pub fn new() -> (r: Memories)
        ensures
            r@ == Map::<Seq<char>, Memory>::empty(),
    {
        Memories(Keyed::new())
    }

    /// Sets the region under `name`, replacing any region held there.
    pub fn insert(&mut self, name: String, mem: Memory)
        ensures
            final(self)@ == old(self)@.insert(name@, mem),
    {
        self.0.insert(name, mem);
    }

    /// The region under `name`.
    pub fn get(&self, name: &str) -> (r: Option<&Memory>)
        ensures
            r is Some <==> self@.contains_key(name@),
            r matches Some(m) ==> self@[name@] == *m,
    {
        self.0.get(name)
    }

    /// Whether a region is held under `name`.
    pub fn contains_key(&self, name: &str) -> (r: bool)
        ensures
            r == self@.contains_key(name@),
    {
        self.0.contains_key(name)
    }

    /// The number of regions.
    pub fn len(&self) -> (r: usize)
        ensures
            r == self@.dom().len(),
    {
        self.0.len()
    }

    /// The regions with their names, one per name.
    pub fn entries(&self) -> (r: &Vec<(String, Memory)>)
        ensures
            entries_map(r@) == self@,
            keys_unique(r@),
    {
        self.0.entries()
    }
}

/// `lhs` together with the regions of `rhs` whose names `lhs` does not hold:
/// where both hold a name, the region of `lhs` is kept.
pub fn merge_memories(lhs: Memories, rhs: &Memories) -> (r: Memories)
    ensures
        r@ == rhs@.union_prefer_right(lhs@),
{
    let rs = rhs.entries();
    let n = rs.len();
    let mut extra: Vec<(String, Memory)> = Vec::new();
    let mut i: usize = 0;
    proof {
        assert(rs@.subrange(0, 0) =~= Seq::<(String, Memory)>::empty());
        assert(entries_map(extra@) =~= entries_map(rs@.subrange(0, 0)).remove_keys(lhs@.dom()));
    }
    while i < n
        invariant
            n == rs@.len(),
            i <= n,
            entries_map(extra@) == entries_map(rs@.subrange(0, i as int)).remove_keys(lhs@.dom()),
        decreases n - i,
    {
        let ghost pre = rs@.subrange(0, i as int);
        let ghost next = rs@.subrange(0, i + 1);
        assert(next.drop_last() =~= pre);
        let ghost old_extra = extra@;
        let k = &rs[i].0;
        if !lhs.contains_key(k.as_str()) {
            extra.push((k.clone(), rs[i].1.duplicate()));
            assert(extra@.drop_last() =~= old_extra);
            assert(entries_map(extra@) =~= entries_map(next).remove_keys(lhs@.dom()));
        } else {
            assert(entries_map(extra@) =~= entries_map(next).remove_keys(lhs@.dom()));
        }
        i += 1;
    }
    assert(rs@.subrange(0, n as int) =~= rs@);
    let mut out = lhs;
    let m = extra.len();
    let mut j: usize = 0;
    assert(extra@.subrange(0, 0) =~= Seq::<(String, Memory)>::empty());
    assert(out@ =~= lhs@.union_prefer_right(entries_map(extra@.subrange(0, 0))));
    while j < m
        invariant
            m == extra@.len(),
            j <= m,
            out@ == lhs@.union_prefer_right(entries_map(extra@.subrange(0, j as int))),
        decreases m - j,
    {
        let ghost next = extra@.subrange(0, j + 1);
        assert(next.drop_last() =~= extra@.subrange(0, j as int));
        let (k, v) = (extra[j].0.clone(), extra[j].1.duplicate());
        out.insert(k, v);
        assert(out@ =~= lhs@.union_prefer_right(entries_map(next)));
        j += 1;
    }
    assert(extra@.subrange(0, m as int) =~= extra@);
    assert(out@ =~= rhs@.union_prefer_right(lhs@));
    out
}

} // verus!
