//! Processors: the `<processor>` elements of each level, their merging by
//! `Pname`, and their expansion into one record per unit.
use vstd::prelude::*;

use crate::attr::{attr_core, attr_fpu, attr_mpu, attr_string, attr_usize, core_attr, fpu_attr, mpu_attr, usize_attr};
use crate::debug::{self, AccessPort};
use crate::kinds::{Core, PdscError, FPU, MPU};
use crate::memory::clone_opt_string;
use crate::text::str_eq;
use crate::xml::Element;

verus! {

/// One unit of a processor of a device, with its resolved debug access.
#[derive(Debug, Clone, PartialEq, Eq)]
pub struct Processor {
    pub core: Core,
    pub fpu: FPU,
    pub mpu: MPU,
    pub ap: AccessPort,
    pub dp: u8,
    pub address: Option<u32>,
    pub svd: Option<String>,
    pub name: Option<String>,
    pub unit: usize,
    pub default_reset_sequence: Option<String>,
}

/// A `<processor>` element read; every attribute may still be missing.
#[derive(Debug, Clone, PartialEq, Eq)]
pub struct ProcessorBuilder {
    pub core: Option<Core>,
    pub units: Option<usize>,
    pub name: Option<String>,
    pub fpu: Option<FPU>,
    pub mpu: Option<MPU>,
}

/// `a` if it holds a value, else `b`.
pub open spec fn or_else<T>(a: Option<T>, b: Option<T>) -> Option<T> {
    if a is Some {
        a
    } else {
        b
    }
}

/// `child` with each missing attribute taken from `parent`.
pub open spec fn filled(child: ProcessorBuilder, parent: ProcessorBuilder) -> ProcessorBuilder {
    ProcessorBuilder {
        core: or_else(child.core, parent.core),
        units: or_else(child.units, parent.units),
        name: or_else(child.name, parent.name),
        fpu: or_else(child.fpu, parent.fpu),
        mpu: or_else(child.mpu, parent.mpu),
    }
}

/// The number of units a processor expands into.
pub open spec fn unit_count(b: ProcessorBuilder) -> nat {
    match b.units {
        Some(u) => u as nat,
        None => 1,
    }
}

/// The builder that `<processor>` element `e` gives.
pub open spec fn processor_of(e: Element) -> ProcessorBuilder {
    ProcessorBuilder {
        core: core_attr(e, "Dcore"@),
        units: usize_attr(e, "Punits"@),
        name: e.attr("Pname"@),
        fpu: fpu_attr(e, "Dfpu"@),
        mpu: mpu_attr(e, "Dmpu"@),
    }
}

/// The view of an optional name, by which processors are grouped.
pub open spec fn name_key(n: Option<String>) -> Option<Seq<char>> {
    match n {
        Some(s) => Some(s@),
        None => None,
    }
}

/// Debug record `d` concerns unit `unit` of the processor called `name`: a
/// `Pname` or `Punit` that `d` gives must match, one it leaves out matches any.
pub open spec fn applies(d: debug::Debug, name: Option<String>, unit: nat) -> bool {
    &&& (d.name is Some ==> name is Some && name_key(d.name) == name_key(name))
    &&& (d.unit matches Some(u) ==> u == unit)
}

/// For each attribute, its value in the first of `ds` that concerns the unit
/// and gives it.
pub open spec fn resolved(ds: Seq<debug::Debug>, name: Option<String>, unit: nat) -> debug::Debug
    decreases ds.len(),
{
    if ds.len() == 0 {
        debug::Debug {
            dp: None,
            ap: None,
            address: None,
            svd: None,
            name: None,
            unit: None,
            default_reset_sequence: None,
        }
    } else {
        let rest = resolved(ds.drop_first(), name, unit);
        let d = ds[0];
        if applies(d, name, unit) {
            debug::Debug {
                dp: or_else(d.dp, rest.dp),
                ap: or_else(d.ap, rest.ap),
                address: or_else(d.address, rest.address),
                svd: or_else(d.svd, rest.svd),
                name: None,
                unit: None,
                default_reset_sequence: or_else(d.default_reset_sequence, rest.default_reset_sequence),
            }
        } else {
            rest
        }
    }
}

/// `p` is unit `unit` of processor `b`, with the debug attributes of `ds`.
pub open spec fn expanded(b: ProcessorBuilder, ds: Seq<debug::Debug>, unit: nat, p: Processor) -> bool {
    let r = resolved(ds, b.name, unit);
    &&& b.core == Some(p.core)
    &&& p.fpu == b.fpu.unwrap_or(FPU::NotPresent)
    &&& p.mpu == b.mpu.unwrap_or(MPU::NotPresent)
    &&& p.name == b.name
    &&& p.unit as nat == unit
    &&& p.dp == r.dp.unwrap_or(0)
    &&& p.ap == r.ap.unwrap_or(AccessPort::Index(0))
    &&& p.address == r.address
    &&& p.svd == r.svd
    &&& p.default_reset_sequence == r.default_reset_sequence
}

/// `ps` is the expansion of `b`: units `0 .. unit_count(b)`, in order.
pub open spec fn expansion(b: ProcessorBuilder, ds: Seq<debug::Debug>, ps: Seq<Processor>) -> bool {
    &&& ps.len() == unit_count(b)
    &&& forall|i: int| 0 <= i < ps.len() ==> expanded(b, ds, i as nat, #[trigger] ps[i])
}

fn names_equal(a: &Option<String>, b: &Option<String>) -> (r: bool)
    ensures
        r == (name_key(*a) == name_key(*b)),
{
    match (a, b) {
        (Some(x), Some(y)) => str_eq(x.as_str(), y.as_str()),
        (None, None) => true,
        _ => false,
    }
}

fn debug_applies(d: &debug::Debug, name: &Option<String>, unit: usize) -> (r: bool)
    ensures
        r == applies(*d, *name, unit as nat),
{
    let name_ok = match &d.name {
        Some(_) => name.is_some() && names_equal(&d.name, name),
        None => true,
    };
    let unit_ok = match d.unit {
        Some(u) => u == unit,
        None => true,
    };
    name_ok && unit_ok
}

fn first_of<T: Copy>(a: Option<T>, b: Option<T>) -> (r: Option<T>)
    ensures
        r == or_else(a, b),
{
    match a {
        Some(_) => a,
        None => b,
    }
}

fn first_string(a: &Option<String>, b: Option<String>) -> (r: Option<String>)
    ensures
        r == or_else(*a, b),
{
    match a {
        Some(s) => Some(s.clone()),
        None => b,
    }
}

/// The debug attributes that apply to unit `unit` of processor `name`, the
/// first record that gives an attribute winning.
pub fn resolve_debugs(debugs: &[debug::Debug], name: &Option<String>, unit: usize) -> (r: debug::Debug)
    ensures
        r == resolved(debugs@, *name, unit as nat),
{
    let n = debugs.len();
    let mut acc = debug::Debug {
        dp: None,
        ap: None,
        address: None,
        svd: None,
        name: None,
        unit: None,
        default_reset_sequence: None,
    };
    let mut i: usize = n;
    assert(debugs@.subrange(n as int, n as int) =~= Seq::<debug::Debug>::empty());
    while i > 0
        invariant
            n == debugs@.len(),
            i <= n,
            acc == resolved(debugs@.subrange(i as int, n as int), *name, unit as nat),
        decreases i,
    {
        let ghost rest = debugs@.subrange(i - 1, n as int);
        assert(rest.drop_first() =~= debugs@.subrange(i as int, n as int));
        let d = &debugs[i - 1];
        if debug_applies(d, name, unit) {
            acc = debug::Debug {
                dp: first_of(d.dp, acc.dp),
                ap: first_of(d.ap, acc.ap),
                address: first_of(d.address, acc.address),
                svd: first_string(&d.svd, acc.svd),
                name: None,
                unit: None,
                default_reset_sequence: first_string(&d.default_reset_sequence, acc.default_reset_sequence),
            };
        }
        i -= 1;
    }
    assert(debugs@.subrange(0, n as int) =~= debugs@);
    acc
}

impl ProcessorBuilder {
    /// Reads a `<processor>` element; each attribute that is absent or cannot
    /// be read stays missing.
    pub fn from_elem(e: &Element) -> (r: ProcessorBuilder)
        ensures
            r == processor_of(*e),
    {
        ProcessorBuilder {
            core: attr_core(e, "Dcore"),
            units: attr_usize(e, "Punits"),
            fpu: attr_fpu(e, "Dfpu"),
            mpu: attr_mpu(e, "Dmpu"),
            name: attr_string(e, "Pname"),
        }
    }

    /// Fills each attribute this builder lacks from `other`.
    pub fn merge(&mut self, other: &ProcessorBuilder)
        ensures
            *final(self) == filled(*old(self), *other),
    {
        self.core = first_of(self.core, other.core);
        self.units = first_of(self.units, other.units);
        let name = match &self.name {
            Some(s) => Some(s.clone()),
            None => clone_opt_string(&other.name),
        };
        self.name = name;
        self.fpu = first_of(self.fpu, other.fpu);
        self.mpu = first_of(self.mpu, other.mpu);
    }

    /// A copy of this builder.
    pub fn duplicate(&self) -> (r: ProcessorBuilder)
        ensures
            r == *self,
    {
        ProcessorBuilder {
            core: self.core,
            units: self.units,
            name: clone_opt_string(&self.name),
            fpu: self.fpu,
            mpu: self.mpu,
        }
    }

    /// One processor record per unit, `0 .. Punits` (one unit when `Punits`
    /// is missing), with the debug attributes of `debugs` that apply to it.
    /// Fails when there is a unit to emit and no core.
    pub fn build(self, debugs: &[debug::Debug]) -> (r: Result<Vec<Processor>, PdscError>)
        ensures
            r is Ok <==> (self.core is Some || unit_count(self) == 0),
            r matches Err(err) ==> err == PdscError::NoCore,
            r matches Ok(ps) ==> expansion(self, debugs@, ps@),
    {
        let units: usize = match self.units {
            Some(u) => u,
            None => 1,
        };
        let mut out: Vec<Processor> = Vec::new();
        let mut unit: usize = 0;
        while unit < units
            invariant
                units as nat == unit_count(self),
                unit <= units,
                out@.len() == unit,
                unit > 0 ==> self.core is Some,
                forall|i: int| 0 <= i < unit ==> expanded(self, debugs@, i as nat, #[trigger] out@[i]),
            decreases units - unit,
        {
            let core = match self.core {
                Some(c) => c,
                None => return Err(PdscError::NoCore),
            };
            let d = resolve_debugs(debugs, &self.name, unit);
            let dp = match d.dp {
                Some(v) => v,
                None => 0,
            };
            let ap = match d.ap {
                Some(v) => v,
                None => AccessPort::Index(0),
            };
            out.push(
                Processor {
                    core,
                    fpu: match self.fpu {
                        Some(f) => f,
                        None => FPU::NotPresent,
                    },
                    mpu: match self.mpu {
                        Some(m) => m,
                        None => MPU::NotPresent,
                    },
                    ap,
                    dp,
                    address: d.address,
                    svd: d.svd,
                    name: clone_opt_string(&self.name),
                    unit,
                    default_reset_sequence: d.default_reset_sequence,
                },
            );
            unit += 1;
        }
        Ok(out)
    }
}

/// The processors declared at one level, or merged down from the levels above.
#[derive(Debug, Clone)]
pub struct ProcessorsBuilder(pub Vec<ProcessorBuilder>);

/// The last position in `s` of a processor whose name has view `key`.
pub open spec fn key_index(s: Seq<ProcessorBuilder>, key: Option<Seq<char>>) -> Option<int>
    decreases s.len(),
{
    if s.len() == 0 {
        None
    } else if name_key(s.last().name) == key {
        Some(s.len() - 1)
    } else {
        key_index(s.drop_last(), key)
    }
}

/// `s` with `b` in place of the processor of the same name, or `b` appended.
pub open spec fn upsert(s: Seq<ProcessorBuilder>, b: ProcessorBuilder) -> Seq<ProcessorBuilder> {
    match key_index(s, name_key(b.name)) {
        Some(i) => s.update(i, b),
        None => s.push(b),
    }
}

/// `s` with the processor of the same name as `p` completed from `p`, or `p`
/// appended.
pub open spec fn absorb(s: Seq<ProcessorBuilder>, p: ProcessorBuilder) -> Seq<ProcessorBuilder> {
    match key_index(s, name_key(p.name)) {
        Some(i) => s.update(i, filled(s[i], p)),
        None => s.push(p),
    }
}

/// The processors of `cs` grouped by name; for a name given twice, the later one.
pub open spec fn grouped(cs: Seq<ProcessorBuilder>) -> Seq<ProcessorBuilder>
    decreases cs.len(),
{
    if cs.len() == 0 {
        Seq::empty()
    } else {
        upsert(grouped(cs.drop_last()), cs.last())
    }
}

/// `base` with each processor of `ps` absorbed in turn.
pub open spec fn absorbed(base: Seq<ProcessorBuilder>, ps: Seq<ProcessorBuilder>) -> Seq<ProcessorBuilder>
    decreases ps.len(),
{
    if ps.len() == 0 {
        base
    } else {
        absorb(absorbed(base, ps.drop_last()), ps.last())
    }
}

/// The processors of a child level merged with those of its parent: grouped
/// by name, a child's attribute wins and a parent's fills what it lacks.
pub open spec fn merged_processors(child: Seq<ProcessorBuilder>, parent: Option<Seq<ProcessorBuilder>>) -> Seq<ProcessorBuilder> {
    match parent {
        Some(p) => absorbed(grouped(child), p),
        None => child,
    }
}

/// The processors held by an optional list.
pub open spec fn procs_view(o: Option<ProcessorsBuilder>) -> Option<Seq<ProcessorBuilder>> {
    match o {
        Some(p) => Some(p.0@),
        None => None,
    }
}

/// The expansions of `bs`, one after the other, make up `ps`.
pub open spec fn expansions(bs: Seq<ProcessorBuilder>, ds: Seq<debug::Debug>, ps: Seq<Processor>) -> bool
    decreases bs.len(),
{
    if bs.len() == 0 {
        ps.len() == 0
    } else {
        let u = unit_count(bs.last());
        &&& ps.len() >= u
        &&& expansions(bs.drop_last(), ds, ps.subrange(0, ps.len() - u))
        &&& expansion(bs.last(), ds, ps.subrange(ps.len() - u, ps.len() as int))
    }
}

/// Every processor of `bs` can be expanded: it has a core or no unit.
pub open spec fn all_expandable(bs: Seq<ProcessorBuilder>) -> bool {
    forall|i: int| 0 <= i < bs.len() ==> (#[trigger] bs[i]).core is Some || unit_count(bs[i]) == 0
}

/// The number of units that the processors of `bs` expand into, together.
pub open spec fn total_units(bs: Seq<ProcessorBuilder>) -> nat
    decreases bs.len(),
{
    if bs.len() == 0 {
        0
    } else {
        total_units(bs.drop_last()) + unit_count(bs.last())
    }
}

/// The expansions of `bs` hold one record per unit.
pub proof fn lemma_expansions_len(bs: Seq<ProcessorBuilder>, ds: Seq<debug::Debug>, ps: Seq<Processor>)
    requires
        expansions(bs, ds, ps),
    ensures
        ps.len() == total_units(bs),
    decreases bs.len(),
{
    if bs.len() > 0 {
        let u = unit_count(bs.last());
        lemma_expansions_len(bs.drop_last(), ds, ps.subrange(0, ps.len() - u));
    }
}

/// A processor of `bs` with a unit makes the total positive.
pub proof fn lemma_total_units_positive(bs: Seq<ProcessorBuilder>, i: int)
    requires
        0 <= i < bs.len(),
        unit_count(bs[i]) != 0,
    ensures
        total_units(bs) > 0,
    decreases bs.len(),
{
    if i < bs.len() - 1 {
        assert(bs.drop_last()[i] == bs[i]);
        lemma_total_units_positive(bs.drop_last(), i);
    }
}

fn find_key(s: &Vec<ProcessorBuilder>, name: &Option<String>) -> (r: Option<usize>)
    ensures
        r matches Some(i) ==> key_index(s@, name_key(*name)) == Some(i as int) && i < s@.len(),
        r is None ==> key_index(s@, name_key(*name)) is None,
{
    let mut i: usize = s.len();
    assert(s@.subrange(0, s@.len() as int) =~= s@);
    while i > 0
        invariant
            i <= s@.len(),
            key_index(s@, name_key(*name)) == key_index(s@.subrange(0, i as int), name_key(*name)),
        decreases i,
    {
        let ghost pre = s@.subrange(0, i as int);
        assert(pre.drop_last() =~= s@.subrange(0, i - 1));
        if names_equal(&s[i - 1].name, name) {
            return Some(i - 1);
        }
        i -= 1;
    }
    None
}

impl ProcessorsBuilder {
    /// Reads a `<processor>` element into a list of one.
    pub fn from_elem(e: &Element) -> (r: ProcessorsBuilder)
        ensures
            r.0@ == seq![processor_of(*e)],
    {
        let b = ProcessorBuilder::from_elem(e);
        let v = vec![b];
        assert(v@ =~= seq![processor_of(*e)]);
        ProcessorsBuilder(v)
    }

    /// Merges these processors with those of `parent`, if any: both sides are
    /// grouped by `Pname`, and for each name the child's entry (or else the
    /// parent's) is completed from the parent's entries of that name.
    pub fn merge(self, parent: &Option<ProcessorsBuilder>) -> (r: Result<ProcessorsBuilder, PdscError>)
        ensures
            r matches Ok(m) && m.0@ == merged_processors(self.0@, procs_view(*parent)),
    {
        match parent {
            None => Ok(self),
            Some(p) => {
                let cs = self.0;
                let n = cs.len();
                let mut current: Vec<ProcessorBuilder> = Vec::new();
                let mut i: usize = 0;
                assert(cs@.subrange(0, 0) =~= Seq::<ProcessorBuilder>::empty());
                while i < n
                    invariant
                        n == cs@.len(),
                        i <= n,
                        current@ == grouped(cs@.subrange(0, i as int)),
                    decreases n - i,
                {
                    let ghost next = cs@.subrange(0, i + 1);
                    assert(next.drop_last() =~= cs@.subrange(0, i as int));
                    let b = cs[i].duplicate();
                    match find_key(&current, &b.name) {
                        Some(k) => {
                            current.set(k, b);
                        },
                        None => {
                            current.push(b);
                        },
                    }
                    i += 1;
                }
                assert(cs@.subrange(0, n as int) =~= cs@);
                let ghost base = current@;
                let m = p.0.len();
                let mut j: usize = 0;
                assert(p.0@.subrange(0, 0) =~= Seq::<ProcessorBuilder>::empty());
                while j < m
                    invariant
                        m == p.0@.len(),
                        j <= m,
                        current@ == absorbed(base, p.0@.subrange(0, j as int)),
                    decreases m - j,
                {
                    let ghost next = p.0@.subrange(0, j + 1);
                    assert(next.drop_last() =~= p.0@.subrange(0, j as int));
                    let q = &p.0[j];
                    match find_key(&current, &q.name) {
                        Some(k) => {
                            let mut entry = current[k].duplicate();
                            entry.merge(q);
                            current.set(k, entry);
                        },
                        None => {
                            current.push(q.duplicate());
                        },
                    }
                    j += 1;
                }
                assert(p.0@.subrange(0, m as int) =~= p.0@);
                Ok(ProcessorsBuilder(current))
            },
        }
    }

    /// A copy of this list.
    pub fn duplicate(&self) -> (r: ProcessorsBuilder)
        ensures
            r.0@ == self.0@,
    {
        let mut v: Vec<ProcessorBuilder> = Vec::new();
        let n = self.0.len();
        let mut i: usize = 0;
        while i < n
            invariant
                n == self.0@.len(),
                i <= n,
                v@ == self.0@.subrange(0, i as int),
            decreases n - i,
        {
            v.push(self.0[i].duplicate());
            assert(v@ =~= self.0@.subrange(0, i + 1));
            i += 1;
        }
        assert(self.0@.subrange(0, n as int) =~= self.0@);
        ProcessorsBuilder(v)
    }

    /// Appends the processors of `other`, keeping both lists whole.
    pub fn merge_into(&mut self, other: ProcessorsBuilder)
        ensures
            final(self).0@ == old(self).0@ + other.0@,
    {
        let mut o = other.0;
        self.0.append(&mut o);
    }

    /// The records of every processor, unit by unit, in order.
    pub fn build(self, debugs: Vec<debug::Debug>) -> (r: Result<Vec<Processor>, PdscError>)
        ensures
            r is Ok <==> all_expandable(self.0@),
            r matches Err(err) ==> err == PdscError::NoCore,
            r matches Ok(ps) ==> expansions(self.0@, debugs@, ps@),
    {
        let ghost whole = self.0@;
        let bs = self.0;
        assert(bs@ == whole);
        let n = bs.len();
        let mut out: Vec<Processor> = Vec::new();
        let mut i: usize = 0;
        assert(bs@.subrange(0, 0) =~= Seq::<ProcessorBuilder>::empty());
        while i < n
            invariant
                n == bs@.len(),
                bs@ == whole,
                self.0@ == whole,
                i <= n,
                all_expandable(bs@.subrange(0, i as int)),
                expansions(bs@.subrange(0, i as int), debugs@, out@),
            decreases n - i,
        {
            let ghost pre = bs@.subrange(0, i as int);
            let ghost next = bs@.subrange(0, i + 1);
            assert(next.drop_last() =~= pre);
            let ghost before = out@;
            match bs[i].duplicate().build(debugs.as_slice()) {
                Ok(ps) => {
                    let mut ps = ps;
                    let ghost block = ps@;
                    out.append(&mut ps);
                    assert(out@.subrange(0, out@.len() - block.len()) =~= before);
                    assert(out@.subrange(out@.len() - block.len(), out@.len() as int) =~= block);
                    assert(all_expandable(next)) by {
                        assert forall|k: int| 0 <= k < next.len() implies (#[trigger] next[k]).core is Some || unit_count(next[k]) == 0 by {
                            if k < i {
                                assert(next[k] == pre[k]);
                            }
                        }
                    }
                },
                Err(err) => {
                    assert(!all_expandable(whole)) by {
                        assert(whole[i as int].core is None && unit_count(whole[i as int]) != 0);
                    }
                    return Err(err);
                },
            }
            i += 1;
        }
        assert(bs@.subrange(0, n as int) =~= bs@);
        Ok(out)
    }
}

} // verus!
