//! Devices: the builder that accumulates what one level of the hierarchy
//! declares, its merging with the levels above, and the final records.
use vstd::prelude::*;

use crate::algorithm::{algorithm_error, algorithm_spec, Algorithm, AlgorithmView};
use crate::attr::attr_string;
use crate::debug::{self, debug_entry, debug_link, frozen_all, DebugBuilder, DebugsBuilder};
use crate::keyed::{entries_map, keys_unique, Keyed};
use crate::kinds::PdscError;
use crate::memory::{clone_opt_string, memory_entry, memory_error, memory_from_elem, merge_memories, Memories, Memory};
use crate::processor::{
    expansions, lemma_expansions_len, lemma_total_units_positive, merged_processors, processor_of,
    procs_view, total_units, unit_count, Processor, ProcessorBuilder, ProcessorsBuilder,
    all_expandable, or_else,
};
use crate::xml::Element;

verus! {

/// What a device builder holds, as values.
pub struct BuilderModel {
    pub name: Option<String>,
    pub algorithms: Seq<AlgorithmView>,
    pub memories: Map<Seq<char>, Memory>,
    pub processor: Option<Seq<ProcessorBuilder>>,
    pub debugs: Seq<DebugBuilder>,
    pub vendor: Option<String>,
    pub family: Option<String>,
    pub sub_family: Option<String>,
}

/// The views of a list of algorithms.
pub open spec fn algorithms_view(s: Seq<Algorithm>) -> Seq<AlgorithmView> {
    s.map_values(|a: Algorithm| a@)
}

/// What one level of the hierarchy (family, subFamily, device or variant)
/// declares and inherits, while the tree is walked.
#[derive(Debug)]
pub struct DeviceBuilder {
    pub name: Option<String>,
    pub algorithms: Vec<Algorithm>,
    pub memories: Memories,
    pub processor: Option<ProcessorsBuilder>,
    pub debugs: DebugsBuilder,
    pub vendor: Option<String>,
    pub family: Option<String>,
    pub sub_family: Option<String>,
}

impl View for DeviceBuilder {
    type V = BuilderModel;

    open spec fn view(&self) -> BuilderModel {
        BuilderModel {
            name: self.name,
            algorithms: algorithms_view(self.algorithms@),
            memories: self.memories@,
            processor: procs_view(self.processor),
            debugs: self.debugs.0@,
            vendor: self.vendor,
            family: self.family,
            sub_family: self.sub_family,
        }
    }
}

/// The builder of element `e` before any of its children is read: its name
/// (`Dname`, else `Dvariant`), its vendor, and the family or subfamily name
/// where `e` is a `<family>` or a `<subFamily>`.
pub open spec fn fresh(e: Element) -> BuilderModel {
    BuilderModel {
        name: or_else(e.attr("Dname"@), e.attr("Dvariant"@)),
        algorithms: Seq::empty(),
        memories: Map::empty(),
        processor: None,
        debugs: Seq::empty(),
        vendor: e.attr("Dvendor"@),
        family: if e.tag@ == "family"@ {
            e.attr("Dfamily"@)
        } else {
            None
        },
        sub_family: if e.tag@ == "subFamily"@ {
            e.attr("DsubFamily"@)
        } else {
            None
        },
    }
}

/// `m` after reading child `c` of element `p`: a `<memory>`, `<algorithm>`,
/// `<processor>` or `<debug>` that can be read is added; anything else is
/// left out.
pub open spec fn attach(m: BuilderModel, c: Element, p: Element) -> BuilderModel {
    if c.tag@ == "memory"@ {
        match memory_entry(c) {
            Some((k, mem)) => BuilderModel { memories: m.memories.insert(k@, mem), ..m },
            None => m,
        }
    } else if c.tag@ == "algorithm"@ {
        if algorithm_error(c) is None {
            BuilderModel { algorithms: m.algorithms.push(algorithm_spec(c)), ..m }
        } else {
            m
        }
    } else if c.tag@ == "processor"@ {
        BuilderModel {
            processor: Some(
                match m.processor {
                    Some(s) => s.push(processor_of(c)),
                    None => seq![processor_of(c)],
                },
            ),
            ..m
        }
    } else if c.tag@ == "debug"@ {
        match debug_entry(c, p) {
            Some(b) => BuilderModel { debugs: m.debugs.push(b), ..m },
            None => m,
        }
    } else {
        m
    }
}

/// The builder of `e` after its first `k` children are read.
pub open spec fn level_upto(e: Element, k: nat) -> BuilderModel
    decreases k,
{
    if k == 0 {
        fresh(e)
    } else {
        attach(level_upto(e, (k - 1) as nat), e.children@[k - 1], e)
    }
}

/// The builder of `e` with all its children read.
pub open spec fn level(e: Element) -> BuilderModel {
    level_upto(e, e.children@.len())
}

/// Child builder `c` merged with parent builder `p`: the child's name, vendor,
/// family and subfamily win; algorithms and debug entries are the child's then
/// the parent's; a region name held by both keeps the child's region;
/// processors are merged by name.
pub open spec fn inherit(c: BuilderModel, p: BuilderModel) -> BuilderModel {
    BuilderModel {
        name: or_else(c.name, p.name),
        algorithms: c.algorithms + p.algorithms,
        memories: p.memories.union_prefer_right(c.memories),
        processor: match c.processor {
            Some(cp) => Some(merged_processors(cp, p.processor)),
            None => p.processor,
        },
        debugs: c.debugs + p.debugs,
        vendor: or_else(c.vendor, p.vendor),
        family: or_else(c.family, p.family),
        sub_family: or_else(c.sub_family, p.sub_family),
    }
}

/// A finished device.
#[derive(Debug)]
pub struct Device {
    pub name: String,
    pub memories: Memories,
    pub algorithms: Vec<Algorithm>,
    pub processors: Vec<Processor>,
    pub vendor: Option<String>,
    pub family: String,
    pub sub_family: Option<String>,
}

/// The error, if any, that building a device from `m` meets first.
pub open spec fn build_error(m: BuilderModel) -> Option<PdscError> {
    if m.name is None {
        Some(PdscError::DeviceWithoutName)
    } else if m.family is None {
        Some(PdscError::DeviceWithoutFamily)
    } else if m.processor is None || total_units(m.processor.unwrap()) == 0 {
        Some(PdscError::DeviceWithoutProcessor(m.name.unwrap()))
    } else if !all_expandable(m.processor.unwrap()) {
        Some(PdscError::NoCore)
    } else {
        None
    }
}

/// `d` is the device that builder `m` gives.
pub open spec fn device_of(m: BuilderModel, d: Device) -> bool {
    &&& m.name == Some(d.name)
    &&& m.family == Some(d.family)
    &&& m.vendor == d.vendor
    &&& m.sub_family == d.sub_family
    &&& d.memories@ == m.memories
    &&& algorithms_view(d.algorithms@) == m.algorithms
    &&& m.processor matches Some(ps) && expansions(ps, frozen_all(m.debugs), d.processors@)
}

/// `r` is what building a device from `m` gives.
pub open spec fn built_as(m: BuilderModel, r: Result<Device, PdscError>) -> bool {
    match r {
        Ok(d) => build_error(m) is None && device_of(m, d),
        Err(err) => build_error(m) == Some(err),
    }
}

fn duplicate_algorithms(v: &Vec<Algorithm>) -> (r: Vec<Algorithm>)
    ensures
        r@ == v@,
{
    let mut out: Vec<Algorithm> = Vec::new();
    let n = v.len();
    let mut i: usize = 0;
    while i < n
        invariant
            n == v@.len(),
            i <= n,
            out@ == v@.subrange(0, i as int),
        decreases n - i,
    {
        out.push(v[i].duplicate());
        assert(out@ =~= v@.subrange(0, i + 1));
        i += 1;
    }
    assert(v@.subrange(0, n as int) =~= v@);
    out
}

impl DeviceBuilder {
    /// The builder of element `e`, before its children are read.
    pub fn from_elem(e: &Element) -> (r: DeviceBuilder)
        ensures
            r@ == fresh(*e),
    {
        let family = if e.has_tag("family") {
            attr_string(e, "Dfamily")
        } else {
            None
        };
        let sub_family = if e.has_tag("subFamily") {
            attr_string(e, "DsubFamily")
        } else {
            None
        };
        let name = match attr_string(e, "Dname") {
            Some(n) => Some(n),
            None => attr_string(e, "Dvariant"),
        };
        let r = DeviceBuilder {
            name,
            algorithms: Vec::new(),
            memories: Memories::new(),
            processor: None,
            debugs: DebugsBuilder(Vec::new()),
            vendor: attr_string(e, "Dvendor"),
            family,
            sub_family,
        };
        assert(r@.algorithms =~= Seq::<AlgorithmView>::empty());
        assert(r@.debugs =~= Seq::<DebugBuilder>::empty());
        r
    }

    /// This builder merged with the builder of the enclosing level.
    pub fn add_parent(self, parent: &DeviceBuilder) -> (r: Result<DeviceBuilder, PdscError>)
        ensures
            r matches Ok(b) && b@ == inherit(self@, parent@),
    {
        let ghost child = self@;
        let mut algorithms = self.algorithms;
        let mut extra = duplicate_algorithms(&parent.algorithms);
        let ghost a0 = algorithms@;
        let ghost a1 = extra@;
        algorithms.append(&mut extra);
        assert(algorithms@ == a0 + a1);
        assert(algorithms_view(algorithms@) =~= algorithms_view(a0) + algorithms_view(a1));
        let processor = match self.processor {
            Some(own) => match own.merge(&parent.processor) {
                Ok(m) => Some(m),
                Err(err) => return Err(err),
            },
            None => match &parent.processor {
                Some(p) => Some(p.duplicate()),
                None => None,
            },
        };
        let name = match self.name {
            Some(n) => Some(n),
            None => clone_opt_string(&parent.name),
        };
        let vendor = match self.vendor {
            Some(n) => Some(n),
            None => clone_opt_string(&parent.vendor),
        };
        let family = match self.family {
            Some(n) => Some(n),
            None => clone_opt_string(&parent.family),
        };
        let sub_family = match self.sub_family {
            Some(n) => Some(n),
            None => clone_opt_string(&parent.sub_family),
        };
        let r = DeviceBuilder {
            name,
            algorithms,
            memories: merge_memories(self.memories, &parent.memories),
            processor,
            debugs: self.debugs.merge(&parent.debugs),
            vendor,
            family,
            sub_family,
        };
        assert(r@.processor == inherit(child, parent@).processor);
        Ok(r)
    }

    /// Adds the processors of `processor` after those already held.
    pub fn add_processor(&mut self, processor: ProcessorsBuilder)
        ensures
            final(self)@ == (BuilderModel {
                processor: Some(
                    match old(self)@.processor {
                        Some(s) => s + processor.0@,
                        None => processor.0@,
                    },
                ),
                ..old(self)@
            }),
    {
        match self.processor {
            None => {
                self.processor = Some(processor);
            },
            Some(ref mut origin) => {
                origin.merge_into(processor);
            },
        }
    }

    /// Adds debug entries after those already held.
    pub fn add_debug(&mut self, debug: DebugsBuilder)
        ensures
            final(self)@ == (BuilderModel { debugs: old(self)@.debugs + debug.0@, ..old(self)@ }),
    {
        self.debugs.merge_into(debug);
    }

    /// Sets the region under `name`, replacing one of the same name.
    pub fn add_memory(&mut self, name: String, mem: Memory)
        ensures
            final(self)@ == (BuilderModel { memories: old(self)@.memories.insert(name@, mem), ..old(self)@ }),
    {
        self.memories.insert(name, mem);
    }

    /// Adds an algorithm after those already held.
    pub fn add_algorithm(&mut self, alg: Algorithm)
        ensures
            final(self)@ == (BuilderModel { algorithms: old(self)@.algorithms.push(alg@), ..old(self)@ }),
    {
        let ghost before = self.algorithms@;
        self.algorithms.push(alg);
        assert(algorithms_view(self.algorithms@) =~= algorithms_view(before).push(alg@));
    }

    /// The finished device: it needs a name, a family, at least one processor
    /// unit, and a core for every processor.
    pub fn build(self) -> (r: Result<Device, PdscError>)
        ensures
            built_as(self@, r),
    {
        let name = match self.name {
            Some(n) => n,
            None => return Err(PdscError::DeviceWithoutName),
        };
        let family = match self.family {
            Some(f) => f,
            None => return Err(PdscError::DeviceWithoutFamily),
        };
        let debugs = self.debugs.build();
        let ghost ds = debugs@;
        let processors = match self.processor {
            Some(pb) => {
                let ghost bs = pb.0@;
                match pb.build(debugs) {
                    Ok(ps) => {
                        proof {
                            lemma_expansions_len(bs, ds, ps@);
                        }
                        if ps.len() == 0 {
                            return Err(PdscError::DeviceWithoutProcessor(name));
                        }
                        ps
                    },
                    Err(err) => {
                        proof {
                            let i = choose|i: int| 0 <= i < bs.len() && !((#[trigger] bs[i]).core is Some || unit_count(bs[i]) == 0);
                            lemma_total_units_positive(bs, i);
                        }
                        return Err(err);
                    },
                }
            },
            None => return Err(PdscError::DeviceWithoutProcessor(name)),
        };
        Ok(Device {
            processors,
            name,
            memories: self.memories,
            algorithms: self.algorithms,
            vendor: self.vendor,
            family,
            sub_family: self.sub_family,
        })
    }
}

/// The views of a list of builders.
pub open spec fn views(s: Seq<DeviceBuilder>) -> Seq<BuilderModel> {
    s.map_values(|d: DeviceBuilder| d@)
}

/// The fresh builders of the `<variant>` elements among `cs`, in order.
pub open spec fn fresh_variants(cs: Seq<Element>) -> Seq<BuilderModel>
    decreases cs.len(),
{
    if cs.len() == 0 {
        Seq::empty()
    } else if cs.last().tag@ == "variant"@ {
        fresh_variants(cs.drop_last()).push(fresh(cs.last()))
    } else {
        fresh_variants(cs.drop_last())
    }
}

/// Each builder of `ms` merged with parent `p`.
pub open spec fn inherit_all(ms: Seq<BuilderModel>, p: BuilderModel) -> Seq<BuilderModel> {
    ms.map_values(|m: BuilderModel| inherit(m, p))
}

/// The builders that `<device>` element `e` yields: its own, where it has no
/// variant, else one per variant merged with its own.
pub open spec fn device_models(e: Element) -> Seq<BuilderModel> {
    let vs = fresh_variants(e.children@);
    if vs.len() == 0 {
        seq![level(e)]
    } else {
        inherit_all(vs, level(e))
    }
}

/// The builders that the `<device>` elements among `cs` yield, in order.
pub open spec fn devices_below(cs: Seq<Element>) -> Seq<BuilderModel>
    decreases cs.len(),
{
    if cs.len() == 0 {
        Seq::empty()
    } else if cs.last().tag@ == "device"@ {
        devices_below(cs.drop_last()) + device_models(cs.last())
    } else {
        devices_below(cs.drop_last())
    }
}

/// The builders that `<subFamily>` element `e` yields: those of its devices,
/// each merged with its own.
pub open spec fn sub_family_models(e: Element) -> Seq<BuilderModel> {
    inherit_all(devices_below(e.children@), level(e))
}

/// The builders that the `<subFamily>` and `<device>` elements among `cs`
/// yield, in order.
pub open spec fn family_members(cs: Seq<Element>) -> Seq<BuilderModel>
    decreases cs.len(),
{
    if cs.len() == 0 {
        Seq::empty()
    } else if cs.last().tag@ == "subFamily"@ {
        family_members(cs.drop_last()) + sub_family_models(cs.last())
    } else if cs.last().tag@ == "device"@ {
        family_members(cs.drop_last()) + device_models(cs.last())
    } else {
        family_members(cs.drop_last())
    }
}

/// The builder of each leaf device of `<family>` element `e`, merged with
/// every level above it.
pub open spec fn family_models(e: Element) -> Seq<BuilderModel> {
    inherit_all(family_members(e.children@), level(e))
}

/// `rs` holds, for each builder of `ms`, what building it gives.
pub open spec fn all_built(ms: Seq<BuilderModel>, rs: Seq<Result<Device, PdscError>>) -> bool {
    &&& rs.len() == ms.len()
    &&& forall|i: int| 0 <= i < rs.len() ==> built_as(ms[i], #[trigger] rs[i])
}

/// What reading child `c` of element `p` reports: a `<memory>`,
/// `<algorithm>` or `<debug>` that cannot be read is reported with its error.
pub open spec fn leaf_warnings(c: Element, p: Element) -> Seq<PdscError> {
    if c.tag@ == "memory"@ {
        match memory_error(c) {
            Some(w) => seq![w],
            None => Seq::empty(),
        }
    } else if c.tag@ == "algorithm"@ {
        match algorithm_error(c) {
            Some(w) => seq![w],
            None => Seq::empty(),
        }
    } else if c.tag@ == "processor"@ {
        Seq::empty()
    } else if c.tag@ == "debug"@ {
        match debug_link(c, p) {
            Err(w) => seq![w],
            Ok(_) => Seq::empty(),
        }
    } else {
        Seq::empty()
    }
}

/// What reading the first `k` children of `<device>` element `e` reports.
pub open spec fn device_warnings_upto(e: Element, k: nat) -> Seq<PdscError>
    decreases k,
{
    if k == 0 {
        Seq::empty()
    } else {
        device_warnings_upto(e, (k - 1) as nat) + leaf_warnings(e.children@[k - 1], e)
    }
}

/// What reading `<device>` element `e` reports.
pub open spec fn device_warnings(e: Element) -> Seq<PdscError> {
    device_warnings_upto(e, e.children@.len())
}

/// What reading the first `k` children of `<subFamily>` element `e`
/// reports, its devices' reports included.
pub open spec fn sub_family_warnings_upto(e: Element, k: nat) -> Seq<PdscError>
    decreases k,
{
    if k == 0 {
        Seq::empty()
    } else {
        let c = e.children@[k - 1];
        sub_family_warnings_upto(e, (k - 1) as nat) + (if c.tag@ == "device"@ {
            device_warnings(c)
        } else {
            Seq::empty()
        }) + leaf_warnings(c, e)
    }
}

/// What reading `<subFamily>` element `e` reports.
pub open spec fn sub_family_warnings(e: Element) -> Seq<PdscError> {
    sub_family_warnings_upto(e, e.children@.len())
}

/// What reading the first `k` children of `<family>` element `e` reports,
/// its subfamilies' and devices' reports included.
pub open spec fn family_warnings_upto(e: Element, k: nat) -> Seq<PdscError>
    decreases k,
{
    if k == 0 {
        Seq::empty()
    } else {
        let c = e.children@[k - 1];
        family_warnings_upto(e, (k - 1) as nat) + (if c.tag@ == "subFamily"@ {
            sub_family_warnings(c)
        } else if c.tag@ == "device"@ {
            device_warnings(c)
        } else {
            Seq::empty()
        }) + leaf_warnings(c, e)
    }
}

/// What reading `<family>` element `e` reports.
pub open spec fn family_warnings(e: Element) -> Seq<PdscError> {
    family_warnings_upto(e, e.children@.len())
}

/// What reading the first `k` children of `<devices>` element `e` reports.
pub open spec fn catalog_warnings_upto(e: Element, k: nat) -> Seq<PdscError>
    decreases k,
{
    if k == 0 {
        Seq::empty()
    } else {
        let c = e.children@[k - 1];
        catalog_warnings_upto(e, (k - 1) as nat) + if c.tag@ == "family"@ {
            family_warnings(c)
        } else {
            Seq::empty()
        }
    }
}

/// What reading `<devices>` element `e` reports.
pub open spec fn catalog_warnings(e: Element) -> Seq<PdscError> {
    catalog_warnings_upto(e, e.children@.len())
}

/// Reads child `c` of element `p` into `b` where it is a `<memory>`,
/// `<algorithm>`, `<processor>` or `<debug>`; an element that cannot be read
/// is skipped and its error added to `warnings`.
fn attach_leaf(b: &mut DeviceBuilder, c: &Element, p: &Element, warnings: &mut Vec<PdscError>)
    ensures
        final(b)@ == attach(old(b)@, *c, *p),
        final(warnings)@ == old(warnings)@ + leaf_warnings(*c, *p),
{
    let ghost w0 = warnings@;
    let ghost m0 = b@;
    if c.has_tag("memory") {
        match memory_from_elem(c) {
            Ok((name, mem)) => b.add_memory(name, mem),
            Err(err) => warnings.push(err),
        }
        assert(warnings@ =~= w0 + leaf_warnings(*c, *p));
        assert(b@ == attach(m0, *c, *p));
    } else if c.has_tag("algorithm") {
        match Algorithm::from_elem(c) {
            Ok(alg) => b.add_algorithm(alg),
            Err(err) => warnings.push(err),
        }
        assert(warnings@ =~= w0 + leaf_warnings(*c, *p));
        assert(b@ == attach(m0, *c, *p));
    } else if c.has_tag("processor") {
        let ps = ProcessorsBuilder::from_elem(c);
        proof {
            if let Some(s) = m0.processor {
                assert(s + ps.0@ =~= s.push(processor_of(*c)));
            }
        }
        b.add_processor(ps);
        assert(b@ == attach(m0, *c, *p));
        assert(warnings@ =~= w0 + leaf_warnings(*c, *p));
    } else if c.has_tag("debug") {
        match DebugsBuilder::from_elem_and_parent(c, p) {
            Ok(d) => {
                assert(d.0@ =~= seq![d.0@[0]]);
                assert(m0.debugs + d.0@ =~= m0.debugs.push(d.0@[0]));
                b.add_debug(d);
            },
            Err(err) => warnings.push(err),
        }
        assert(b@ == attach(m0, *c, *p));
        assert(warnings@ =~= w0 + leaf_warnings(*c, *p));
    } else {
        assert(warnings@ =~= w0 + leaf_warnings(*c, *p));
    }
}

/// Each builder of `bs` merged with `parent`, in order.
fn inherit_each(bs: Vec<DeviceBuilder>, parent: &DeviceBuilder) -> (r: Vec<DeviceBuilder>)
    ensures
        views(r@) == inherit_all(views(bs@), parent@),
{
    let ghost all = bs@;
    let mut rest = bs;
    let mut out: Vec<DeviceBuilder> = Vec::new();
    let n = rest.len();
    let mut k: usize = 0;
    while k < n
        invariant
            n == all.len(),
            k <= n,
            rest@ == all.subrange(k as int, n as int),
            views(out@) == inherit_all(views(all), parent@).subrange(0, k as int),
        decreases n - k,
    {
        let v = rest.remove(0);
        assert(rest@ =~= all.subrange(k + 1, n as int));
        let ghost before = out@;
        match v.add_parent(parent) {
            Ok(m) => {
                out.push(m);
            },
            Err(_) => {},
        }
        assert(views(out@) =~= inherit_all(views(all), parent@).subrange(0, k + 1)) by {
            assert(views(out@) =~= views(before).push(out@[k as int]@));
        }
        k += 1;
    }
    assert(inherit_all(views(all), parent@).subrange(0, n as int) =~= inherit_all(views(all), parent@));
    out
}

/// The builders that `<device>` element `e` yields (see `device_models`);
/// what cannot be read is reported in `warnings`.
pub fn parse_device(e: &Element, warnings: &mut Vec<PdscError>) -> (r: Vec<DeviceBuilder>)
    ensures
        views(r@) == device_models(*e),
        final(warnings)@ == old(warnings)@ + device_warnings(*e),
{
    let ghost w0 = warnings@;
    let mut device = DeviceBuilder::from_elem(e);
    let mut variants: Vec<DeviceBuilder> = Vec::new();
    let n = e.children.len();
    let mut i: usize = 0;
    assert(views(variants@) =~= fresh_variants(e.children@.subrange(0, 0)));
    while i < n
        invariant
            n == e.children@.len(),
            i <= n,
            device@ == level_upto(*e, i as nat),
            views(variants@) == fresh_variants(e.children@.subrange(0, i as int)),
            warnings@ == w0 + device_warnings_upto(*e, i as nat),
        decreases n - i,
    {
        let c = &e.children[i];
        let ghost next = e.children@.subrange(0, i + 1);
        assert(next.drop_last() =~= e.children@.subrange(0, i as int));
        let ghost before = variants@;
        if c.has_tag("variant") {
            variants.push(DeviceBuilder::from_elem(c));
            assert(views(variants@) =~= views(before).push(fresh(*c)));
        }
        attach_leaf(&mut device, c, e, warnings);
        assert(warnings@ =~= w0 + device_warnings_upto(*e, (i + 1) as nat));
        i += 1;
    }
    assert(e.children@.subrange(0, n as int) =~= e.children@);
    if variants.len() == 0 {
        let r = vec![device];
        assert(views(r@) =~= seq![level(*e)]);
        r
    } else {
        inherit_each(variants, &device)
    }
}

/// The builders that `<subFamily>` element `e` yields (see
/// `sub_family_models`); what cannot be read is reported in `warnings`.
pub fn parse_sub_family(e: &Element, warnings: &mut Vec<PdscError>) -> (r: Vec<DeviceBuilder>)
    ensures
        views(r@) == sub_family_models(*e),
        final(warnings)@ == old(warnings)@ + sub_family_warnings(*e),
{
    let ghost w0 = warnings@;
    let mut sub_family_device = DeviceBuilder::from_elem(e);
    let mut devices: Vec<DeviceBuilder> = Vec::new();
    let n = e.children.len();
    let mut i: usize = 0;
    assert(views(devices@) =~= devices_below(e.children@.subrange(0, 0)));
    while i < n
        invariant
            n == e.children@.len(),
            i <= n,
            sub_family_device@ == level_upto(*e, i as nat),
            views(devices@) == devices_below(e.children@.subrange(0, i as int)),
            warnings@ == w0 + sub_family_warnings_upto(*e, i as nat),
        decreases n - i,
    {
        let c = &e.children[i];
        let ghost next = e.children@.subrange(0, i + 1);
        assert(next.drop_last() =~= e.children@.subrange(0, i as int));
        let ghost before = devices@;
        if c.has_tag("device") {
            let mut found = parse_device(c, warnings);
            let ghost block = found@;
            devices.append(&mut found);
            assert(views(devices@) =~= views(before) + views(block));
        }
        attach_leaf(&mut sub_family_device, c, e, warnings);
        assert(warnings@ =~= w0 + sub_family_warnings_upto(*e, (i + 1) as nat));
        i += 1;
    }
    assert(e.children@.subrange(0, n as int) =~= e.children@);
    inherit_each(devices, &sub_family_device)
}

/// What building each leaf device of `<family>` element `e` gives, in order:
/// a device that cannot be built is reported by its error and does not keep
/// the others from being built.
pub fn parse_family(e: &Element, warnings: &mut Vec<PdscError>) -> (r: Vec<Result<Device, PdscError>>)
    ensures
        all_built(family_models(*e), r@),
        final(warnings)@ == old(warnings)@ + family_warnings(*e),
{
    let ghost w0 = warnings@;
    let mut family_device = DeviceBuilder::from_elem(e);
    let mut all_devices: Vec<DeviceBuilder> = Vec::new();
    let n = e.children.len();
    let mut i: usize = 0;
    assert(views(all_devices@) =~= family_members(e.children@.subrange(0, 0)));
    while i < n
        invariant
            n == e.children@.len(),
            i <= n,
            family_device@ == level_upto(*e, i as nat),
            views(all_devices@) == family_members(e.children@.subrange(0, i as int)),
            warnings@ == w0 + family_warnings_upto(*e, i as nat),
        decreases n - i,
    {
        let c = &e.children[i];
        let ghost next = e.children@.subrange(0, i + 1);
        assert(next.drop_last() =~= e.children@.subrange(0, i as int));
        let ghost before = all_devices@;
        if c.has_tag("subFamily") {
            let mut found = parse_sub_family(c, warnings);
            let ghost block = found@;
            all_devices.append(&mut found);
            assert(views(all_devices@) =~= views(before) + views(block));
        } else if c.has_tag("device") {
            let mut found = parse_device(c, warnings);
            let ghost block = found@;
            all_devices.append(&mut found);
            assert(views(all_devices@) =~= views(before) + views(block));
        }
        attach_leaf(&mut family_device, c, e, warnings);
        assert(warnings@ =~= w0 + family_warnings_upto(*e, (i + 1) as nat));
        i += 1;
    }
    assert(e.children@.subrange(0, n as int) =~= e.children@);
    let merged = inherit_each(all_devices, &family_device);
    let ghost ms = views(merged@);
    assert(ms.subrange(0, ms.len() as int) =~= ms);
    let mut rest = merged;
    let m = rest.len();
    let mut out: Vec<Result<Device, PdscError>> = Vec::new();
    let mut k: usize = 0;
    while k < m
        invariant
            m == ms.len(),
            ms == family_models(*e),
            k <= m,
            views(rest@) == ms.subrange(k as int, m as int),
            rest@.len() == m - k,
            out@.len() == k,
            forall|j: int| 0 <= j < k ==> built_as(ms[j], #[trigger] out@[j]),
        decreases m - k,
    {
        let ghost r0 = rest@;
        let b = rest.remove(0);
        assert(views(r0)[0] == b@);
        assert(views(rest@) =~= ms.subrange(k + 1, m as int)) by {
            assert(views(rest@) =~= views(r0).subrange(1, views(r0).len() as int));
        }
        out.push(b.build());
        k += 1;
    }
    out
}

/// The builders of the leaf devices of the `<family>` elements among `cs`.
pub open spec fn all_families(cs: Seq<Element>) -> Seq<BuilderModel>
    decreases cs.len(),
{
    if cs.len() == 0 {
        Seq::empty()
    } else if cs.last().tag@ == "family"@ {
        all_families(cs.drop_last()) + family_models(cs.last())
    } else {
        all_families(cs.drop_last())
    }
}

/// The devices of `rs` by name; a later device of a name replaces an
/// earlier one, and errors are left out.
pub open spec fn catalog(rs: Seq<Result<Device, PdscError>>) -> Map<Seq<char>, Device>
    decreases rs.len(),
{
    if rs.len() == 0 {
        Map::empty()
    } else {
        match rs.last() {
            Ok(d) => catalog(rs.drop_last()).insert(d.name@, d),
            Err(_) => catalog(rs.drop_last()),
        }
    }
}

/// What building every leaf device of every `<family>` child of `<devices>`
/// element `e` gives, family after family.
pub fn parse_devices(e: &Element, warnings: &mut Vec<PdscError>) -> (r: Vec<Result<Device, PdscError>>)
    ensures
        all_built(all_families(e.children@), r@),
        final(warnings)@ == old(warnings)@ + catalog_warnings(*e),
{
    let ghost w0 = warnings@;
    let n = e.children.len();
    let mut out: Vec<Result<Device, PdscError>> = Vec::new();
    let mut i: usize = 0;
    assert(all_families(e.children@.subrange(0, 0)) =~= Seq::<BuilderModel>::empty());
    while i < n
        invariant
            n == e.children@.len(),
            i <= n,
            all_built(all_families(e.children@.subrange(0, i as int)), out@),
            warnings@ == w0 + catalog_warnings_upto(*e, i as nat),
        decreases n - i,
    {
        let c = &e.children[i];
        let ghost next = e.children@.subrange(0, i + 1);
        assert(next.drop_last() =~= e.children@.subrange(0, i as int));
        if c.has_tag("family") {
            let ghost before = out@;
            let mut found = parse_family(c, warnings);
            let ghost block = found@;
            out.append(&mut found);
            let ghost ms = all_families(next);
            let ghost m0 = all_families(e.children@.subrange(0, i as int));
            assert(ms == m0 + family_models(*c));
            assert forall|j: int| 0 <= j < out@.len() implies built_as(ms[j], #[trigger] out@[j]) by {
                if j < before.len() {
                    assert(out@[j] == before[j]);
                    assert(ms[j] == m0[j]);
                } else {
                    assert(out@[j] == block[j - before.len()]);
                    assert(ms[j] == family_models(*c)[j - before.len()]);
                }
            }
        }
        assert(warnings@ =~= w0 + catalog_warnings_upto(*e, (i + 1) as nat));
        i += 1;
    }
    assert(e.children@.subrange(0, n as int) =~= e.children@);
    out
}

/// The catalog of devices, keyed by device name.
#[derive(Debug)]
pub struct Devices(Keyed<Device>);

impl View for Devices {
    type V = Map<Seq<char>, Device>;

    closed spec fn view(&self) -> Map<Seq<char>, Device> {
        self.0@
    }
}

impl Devices {
    /// An empty catalog.
    pub fn new() -> (r: Devices)
        ensures
            r@ == Map::<Seq<char>, Device>::empty(),
    {
        Devices(Keyed::new())
    }

    /// Files `d` under its name, replacing a device of the same name.
    pub fn insert(&mut self, d: Device)
        ensures
            final(self)@ == old(self)@.insert(d.name@, d),
    {
        let name = d.name.clone();
        self.0.insert(name, d);
    }

    /// The device called `name`.
    pub fn get(&self, name: &str) -> (r: Option<&Device>)
        ensures
            r is Some <==> self@.contains_key(name@),
            r matches Some(d) ==> self@[name@] == *d,
    {
        self.0.get(name)
    }

    /// Whether a device is called `name`.
    pub fn contains_key(&self, name: &str) -> (r: bool)
        ensures
            r == self@.contains_key(name@),
    {
        self.0.contains_key(name)
    }

    /// The number of devices.
    pub fn len(&self) -> (r: usize)
        ensures
            r == self@.dom().len(),
    {
        self.0.len()
    }

    /// The devices with their names, one per name.
    pub fn entries(&self) -> (r: &Vec<(String, Device)>)
        ensures
            entries_map(r@) == self@,
            keys_unique(r@),
    {
        self.0.entries()
    }

    /// The catalog of the devices among `rs`, a later one winning over an
    /// earlier one of the same name.
    pub fn from_results(rs: Vec<Result<Device, PdscError>>) -> (r: Devices)
        ensures
            r@ == catalog(rs@),
    {
        let ghost all = rs@;
        let mut out = Devices::new();
        let mut rest = rs;
        let n = rest.len();
        let mut k: usize = 0;
        assert(all.subrange(0, 0) =~= Seq::<Result<Device, PdscError>>::empty());
        assert(all.subrange(0, n as int) =~= all);
        while k < n
            invariant
                n == all.len(),
                k <= n,
                rest@ == all.subrange(k as int, n as int),
                out@ == catalog(all.subrange(0, k as int)),
            decreases n - k,
        {
            let ghost next = all.subrange(0, k + 1);
            assert(next.drop_last() =~= all.subrange(0, k as int));
            let item = rest.remove(0);
            assert(rest@ =~= all.subrange(k + 1, n as int));
            match item {
                Ok(d) => out.insert(d),
                Err(_) => {},
            }
            k += 1;
        }
        out
    }

    /// Reads the catalog under `<devices>` element `e`: every leaf device of
    /// every `<family>`, by name, a later one winning over an earlier one of
    /// the same name; a device that cannot be built is left out.
    pub fn from_elem(e: &Element) -> (r: Devices)
        ensures
            exists|rs: Seq<Result<Device, PdscError>>|
                all_built(all_families(e.children@), rs) && r@ == #[trigger] catalog(rs),
    {
        let mut warnings: Vec<PdscError> = Vec::new();
        Devices::from_elem_reporting(e, &mut warnings)
    }

    /// As `from_elem`, reporting in `warnings` each element that was skipped
    /// because it could not be read.
    pub fn from_elem_reporting(e: &Element, warnings: &mut Vec<PdscError>) -> (r: Devices)
        ensures
            exists|rs: Seq<Result<Device, PdscError>>|
                all_built(all_families(e.children@), rs) && r@ == #[trigger] catalog(rs),
            final(warnings)@ == old(warnings)@ + catalog_warnings(*e),
    {
        let rs = parse_devices(e, warnings);
        let ghost s = rs@;
        let r = Devices::from_results(rs);
        assert(all_built(all_families(e.children@), s) && r@ == catalog(s));
        r
    }
}

} // verus!
