//! Properties that hold of every input, proved over the specifications of
//! the parsing and merging functions.
use vstd::prelude::*;

use crate::debug::{self, frozen_all};
use crate::device::{all_built, built_as, catalog, inherit, BuilderModel, Device};
use crate::memory::permissions_of;
use crate::processor::{
    absorbed, expanded, expansion, expansions, filled, grouped, key_index, lemma_expansions_len,
    merged_processors, name_key, or_else, resolved, unit_count, Processor, ProcessorBuilder,
};
use crate::kinds::PdscError;
use crate::text::{forward_slashes, hex_or_decimal_value};

verus! {

/// Every processor in the expansions of `bs` has the core of one of `bs`.
pub proof fn lemma_expanded_cores(bs: Seq<ProcessorBuilder>, ds: Seq<debug::Debug>, ps: Seq<Processor>)
    requires
        expansions(bs, ds, ps),
    ensures
        forall|i: int| 0 <= i < ps.len() ==> exists|j: int| 0 <= j < bs.len() && (#[trigger] bs[j]).core == Some((#[trigger] ps[i]).core),
    decreases bs.len(),
{
    if bs.len() > 0 {
        let u = unit_count(bs.last());
        let front = ps.subrange(0, ps.len() - u);
        let back = ps.subrange(ps.len() - u, ps.len() as int);
        lemma_expanded_cores(bs.drop_last(), ds, front);
        assert forall|i: int| 0 <= i < ps.len() implies exists|j: int| 0 <= j < bs.len() && (#[trigger] bs[j]).core == Some((#[trigger] ps[i]).core) by {
            if i < ps.len() - u {
                assert(ps[i] == front[i]);
                let j = choose|j: int| 0 <= j < bs.drop_last().len() && (#[trigger] bs.drop_last()[j]).core == Some(front[i].core);
                assert(bs[j] == bs.drop_last()[j]);
            } else {
                let k = i - (ps.len() - u);
                assert(ps[i] == back[k]);
                assert(expanded(bs.last(), ds, k as nat, back[k]));
                assert(bs[bs.len() - 1] == bs.last());
            }
        }
    }
}

/// A built device has at least one processor, and every processor has a
/// core, taken from one of the processor declarations the device inherited.
pub proof fn lemma_every_processor_has_core(m: BuilderModel, d: Device)
    requires
        built_as(m, Ok::<Device, PdscError>(d)),
    ensures
        m.processor is Some,
        d.processors@.len() > 0,
        forall|i: int| 0 <= i < d.processors@.len() ==> exists|j: int| 0 <= j < m.processor.unwrap().len() && (#[trigger] m.processor.unwrap()[j]).core == Some((#[trigger] d.processors@[i]).core),
{
    lemma_expanded_cores(m.processor.unwrap(), frozen_all(m.debugs), d.processors@);
    lemma_expansions_len(m.processor.unwrap(), frozen_all(m.debugs), d.processors@);
}

/// A processor declared with `Punits = N` expands into exactly the units
/// `0 .. N`, in order, each once, all under its name.
pub proof fn lemma_unit_expansion(b: ProcessorBuilder, ds: Seq<debug::Debug>, ps: Seq<Processor>)
    requires
        expansion(b, ds, ps),
    ensures
        ps.len() == unit_count(b),
        forall|i: int| 0 <= i < ps.len() ==> (#[trigger] ps[i]).unit == i && ps[i].name == b.name,
        forall|i: int, j: int| 0 <= i < ps.len() && 0 <= j < ps.len() && i != j ==> (#[trigger] ps[i]).unit != (#[trigger] ps[j]).unit,
{
    assert forall|i: int| 0 <= i < ps.len() implies (#[trigger] ps[i]).unit == i && ps[i].name == b.name by {
        assert(expanded(b, ds, i as nat, ps[i]));
    }
}

/// Where a child level and its parent both declare region `k`, the merged
/// builder keeps the child's region unchanged.
pub proof fn lemma_memory_precedence(child: BuilderModel, parent: BuilderModel, k: Seq<char>)
    requires
        child.memories.contains_key(k),
    ensures
        inherit(child, parent).memories.contains_key(k),
        inherit(child, parent).memories[k] == child.memories[k],
{
}

/// Resolving debug attributes over a child's entries followed by its
/// parent's gives, for each attribute, the child's value where the child's
/// entries give one and the parent's otherwise.
pub proof fn lemma_debug_child_first(c: Seq<debug::Debug>, p: Seq<debug::Debug>, name: Option<String>, unit: nat)
    ensures
        resolved(c + p, name, unit).dp == or_else(resolved(c, name, unit).dp, resolved(p, name, unit).dp),
        resolved(c + p, name, unit).ap == or_else(resolved(c, name, unit).ap, resolved(p, name, unit).ap),
        resolved(c + p, name, unit).address == or_else(resolved(c, name, unit).address, resolved(p, name, unit).address),
        resolved(c + p, name, unit).svd == or_else(resolved(c, name, unit).svd, resolved(p, name, unit).svd),
        resolved(c + p, name, unit).default_reset_sequence == or_else(
            resolved(c, name, unit).default_reset_sequence,
            resolved(p, name, unit).default_reset_sequence,
        ),
    decreases c.len(),
{
    if c.len() == 0 {
        assert(c + p =~= p);
    } else {
        assert((c + p).drop_first() =~= c.drop_first() + p);
        lemma_debug_child_first(c.drop_first(), p, name, unit);
    }
}

/// After a device level is merged with an enclosing level, the debug
/// attributes of each processor unit come from the device's own `<debug>`
/// entries wherever those give them.
pub proof fn lemma_debug_first_wins(child: BuilderModel, parent: BuilderModel, name: Option<String>, unit: nat)
    ensures
        resolved(frozen_all(inherit(child, parent).debugs), name, unit).svd == or_else(
            resolved(frozen_all(child.debugs), name, unit).svd,
            resolved(frozen_all(parent.debugs), name, unit).svd,
        ),
        resolved(frozen_all(inherit(child, parent).debugs), name, unit).dp == or_else(
            resolved(frozen_all(child.debugs), name, unit).dp,
            resolved(frozen_all(parent.debugs), name, unit).dp,
        ),
        resolved(frozen_all(inherit(child, parent).debugs), name, unit).ap == or_else(
            resolved(frozen_all(child.debugs), name, unit).ap,
            resolved(frozen_all(parent.debugs), name, unit).ap,
        ),
        resolved(frozen_all(inherit(child, parent).debugs), name, unit).address == or_else(
            resolved(frozen_all(child.debugs), name, unit).address,
            resolved(frozen_all(parent.debugs), name, unit).address,
        ),
        resolved(frozen_all(inherit(child, parent).debugs), name, unit).default_reset_sequence == or_else(
            resolved(frozen_all(child.debugs), name, unit).default_reset_sequence,
            resolved(frozen_all(parent.debugs), name, unit).default_reset_sequence,
        ),
{
    assert(frozen_all(child.debugs + parent.debugs) =~= frozen_all(child.debugs) + frozen_all(parent.debugs));
    lemma_debug_child_first(frozen_all(child.debugs), frozen_all(parent.debugs), name, unit);
}

/// A character outside `r w x p s n c` changes no permission.
pub proof fn lemma_unknown_permission_ignored(s: Seq<char>, c: char)
    requires
        c != 'r' && c != 'w' && c != 'x' && c != 'p' && c != 's' && c != 'n' && c != 'c',
    ensures
        permissions_of(s.push(c)) == permissions_of(s),
{
    assert forall|x: char| x != c implies (s.push(c).contains(x) <==> s.contains(x)) by {
        if s.push(c).contains(x) {
            let k = choose|k: int| 0 <= k < s.push(c).len() && s.push(c)[k] == x;
            assert(k < s.len());
            assert(s[k] == x);
        }
        if s.contains(x) {
            let k = choose|k: int| 0 <= k < s.len() && s[k] == x;
            assert(s.push(c)[k] == x);
        }
    }
}

/// A normalised path holds no backslash.
pub proof fn lemma_no_backslash(s: Seq<char>)
    ensures
        forall|i: int| 0 <= i < forward_slashes(s).len() ==> forward_slashes(s)[i] != '\\',
{
}

/// The `0x` prefix of a hexadecimal number may be written in either case.
pub proof fn lemma_hex_prefix_case(digits: Seq<char>, max: nat)
    ensures
        hex_or_decimal_value(seq!['0', 'x'] + digits, max) == hex_or_decimal_value(seq!['0', 'X'] + digits, max),
{
    let a = seq!['0', 'x'] + digits;
    let b = seq!['0', 'X'] + digits;
    assert(a.subrange(2, a.len() as int) =~= digits);
    assert(b.subrange(2, b.len() as int) =~= digits);
    assert(a[0] == '0' && a[1] == 'x');
    assert(b[0] == '0' && b[1] == 'X');
}

/// No two processors of `s` share a name (an absent name counting as one).
pub open spec fn names_unique(s: Seq<ProcessorBuilder>) -> bool {
    forall|i: int, j: int| 0 <= i < j < s.len() ==> name_key((#[trigger] s[i]).name) != name_key((#[trigger] s[j]).name)
}

/// `key_index` finds a processor of the name asked for, or there is none.
pub proof fn lemma_key_index(s: Seq<ProcessorBuilder>, k: Option<Seq<char>>)
    ensures
        key_index(s, k) matches Some(i) ==> 0 <= i < s.len() && name_key(s[i].name) == k,
        key_index(s, k) is None ==> forall|i: int| 0 <= i < s.len() ==> name_key((#[trigger] s[i]).name) != k,
    decreases s.len(),
{
    if s.len() > 0 {
        lemma_key_index(s.drop_last(), k);
        if key_index(s, k) is None {
            assert forall|i: int| 0 <= i < s.len() implies name_key((#[trigger] s[i]).name) != k by {
                if i < s.len() - 1 {
                    assert(s[i] == s.drop_last()[i]);
                }
            }
        }
        match key_index(s.drop_last(), k) {
            Some(i) => {
                assert(s[i] == s.drop_last()[i]);
            },
            None => {},
        }
    }
}

proof fn lemma_push_unique(s: Seq<ProcessorBuilder>, b: ProcessorBuilder)
    requires
        names_unique(s),
        forall|i: int| 0 <= i < s.len() ==> name_key((#[trigger] s[i]).name) != name_key(b.name),
    ensures
        names_unique(s.push(b)),
{
    assert forall|i: int, j: int| 0 <= i < j < s.push(b).len() implies name_key((#[trigger] s.push(b)[i]).name) != name_key((#[trigger] s.push(b)[j]).name) by {
        assert(s.push(b)[i] == s[i]);
        if j < s.len() {
            assert(s.push(b)[j] == s[j]);
        }
    }
}

proof fn lemma_update_unique(s: Seq<ProcessorBuilder>, k: int, b: ProcessorBuilder)
    requires
        names_unique(s),
        0 <= k < s.len(),
        name_key(s[k].name) == name_key(b.name),
    ensures
        names_unique(s.update(k, b)),
{
    assert forall|i: int, j: int| 0 <= i < j < s.update(k, b).len() implies name_key((#[trigger] s.update(k, b)[i]).name) != name_key((#[trigger] s.update(k, b)[j]).name) by {
        assert(name_key(s[i].name) != name_key(s[j].name));
    }
}

proof fn lemma_grouped_unique(cs: Seq<ProcessorBuilder>)
    ensures
        names_unique(grouped(cs)),
    decreases cs.len(),
{
    if cs.len() > 0 {
        let g = grouped(cs.drop_last());
        let b = cs.last();
        lemma_grouped_unique(cs.drop_last());
        lemma_key_index(g, name_key(b.name));
        match key_index(g, name_key(b.name)) {
            Some(i) => lemma_update_unique(g, i, b),
            None => lemma_push_unique(g, b),
        }
    }
}

proof fn lemma_absorbed_unique(base: Seq<ProcessorBuilder>, ps: Seq<ProcessorBuilder>)
    requires
        names_unique(base),
    ensures
        names_unique(absorbed(base, ps)),
    decreases ps.len(),
{
    if ps.len() > 0 {
        let a = absorbed(base, ps.drop_last());
        let p = ps.last();
        lemma_absorbed_unique(base, ps.drop_last());
        lemma_key_index(a, name_key(p.name));
        match key_index(a, name_key(p.name)) {
            Some(i) => lemma_update_unique(a, i, filled(a[i], p)),
            None => lemma_push_unique(a, p),
        }
    }
}

/// After a level's processors are merged with those of the level above,
/// there is at most one processor per name.
pub proof fn lemma_merged_processors_unique(child: Seq<ProcessorBuilder>, parent: Seq<ProcessorBuilder>)
    ensures
        names_unique(merged_processors(child, Some(parent))),
{
    lemma_grouped_unique(child);
    lemma_absorbed_unique(grouped(child), parent);
}

/// Every attribute that `a` gives, `b` gives with the same value.
pub open spec fn keeps_attributes(a: ProcessorBuilder, b: ProcessorBuilder) -> bool {
    &&& (a.core is Some ==> b.core == a.core)
    &&& (a.units is Some ==> b.units == a.units)
    &&& (a.name is Some ==> b.name == a.name)
    &&& (a.fpu is Some ==> b.fpu == a.fpu)
    &&& (a.mpu is Some ==> b.mpu == a.mpu)
}

proof fn lemma_absorbed_keeps(base: Seq<ProcessorBuilder>, ps: Seq<ProcessorBuilder>)
    ensures
        absorbed(base, ps).len() >= base.len(),
        forall|i: int| 0 <= i < base.len() ==> keeps_attributes(base[i], #[trigger] absorbed(base, ps)[i]),
    decreases ps.len(),
{
    if ps.len() > 0 {
        let a = absorbed(base, ps.drop_last());
        let p = ps.last();
        lemma_absorbed_keeps(base, ps.drop_last());
        lemma_key_index(a, name_key(p.name));
        assert forall|i: int| 0 <= i < base.len() implies keeps_attributes(base[i], #[trigger] absorbed(base, ps)[i]) by {
            assert(keeps_attributes(base[i], a[i]));
        }
    }
}

/// Merging a level's processors with those of the level above keeps, for
/// each processor the level declares (one per name), every attribute it
/// declares; the level above only fills what is missing.
pub proof fn lemma_child_attributes_kept(child: Seq<ProcessorBuilder>, parent: Seq<ProcessorBuilder>)
    ensures
        merged_processors(child, Some(parent)).len() >= grouped(child).len(),
        forall|i: int| 0 <= i < grouped(child).len() ==> keeps_attributes(grouped(child)[i], #[trigger] merged_processors(child, Some(parent))[i]),
{
    lemma_absorbed_keeps(grouped(child), parent);
}

/// Each device of the catalog of `rs` is one of `rs`, built from the
/// matching builder of `ms`.
pub proof fn lemma_catalog_built(ms: Seq<BuilderModel>, rs: Seq<Result<Device, PdscError>>, k: Seq<char>)
    requires
        all_built(ms, rs),
        catalog(rs).contains_key(k),
    ensures
        exists|i: int| 0 <= i < rs.len() && rs[i] == Ok::<Device, PdscError>(catalog(rs)[k]) && built_as(ms[i], #[trigger] rs[i]),
    decreases rs.len(),
{
    let n = rs.len() - 1;
    let last_names_k = match rs.last() {
        Ok(d) => d.name@ == k,
        Err(_) => false,
    };
    if last_names_k {
        assert(rs[n] == rs.last());
        assert(built_as(ms[n], rs[n]));
    } else {
        let ms0 = ms.drop_last();
        let rs0 = rs.drop_last();
        assert(all_built(ms0, rs0)) by {
            assert forall|i: int| 0 <= i < rs0.len() implies built_as(ms0[i], #[trigger] rs0[i]) by {
                assert(rs0[i] == rs[i] && ms0[i] == ms[i]);
                assert(built_as(ms[i], rs[i]));
            }
        }
        lemma_catalog_built(ms0, rs0, k);
        let i = choose|i: int| 0 <= i < rs0.len() && rs0[i] == Ok::<Device, PdscError>(catalog(rs0)[k]) && built_as(ms0[i], #[trigger] rs0[i]);
        assert(rs[i] == rs0[i] && ms[i] == ms0[i]);
    }
}

/// Every processor of every device in the catalog of `rs` has the core of
/// one of the processor declarations that device inherited.
pub proof fn lemma_catalog_processors_have_core(ms: Seq<BuilderModel>, rs: Seq<Result<Device, PdscError>>, k: Seq<char>)
    requires
        all_built(ms, rs),
        catalog(rs).contains_key(k),
    ensures
        exists|i: int|
            0 <= i < ms.len() && (#[trigger] ms[i]).processor is Some && (forall|p: int|
                0 <= p < catalog(rs)[k].processors@.len() ==> exists|j: int|
                    0 <= j < ms[i].processor.unwrap().len() && (#[trigger] ms[i].processor.unwrap()[j]).core == Some(
                        (#[trigger] catalog(rs)[k].processors@[p]).core,
                    )),
{
    lemma_catalog_built(ms, rs, k);
    let i = choose|i: int| 0 <= i < rs.len() && rs[i] == Ok::<Device, PdscError>(catalog(rs)[k]) && built_as(ms[i], #[trigger] rs[i]);
    lemma_every_processor_has_core(ms[i], catalog(rs)[k]);
}

} // verus!
