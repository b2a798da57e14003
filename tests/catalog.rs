use cmsis_pack::text::parse_decimal;
use cmsis_pack::{
    parse_family, AccessPort, Core, Devices, Element, MemoryPermissions, PdscError, FPU, MPU,
};

fn el(tag: &str, attrs: &[(&str, &str)], children: Vec<Element>) -> Element {
    let mut e = Element::new(tag.to_string());
    for (k, v) in attrs {
        e = e.with_attribute(k.to_string(), v.to_string());
    }
    for c in children {
        e = e.with_child(c);
    }
    e
}

fn devices(families: Vec<Element>) -> Devices {
    Devices::from_elem(&el("devices", &[], families))
}

#[test]
fn s1_minimal_family_and_device() {
    let tree = devices(vec![el(
        "family",
        &[("Dfamily", "F1"), ("Dvendor", "V")],
        vec![
            el("processor", &[("Dcore", "Cortex-M4"), ("Dfpu", "SP_FPU")], vec![]),
            el(
                "device",
                &[("Dname", "D1")],
                vec![el("memory", &[("id", "IROM1"), ("start", "0x0"), ("size", "0x1000")], vec![])],
            ),
        ],
    )]);
    let d = tree.get("D1").expect("device D1");
    assert_eq!(d.name, "D1");
    assert_eq!(d.family, "F1");
    assert_eq!(d.vendor.as_deref(), Some("V"));
    assert_eq!(d.sub_family, None);
    assert_eq!(d.processors.len(), 1);
    let p = &d.processors[0];
    assert_eq!(p.core, Core::CortexM4);
    assert_eq!(p.fpu, FPU::SinglePrecision);
    assert_eq!(p.mpu, MPU::NotPresent);
    assert_eq!(p.unit, 0);
    assert_eq!(p.dp, 0);
    assert_eq!(p.ap, AccessPort::Index(0));
    let m = d.memories.get("IROM1").expect("memory IROM1");
    assert_eq!(m.start, 0);
    assert_eq!(m.size, 0x1000);
    assert!(m.access.read && m.access.execute && !m.access.write);
    assert!(!m.startup && !m.default);
}

#[test]
fn s2_memory_override() {
    let tree = devices(vec![el(
        "family",
        &[("Dfamily", "F")],
        vec![
            el("processor", &[("Dcore", "Cortex-M0")], vec![]),
            el("memory", &[("id", "IRAM1"), ("start", "0x1000"), ("size", "0x100")], vec![]),
            el(
                "device",
                &[("Dname", "D")],
                vec![el("memory", &[("id", "IRAM1"), ("start", "0x2000"), ("size", "0x200")], vec![])],
            ),
        ],
    )]);
    let m = tree.get("D").unwrap().memories.get("IRAM1").unwrap();
    assert_eq!(m.start, 0x2000);
    assert_eq!(m.size, 0x200);
    assert!(m.access.read && m.access.write && !m.access.execute);
}

#[test]
fn s3_dual_unit_processor() {
    let tree = devices(vec![el(
        "family",
        &[("Dfamily", "F")],
        vec![el(
            "device",
            &[("Dname", "D")],
            vec![el("processor", &[("Dcore", "Cortex-M7"), ("Punits", "2"), ("Pname", "CM7")], vec![])],
        )],
    )]);
    let ps = &tree.get("D").unwrap().processors;
    assert_eq!(ps.len(), 2);
    assert_eq!(ps[0].unit, 0);
    assert_eq!(ps[1].unit, 1);
    for p in ps {
        assert_eq!(p.name.as_deref(), Some("CM7"));
        assert_eq!(p.core, Core::CortexM7);
    }
}

#[test]
fn s4_debug_cross_reference() {
    let tree = devices(vec![el(
        "family",
        &[("Dfamily", "F")],
        vec![el(
            "device",
            &[("Dname", "D")],
            vec![
                el("processor", &[("Dcore", "Cortex-M33"), ("Pname", "CM33")], vec![]),
                el("debug", &[("__apid", "1"), ("svd", "x.svd")], vec![]),
                el("accessportV2", &[("__apid", "1"), ("__dp", "0"), ("address", "0xE00FE000")], vec![]),
            ],
        )],
    )]);
    let ps = &tree.get("D").unwrap().processors;
    assert_eq!(ps.len(), 1);
    assert_eq!(ps[0].ap, AccessPort::Address(0xE00FE000));
    assert_eq!(ps[0].dp, 0);
    assert_eq!(ps[0].svd.as_deref(), Some("x.svd"));
}

#[test]
fn s5_variants_inherit() {
    let tree = devices(vec![el(
        "family",
        &[("Dfamily", "F")],
        vec![el(
            "device",
            &[("Dname", "D"), ("Dvendor", "V")],
            vec![
                el("processor", &[("Dcore", "Cortex-M3")], vec![]),
                el("memory", &[("id", "IROM1"), ("start", "0"), ("size", "16")], vec![]),
                el("variant", &[("Dvariant", "D-A")], vec![]),
                el("variant", &[("Dvariant", "D-B")], vec![]),
            ],
        )],
    )]);
    assert!(!tree.contains_key("D"));
    for name in ["D-A", "D-B"] {
        let d = tree.get(name).expect("variant");
        assert_eq!(d.name, name);
        assert_eq!(d.vendor.as_deref(), Some("V"));
        assert_eq!(d.processors.len(), 1);
        assert_eq!(d.processors[0].core, Core::CortexM3);
        assert_eq!(d.memories.get("IROM1").unwrap().size, 16);
    }
}

#[test]
fn s6_rom_ram_heuristic() {
    let tree = devices(vec![el(
        "family",
        &[("Dfamily", "F")],
        vec![
            el("processor", &[("Dcore", "Cortex-M0+")], vec![]),
            el(
                "device",
                &[("Dname", "D")],
                vec![
                    el("memory", &[("id", "MyROM"), ("start", "0"), ("size", "0x10")], vec![]),
                    el("memory", &[("id", "MyRAM"), ("start", "0"), ("size", "0x10")], vec![]),
                    el("memory", &[("id", "Flash"), ("start", "0"), ("size", "0x10")], vec![]),
                    el("memory", &[("name", "Other"), ("access", "rwx"), ("start", "0"), ("size", "1")], vec![]),
                ],
            ),
        ],
    )]);
    let d = tree.get("D").unwrap();
    assert_eq!(d.processors[0].core, Core::CortexM0Plus);
    let rom = d.memories.get("MyROM").unwrap().access;
    assert!(rom.read && rom.execute && !rom.write);
    let ram = d.memories.get("MyRAM").unwrap().access;
    assert!(ram.read && ram.write && !ram.execute);
    let flash = d.memories.get("Flash").unwrap().access;
    assert_eq!(flash, MemoryPermissions::from_str(""));
    let other = d.memories.get("Other").unwrap().access;
    assert!(other.read && other.write && other.execute && !other.peripheral);
}

#[test]
fn debug_on_device_wins_over_family() {
    let tree = devices(vec![el(
        "family",
        &[("Dfamily", "F")],
        vec![
            el("debug", &[("Pname", "C"), ("Punit", "0"), ("svd", "family.svd"), ("__dp", "1")], vec![]),
            el(
                "device",
                &[("Dname", "D")],
                vec![
                    el("processor", &[("Dcore", "Cortex-M4"), ("Pname", "C")], vec![]),
                    el("debug", &[("Pname", "C"), ("Punit", "0"), ("svd", "device.svd")], vec![]),
                ],
            ),
        ],
    )]);
    let p = &tree.get("D").unwrap().processors[0];
    assert_eq!(p.svd.as_deref(), Some("device.svd"));
    // The device entry gives no debug port, so the family entry supplies it.
    assert_eq!(p.dp, 1);
}

#[test]
fn debug_entry_for_other_processor_is_ignored() {
    let tree = devices(vec![el(
        "family",
        &[("Dfamily", "F")],
        vec![el(
            "device",
            &[("Dname", "D")],
            vec![
                el("processor", &[("Dcore", "Cortex-M4"), ("Pname", "A"), ("Punits", "2")], vec![]),
                el("debug", &[("Pname", "B"), ("svd", "b.svd")], vec![]),
                el("debug", &[("Punit", "1"), ("svd", "unit1.svd")], vec![]),
            ],
        )],
    )]);
    let ps = &tree.get("D").unwrap().processors;
    assert_eq!(ps[0].svd, None);
    assert_eq!(ps[1].svd.as_deref(), Some("unit1.svd"));
}

#[test]
fn memory_precedence_family_device() {
    let tree = devices(vec![el(
        "family",
        &[("Dfamily", "F")],
        vec![
            el("processor", &[("Dcore", "SC000")], vec![]),
            el("memory", &[("id", "IROM1"), ("start", "0x100"), ("size", "0x10"), ("startup", "1")], vec![]),
            el("memory", &[("id", "IROM2"), ("start", "0x200"), ("size", "0x20")], vec![]),
            el(
                "subFamily",
                &[("DsubFamily", "S")],
                vec![el(
                    "device",
                    &[("Dname", "D")],
                    vec![el("memory", &[("id", "IROM1"), ("start", "0x300"), ("size", "0x30"), ("default", "true")], vec![])],
                )],
            ),
        ],
    )]);
    let d = tree.get("D").unwrap();
    assert_eq!(d.sub_family.as_deref(), Some("S"));
    let own = d.memories.get("IROM1").unwrap();
    assert_eq!((own.start, own.size, own.startup, own.default), (0x300, 0x30, false, true));
    let inherited = d.memories.get("IROM2").unwrap();
    assert_eq!((inherited.start, inherited.size), (0x200, 0x20));
}

#[test]
fn permissions_decoding() {
    let all = MemoryPermissions::from_str("rwxpsnc");
    assert!(all.read && all.write && all.execute && all.peripheral);
    assert!(all.secure && all.non_secure && all.non_secure_callable);
    let none = MemoryPermissions::from_str("");
    assert!(!none.read && !none.write && !none.execute && !none.peripheral);
    assert!(!none.secure && !none.non_secure && !none.non_secure_callable);
    assert_eq!(MemoryPermissions::from_str("rzq?x"), MemoryPermissions::from_str("rx"));
    assert_eq!(MemoryPermissions::for_region_id("IROM1"), MemoryPermissions::from_str("rx"));
    assert_eq!(MemoryPermissions::for_region_id("IRAM1"), MemoryPermissions::from_str("rw"));
}

#[test]
fn algorithm_path_is_normalized() {
    let tree = devices(vec![el(
        "family",
        &[("Dfamily", "F")],
        vec![
            el("processor", &[("Dcore", "Cortex-M4")], vec![]),
            el("algorithm", &[("name", "Flash\\Sub\\algo.FLM"), ("start", "0x08000000"), ("size", "0x100000")], vec![]),
            el(
                "device",
                &[("Dname", "D")],
                vec![el(
                    "algorithm",
                    &[("name", "Own\\a.FLM"), ("start", "0"), ("size", "1"), ("RAMstart", "0x20000000"), ("RAMsize", "0x800"), ("default", "1"), ("style", "CMSIS")],
                    vec![],
                )],
            ),
        ],
    )]);
    let algs = &tree.get("D").unwrap().algorithms;
    assert_eq!(algs.len(), 2);
    assert_eq!(algs[0].file_name, "Own/a.FLM");
    assert_eq!(algs[0].ram_start, Some(0x20000000));
    assert_eq!(algs[0].ram_size, Some(0x800));
    assert!(algs[0].default);
    assert_eq!(algs[0].style, cmsis_pack::AlgorithmStyle::CMSIS);
    assert_eq!(algs[1].file_name, "Flash/Sub/algo.FLM");
    assert_eq!(algs[1].start, 0x08000000);
    assert_eq!(algs[1].ram_start, None);
    assert!(!algs[1].default);
    assert_eq!(algs[1].style, cmsis_pack::AlgorithmStyle::Keil);
}

#[test]
fn hex_parsing_forms() {
    for start in ["0x20000000", "0X20000000", "536870912"] {
        let m = el("memory", &[("id", "IRAM1"), ("start", start), ("size", "1")], vec![]);
        let (name, mem) = cmsis_pack::memory::memory_from_elem(&m).unwrap();
        assert_eq!(name, "IRAM1");
        assert_eq!(mem.start, 0x20000000);
    }
    assert_eq!(cmsis_pack::text::parse_hex_or_decimal("0xffFF", u64::MAX), Some(0xffff));
    assert_eq!(cmsis_pack::text::parse_hex_or_decimal("0x", u64::MAX), None);
    assert_eq!(cmsis_pack::text::parse_hex_or_decimal("12a", u64::MAX), None);
    assert_eq!(cmsis_pack::text::parse_hex_or_decimal("0x10000000000000000", u64::MAX), None);
    assert_eq!(cmsis_pack::text::parse_hex_or_decimal("0xFFFFFFFFFFFFFFFF", u64::MAX), Some(u64::MAX));
}

#[test]
fn decimal_parsing_edges() {
    assert_eq!(parse_decimal("255", 255), Some(255));
    assert_eq!(parse_decimal("256", 255), None);
    assert_eq!(parse_decimal("+7", 255), Some(7));
    assert_eq!(parse_decimal("+", 255), None);
    assert_eq!(parse_decimal("", 255), None);
    assert_eq!(parse_decimal("-1", 255), None);
    assert_eq!(parse_decimal("18446744073709551615", u64::MAX), Some(u64::MAX));
    assert_eq!(parse_decimal("18446744073709551616", u64::MAX), None);
}

#[test]
fn access_port_v1_and_v2() {
    let v1 = el(
        "device",
        &[],
        vec![
            el("debug", &[("__apid", "7")], vec![]),
            el("accessportV1", &[("__apid", "7"), ("index", "2"), ("__dp", "0")], vec![]),
        ],
    );
    let b = cmsis_pack::DebugBuilder::from_elem_and_parent(&v1.children[0], &v1).unwrap();
    assert_eq!(b.ap, Some(AccessPort::Index(2)));
    assert_eq!(b.dp, Some(0));
    let v2 = el(
        "device",
        &[],
        vec![
            el("debug", &[("__apid", "7")], vec![]),
            el("accessportV2", &[("__apid", "7"), ("address", "0xE000EDF0")], vec![]),
        ],
    );
    let b = cmsis_pack::DebugBuilder::from_elem_and_parent(&v2.children[0], &v2).unwrap();
    assert_eq!(b.ap, Some(AccessPort::Address(0xE000EDF0)));
    assert_eq!(b.dp, None);
}

#[test]
fn debug_without_access_ports_reads_own_attributes() {
    let p = el("device", &[], vec![el("debug", &[("__apid", "3"), ("__dp", "1"), ("__ap", "4"), ("address", "100"), ("Punit", "1"), ("defaultResetSequence", "R")], vec![])]);
    let b = cmsis_pack::DebugBuilder::from_elem_and_parent(&p.children[0], &p).unwrap();
    assert_eq!(b.dp, Some(1));
    assert_eq!(b.ap, Some(AccessPort::Index(4)));
    assert_eq!(b.address, Some(100));
    assert_eq!(b.unit, Some(1));
    assert_eq!(b.default_reset_sequence.as_deref(), Some("R"));
}

#[test]
fn access_port_not_found() {
    let p = el(
        "device",
        &[],
        vec![el("debug", &[("__apid", "5")], vec![]), el("accessportV1", &[("__apid", "7"), ("index", "2")], vec![])],
    );
    let r = cmsis_pack::DebugBuilder::from_elem_and_parent(&p.children[0], &p);
    assert_eq!(r.unwrap_err(), PdscError::AccessPortNotFound(5));
    let q = el("device", &[], vec![el("debug", &[], vec![]), el("accessportV2", &[("__apid", "1")], vec![])]);
    let r = cmsis_pack::DebugBuilder::from_elem_and_parent(&q.children[0], &q);
    assert_eq!(r.unwrap_err(), PdscError::MissingAttribute);
}

#[test]
fn unknown_values_are_reported() {
    match Core::from_str("Cortex-X1") {
        Err(PdscError::UnknownValue { kind, value }) => {
            assert_eq!(kind, cmsis_pack::ValueKind::Core);
            assert_eq!(value, "Cortex-X1");
        }
        other => panic!("unexpected {:?}", other),
    }
    assert!(matches!(FPU::from_str("3"), Err(PdscError::UnknownValue { .. })));
    assert!(matches!(MPU::from_str("yes"), Err(PdscError::UnknownValue { .. })));
    assert!(matches!(cmsis_pack::AlgorithmStyle::from_str("GCC"), Err(PdscError::UnknownValue { .. })));
    assert!(matches!(cmsis_pack::kinds::parse_number_bool("yes"), Err(PdscError::UnknownValue { .. })));
}

#[test]
fn enum_vocabularies() {
    assert_eq!(Core::from_str("*"), Ok(Core::Any));
    assert_eq!(Core::from_str("Star-MC1"), Ok(Core::StarMC1));
    assert_eq!(Core::from_str("ARMV81MML"), Ok(Core::ARMV81MML));
    assert_eq!(Core::from_str("Cortex-A73"), Ok(Core::CortexA73));
    assert_eq!(FPU::from_str("FPU"), Ok(FPU::SinglePrecision));
    assert_eq!(FPU::from_str("1"), Ok(FPU::SinglePrecision));
    assert_eq!(FPU::from_str("0"), Ok(FPU::NotPresent));
    assert_eq!(FPU::from_str("None"), Ok(FPU::NotPresent));
    assert_eq!(FPU::from_str("2"), Ok(FPU::DoublePrecision));
    assert_eq!(FPU::from_str("DP_FPU"), Ok(FPU::DoublePrecision));
    assert_eq!(MPU::from_str("MPU"), Ok(MPU::Present));
    assert_eq!(MPU::from_str("1"), Ok(MPU::Present));
    assert_eq!(MPU::from_str("0"), Ok(MPU::NotPresent));
    assert_eq!(cmsis_pack::kinds::parse_number_bool("true"), Ok(true));
    assert_eq!(cmsis_pack::kinds::parse_number_bool("0"), Ok(false));
}

#[test]
fn leaf_errors() {
    let no_name = el("memory", &[("start", "0"), ("size", "1")], vec![]);
    assert_eq!(cmsis_pack::memory::memory_from_elem(&no_name).unwrap_err(), PdscError::MemoryWithoutName);
    let bad_start = el("memory", &[("id", "M"), ("start", "zz"), ("size", "1")], vec![]);
    assert_eq!(cmsis_pack::memory::memory_from_elem(&bad_start).unwrap_err(), PdscError::InvalidNumber);
    let no_size = el("memory", &[("id", "M"), ("start", "0")], vec![]);
    assert_eq!(cmsis_pack::memory::memory_from_elem(&no_size).unwrap_err(), PdscError::MissingAttribute);
    let no_file = el("algorithm", &[("start", "0"), ("size", "1")], vec![]);
    assert_eq!(cmsis_pack::Algorithm::from_elem(&no_file).unwrap_err(), PdscError::MissingAttribute);
}

#[test]
fn failing_devices_are_dropped_alone() {
    let family = el(
        "family",
        &[("Dfamily", "F")],
        vec![
            el("device", &[("Dname", "NoProc")], vec![]),
            el("device", &[("Dname", "NoCore")], vec![el("processor", &[("Dfpu", "1")], vec![])]),
            el("device", &[], vec![el("processor", &[("Dcore", "Cortex-M4")], vec![])]),
            el("device", &[("Dname", "Good")], vec![el("processor", &[("Dcore", "Cortex-M4")], vec![])]),
        ],
    );
    let mut warnings = Vec::new();
    let results = parse_family(&family, &mut warnings);
    assert!(warnings.is_empty());
    assert_eq!(results.len(), 4);
    assert_eq!(results[0].as_ref().unwrap_err(), &PdscError::DeviceWithoutProcessor("NoProc".to_string()));
    assert_eq!(results[1].as_ref().unwrap_err(), &PdscError::NoCore);
    assert_eq!(results[2].as_ref().unwrap_err(), &PdscError::DeviceWithoutName);
    assert_eq!(results[3].as_ref().unwrap().name, "Good");
    let tree = devices(vec![family]);
    assert!(tree.contains_key("Good"));
    assert!(!tree.contains_key("NoProc"));
    assert!(!tree.contains_key("NoCore"));
}

#[test]
fn device_without_family_fails() {
    let sub = el("subFamily", &[("DsubFamily", "S")], vec![el("device", &[("Dname", "D")], vec![el("processor", &[("Dcore", "Cortex-M4")], vec![])])]);
    let mut warnings = Vec::new();
    let builders = cmsis_pack::parse_sub_family(&sub, &mut warnings);
    assert!(warnings.is_empty());
    assert_eq!(builders.len(), 1);
    assert_eq!(builders[0].sub_family.as_deref(), Some("S"));
    let r = builders.into_iter().next().unwrap().build();
    assert_eq!(r.unwrap_err(), PdscError::DeviceWithoutFamily);
}

#[test]
fn duplicate_names_last_wins() {
    let tree = devices(vec![
        el("family", &[("Dfamily", "F1")], vec![el("device", &[("Dname", "D")], vec![el("processor", &[("Dcore", "Cortex-M0")], vec![])])]),
        el("family", &[("Dfamily", "F2")], vec![el("device", &[("Dname", "D")], vec![el("processor", &[("Dcore", "Cortex-M3")], vec![])])]),
    ]);
    let d = tree.get("D").unwrap();
    assert_eq!(d.family, "F2");
    assert_eq!(d.processors[0].core, Core::CortexM3);
}

#[test]
fn processors_merge_by_name() {
    let tree = devices(vec![el(
        "family",
        &[("Dfamily", "F")],
        vec![
            el("processor", &[("Dcore", "Cortex-M7"), ("Pname", "A"), ("Dfpu", "DP_FPU"), ("Dmpu", "MPU")], vec![]),
            el("processor", &[("Dcore", "Cortex-M4"), ("Pname", "B")], vec![]),
            el("device", &[("Dname", "D")], vec![el("processor", &[("Pname", "A"), ("Dfpu", "SP_FPU")], vec![])]),
        ],
    )]);
    let ps = &tree.get("D").unwrap().processors;
    assert_eq!(ps.len(), 2);
    assert_eq!(ps[0].name.as_deref(), Some("A"));
    assert_eq!(ps[0].core, Core::CortexM7);
    assert_eq!(ps[0].fpu, FPU::SinglePrecision);
    assert_eq!(ps[0].mpu, MPU::Present);
    assert_eq!(ps[1].name.as_deref(), Some("B"));
    assert_eq!(ps[1].core, Core::CortexM4);
}

#[test]
fn zero_units_emit_no_processor() {
    let family = el(
        "family",
        &[("Dfamily", "F")],
        vec![
            el("device", &[("Dname", "D")], vec![el("processor", &[("Punits", "0")], vec![])]),
            el(
                "device",
                &[("Dname", "E")],
                vec![
                    el("processor", &[("Punits", "0"), ("Pname", "A")], vec![]),
                    el("processor", &[("Dcore", "Cortex-M4"), ("Pname", "B")], vec![]),
                ],
            ),
        ],
    );
    let mut warnings = Vec::new();
    let results = parse_family(&family, &mut warnings);
    assert_eq!(results[0].as_ref().unwrap_err(), &PdscError::DeviceWithoutProcessor("D".to_string()));
    assert_eq!(results[1].as_ref().unwrap().processors.len(), 1);
    let tree = devices(vec![family]);
    assert!(!tree.contains_key("D"));
    let e = tree.get("E").unwrap();
    assert_eq!(e.processors.len(), 1);
    assert_eq!(e.processors[0].name.as_deref(), Some("B"));
}

#[test]
fn text_helpers() {
    assert_eq!(cmsis_pack::text::normalize_path("a\\b\\c"), "a/b/c");
    assert_eq!(cmsis_pack::text::normalize_path("a/b"), "a/b");
    assert!(cmsis_pack::text::str_contains("xIROMx", "ROM"));
    assert!(!cmsis_pack::text::str_contains("RO", "ROM"));
    assert!(cmsis_pack::text::str_eq("abc", "abc"));
    assert!(!cmsis_pack::text::str_eq("abc", "abd"));
}

#[test]
fn empty_catalog() {
    let tree = devices(vec![el("notAFamily", &[], vec![])]);
    assert!(!tree.contains_key(""));
    assert!(Devices::new().get("x").is_none());
}

#[test]
fn skipped_elements_are_reported_in_order() {
    let e = el(
        "devices",
        &[],
        vec![el(
            "family",
            &[("Dfamily", "F")],
            vec![
                el("processor", &[("Dcore", "Cortex-M4")], vec![]),
                el(
                    "device",
                    &[("Dname", "D")],
                    vec![
                        el("memory", &[("start", "0"), ("size", "1")], vec![]),
                        el("algorithm", &[("name", "a.FLM"), ("start", "x"), ("size", "1")], vec![]),
                        el("memory", &[("id", "IRAM1"), ("start", "0"), ("size", "4")], vec![]),
                    ],
                ),
                el("debug", &[("__apid", "9")], vec![]),
                el("accessportV1", &[("__apid", "1"), ("index", "0")], vec![]),
            ],
        )],
    );
    let mut warnings = Vec::new();
    let tree = Devices::from_elem_reporting(&e, &mut warnings);
    assert_eq!(
        warnings,
        vec![PdscError::MemoryWithoutName, PdscError::InvalidNumber, PdscError::AccessPortNotFound(9)]
    );
    let d = tree.get("D").unwrap();
    assert_eq!(d.memories.len(), 1);
    assert!(d.algorithms.is_empty());
    assert_eq!(tree.len(), 1);
}

#[test]
fn same_region_twice_keeps_one_entry() {
    let tree = devices(vec![el(
        "family",
        &[("Dfamily", "F")],
        vec![el(
            "device",
            &[("Dname", "D")],
            vec![
                el("processor", &[("Dcore", "Cortex-M4")], vec![]),
                el("memory", &[("id", "IRAM1"), ("start", "0"), ("size", "4")], vec![]),
                el("memory", &[("id", "IRAM2"), ("start", "8"), ("size", "4")], vec![]),
                el("memory", &[("id", "IRAM1"), ("start", "16"), ("size", "4")], vec![]),
            ],
        )],
    )]);
    let mems = &tree.get("D").unwrap().memories;
    assert_eq!(mems.len(), 2);
    assert_eq!(mems.get("IRAM1").unwrap().start, 16);
    let names: Vec<&str> = mems.entries().iter().map(|(k, _)| k.as_str()).collect();
    assert_eq!(names, vec!["IRAM1", "IRAM2"]);
}

#[test]
fn merge_memories_keeps_left_entries() {
    let mut lhs = cmsis_pack::Memories::new();
    let mut rhs = cmsis_pack::Memories::new();
    let mem = |start: u64| cmsis_pack::Memory {
        p_name: None,
        access: MemoryPermissions::from_str("rw"),
        start,
        size: 1,
        startup: false,
        default: false,
    };
    lhs.insert("A".to_string(), mem(1));
    rhs.insert("A".to_string(), mem(2));
    rhs.insert("B".to_string(), mem(3));
    let merged = cmsis_pack::merge_memories(lhs, &rhs);
    assert_eq!(merged.len(), 2);
    assert_eq!(merged.get("A").unwrap().start, 1);
    assert_eq!(merged.get("B").unwrap().start, 3);
}
