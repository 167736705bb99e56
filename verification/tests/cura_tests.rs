use build_printers::cura::{
    CuraExtruderV2, CuraV2, DefaultSetting, DetailedSettingsExtruderV2, DetailedSettingsV2,
    LongSetting, MachineSettingsExtruderV2, MachineSettingsV2, MetaDataV2, OverridesExtruderV2,
    OverridesV2, SettingsExtruderV2, SettingsV2,
};
use build_printers::catalog::{catalogue_lookups_end, merge_printers, GridAppsDefinition, MergeEvent};
use build_printers::cura::NozzleSize;
use build_printers::inherit::lookup_ends;
use build_printers::gridapps::{
    Command01, Extruder01, Extruder02, GridApps, GridApps01, GridApps02, GridAppsExtruder,
    Settings01,
};
use build_printers::named_map::NamedMap;
use build_printers::p3d::{P3dExtruder, P3dPrinter};
use build_printers::values::{F32Bits, TravelSpeed};

fn f(x: f32) -> F32Bits {
    F32Bits { bits: x.to_bits() }
}

fn set<T>(value: Option<T>, default_value: Option<T>) -> Option<DefaultSetting<T>> {
    Some(DefaultSetting { default_value, value })
}

fn long<T>(default_value: Option<T>) -> Option<LongSetting<T>> {
    Some(LongSetting { default_value })
}

fn empty_ext_overrides() -> OverridesExtruderV2 {
    OverridesExtruderV2 {
        machine_nozzle_size: None,
        machine_nozzle_offset_x: None,
        machine_nozzle_offset_y: None,
        material_diameter: None,
        machine_extruder_start_code: None,
        machine_extruder_end_code: None,
    }
}

fn base_extruder() -> CuraExtruderV2 {
    CuraExtruderV2 {
        inherits: None,
        overrides: None,
        settings: Some(SettingsExtruderV2 {
            machine_settings: MachineSettingsExtruderV2 {
                children: DetailedSettingsExtruderV2 {
                    machine_nozzle_size: long(Some(f(0.4))),
                    machine_nozzle_offset_x: long(Some(f(0.0))),
                    machine_nozzle_offset_y: long(Some(f(0.0))),
                    material_diameter: long(Some(f(2.85))),
                    machine_extruder_start_code: long(Some("".to_string())),
                    machine_extruder_end_code: long(Some("".to_string())),
                },
            },
        }),
    }
}

fn child_extruder() -> CuraExtruderV2 {
    let mut o = empty_ext_overrides();
    o.machine_nozzle_size = set(Some(f(0.6)), Some(f(0.5)));
    o.material_diameter = set(None, Some(f(1.75)));
    o.machine_extruder_start_code = set(None, None);
    CuraExtruderV2 { inherits: Some("fdmextruder".to_string()), overrides: Some(o), settings: None }
}

fn extruders() -> NamedMap<CuraExtruderV2> {
    let mut m = NamedMap::new();
    m.insert("fdmextruder".to_string(), base_extruder());
    m.insert("my_extruder".to_string(), child_extruder());
    m
}

#[test]
fn extruder_settings_are_inherited() {
    let all = extruders();
    let child = all.get("my_extruder").unwrap();
    // the override's value wins over its default
    assert_eq!(child.get_nozzle(&all), Some(f(0.6)));
    // an override with no value falls back to its default
    assert_eq!(child.get_filament(&all), Some(f(1.75)));
    // unset settings come from the parent
    assert_eq!(child.get_offset_x(&all), Some(f(0.0)));
    // an override with neither value nor default falls through to the parent too
    assert_eq!(child.get_select_gcode(&all), Some("".to_string()));
    assert_eq!(child.get_deselect_gcode(&all), Some("".to_string()));
    let base = all.get("fdmextruder").unwrap();
    assert_eq!(base.get_filament(&all), Some(f(2.85)));
}

#[test]
fn missing_parent_gives_nothing() {
    let mut all = NamedMap::new();
    all.insert("orphan".to_string(), CuraExtruderV2 {
        inherits: Some("nowhere".to_string()),
        overrides: None,
        settings: None,
    });
    let orphan = all.get("orphan").unwrap();
    assert_eq!(orphan.get_nozzle(&all), None);
    assert_eq!(orphan.get_select_gcode(&all), None);
}

fn empty_overrides() -> OverridesV2 {
    OverridesV2 {
        machine_name: None,
        machine_heated_bed: None,
        machine_width: None,
        machine_height: None,
        machine_depth: None,
        machine_center_is_zero: None,
        machine_start_gcode: None,
        machine_end_gcode: None,
        machine_shape: None,
        speed_travel: None,
    }
}

fn empty_detailed() -> DetailedSettingsV2 {
    DetailedSettingsV2 {
        machine_name: None,
        machine_heated_bed: None,
        machine_width: None,
        machine_height: None,
        machine_depth: None,
        machine_center_is_zero: None,
        machine_start_gcode: None,
        machine_end_gcode: None,
        machine_shape: None,
        speed_travel: None,
    }
}

fn trains(e: &str) -> Option<MetaDataV2> {
    let mut t = NamedMap::new();
    t.insert("0".to_string(), e.to_string());
    Some(MetaDataV2 { machine_extruder_trains: Some(t) })
}

fn base_printer() -> CuraV2 {
    let mut d = empty_detailed();
    d.machine_name = long(Some("Unknown".to_string()));
    d.machine_heated_bed = long(Some(false));
    d.machine_width = long(Some(100));
    d.machine_height = long(Some(100));
    d.machine_depth = long(Some(100));
    d.machine_center_is_zero = long(Some(false));
    d.machine_start_gcode = long(Some("G28".to_string()));
    d.machine_end_gcode = long(Some("M84".to_string()));
    d.machine_shape = long(Some("rectangular".to_string()));
    CuraV2 {
        name: "FDM Printer Base Description".to_string(),
        inherits: None,
        overrides: None,
        settings: Some(SettingsV2 { machine_settings: MachineSettingsV2 { children: d } }),
        metadata: trains("fdmextruder"),
    }
}

fn my_printer(shape: &str) -> CuraV2 {
    let mut o = empty_overrides();
    o.machine_name = set(Some("My Printer".to_string()), None);
    o.machine_heated_bed = set(None, Some(true));
    o.machine_width = set(Some(220), None);
    o.machine_depth = set(Some(230), None);
    o.machine_shape = set(Some(shape.to_string()), None);
    o.speed_travel = set(Some(TravelSpeed { value: f(150.0), text: "150".to_string() }), None);
    o.machine_start_gcode = set(Some("G28 ;home\nG1 F{speed_travel}".to_string()), None);
    CuraV2 {
        name: "My Printer".to_string(),
        inherits: Some("fdmprinter".to_string()),
        overrides: Some(o),
        settings: None,
        metadata: None,
    }
}

fn printers(shape: &str) -> NamedMap<CuraV2> {
    let mut m = NamedMap::new();
    m.insert("fdmprinter".to_string(), base_printer());
    m.insert("my_printer".to_string(), my_printer(shape));
    m
}

#[test]
fn printer_settings_are_inherited() {
    let all = printers("elliptic");
    let p = all.get("my_printer").unwrap();
    assert_eq!(p.printer_name(), "My Printer");
    assert_eq!(p.get_source(), "CuraV2");
    assert_eq!(p.get_machine_name(&all), Some("My Printer".to_string()));
    assert_eq!(p.get_heated_bed(&all), Some(true));
    assert_eq!(p.get_bed_width(&all), Some(220));
    assert_eq!(p.get_bed_depth(&all), Some(230));
    assert_eq!(p.get_build_height(&all), Some(100));
    assert_eq!(p.get_origin_center(&all), Some(false));
    assert_eq!(p.get_pre_gcode(&all), Some("G28 ;home\nG1 F{speed_travel}".to_string()));
    assert_eq!(p.get_post_gcode(&all), Some("M84".to_string()));
    assert_eq!(p.get_speed_travel(&all).map(|s| s.text), Some("150".to_string()));
    assert_eq!(p.get_extruders(&all), vec!["fdmextruder".to_string()]);
    let base = all.get("fdmprinter").unwrap();
    assert!(base.get_speed_travel(&all).is_none());
}

#[test]
fn bed_shape_names() {
    let all = printers("elliptic");
    assert_eq!(all.get("my_printer").unwrap().get_bed_elliptic(&all), Some(true));
    let all = printers("Rectangular");
    assert_eq!(all.get("my_printer").unwrap().get_bed_elliptic(&all), Some(false));
    let all = printers("rectangular");
    assert_eq!(all.get("my_printer").unwrap().get_bed_elliptic(&all), Some(false));
    // an unknown shape name stops the search: the parent's shape is not consulted
    let all = printers("hexagonal");
    assert_eq!(all.get("my_printer").unwrap().get_bed_elliptic(&all), None);
}

#[test]
fn no_extruder_train_gives_no_extruders() {
    let mut all = NamedMap::new();
    let mut base = base_printer();
    base.metadata = Some(MetaDataV2 { machine_extruder_trains: None });
    all.insert("fdmprinter".to_string(), base);
    assert_eq!(all.get("fdmprinter").unwrap().get_extruders(&all), Vec::<String>::new());
}

const HEAT_NOZZLE: &str = "M104 S{temp}       ; need to heat the nozzle";
const WAIT_NOZZLE: &str = "M109 S{temp}       ; wait for nozzle temperature";
const HEAT_BED: &str = "M140 S{bed_temp}   ; need to heat the bed";
const WAIT_BED: &str = "M190 S{bed_temp}   ; wait for bed temperature";
const ABSOLUTE: &str = "G90                ; absolute position required";

fn lines(v: &[&str]) -> Vec<String> {
    v.iter().map(|s| s.to_string()).collect()
}

#[test]
fn cura_extruder_is_built_with_inherited_settings() {
    let all = extruders();
    let e = P3dExtruder::from_cura(&all, &"my_extruder".to_string()).unwrap();
    assert_eq!(e.nozzle, f(0.6));
    assert_eq!(e.filament, f(1.75));
    assert_eq!(e.offset_x, f(0.0));
    assert_eq!(e.offset_y, f(0.0));
    assert_eq!(e.select, "");
    assert!(P3dExtruder::from_cura(&all, &"missing".to_string()).is_none());
}

#[test]
fn cura_extruder_with_zero_nozzle_is_refused() {
    let mut all = extruders();
    let mut child = child_extruder();
    child.overrides.as_mut().unwrap().machine_nozzle_size = set(Some(f(0.0005)), None);
    all.insert("my_extruder".to_string(), child);
    assert!(P3dExtruder::from_cura(&all, &"my_extruder".to_string()).is_none());
    let mut child = child_extruder();
    child.overrides.as_mut().unwrap().material_diameter = set(Some(f(-0.0)), None);
    all.insert("my_extruder".to_string(), child);
    assert!(P3dExtruder::from_cura(&all, &"my_extruder".to_string()).is_none());
}

#[test]
fn cura_printer_is_built_and_checked() {
    let all = printers("elliptic");
    let exts = extruders();
    let p = P3dPrinter::from_cura(&all, &exts, all.get("my_printer").unwrap()).unwrap();
    assert_eq!(p.name, "My Printer");
    assert_eq!(p.machine_name, "My Printer");
    assert_eq!(p.source, "CuraV2");
    assert_eq!(p.license, "LGPL-3.0");
    assert!(!p.origin_center);
    assert!(p.bed_elliptic);
    assert!(!p.bed_belt);
    assert!(p.heated_bed);
    assert_eq!(p.build_size, (220, 230, 100));
    assert_eq!(p.extruders.len(), 1);
    assert_eq!(p.extruders[0].nozzle, f(0.4));
    assert_eq!(p.extruders[0].filament, f(2.85));
    assert_eq!(p.fan_gcode, "M106 S{fan_speed}");
    assert_eq!(p.progress_gcode, "");
    assert_eq!(p.layer_gcode, "");
    assert_eq!(p.speed_travel.as_ref().map(|s| s.value), Some(f(150.0)));
    assert_eq!(
        p.pre_gcode,
        lines(&[HEAT_BED, WAIT_BED, HEAT_NOZZLE, WAIT_NOZZLE, "G28 ;home", "G1 F150", ABSOLUTE])
    );
    assert_eq!(p.post_gcode, lines(&["M84"]));
}

#[test]
fn cura_printer_without_size_or_extruder_is_refused() {
    let exts = extruders();
    let mut all = printers("elliptic");
    let mut mine = my_printer("elliptic");
    mine.overrides.as_mut().unwrap().machine_width = set(Some(0), None);
    all.insert("my_printer".to_string(), mine);
    assert!(P3dPrinter::from_cura(&all, &exts, all.get("my_printer").unwrap()).is_none());
    // the base description names no machine and so counts as "Unknown", but is complete
    let all = printers("elliptic");
    let base = P3dPrinter::from_cura(&all, &exts, all.get("fdmprinter").unwrap()).unwrap();
    assert_eq!(base.machine_name, "Unknown");
    assert!(!base.heated_bed);
    assert_eq!(base.pre_gcode, lines(&[HEAT_NOZZLE, WAIT_NOZZLE, "G28", ABSOLUTE]));
    let empty: NamedMap<CuraExtruderV2> = NamedMap::new();
    assert!(P3dPrinter::from_cura(&all, &empty, all.get("fdmprinter").unwrap()).is_none());
}

fn gridapps01(height: u16) -> GridApps01 {
    GridApps01 {
        pre: lines(&[
            "G28",
            "M104 S{print_temperature}",
            "; {date}",
            "M117 {date}",
            "G1 Z{layer_height_0} ; {oops}",
        ]),
        post: lines(&["M84"]),
        cmd: Command01 {
            fan_power: "M106 S{fan_speed}".to_string(),
            progress: None,
            layer: Some(lines(&["a", "b"])),
        },
        extruders: None,
        settings: Settings01 {
            origin_center: true,
            bed_width: 200,
            bed_depth: 210,
            build_height: height,
            bed_circle: None,
        },
    }
}

#[test]
fn gridapps_printer_is_built_and_checked() {
    let g = gridapps01(250);
    assert_eq!(g.get_license(), "MIT");
    assert_eq!(g.get_layer_gcode(), "a\nb");
    assert_eq!(g.get_progress_gcode(), "");
    assert!(!g.get_bed_circle());
    assert!(g.get_extruders().is_empty());
    let p = P3dPrinter::from_gridapps("ga-printer".to_string(), &g).unwrap();
    assert_eq!(p.name, "ga-printer");
    assert_eq!(p.machine_name, "ga-printer");
    assert_eq!(p.source, "GridApps01");
    assert_eq!(p.license, "MIT");
    assert!(p.origin_center);
    assert!(p.heated_bed);
    assert!(p.speed_travel.is_none());
    assert_eq!(p.build_size, (200, 210, 250));
    assert_eq!(p.layer_gcode, "a\nb");
    assert_eq!(p.extruders.len(), 1);
    assert_eq!(p.extruders[0].nozzle, f(0.4));
    assert_eq!(p.extruders[0].filament, f(1.75));
    assert_eq!(p.extruders[0].offset_x, f(0.0));
    assert_eq!(
        p.pre_gcode,
        lines(&[
            HEAT_BED,
            WAIT_BED,
            "G28",
            "M104 S{temp}",
            "; {date}",
            "; PLEASE CHECK: M117 {date}",
            "G1 Z{layer_height_0} ; {oops}",
            ABSOLUTE,
        ])
    );
    assert_eq!(p.post_gcode, lines(&["M84"]));
}

#[test]
fn double_placeholder_pattern_resolves_the_first_name() {
    let mut g = gridapps01(250);
    g.pre = lines(&["M140 S{material_bed_temperature} T{x}", "G90"]);
    let p = P3dPrinter::from_gridapps("p".to_string(), &g).unwrap();
    assert_eq!(p.pre_gcode, lines(&[HEAT_NOZZLE, WAIT_NOZZLE, "M140 S{bed_temp} T{x}", "G90"]));
}

#[test]
fn tall_or_belt_printers_are_refused() {
    assert!(P3dPrinter::from_gridapps("tall".to_string(), &gridapps01(1001)).is_none());
    assert!(P3dPrinter::from_gridapps("edge".to_string(), &gridapps01(1000)).is_some());
    let belt = gridapps02(true);
    assert!(P3dPrinter::from_gridapps("belt".to_string(), &belt).is_none());
}

fn gridapps02(belt: bool) -> GridApps02 {
    GridApps02 {
        bed_width: 300,
        bed_depth: 300,
        max_height: 300,
        bed_round: false,
        bed_belt: belt,
        origin_center: false,
        gcode_pre: lines(&["G90", "M104 S200", "M140 S60"]),
        gcode_post: lines(&[]),
        gcode_layer: lines(&["L1", "L2"]),
        gcode_track: lines(&["T"]),
        gcode_fan: lines(&["M106 S{fan_speed}"]),
        extruders: vec![Extruder02 {
            ext_filament: f(1.75),
            ext_nozzle: f(0.8),
            ext_select: lines(&["T0"]),
            ext_deselect: lines(&["M400", "M117"]),
            ext_offset_x: f(1.0),
            ext_offset_y: f(-1.0),
        }],
    }
}

#[test]
fn gridapps02_printer_keeps_complete_start_gcode() {
    let g = gridapps02(false);
    assert_eq!(g.get_source(), "GridApps02");
    let e = g.get_extruders();
    assert_eq!(e.len(), 1);
    assert_eq!(e[0].get_deselect_gcode(), "M400\nM117");
    let p = P3dPrinter::from_gridapps("big".to_string(), &g).unwrap();
    assert_eq!(p.pre_gcode, lines(&["G90", "M104 S200", "M140 S60"]));
    assert_eq!(p.layer_gcode, "L1\nL2");
    assert_eq!(p.progress_gcode, "T");
    assert_eq!(p.extruders[0].nozzle, f(0.8));
    assert_eq!(p.extruders[0].select, "T0");
    assert_eq!(p.extruders[0].offset_y, f(-1.0));
}

#[test]
fn gridapps_extruder_descriptions() {
    let e = Extruder01 {
        nozzle: f(0.4),
        filament: f(1.75),
        offset_x: f(0.0),
        offset_y: f(0.0),
        select: lines(&["T0", "G92 E0"]),
        deselect: None,
    };
    assert_eq!(e.get_select_gcode(), "T0\nG92 E0");
    assert_eq!(e.get_deselect_gcode(), "");
    let x = P3dExtruder::from_gridapps(&e).unwrap();
    assert_eq!(x.select, "T0\nG92 E0");
    assert_eq!(x.nozzle, f(0.4));
}

fn printer(license: &str, machine: &str, origin: bool, size: (u16, u16, u16), source: &str) -> P3dPrinter {
    P3dPrinter {
        name: "P".to_string(),
        machine_name: machine.to_string(),
        source: source.to_string(),
        license: license.to_string(),
        origin_center: origin,
        bed_elliptic: false,
        bed_belt: false,
        extruders: vec![],
        build_size: size,
        pre_gcode: vec![],
        post_gcode: vec![],
        fan_gcode: String::new(),
        progress_gcode: String::new(),
        layer_gcode: String::new(),
        heated_bed: true,
        speed_travel: None,
    }
}

#[test]
fn conflicts_prefer_mit_then_known_machines() {
    let r = P3dPrinter::resolve_conflict(
        printer("LGPL-3.0", "A", false, (1, 1, 1), "x"),
        printer("MIT", "B", true, (2, 2, 2), "y"),
    )
    .unwrap();
    assert_eq!(r.source, "y");
    let r = P3dPrinter::resolve_conflict(
        printer("MIT", "A", false, (1, 1, 1), "x"),
        printer("MIT", "B", true, (2, 2, 2), "y"),
    )
    .unwrap();
    assert_eq!(r.source, "x");
    assert!(P3dPrinter::resolve_conflict(
        printer("L", "Unknown", false, (1, 1, 1), "x"),
        printer("L", "Unknown", false, (1, 1, 1), "y"),
    )
    .is_none());
    let r = P3dPrinter::resolve_conflict(
        printer("L", "Unknown", false, (1, 1, 1), "x"),
        printer("L", "B", true, (2, 2, 2), "y"),
    )
    .unwrap();
    assert_eq!(r.machine_name, "B");
    let r = P3dPrinter::resolve_conflict(
        printer("L", "A", false, (1, 1, 1), "x"),
        printer("L", "Unknown", true, (2, 2, 2), "y"),
    )
    .unwrap();
    assert_eq!(r.machine_name, "A");
    assert!(P3dPrinter::resolve_conflict(
        printer("L", "A", false, (1, 1, 1), "x"),
        printer("L", "B", true, (1, 1, 1), "y"),
    )
    .is_none());
    let r = P3dPrinter::resolve_conflict(
        printer("L", "A", true, (100, 300, 50), "x"),
        printer("L", "B", true, (200, 250, 60), "y"),
    )
    .unwrap();
    assert_eq!(r.build_size, (100, 250, 50));
    assert_eq!(r.source, "x+y");
    assert_eq!(r.machine_name, "A");
}

#[test]
fn merge_files_printers_by_comparison_key() {
    let mut ga = NamedMap::new();
    ga.insert("My Printer".to_string(), GridAppsDefinition::V01(gridapps01(250)));
    ga.insert("Belt".to_string(), GridAppsDefinition::V02(gridapps02(true)));
    let cura = printers("elliptic");
    let exts = extruders();
    let (catalogue, events) = merge_printers(&ga, &cura, &exts);
    assert_eq!(catalogue.len(), 2);
    let mine = catalogue.get("myprinter").unwrap();
    assert_eq!(mine.source, "GridApps01");
    assert_eq!(mine.license, "MIT");
    let base = catalogue.get("fdmprinterbasedescription").unwrap();
    assert_eq!(base.source, "CuraV2");
    assert_eq!(events.len(), 2);
    match &events[0] {
        MergeEvent::IncompleteGridApps { name } => assert_eq!(name, "Belt"),
        other => panic!("unexpected event {:?}", other),
    }
    match &events[1] {
        MergeEvent::Resolved { collision, key, name } => {
            assert_eq!(*collision, 1);
            assert_eq!(key, "myprinter");
            assert_eq!(name, "My Printer");
        }
        other => panic!("unexpected event {:?}", other),
    }
}

#[test]
fn merge_reports_incomplete_cura_definitions_and_unresolved_collisions() {
    let ga: NamedMap<GridAppsDefinition> = NamedMap::new();
    let mut cura = printers("elliptic");
    let mut other = my_printer("elliptic");
    other.name = "my printer".to_string();
    other.overrides.as_mut().unwrap().machine_center_is_zero = set(Some(true), None);
    cura.insert("other".to_string(), other);
    let mut broken = my_printer("hexagonal");
    broken.name = "Broken".to_string();
    cura.insert("broken".to_string(), broken);
    let (catalogue, events) = merge_printers(&ga, &cura, &extruders());
    assert_eq!(catalogue.len(), 1);
    assert!(catalogue.get("fdmprinterbasedescription").is_some());
    assert_eq!(events.len(), 2);
    match &events[0] {
        MergeEvent::Unresolved { collision, key } => {
            assert_eq!(*collision, 1);
            assert_eq!(key, "myprinter");
        }
        other => panic!("unexpected event {:?}", other),
    }
    match &events[1] {
        MergeEvent::IncompleteCura { name } => assert_eq!(name, "Broken"),
        other => panic!("unexpected event {:?}", other),
    }
}

#[test]
fn placeholder_table_later_entries_win_and_speed_is_flagged_without_a_value() {
    let mut g = gridapps01(250);
    g.pre = lines(&["G1 Y{machine_depth}", "G1 F{speed_travel}", "G1 Z{machine_height}", "M104 S1 G90"]);
    g.post = lines(&["G1 X{machine_width} ; park", ";{machine_width}", "M84 {unknown_name}"]);
    let p = P3dPrinter::from_gridapps("p".to_string(), &g).unwrap();
    assert_eq!(
        p.pre_gcode,
        lines(&[
            HEAT_BED,
            WAIT_BED,
            "G1 Y{bottom}",
            "; PLEASE CHECK: G1 F{speed_travel}",
            "G1 Z{z_max}",
            "M104 S1 G90",
        ])
    );
    assert_eq!(p.post_gcode, lines(&["G1 X{right} ; park", ";{machine_width}", "M84 {unknown_name}"]));
}

#[test]
fn commented_keywords_do_not_count() {
    let mut g = gridapps01(250);
    g.pre = lines(&["; G90 M104 M140", "G28 ; M104"]);
    let p = P3dPrinter::from_gridapps("p".to_string(), &g).unwrap();
    assert_eq!(
        p.pre_gcode,
        lines(&[HEAT_BED, WAIT_BED, HEAT_NOZZLE, WAIT_NOZZLE, "; G90 M104 M140", "G28 ; M104", ABSOLUTE])
    );
}

#[test]
fn circular_inheritance_is_detected() {
    let mut all = NamedMap::new();
    all.insert("a".to_string(), CuraExtruderV2 { inherits: Some("b".to_string()), overrides: None, settings: None });
    all.insert("b".to_string(), CuraExtruderV2 { inherits: Some("a".to_string()), overrides: None, settings: None });
    assert!(!lookup_ends::<CuraExtruderV2, NozzleSize>(all.get("a").unwrap(), &all));
    // a definition that sets the value itself never follows the circle
    let mut o = empty_ext_overrides();
    o.machine_nozzle_size = set(Some(f(0.4)), None);
    let own = CuraExtruderV2 { inherits: Some("a".to_string()), overrides: Some(o), settings: None };
    assert!(lookup_ends::<CuraExtruderV2, NozzleSize>(&own, &all));
    let exts = extruders();
    assert!(lookup_ends::<CuraExtruderV2, NozzleSize>(exts.get("my_extruder").unwrap(), &exts));
}

#[test]
fn catalogue_lookups_end_only_without_unresolvable_circles() {
    let cura = printers("elliptic");
    assert!(catalogue_lookups_end(&cura, &extruders()));
    let mut looped = printers("elliptic");
    let mut base = base_printer();
    base.inherits = Some("my_printer".to_string());
    base.settings = None;
    looped.insert("fdmprinter".to_string(), base);
    assert!(!catalogue_lookups_end(&looped, &extruders()));
}
