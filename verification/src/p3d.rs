use vstd::prelude::*;
use vstd::string::*;

use crate::gcode::{
    any_uncommented, free_of, uncommented, literal_text, uncommented_compiles, none_uncommented, placeholder_bindings, placeholder_map, prune,
    pruned, speed_text,
};
use crate::cura::{
    cura_license, cura_source, shape_named, CenterIsZero, CuraExtruderV2, CuraV2, EndGcode,
    ExtruderEndCode, ExtruderStartCode, FilamentDiameter, FirstExtruderTrain, HeatedBed,
    MachineDepth, MachineHeight, MachineName, MachineShape, MachineWidth, NozzleOffsetX,
    NozzleOffsetY, NozzleSize, StartGcode, TravelSpeedSetting,
};
use crate::gridapps::{lines_text, GridApps, GridApps01, GridApps02, GridAppsExtruder};
use crate::inherit::{lookup_ends, resolved, resolves};
use crate::named_map::NamedMap;
use crate::text::{split_at_newlines, split_lines, texts};
use crate::values::{below_thousandth, ExtruderView, F32Bits, TravelSpeed};

verus! {

/// An extruder of a printer definition.
#[derive(Debug)]
pub struct P3dExtruder {
    pub nozzle: F32Bits,
    pub filament: F32Bits,
    pub offset_x: F32Bits,
    pub offset_y: F32Bits,
    pub select: String,
    pub deselect: String,
}

impl View for P3dExtruder {
    type V = ExtruderView;

    open spec fn view(&self) -> ExtruderView {
        ExtruderView {
            nozzle: self.nozzle,
            filament: self.filament,
            offset_x: self.offset_x,
            offset_y: self.offset_y,
            select: self.select@,
            deselect: self.deselect@,
        }
    }
}

/// The extruder assumed where a description lists none: a 0.4 mm nozzle, 1.75 mm filament, no
/// offsets and no selection G-code.
pub open spec fn standard_extruder() -> ExtruderView {
    ExtruderView {
        nozzle: F32Bits { bits: 0x3ecc_cccd },
        filament: F32Bits { bits: 0x3fe0_0000 },
        offset_x: F32Bits { bits: 0 },
        offset_y: F32Bits { bits: 0 },
        select: seq![],
        deselect: seq![],
    }
}

/// What a printer definition says.
pub struct PrinterView {
    pub name: Seq<char>,
    pub machine_name: Seq<char>,
    pub source: Seq<char>,
    pub license: Seq<char>,
    pub origin_center: bool,
    pub bed_elliptic: bool,
    pub bed_belt: bool,
    pub extruders: Seq<ExtruderView>,
    pub build_size: (u16, u16, u16),
    pub pre_gcode: Seq<Seq<char>>,
    pub post_gcode: Seq<Seq<char>>,
    pub fan_gcode: Seq<char>,
    pub progress_gcode: Seq<char>,
    pub layer_gcode: Seq<char>,
    pub heated_bed: bool,
    pub speed_travel: Option<TravelSpeed>,
}

/// A printer definition, as it is written out.
#[derive(Debug)]
pub struct P3dPrinter {
    pub name: String,
    pub machine_name: String,
    pub source: String,
    pub license: String,
    pub origin_center: bool,
    pub bed_elliptic: bool,
    pub bed_belt: bool,
    pub extruders: Vec<P3dExtruder>,
    pub build_size: (u16, u16, u16),
    pub pre_gcode: Vec<String>,
    pub post_gcode: Vec<String>,
    pub fan_gcode: String,
    pub progress_gcode: String,
    pub layer_gcode: String,
    pub heated_bed: bool,
    pub speed_travel: Option<TravelSpeed>,
}

/// What a list of extruders says.
pub open spec fn extruder_views(v: Seq<P3dExtruder>) -> Seq<ExtruderView> {
    v.map_values(|e: P3dExtruder| e@)
}

impl View for P3dPrinter {
    type V = PrinterView;

    open spec fn view(&self) -> PrinterView {
        PrinterView {
            name: self.name@,
            machine_name: self.machine_name@,
            source: self.source@,
            license: self.license@,
            origin_center: self.origin_center,
            bed_elliptic: self.bed_elliptic,
            bed_belt: self.bed_belt,
            extruders: extruder_views(self.extruders@),
            build_size: self.build_size,
            pre_gcode: texts(self.pre_gcode@),
            post_gcode: texts(self.post_gcode@),
            fan_gcode: self.fan_gcode@,
            progress_gcode: self.progress_gcode@,
            layer_gcode: self.layer_gcode@,
            heated_bed: self.heated_bed,
            speed_travel: self.speed_travel,
        }
    }
}

/// What an optional printer says.
pub open spec fn printer_view(p: Option<P3dPrinter>) -> Option<PrinterView> {
    match p {
        Some(p) => Some(p@),
        None => None,
    }
}

/// The start G-code line that heats the nozzle.
pub open spec fn heat_nozzle_line() -> Seq<char> {
    "M104 S{temp}       ; need to heat the nozzle"@
}

/// The start G-code line that waits for the nozzle temperature.
pub open spec fn wait_nozzle_line() -> Seq<char> {
    "M109 S{temp}       ; wait for nozzle temperature"@
}

/// The start G-code line that heats the bed.
pub open spec fn heat_bed_line() -> Seq<char> {
    "M140 S{bed_temp}   ; need to heat the bed"@
}

/// The start G-code line that waits for the bed temperature.
pub open spec fn wait_bed_line() -> Seq<char> {
    "M190 S{bed_temp}   ; wait for bed temperature"@
}

/// The start G-code line that selects absolute positioning.
pub open spec fn absolute_line() -> Seq<char> {
    "G90                ; absolute position required"@
}

/// Start G-code completed with what a print needs: where no line (before its comment) sets the
/// nozzle temperature (`M104`), lines that heat the nozzle and wait for it come first; where the
/// bed is heated and no line sets its temperature (`M140`), lines that heat the bed and wait for
/// it come before those; where no line selects absolute positioning (`G90`), a line that does
/// comes last.
pub open spec fn completed_pre(pre: Seq<Seq<char>>, heated_bed: bool) -> Seq<Seq<char>> {
    let need_absolute = !any_uncommented(pre, "G90"@);
    let need_hotend = !any_uncommented(pre, "M104"@);
    let need_bed = heated_bed && !any_uncommented(pre, "M140"@);
    let a = if need_hotend {
        seq![heat_nozzle_line(), wait_nozzle_line()] + pre
    } else {
        pre
    };
    let b = if need_bed {
        seq![heat_bed_line(), wait_bed_line()] + a
    } else {
        a
    };
    if need_absolute {
        b.push(absolute_line())
    } else {
        b
    }
}

/// A line that holds `word` before its comment keeps doing so with more lines around it.
proof fn lemma_uncommented_extended(
    lines: Seq<Seq<char>>,
    front: Seq<Seq<char>>,
    back: Seq<Seq<char>>,
    word: Seq<char>,
)
    requires
        any_uncommented(lines, word),
    ensures
        any_uncommented(front + lines + back, word),
{
    let i = choose|i: int| 0 <= i < lines.len() && uncommented(#[trigger] lines[i], word);
    assert((front + lines + back)[front.len() + i] == lines[i]);
}

/// A line that begins with `word` holds it before its comment.
proof fn lemma_uncommented_at_start(line: Seq<char>, word: Seq<char>)
    requires
        word.len() <= line.len(),
        line.subrange(0, word.len() as int) == word,
    ensures
        uncommented(line, word),
{
    assert(free_of(line, 0, 0, ';'));
}

/// Whatever start G-code is completed with, the result sets the nozzle temperature (`M104`) and
/// selects absolute positioning (`G90`) on some line before its comment, and, where the bed is
/// heated, sets the bed temperature (`M140`) too.
pub proof fn lemma_completed_pre_prepares(pre: Seq<Seq<char>>, heated_bed: bool)
    ensures
        any_uncommented(completed_pre(pre, heated_bed), "M104"@),
        any_uncommented(completed_pre(pre, heated_bed), "G90"@),
        heated_bed ==> any_uncommented(completed_pre(pre, heated_bed), "M140"@),
{
    reveal_strlit("M104");
    reveal_strlit("G90");
    reveal_strlit("M140");
    reveal_strlit("M104 S{temp}       ; need to heat the nozzle");
    reveal_strlit("M140 S{bed_temp}   ; need to heat the bed");
    reveal_strlit("G90                ; absolute position required");
    let need_absolute = !any_uncommented(pre, "G90"@);
    let need_hotend = !any_uncommented(pre, "M104"@);
    let need_bed = heated_bed && !any_uncommented(pre, "M140"@);
    let hot: Seq<Seq<char>> = seq![heat_nozzle_line(), wait_nozzle_line()];
    let bed: Seq<Seq<char>> = seq![heat_bed_line(), wait_bed_line()];
    let a = if need_hotend { hot + pre } else { pre };
    let b = if need_bed { bed + a } else { a };
    let fin = completed_pre(pre, heated_bed);
    let empty = Seq::<Seq<char>>::empty();
    let tail = if need_absolute { seq![absolute_line()] } else { empty };
    assert(fin =~= b + tail);
    let front = if need_bed { bed } else { empty };
    // M104
    assert(heat_nozzle_line().subrange(0, 4) =~= "M104"@);
    lemma_uncommented_at_start(heat_nozzle_line(), "M104"@);
    assert(any_uncommented(hot, "M104"@)) by {
        assert(uncommented(hot[0], "M104"@));
    }
    if need_hotend {
        lemma_uncommented_extended(hot, front, pre + tail, "M104"@);
        assert(front + hot + (pre + tail) =~= fin);
    } else {
        lemma_uncommented_extended(pre, front, tail, "M104"@);
        assert(front + pre + tail =~= fin);
    }
    // G90
    assert(absolute_line().subrange(0, 3) =~= "G90"@);
    lemma_uncommented_at_start(absolute_line(), "G90"@);
    if need_absolute {
        assert(fin[fin.len() - 1] == absolute_line());
        assert(uncommented(fin[fin.len() - 1], "G90"@));
    } else {
        let hot_front = if need_hotend { hot } else { empty };
        lemma_uncommented_extended(pre, front + hot_front, tail, "G90"@);
        assert(front + hot_front + pre + tail =~= fin);
    }
    // M140
    if heated_bed {
        assert(heat_bed_line().subrange(0, 4) =~= "M140"@);
        lemma_uncommented_at_start(heat_bed_line(), "M140"@);
        if need_bed {
            assert(fin[0] == heat_bed_line());
            assert(uncommented(fin[0], "M140"@));
        } else {
            let hot_front = if need_hotend { hot } else { empty };
            lemma_uncommented_extended(pre, hot_front, tail, "M140"@);
            assert(hot_front + pre + tail =~= fin);
        }
    }
}

/// The start G-code of every printer that `checked_printer` accepts sets the nozzle temperature
/// and selects absolute positioning before any comment, and, where the bed is heated, sets the
/// bed temperature; and no accepted printer is taller than 1000 mm or prints on a belt.
pub proof fn lemma_checked_printer_ready(p: PrinterView)
    requires
        checked_printer(p) is Some,
    ensures
        any_uncommented(checked_printer(p).unwrap().pre_gcode, "M104"@),
        any_uncommented(checked_printer(p).unwrap().pre_gcode, "G90"@),
        p.heated_bed ==> any_uncommented(checked_printer(p).unwrap().pre_gcode, "M140"@),
        checked_printer(p).unwrap().build_size.2 <= 1000,
        !checked_printer(p).unwrap().bed_belt,
{
    let b = placeholder_bindings(speed_text(p.speed_travel));
    lemma_completed_pre_prepares(pruned(p.pre_gcode, b), p.heated_bed);
}

/// A printer definition with new start and end G-code.
pub open spec fn with_gcode(p: PrinterView, pre: Seq<Seq<char>>, post: Seq<Seq<char>>) -> PrinterView {
    PrinterView {
        name: p.name,
        machine_name: p.machine_name,
        source: p.source,
        license: p.license,
        origin_center: p.origin_center,
        bed_elliptic: p.bed_elliptic,
        bed_belt: p.bed_belt,
        extruders: p.extruders,
        build_size: p.build_size,
        pre_gcode: pre,
        post_gcode: post,
        fan_gcode: p.fan_gcode,
        progress_gcode: p.progress_gcode,
        layer_gcode: p.layer_gcode,
        heated_bed: p.heated_bed,
        speed_travel: p.speed_travel,
    }
}

/// A printer definition made ready for use, or refused: one taller than 1000 mm, or printing on
/// a belt, is refused; otherwise the placeholders of its start and end G-code are resolved by its
/// placeholder table, and its start G-code is completed.
pub open spec fn checked_printer(p: PrinterView) -> Option<PrinterView> {
    if p.build_size.2 > 1000 || p.bed_belt {
        None
    } else {
        let b = placeholder_bindings(speed_text(p.speed_travel));
        Some(with_gcode(p, completed_pre(pruned(p.pre_gcode, b), p.heated_bed), pruned(p.post_gcode, b)))
    }
}

/// The smaller of two sizes.
pub open spec fn smaller(a: u16, b: u16) -> u16 {
    if a <= b {
        a
    } else {
        b
    }
}

/// Of two definitions of one machine, the one to keep: an MIT-licensed one (the first if both
/// are); else the one whose machine name is known (none where both are `Unknown`); else, where
/// they disagree on where the origin lies, none; else the first, with each build dimension the
/// smaller of the two and both sources credited (`first+second`).
pub open spec fn conflict_resolution(a: PrinterView, b: PrinterView) -> Option<PrinterView> {
    if a.license == "MIT"@ {
        Some(a)
    } else if b.license == "MIT"@ {
        Some(b)
    } else if a.machine_name == "Unknown"@ {
        if b.machine_name == "Unknown"@ {
            None
        } else {
            Some(b)
        }
    } else if b.machine_name == "Unknown"@ {
        Some(a)
    } else if a.origin_center != b.origin_center {
        None
    } else {
        Some(
            PrinterView {
                name: a.name,
                machine_name: a.machine_name,
                source: a.source + "+"@ + b.source,
                license: a.license,
                origin_center: a.origin_center,
                bed_elliptic: a.bed_elliptic,
                bed_belt: a.bed_belt,
                extruders: a.extruders,
                build_size: (
                    smaller(a.build_size.0, b.build_size.0),
                    smaller(a.build_size.1, b.build_size.1),
                    smaller(a.build_size.2, b.build_size.2),
                ),
                pre_gcode: a.pre_gcode,
                post_gcode: a.post_gcode,
                fan_gcode: a.fan_gcode,
                progress_gcode: a.progress_gcode,
                layer_gcode: a.layer_gcode,
                heated_bed: a.heated_bed,
                speed_travel: a.speed_travel,
            },
        )
    }
}

/// What an optional extruder says.
pub open spec fn extruder_view(e: Option<P3dExtruder>) -> Option<ExtruderView> {
    match e {
        Some(e) => Some(e@),
        None => None,
    }
}

/// The Cura extruder definition `name`, with its settings inherited through `all`: none where
/// `all` holds no such definition, where a nozzle or filament setting, an offset or a selection
/// G-code cannot be found, or where the nozzle or filament diameter is below 0.001.
pub open spec fn cura_extruder(all: NamedMap<CuraExtruderV2>, name: Seq<char>) -> Option<ExtruderView> {
    if !all.has(name) {
        None
    } else {
        let c = all.at(name);
        match (
            resolved::<CuraExtruderV2, NozzleSize>(all, c),
            resolved::<CuraExtruderV2, FilamentDiameter>(all, c),
            resolved::<CuraExtruderV2, NozzleOffsetX>(all, c),
            resolved::<CuraExtruderV2, NozzleOffsetY>(all, c),
            resolved::<CuraExtruderV2, ExtruderStartCode>(all, c),
            resolved::<CuraExtruderV2, ExtruderEndCode>(all, c),
        ) {
            (Some(n), Some(f), Some(x), Some(y), Some(s), Some(d)) => if below_thousandth(n)
                || below_thousandth(f) {
                None
            } else {
                Some(
                    ExtruderView {
                        nozzle: n,
                        filament: f,
                        offset_x: x,
                        offset_y: y,
                        select: s@,
                        deselect: d@,
                    },
                )
            },
            _ => None,
        }
    }
}

/// The searches that building the Cura extruder `name` makes along inheritance chains end: each
/// one that is reached, after the earlier ones found their setting.
pub open spec fn extruder_lookups_end(all: NamedMap<CuraExtruderV2>, name: Seq<char>) -> bool {
    all.has(name) ==> {
        let c = all.at(name);
        &&& resolves::<CuraExtruderV2, NozzleSize>(all, c)
        &&& resolved::<CuraExtruderV2, NozzleSize>(all, c) is Some ==> {
            &&& resolves::<CuraExtruderV2, FilamentDiameter>(all, c)
            &&& resolved::<CuraExtruderV2, FilamentDiameter>(all, c) is Some ==> {
                &&& resolves::<CuraExtruderV2, NozzleOffsetX>(all, c)
                &&& resolved::<CuraExtruderV2, NozzleOffsetX>(all, c) is Some ==> {
                    &&& resolves::<CuraExtruderV2, NozzleOffsetY>(all, c)
                    &&& resolved::<CuraExtruderV2, NozzleOffsetY>(all, c) is Some ==> {
                        &&& resolves::<CuraExtruderV2, ExtruderStartCode>(all, c)
                        &&& resolved::<CuraExtruderV2, ExtruderStartCode>(all, c) is Some
                            ==> resolves::<CuraExtruderV2, ExtruderEndCode>(all, c)
                    }
                }
            }
        }
    }
}

/// The bed shape of a Cura printer definition: the shape its first definer names.
pub open spec fn cura_bed_elliptic(all: NamedMap<CuraV2>, cfg: CuraV2) -> Option<bool> {
    match resolved::<CuraV2, MachineShape>(all, cfg) {
        Some(s) => shape_named(s@),
        None => None,
    }
}

/// The printer that Cura definition `cfg` describes before it is checked, with settings inherited
/// through `all` and its extruder taken from `extruders`: none where the origin, bed shape, bed
/// size, build height, bed heating, start or end G-code cannot be found, where no extruder train
/// `0` is named or its extruder cannot be built, or where a build dimension is 0. The start and
/// end G-code are split into lines.
pub open spec fn cura_unchecked(all: NamedMap<CuraV2>, extruders: NamedMap<CuraExtruderV2>, cfg: CuraV2) -> Option<PrinterView> {
    let name = cfg.name@;
    let machine_name = match resolved::<CuraV2, MachineName>(all, cfg) {
        Some(n) => n@,
        None => name,
    };
    match (
        resolved::<CuraV2, CenterIsZero>(all, cfg),
        cura_bed_elliptic(all, cfg),
        resolved::<CuraV2, MachineWidth>(all, cfg),
        resolved::<CuraV2, MachineDepth>(all, cfg),
        resolved::<CuraV2, MachineHeight>(all, cfg),
        resolved::<CuraV2, HeatedBed>(all, cfg),
        resolved::<CuraV2, StartGcode>(all, cfg),
        resolved::<CuraV2, EndGcode>(all, cfg),
    ) {
        (Some(oc), Some(el), Some(w), Some(d), Some(h), Some(hb), Some(pre), Some(post)) => {
            match resolved::<CuraV2, FirstExtruderTrain>(all, cfg) {
                None => None,
                Some(e) => match cura_extruder(extruders, e@) {
                    None => None,
                    Some(x) => if w == 0 || d == 0 || h == 0 {
                        None
                    } else {
                        Some(
                            PrinterView {
                                name: name,
                                machine_name: machine_name,
                                source: cura_source(),
                                license: cura_license(),
                                origin_center: oc,
                                bed_elliptic: el,
                                bed_belt: false,
                                extruders: seq![x],
                                build_size: (w, d, h),
                                pre_gcode: split_lines(pre@),
                                post_gcode: split_lines(post@),
                                fan_gcode: "M106 S{fan_speed}"@,
                                progress_gcode: seq![],
                                layer_gcode: seq![],
                                heated_bed: hb,
                                speed_travel: resolved::<CuraV2, TravelSpeedSetting>(all, cfg),
                            },
                        )
                    },
                },
            }
        },
        _ => None,
    }
}

/// The printer that Cura definition `cfg` describes, checked (see `cura_unchecked` and
/// `checked_printer`).
pub open spec fn cura_printer(all: NamedMap<CuraV2>, extruders: NamedMap<CuraExtruderV2>, cfg: CuraV2) -> Option<PrinterView> {
    match cura_unchecked(all, extruders, cfg) {
        Some(x) => checked_printer(x),
        None => None,
    }
}

/// The searches that building a printer from Cura definition `cfg` makes along inheritance
/// chains end: each one that is reached, after the earlier ones found their setting.
pub open spec fn printer_lookups_end(all: NamedMap<CuraV2>, extruders: NamedMap<CuraExtruderV2>, cfg: CuraV2) -> bool {
    let center = resolved::<CuraV2, CenterIsZero>(all, cfg) is Some;
    let shape = center && cura_bed_elliptic(all, cfg) is Some;
    let width = shape && resolved::<CuraV2, MachineWidth>(all, cfg) is Some;
    let depth = width && resolved::<CuraV2, MachineDepth>(all, cfg) is Some;
    let height = depth && resolved::<CuraV2, MachineHeight>(all, cfg) is Some;
    let heated = height && resolved::<CuraV2, HeatedBed>(all, cfg) is Some;
    let pre = heated && resolved::<CuraV2, StartGcode>(all, cfg) is Some;
    let post = pre && resolved::<CuraV2, EndGcode>(all, cfg) is Some;
    &&& resolves::<CuraV2, MachineName>(all, cfg)
    &&& resolves::<CuraV2, CenterIsZero>(all, cfg)
    &&& center ==> resolves::<CuraV2, MachineShape>(all, cfg)
    &&& shape ==> resolves::<CuraV2, MachineWidth>(all, cfg)
    &&& width ==> resolves::<CuraV2, MachineDepth>(all, cfg)
    &&& depth ==> resolves::<CuraV2, MachineHeight>(all, cfg)
    &&& height ==> resolves::<CuraV2, HeatedBed>(all, cfg)
    &&& heated ==> resolves::<CuraV2, TravelSpeedSetting>(all, cfg)
    &&& heated ==> resolves::<CuraV2, StartGcode>(all, cfg)
    &&& pre ==> resolves::<CuraV2, EndGcode>(all, cfg)
    &&& post ==> resolves::<CuraV2, FirstExtruderTrain>(all, cfg)
    &&& post ==> (resolved::<CuraV2, FirstExtruderTrain>(all, cfg) matches Some(e)
        ==> extruder_lookups_end(extruders, e@))
}

/// What a list of described extruders says.
pub open spec fn described_extruders<E: GridAppsExtruder>(s: Seq<E>) -> Seq<ExtruderView> {
    s.map_values(|e: E| e.spec_extruder())
}

/// The printer that a Grid.Space description `cfg`, filed under `name`, describes, before it is
/// checked: named `name` for both printer and machine, heated bed, no travel speed, and the
/// standard extruder where the description lists none.
pub open spec fn gridapps_printer<G: GridApps>(name: Seq<char>, cfg: G) -> PrinterView {
    let g = cfg.spec_gridapps();
    PrinterView {
        name: name,
        machine_name: name,
        source: g.source,
        license: g.license,
        origin_center: g.origin_center,
        bed_elliptic: g.bed_circle,
        bed_belt: g.bed_belt,
        extruders: if cfg.spec_extruders().len() == 0 {
            seq![standard_extruder()]
        } else {
            described_extruders(cfg.spec_extruders())
        },
        build_size: (g.bed_width, g.bed_depth, g.build_height),
        pre_gcode: g.pre_gcode,
        post_gcode: g.post_gcode,
        fan_gcode: g.fan_gcode,
        progress_gcode: g.progress_gcode,
        layer_gcode: g.layer_gcode,
        heated_bed: true,
        speed_travel: None,
    }
}

/// Whether the searches that building the Cura extruder `name` makes along inheritance chains
/// end (see `extruder_lookups_end`).
pub fn extruder_lookups_terminate(all: &NamedMap<CuraExtruderV2>, name: &String) -> (r: bool)
    ensures
        r == extruder_lookups_end(*all, name@),
{
    let cfg = match all.get(name.as_str()) {
        Some(c) => c,
        None => {
            return true;
        },
    };
    if !lookup_ends::<CuraExtruderV2, NozzleSize>(cfg, all) {
        return false;
    }
    if cfg.get_nozzle(all).is_none() {
        return true;
    }
    if !lookup_ends::<CuraExtruderV2, FilamentDiameter>(cfg, all) {
        return false;
    }
    if cfg.get_filament(all).is_none() {
        return true;
    }
    if !lookup_ends::<CuraExtruderV2, NozzleOffsetX>(cfg, all) {
        return false;
    }
    if cfg.get_offset_x(all).is_none() {
        return true;
    }
    if !lookup_ends::<CuraExtruderV2, NozzleOffsetY>(cfg, all) {
        return false;
    }
    if cfg.get_offset_y(all).is_none() {
        return true;
    }
    if !lookup_ends::<CuraExtruderV2, ExtruderStartCode>(cfg, all) {
        return false;
    }
    if cfg.get_select_gcode(all).is_none() {
        return true;
    }
    lookup_ends::<CuraExtruderV2, ExtruderEndCode>(cfg, all)
}

/// Whether the searches that building a printer from Cura definition `cfg` makes along
/// inheritance chains end (see `printer_lookups_end`).
pub fn printer_lookups_terminate(
    all: &NamedMap<CuraV2>,
    extruders: &NamedMap<CuraExtruderV2>,
    cfg: &CuraV2,
) -> (r: bool)
    ensures
        r == printer_lookups_end(*all, *extruders, *cfg),
{
    if !lookup_ends::<CuraV2, MachineName>(cfg, all) {
        return false;
    }
    if !lookup_ends::<CuraV2, CenterIsZero>(cfg, all) {
        return false;
    }
    if cfg.get_origin_center(all).is_none() {
        return true;
    }
    if !lookup_ends::<CuraV2, MachineShape>(cfg, all) {
        return false;
    }
    if cfg.get_bed_elliptic(all).is_none() {
        return true;
    }
    if !lookup_ends::<CuraV2, MachineWidth>(cfg, all) {
        return false;
    }
    if cfg.get_bed_width(all).is_none() {
        return true;
    }
    if !lookup_ends::<CuraV2, MachineDepth>(cfg, all) {
        return false;
    }
    if cfg.get_bed_depth(all).is_none() {
        return true;
    }
    if !lookup_ends::<CuraV2, MachineHeight>(cfg, all) {
        return false;
    }
    if cfg.get_build_height(all).is_none() {
        return true;
    }
    if !lookup_ends::<CuraV2, HeatedBed>(cfg, all) {
        return false;
    }
    if cfg.get_heated_bed(all).is_none() {
        return true;
    }
    if !lookup_ends::<CuraV2, TravelSpeedSetting>(cfg, all) {
        return false;
    }
    if !lookup_ends::<CuraV2, StartGcode>(cfg, all) {
        return false;
    }
    if cfg.get_pre_gcode(all).is_none() {
        return true;
    }
    if !lookup_ends::<CuraV2, EndGcode>(cfg, all) {
        return false;
    }
    if cfg.get_post_gcode(all).is_none() {
        return true;
    }
    if !lookup_ends::<CuraV2, FirstExtruderTrain>(cfg, all) {
        return false;
    }
    let trains = cfg.get_extruders(all);
    if trains.len() == 0 {
        return true;
    }
    extruder_lookups_terminate(extruders, &trains[0])
}

impl P3dExtruder {
    /// The extruder assumed where a description lists none.
    fn standard() -> (r: Self)
        ensures
            r@ == standard_extruder(),
    {
        P3dExtruder {
            nozzle: F32Bits { bits: 0x3ecc_cccd },
            filament: F32Bits { bits: 0x3fe0_0000 },
            offset_x: F32Bits { bits: 0 },
            offset_y: F32Bits { bits: 0 },
            select: String::new(),
            deselect: String::new(),
        }
    }

    /// The extruder as a Grid.Space description gives it.
    pub fn from_gridapps<E: GridAppsExtruder>(cfg: &E) -> (r: Option<Self>)
        ensures
            extruder_view(r) == Some(cfg.spec_extruder()),
    {
        let nozzle = cfg.get_nozzle();
        let filament = cfg.get_filament();
        let offset_x = cfg.get_offset_x();
        let offset_y = cfg.get_offset_y();
        let select = cfg.get_select_gcode();
        let deselect = cfg.get_deselect_gcode();
        Some(P3dExtruder { nozzle, filament, offset_x, offset_y, select, deselect })
    }

    /// The Cura extruder definition `cfg_name` of `all`, with its settings inherited (see
    /// `cura_extruder`).
    pub fn from_cura(all: &NamedMap<CuraExtruderV2>, cfg_name: &String) -> (r: Option<Self>)
        requires
            extruder_lookups_end(*all, cfg_name@),
        ensures
            extruder_view(r) == cura_extruder(*all, cfg_name@),
    {
        let cfg = all.get(cfg_name.as_str())?;
        let nozzle = cfg.get_nozzle(all)?;
        let filament = cfg.get_filament(all)?;
        let offset_x = cfg.get_offset_x(all)?;
        let offset_y = cfg.get_offset_y(all)?;
        let select = cfg.get_select_gcode(all)?;
        let deselect = cfg.get_deselect_gcode(all)?;
        if nozzle.is_below_thousandth() {
            return None;
        }
        if filament.is_below_thousandth() {
            return None;
        }
        Some(P3dExtruder { nozzle, filament, offset_x, offset_y, select, deselect })
    }
}

fn smaller_of(a: u16, b: u16) -> (r: u16)
    ensures
        r == smaller(a, b),
{
    if a <= b {
        a
    } else {
        b
    }
}

impl P3dPrinter {
    /// Whether no line of the start G-code holds `pattern` before its comment.
    fn does_not_contain(&self, pattern: &str) -> (r: bool)
        requires
            literal_text(pattern@),
            uncommented_compiles(pattern@),
        ensures
            r == !any_uncommented(texts(self.pre_gcode@), pattern@),
    {
        none_uncommented(&self.pre_gcode, pattern)
    }

    /// This definition made ready for use, or `None` where it is refused (see `checked_printer`).
    fn checked(self) -> (r: Option<Self>)
        ensures
            printer_view(r) == checked_printer(self@),
    {
        let mut p = self;
        let ghost start = p@;
        let ghost b = placeholder_bindings(speed_text(p.speed_travel));
        let xref = placeholder_map(&p.speed_travel);
        prune(&mut p.pre_gcode, &xref, Ghost(b));
        prune(&mut p.post_gcode, &xref, Ghost(b));
        let ghost pre = texts(p.pre_gcode@);
        proof {
            reveal_strlit("G90");
            reveal_strlit("M104");
            reveal_strlit("M140");
        }
        let need_absolute_positioning = p.does_not_contain("G90");
        let need_hotend_temp = p.does_not_contain("M104");
        let need_bed_temp = p.heated_bed && p.does_not_contain("M140");
        let ghost a = if need_hotend_temp {
            seq![heat_nozzle_line(), wait_nozzle_line()] + pre
        } else {
            pre
        };
        if need_hotend_temp {
            p.pre_gcode.insert(0, String::from_str("M109 S{temp}       ; wait for nozzle temperature"));
            p.pre_gcode.insert(0, String::from_str("M104 S{temp}       ; need to heat the nozzle"));
        }
        assert(texts(p.pre_gcode@) =~= a);
        let ghost c = if need_bed_temp {
            seq![heat_bed_line(), wait_bed_line()] + a
        } else {
            a
        };
        if need_bed_temp {
            p.pre_gcode.insert(0, String::from_str("M190 S{bed_temp}   ; wait for bed temperature"));
            p.pre_gcode.insert(0, String::from_str("M140 S{bed_temp}   ; need to heat the bed"));
        }
        assert(texts(p.pre_gcode@) =~= c);
        if need_absolute_positioning {
            p.pre_gcode.push(String::from_str("G90                ; absolute position required"));
        }
        assert(texts(p.pre_gcode@) =~= completed_pre(pre, start.heated_bed));
        if p.build_size.2 > 1000 {
            return None;
        }
        if p.bed_belt {
            return None;
        }
        assert(p@ == with_gcode(start, texts(p.pre_gcode@), texts(p.post_gcode@)));
        Some(p)
    }

    /// The printer that Grid.Space description `cfg`, filed under `name`, describes, checked (see
    /// `gridapps_printer` and `checked_printer`).
    pub fn from_gridapps<G: GridApps>(name: String, cfg: &G) -> (r: Option<Self>)
        ensures
            printer_view(r) == checked_printer(gridapps_printer(name@, *cfg)),
    {
        let source = cfg.get_source();
        let license = cfg.get_license();
        let origin_center = cfg.get_origin_center();
        let bed_elliptic = cfg.get_bed_circle();
        let bed_width = cfg.get_bed_width();
        let bed_depth = cfg.get_bed_depth();
        let build_height = cfg.get_build_height();
        let build_size = (bed_width, bed_depth, build_height);
        let pre_gcode = cfg.get_pre_gcode();
        let post_gcode = cfg.get_post_gcode();
        let fan_gcode = cfg.get_fan_gcode();
        let progress_gcode = cfg.get_progress_gcode();
        let layer_gcode = cfg.get_layer_gcode();
        let bed_belt = cfg.get_bed_belt();
        let ga_extruders = cfg.get_extruders();
        let ghost listed = cfg.spec_extruders();
        let mut extruders: Vec<P3dExtruder> = Vec::new();
        if ga_extruders.len() == 0 {
            extruders.push(P3dExtruder::standard());
            assert(extruder_views(extruders@) =~= seq![standard_extruder()]);
        } else {
            let mut i: usize = 0;
            while i < ga_extruders.len()
                invariant
                    i <= ga_extruders@.len(),
                    ga_extruders@.len() == listed.len(),
                    forall|j: int| 0 <= j < ga_extruders@.len() ==> *ga_extruders@[j] == listed[j],
                    extruders@.len() == i,
                    extruder_views(extruders@) == described_extruders(listed.take(i as int)),
                decreases ga_extruders@.len() - i,
            {
                let ghost before = extruders@;
                match P3dExtruder::from_gridapps(ga_extruders[i]) {
                    Some(p3dextruder) => {
                        assert(p3dextruder@ == listed[i as int].spec_extruder());
                        extruders.push(p3dextruder);
                    },
                    None => {
                        return None;
                    },
                }
                assert forall|j: int| 0 <= j < i implies extruder_views(extruders@)[j]
                    == extruder_views(before)[j] by {
                    assert(extruders@[j] == before[j]);
                }
                i = i + 1;
                assert forall|j: int| 0 <= j < i implies extruder_views(extruders@)[j]
                    == described_extruders(listed.take(i as int))[j] by {
                    if j < i - 1 {
                        assert(extruder_views(before)[j] == described_extruders(
                            listed.take(i - 1),
                        )[j]);
                    }
                }
                assert(extruder_views(extruders@) =~= described_extruders(listed.take(i as int)));
            }
            assert(listed.take(listed.len() as int) =~= listed);
        }
        let machine_name = name.clone();
        let p3d = P3dPrinter {
            source,
            license,
            name,
            machine_name,
            origin_center,
            bed_elliptic,
            build_size,
            pre_gcode,
            post_gcode,
            fan_gcode,
            progress_gcode,
            layer_gcode,
            bed_belt,
            extruders,
            heated_bed: true,
            speed_travel: None,
        };
        assert(p3d@ == gridapps_printer(p3d.name@, *cfg));
        p3d.checked()
    }

    /// The printer that Cura definition `cfg` describes, with settings inherited through `all`
    /// and extruders from `all_extruders` (see `cura_printer`).
    pub fn from_cura(
        all: &NamedMap<CuraV2>,
        all_extruders: &NamedMap<CuraExtruderV2>,
        cfg: &CuraV2,
    ) -> (r: Option<Self>)
        requires
            printer_lookups_end(*all, *all_extruders, *cfg),
        ensures
            printer_view(r) == cura_printer(*all, *all_extruders, *cfg),
    {
        let source = cfg.get_source();
        let license = cfg.get_license();
        let name = cfg.printer_name();
        let machine_name = match cfg.get_machine_name(all) {
            Some(n) => n,
            None => name.clone(),
        };
        let origin_center = cfg.get_origin_center(all)?;
        let bed_elliptic = cfg.get_bed_elliptic(all)?;
        let bed_width = cfg.get_bed_width(all)?;
        let bed_depth = cfg.get_bed_depth(all)?;
        let build_height = cfg.get_build_height(all)?;
        let build_size = (bed_width, bed_depth, build_height);
        let heated_bed = cfg.get_heated_bed(all)?;
        let opt_speed_travel = cfg.get_speed_travel(all);
        let pre_text = cfg.get_pre_gcode(all)?;
        let pre_gcode = split_at_newlines(pre_text.as_str());
        let post_text = cfg.get_post_gcode(all)?;
        let post_gcode = split_at_newlines(post_text.as_str());
        let cura_extruders = cfg.get_extruders(all);
        let mut extruders: Vec<P3dExtruder> = Vec::new();
        let mut i: usize = 0;
        #[verifier::loop_isolation(false)]
        while i < cura_extruders.len()
            invariant
                i <= cura_extruders@.len(),
                cura_extruders@.len() <= 1,
                cura_extruders@.len() == 1 ==> extruder_lookups_end(*all_extruders, cura_extruders@[0]@),
                extruders@.len() == i,
                forall|j: int| 0 <= j < i ==> Some(#[trigger] extruders@[j]@) == cura_extruder(
                    *all_extruders,
                    cura_extruders@[j]@,
                ),
            decreases cura_extruders@.len() - i,
        {
            match P3dExtruder::from_cura(all_extruders, &cura_extruders[i]) {
                Some(p3dextruder) => extruders.push(p3dextruder),
                None => {
                    return None;
                },
            }
            i = i + 1;
        }
        if extruders.len() == 0 {
            return None;
        }
        if build_size.0 == 0 || build_size.1 == 0 || build_size.2 == 0 {
            return None;
        }
        let p3d = P3dPrinter {
            source,
            license,
            name,
            machine_name,
            origin_center,
            bed_elliptic,
            build_size,
            pre_gcode,
            post_gcode,
            fan_gcode: String::from_str("M106 S{fan_speed}"),
            progress_gcode: String::new(),
            layer_gcode: String::new(),
            bed_belt: false,
            extruders,
            heated_bed,
            speed_travel: opt_speed_travel,
        };
        assert(extruder_views(p3d.extruders@) =~= seq![p3d.extruders@[0]@]);
        assert(Some(p3d@) == cura_unchecked(*all, *all_extruders, *cfg));
        p3d.checked()
    }

    /// Of two definitions of the same machine, the one to keep (see `conflict_resolution`).
    pub fn resolve_conflict(this: Self, other: Self) -> (r: Option<Self>)
        ensures
            printer_view(r) == conflict_resolution(this@, other@),
    {
        let mut this = this;
        if crate::text::same_text(this.license.as_str(), "MIT") {
            return Some(this);
        }
        if crate::text::same_text(other.license.as_str(), "MIT") {
            return Some(other);
        }
        if crate::text::same_text(this.machine_name.as_str(), "Unknown") {
            if crate::text::same_text(other.machine_name.as_str(), "Unknown") {
                return None;
            }
            return Some(other);
        }
        if crate::text::same_text(other.machine_name.as_str(), "Unknown") {
            return Some(this);
        }
        if this.origin_center != other.origin_center {
            return None;
        }
        if this.build_size.0 != other.build_size.0 || this.build_size.1 != other.build_size.1
            || this.build_size.2 != other.build_size.2 {
            this.build_size = (
                smaller_of(this.build_size.0, other.build_size.0),
                smaller_of(this.build_size.1, other.build_size.1),
                smaller_of(this.build_size.2, other.build_size.2),
            );
        }
        let mut source = String::new();
        source.append(this.source.as_str());
        source.append("+");
        source.append(other.source.as_str());
        this.source = source;
        Some(this)
    }
}


/// A Cura extruder is built just when `all` holds it, its nozzle size, filament diameter, offsets
/// and start and end G-code are all found along its inheritance chain, and neither its nozzle nor
/// its filament is below 0.001; the built extruder has the nozzle size, filament diameter and
/// offsets found, is selected by the start G-code and deselected by the end G-code.
pub proof fn lemma_cura_extruder_built(all: NamedMap<CuraExtruderV2>, name: Seq<char>)
    ensures
        cura_extruder(all, name) is Some <==> all.has(name)
            && resolved::<CuraExtruderV2, NozzleSize>(all, all.at(name)) is Some
            && resolved::<CuraExtruderV2, FilamentDiameter>(all, all.at(name)) is Some
            && resolved::<CuraExtruderV2, NozzleOffsetX>(all, all.at(name)) is Some
            && resolved::<CuraExtruderV2, NozzleOffsetY>(all, all.at(name)) is Some
            && resolved::<CuraExtruderV2, ExtruderStartCode>(all, all.at(name)) is Some
            && resolved::<CuraExtruderV2, ExtruderEndCode>(all, all.at(name)) is Some
            && !below_thousandth(resolved::<CuraExtruderV2, NozzleSize>(all, all.at(name)).unwrap())
            && !below_thousandth(resolved::<CuraExtruderV2, FilamentDiameter>(all, all.at(name)).unwrap()),
        cura_extruder(all, name) matches Some(x) ==> {
            &&& Some(x.nozzle) == resolved::<CuraExtruderV2, NozzleSize>(all, all.at(name))
            &&& Some(x.filament) == resolved::<CuraExtruderV2, FilamentDiameter>(all, all.at(name))
            &&& Some(x.offset_x) == resolved::<CuraExtruderV2, NozzleOffsetX>(all, all.at(name))
            &&& Some(x.offset_y) == resolved::<CuraExtruderV2, NozzleOffsetY>(all, all.at(name))
            &&& x.select == resolved::<CuraExtruderV2, ExtruderStartCode>(all, all.at(name)).unwrap()@
            &&& x.deselect == resolved::<CuraExtruderV2, ExtruderEndCode>(all, all.at(name)).unwrap()@
        },
{
}

/// A Cura printer is built (before it is checked) just when its origin, bed shape, bed width,
/// depth and build height, bed heating and start and end G-code are all found along its
/// inheritance chain, it names an extruder train `0` whose extruder can be built, and none of its
/// dimensions is 0. The printer built has those dimensions as its build size (width, depth,
/// height), its start and end G-code split into lines, its own name, its machine name where one
/// is found (else its own name), that one extruder and its travel speed.
pub proof fn lemma_cura_printer_built(all: NamedMap<CuraV2>, extruders: NamedMap<CuraExtruderV2>, c: CuraV2)
    ensures
        cura_unchecked(all, extruders, c) is Some <==> resolved::<CuraV2, CenterIsZero>(all, c) is Some
            && cura_bed_elliptic(all, c) is Some
            && resolved::<CuraV2, MachineWidth>(all, c) is Some
            && resolved::<CuraV2, MachineWidth>(all, c).unwrap() != 0
            && resolved::<CuraV2, MachineDepth>(all, c) is Some
            && resolved::<CuraV2, MachineDepth>(all, c).unwrap() != 0
            && resolved::<CuraV2, MachineHeight>(all, c) is Some
            && resolved::<CuraV2, MachineHeight>(all, c).unwrap() != 0
            && resolved::<CuraV2, HeatedBed>(all, c) is Some
            && resolved::<CuraV2, StartGcode>(all, c) is Some
            && resolved::<CuraV2, EndGcode>(all, c) is Some
            && resolved::<CuraV2, FirstExtruderTrain>(all, c) is Some
            && cura_extruder(extruders, resolved::<CuraV2, FirstExtruderTrain>(all, c).unwrap()@) is Some,
        cura_unchecked(all, extruders, c) matches Some(p) ==> {
            &&& p.name == c.name@
            &&& p.build_size.0 == resolved::<CuraV2, MachineWidth>(all, c).unwrap()
            &&& p.build_size.1 == resolved::<CuraV2, MachineDepth>(all, c).unwrap()
            &&& p.build_size.2 == resolved::<CuraV2, MachineHeight>(all, c).unwrap()
            &&& p.origin_center == resolved::<CuraV2, CenterIsZero>(all, c).unwrap()
            &&& p.bed_elliptic == cura_bed_elliptic(all, c).unwrap()
            &&& p.heated_bed == resolved::<CuraV2, HeatedBed>(all, c).unwrap()
            &&& p.pre_gcode == split_lines(resolved::<CuraV2, StartGcode>(all, c).unwrap()@)
            &&& p.post_gcode == split_lines(resolved::<CuraV2, EndGcode>(all, c).unwrap()@)
            &&& p.speed_travel == resolved::<CuraV2, TravelSpeedSetting>(all, c)
            &&& p.extruders == seq![cura_extruder(extruders, resolved::<CuraV2, FirstExtruderTrain>(all, c).unwrap()@).unwrap()]
            &&& p.source == cura_source()
            &&& p.license == cura_license()
            &&& !p.bed_belt
            &&& p.fan_gcode == "M106 S{fan_speed}"@
            &&& p.progress_gcode.len() == 0
            &&& p.layer_gcode.len() == 0
        },
        cura_unchecked(all, extruders, c) matches Some(p) ==> (resolved::<CuraV2, MachineName>(all, c)
            matches Some(n) ==> p.machine_name == n@),
        cura_unchecked(all, extruders, c) matches Some(p) ==> (resolved::<CuraV2, MachineName>(all, c)
            is None ==> p.machine_name == c.name@),
{
}


/// The printer built from a description in the second Grid.Space format, before it is checked:
/// its build size is the description's bed width, bed depth and maximum height; its origin, round
/// bed and belt are the description's; its start and end G-code are the description's lines; its
/// fan, progress and layer G-code are the description's lines joined; it is named `name`, credited
/// to `GridApps02` under the MIT licence, has a heated bed and no travel speed; and its extruders
/// are the description's, each with its own nozzle, filament, offsets and selection G-code joined,
/// or the standard extruder (a 0.4 mm nozzle, 1.75 mm filament, no offsets, no selection G-code)
/// where none is listed.
pub proof fn lemma_gridapps02_printer(name: Seq<char>, g: GridApps02)
    ensures
        gridapps_printer(name, g).build_size == (g.bed_width, g.bed_depth, g.max_height),
        gridapps_printer(name, g).origin_center == g.origin_center,
        gridapps_printer(name, g).bed_elliptic == g.bed_round,
        gridapps_printer(name, g).bed_belt == g.bed_belt,
        gridapps_printer(name, g).pre_gcode == texts(g.gcode_pre@),
        gridapps_printer(name, g).post_gcode == texts(g.gcode_post@),
        gridapps_printer(name, g).fan_gcode == lines_text(g.gcode_fan@),
        gridapps_printer(name, g).progress_gcode == lines_text(g.gcode_track@),
        gridapps_printer(name, g).layer_gcode == lines_text(g.gcode_layer@),
        gridapps_printer(name, g).name == name,
        gridapps_printer(name, g).machine_name == name,
        gridapps_printer(name, g).source == "GridApps02"@,
        gridapps_printer(name, g).license == "MIT"@,
        gridapps_printer(name, g).heated_bed,
        gridapps_printer(name, g).speed_travel is None,
        g.extruders@.len() == 0 ==> gridapps_printer(name, g).extruders == seq![
            ExtruderView {
                nozzle: F32Bits { bits: 0x3ecc_cccd },
                filament: F32Bits { bits: 0x3fe0_0000 },
                offset_x: F32Bits { bits: 0 },
                offset_y: F32Bits { bits: 0 },
                select: seq![],
                deselect: seq![],
            },
        ],
        g.extruders@.len() > 0 ==> gridapps_printer(name, g).extruders.len() == g.extruders@.len(),
        g.extruders@.len() > 0 ==> forall|i: int|
            0 <= i < g.extruders@.len() ==> (#[trigger] gridapps_printer(name, g).extruders[i]) == (
            ExtruderView {
                nozzle: g.extruders@[i].ext_nozzle,
                filament: g.extruders@[i].ext_filament,
                offset_x: g.extruders@[i].ext_offset_x,
                offset_y: g.extruders@[i].ext_offset_y,
                select: lines_text(g.extruders@[i].ext_select@),
                deselect: lines_text(g.extruders@[i].ext_deselect@),
            }),
{
}

/// The printer built from a description in the first Grid.Space format, before it is checked:
/// its build size is the bed width, bed depth and build height of the description's settings;
/// its origin is theirs, its bed round only where they say so, and it prints on no belt; its start
/// and end G-code are the description's lines; its fan G-code is the fan command, its progress
/// G-code the progress command (empty where there is none) and its layer G-code the layer lines
/// joined (empty where there are none); it is named `name`, credited to `GridApps01` under the MIT
/// licence, has a heated bed and no travel speed; and its extruders are the description's, each
/// with its own nozzle, filament, offsets and selection G-code joined (no deselection G-code where
/// none is given), or the standard extruder (a 0.4 mm nozzle, 1.75 mm filament, no offsets, no selection G-code)
/// where none is listed.
pub proof fn lemma_gridapps01_printer(name: Seq<char>, g: GridApps01)
    ensures
        gridapps_printer(name, g).build_size == (
            g.settings.bed_width,
            g.settings.bed_depth,
            g.settings.build_height,
        ),
        gridapps_printer(name, g).origin_center == g.settings.origin_center,
        gridapps_printer(name, g).bed_elliptic == (g.settings.bed_circle == Some(true)),
        !gridapps_printer(name, g).bed_belt,
        gridapps_printer(name, g).pre_gcode == texts(g.pre@),
        gridapps_printer(name, g).post_gcode == texts(g.post@),
        gridapps_printer(name, g).fan_gcode == g.cmd.fan_power@,
        g.cmd.progress matches Some(t) ==> gridapps_printer(name, g).progress_gcode == t@,
        g.cmd.progress is None ==> gridapps_printer(name, g).progress_gcode.len() == 0,
        g.cmd.layer matches Some(l) ==> gridapps_printer(name, g).layer_gcode == lines_text(l@),
        g.cmd.layer is None ==> gridapps_printer(name, g).layer_gcode.len() == 0,
        gridapps_printer(name, g).name == name,
        gridapps_printer(name, g).machine_name == name,
        gridapps_printer(name, g).source == "GridApps01"@,
        gridapps_printer(name, g).license == "MIT"@,
        gridapps_printer(name, g).heated_bed,
        gridapps_printer(name, g).speed_travel is None,
        (g.extruders matches Some(e) ==> e@.len() == 0) ==> gridapps_printer(name, g).extruders
            == seq![
            ExtruderView {
                nozzle: F32Bits { bits: 0x3ecc_cccd },
                filament: F32Bits { bits: 0x3fe0_0000 },
                offset_x: F32Bits { bits: 0 },
                offset_y: F32Bits { bits: 0 },
                select: seq![],
                deselect: seq![],
            },
        ],
        g.extruders matches Some(e) ==> (e@.len() > 0 ==> gridapps_printer(name, g).extruders.len()
            == e@.len()),
        g.extruders matches Some(e) ==> (e@.len() > 0 ==> forall|i: int|
            0 <= i < e@.len() ==> (#[trigger] gridapps_printer(name, g).extruders[i]) == (
            ExtruderView {
                nozzle: e@[i].nozzle,
                filament: e@[i].filament,
                offset_x: e@[i].offset_x,
                offset_y: e@[i].offset_y,
                select: lines_text(e@[i].select@),
                deselect: match e@[i].deselect {
                    Some(d) => lines_text(d@),
                    None => seq![],
                },
            })),
{
}


/// Checking a printer refuses it just when it is taller than 1000 mm or prints on a belt. The
/// printer it accepts is the same printer with its placeholders resolved line by line (by the
/// placeholder table with its travel speed) and its start G-code completed: in front, the lines
/// that heat the bed and wait for it where the bed is heated and no resolved start line sets its
/// temperature (`M140`), then the lines that heat the nozzle and wait for it where no resolved
/// start line sets its temperature (`M104`); behind, the line that selects absolute positioning
/// where no resolved start line does (`G90`).
pub proof fn lemma_checked_printer_shape(p: PrinterView)
    ensures
        checked_printer(p) is Some <==> p.build_size.2 <= 1000 && !p.bed_belt,
        checked_printer(p) matches Some(q) ==> {
            let speed = match p.speed_travel {
                Some(t) => Some(t.text@),
                None => None,
            };
            let b = placeholder_bindings(speed);
            let pre = pruned(p.pre_gcode, b);
            let bed: Seq<Seq<char>> = if p.heated_bed && !any_uncommented(pre, "M140"@) {
                seq!["M140 S{bed_temp}   ; need to heat the bed"@, "M190 S{bed_temp}   ; wait for bed temperature"@]
            } else {
                seq![]
            };
            let hot: Seq<Seq<char>> = if !any_uncommented(pre, "M104"@) {
                seq!["M104 S{temp}       ; need to heat the nozzle"@, "M109 S{temp}       ; wait for nozzle temperature"@]
            } else {
                seq![]
            };
            let abs: Seq<Seq<char>> = if !any_uncommented(pre, "G90"@) {
                seq!["G90                ; absolute position required"@]
            } else {
                seq![]
            };
            &&& q.pre_gcode == bed + hot + pre + abs
            &&& q.post_gcode == pruned(p.post_gcode, b)
            &&& q.name == p.name
            &&& q.machine_name == p.machine_name
            &&& q.source == p.source
            &&& q.license == p.license
            &&& q.origin_center == p.origin_center
            &&& q.bed_elliptic == p.bed_elliptic
            &&& q.bed_belt == p.bed_belt
            &&& q.extruders == p.extruders
            &&& q.build_size == p.build_size
            &&& q.fan_gcode == p.fan_gcode
            &&& q.progress_gcode == p.progress_gcode
            &&& q.layer_gcode == p.layer_gcode
            &&& q.heated_bed == p.heated_bed
            &&& q.speed_travel == p.speed_travel
        },
{
    if checked_printer(p) is Some {
        let b = placeholder_bindings(speed_text(p.speed_travel));
        let pre = pruned(p.pre_gcode, b);
        let q = checked_printer(p).unwrap();
        let need_bed = p.heated_bed && !any_uncommented(pre, "M140"@);
        let need_hot = !any_uncommented(pre, "M104"@);
        let need_abs = !any_uncommented(pre, "G90"@);
        let e = Seq::<Seq<char>>::empty();
        let bed: Seq<Seq<char>> = if need_bed { seq![heat_bed_line(), wait_bed_line()] } else { e };
        let hot: Seq<Seq<char>> = if need_hot { seq![heat_nozzle_line(), wait_nozzle_line()] } else { e };
        let abs: Seq<Seq<char>> = if need_abs { seq![absolute_line()] } else { e };
        assert(q.pre_gcode =~= bed + hot + pre + abs);
    }
}


/// Of two definitions of one machine: an MIT-licensed first one is kept, else an MIT-licensed
/// second one; else, where both machine names are `Unknown`, neither; where just one is, the
/// other; else, where they disagree on the origin, neither; else the first is kept with each
/// build dimension the smaller of the two (so no larger than either and equal to one of them),
/// both sources credited as `first+second`, and everything else its own.
pub proof fn lemma_conflict_resolution_cases(a: PrinterView, b: PrinterView)
    ensures
        a.license == "MIT"@ ==> conflict_resolution(a, b) == Some(a),
        a.license != "MIT"@ && b.license == "MIT"@ ==> conflict_resolution(a, b) == Some(b),
        a.license != "MIT"@ && b.license != "MIT"@ && a.machine_name == "Unknown"@ ==> conflict_resolution(
            a,
            b,
        ) == if b.machine_name == "Unknown"@ {
            None
        } else {
            Some(b)
        },
        a.license != "MIT"@ && b.license != "MIT"@ && a.machine_name != "Unknown"@ && b.machine_name
            == "Unknown"@ ==> conflict_resolution(a, b) == Some(a),
        a.license != "MIT"@ && b.license != "MIT"@ && a.machine_name != "Unknown"@ && b.machine_name
            != "Unknown"@ && a.origin_center != b.origin_center ==> conflict_resolution(a, b) is None,
        a.license != "MIT"@ && b.license != "MIT"@ && a.machine_name != "Unknown"@ && b.machine_name
            != "Unknown"@ && a.origin_center == b.origin_center ==> (conflict_resolution(a, b) matches Some(m) && {
            &&& m.build_size.0 <= a.build_size.0 && m.build_size.0 <= b.build_size.0
            &&& (m.build_size.0 == a.build_size.0 || m.build_size.0 == b.build_size.0)
            &&& m.build_size.1 <= a.build_size.1 && m.build_size.1 <= b.build_size.1
            &&& (m.build_size.1 == a.build_size.1 || m.build_size.1 == b.build_size.1)
            &&& m.build_size.2 <= a.build_size.2 && m.build_size.2 <= b.build_size.2
            &&& (m.build_size.2 == a.build_size.2 || m.build_size.2 == b.build_size.2)
            &&& m.source == a.source + "+"@ + b.source
            &&& m.pre_gcode == a.pre_gcode && m.post_gcode == a.post_gcode
            &&& m.name == a.name && m.machine_name == a.machine_name && m.license == a.license
            &&& m.origin_center == a.origin_center && m.bed_elliptic == a.bed_elliptic
            &&& m.bed_belt == a.bed_belt && m.extruders == a.extruders
            &&& m.fan_gcode == a.fan_gcode && m.progress_gcode == a.progress_gcode
            &&& m.layer_gcode == a.layer_gcode && m.heated_bed == a.heated_bed
            &&& m.speed_travel == a.speed_travel
        }),
{
}

} // verus!
