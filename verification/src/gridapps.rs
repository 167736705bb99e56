use vstd::prelude::*;

use crate::text::{copy_lines, join_with, joined, newline, texts};
use crate::values::{ExtruderView, F32Bits};

verus! {

/// An extruder as a Grid.Space (Kiri:Moto) device description gives it.
pub trait GridAppsExtruder {
    /// What the description says of the extruder.
    spec fn spec_extruder(&self) -> ExtruderView;

    fn get_nozzle(&self) -> (r: F32Bits)
        ensures
            r == self.spec_extruder().nozzle,
    ;

    fn get_filament(&self) -> (r: F32Bits)
        ensures
            r == self.spec_extruder().filament,
    ;

    fn get_offset_x(&self) -> (r: F32Bits)
        ensures
            r == self.spec_extruder().offset_x,
    ;

    fn get_offset_y(&self) -> (r: F32Bits)
        ensures
            r == self.spec_extruder().offset_y,
    ;

    fn get_select_gcode(&self) -> (r: String)
        ensures
            r@ == self.spec_extruder().select,
    ;

    fn get_deselect_gcode(&self) -> (r: String)
        ensures
            r@ == self.spec_extruder().deselect,
    ;
}

/// What a Grid.Space device description says of a printer.
pub struct GridAppsView {
    pub license: Seq<char>,
    pub source: Seq<char>,
    pub origin_center: bool,
    pub bed_circle: bool,
    pub bed_width: u16,
    pub bed_depth: u16,
    pub build_height: u16,
    pub pre_gcode: Seq<Seq<char>>,
    pub post_gcode: Seq<Seq<char>>,
    pub fan_gcode: Seq<char>,
    pub progress_gcode: Seq<char>,
    pub layer_gcode: Seq<char>,
    pub bed_belt: bool,
}

/// A printer as a Grid.Space (Kiri:Moto) device description gives it.
pub trait GridApps {
    type Extruder: GridAppsExtruder;

    /// What the description says of the printer.
    spec fn spec_gridapps(&self) -> GridAppsView;

    /// The extruders the description lists.
    spec fn spec_extruders(&self) -> Seq<Self::Extruder>;

    fn get_license(&self) -> (r: String)
        ensures
            r@ == self.spec_gridapps().license,
    ;

    fn get_source(&self) -> (r: String)
        ensures
            r@ == self.spec_gridapps().source,
    ;

    fn get_origin_center(&self) -> (r: bool)
        ensures
            r == self.spec_gridapps().origin_center,
    ;

    fn get_bed_circle(&self) -> (r: bool)
        ensures
            r == self.spec_gridapps().bed_circle,
    ;

    fn get_bed_width(&self) -> (r: u16)
        ensures
            r == self.spec_gridapps().bed_width,
    ;

    fn get_bed_depth(&self) -> (r: u16)
        ensures
            r == self.spec_gridapps().bed_depth,
    ;

    fn get_build_height(&self) -> (r: u16)
        ensures
            r == self.spec_gridapps().build_height,
    ;

    fn get_pre_gcode(&self) -> (r: Vec<String>)
        ensures
            texts(r@) == self.spec_gridapps().pre_gcode,
    ;

    fn get_post_gcode(&self) -> (r: Vec<String>)
        ensures
            texts(r@) == self.spec_gridapps().post_gcode,
    ;

    fn get_fan_gcode(&self) -> (r: String)
        ensures
            r@ == self.spec_gridapps().fan_gcode,
    ;

    fn get_progress_gcode(&self) -> (r: String)
        ensures
            r@ == self.spec_gridapps().progress_gcode,
    ;

    fn get_layer_gcode(&self) -> (r: String)
        ensures
            r@ == self.spec_gridapps().layer_gcode,
    ;

    fn get_bed_belt(&self) -> (r: bool)
        ensures
            r == self.spec_gridapps().bed_belt,
    ;

    fn get_extruders(&self) -> (r: Vec<&Self::Extruder>)
        ensures
            r@.len() == self.spec_extruders().len(),
            forall|i: int| 0 <= i < r@.len() ==> *r@[i] == self.spec_extruders()[i],
    ;
}

/// Lines joined by newlines.
pub open spec fn lines_text(lines: Seq<String>) -> Seq<char> {
    joined(texts(lines), newline())
}

fn join_lines(lines: &Vec<String>) -> (r: String)
    ensures
        r@ == lines_text(lines@),
{
    proof {
        reveal_strlit("\n");
        assert("\n"@ =~= newline());
    }
    join_with(lines, "\n")
}

/// References to the elements of `v`, in order.
fn element_refs<T>(v: &Vec<T>) -> (r: Vec<&T>)
    ensures
        r@.len() == v@.len(),
        forall|i: int| 0 <= i < r@.len() ==> *r@[i] == v@[i],
{
    let mut out: Vec<&T> = Vec::new();
    let mut i: usize = 0;
    while i < v.len()
        invariant
            i <= v.len(),
            out@.len() == i,
            forall|j: int| 0 <= j < i ==> *out@[j] == v@[j],
        decreases v.len() - i,
    {
        out.push(&v[i]);
        i = i + 1;
    }
    out
}

/// An extruder in the first Grid.Space description format.
pub struct Extruder01 {
    pub nozzle: F32Bits,
    pub filament: F32Bits,
    pub offset_x: F32Bits,
    pub offset_y: F32Bits,
    pub select: Vec<String>,
    pub deselect: Option<Vec<String>>,
}

/// The printer commands in the first Grid.Space description format.
pub struct Command01 {
    pub fan_power: String,
    pub progress: Option<String>,
    pub layer: Option<Vec<String>>,
}

/// The bed settings in the first Grid.Space description format.
pub struct Settings01 {
    pub origin_center: bool,
    pub bed_width: u16,
    pub bed_depth: u16,
    pub build_height: u16,
    pub bed_circle: Option<bool>,
}

/// A printer in the first Grid.Space description format.
pub struct GridApps01 {
    pub pre: Vec<String>,
    pub post: Vec<String>,
    pub cmd: Command01,
    pub extruders: Option<Vec<Extruder01>>,
    pub settings: Settings01,
}

/// An extruder in the second Grid.Space description format.
pub struct Extruder02 {
    pub ext_filament: F32Bits,
    pub ext_nozzle: F32Bits,
    pub ext_select: Vec<String>,
    pub ext_deselect: Vec<String>,
    pub ext_offset_x: F32Bits,
    pub ext_offset_y: F32Bits,
}

/// A printer in the second Grid.Space description format.
pub struct GridApps02 {
    pub bed_width: u16,
    pub bed_depth: u16,
    pub max_height: u16,
    pub bed_round: bool,
    pub bed_belt: bool,
    pub origin_center: bool,
    pub gcode_pre: Vec<String>,
    pub gcode_post: Vec<String>,
    pub gcode_layer: Vec<String>,
    pub gcode_track: Vec<String>,
    pub gcode_fan: Vec<String>,
    pub extruders: Vec<Extruder02>,
}

/// The licence of Grid.Space device descriptions.
pub open spec fn gridapps_license() -> Seq<char> {
    "MIT"@
}

impl GridAppsExtruder for Extruder01 {
    open spec fn spec_extruder(&self) -> ExtruderView {
        ExtruderView {
            nozzle: self.nozzle,
            filament: self.filament,
            offset_x: self.offset_x,
            offset_y: self.offset_y,
            select: lines_text(self.select@),
            deselect: match self.deselect {
                Some(d) => lines_text(d@),
                None => seq![],
            },
        }
    }

    fn get_nozzle(&self) -> (r: F32Bits) {
        self.nozzle
    }

    fn get_filament(&self) -> (r: F32Bits) {
        self.filament
    }

    fn get_offset_x(&self) -> (r: F32Bits) {
        self.offset_x
    }

    fn get_offset_y(&self) -> (r: F32Bits) {
        self.offset_y
    }

    fn get_select_gcode(&self) -> (r: String) {
        join_lines(&self.select)
    }

    fn get_deselect_gcode(&self) -> (r: String) {
        match &self.deselect {
            Some(d) => join_lines(d),
            None => String::new(),
        }
    }
}

impl GridAppsExtruder for Extruder02 {
    open spec fn spec_extruder(&self) -> ExtruderView {
        ExtruderView {
            nozzle: self.ext_nozzle,
            filament: self.ext_filament,
            offset_x: self.ext_offset_x,
            offset_y: self.ext_offset_y,
            select: lines_text(self.ext_select@),
            deselect: lines_text(self.ext_deselect@),
        }
    }

    fn get_nozzle(&self) -> (r: F32Bits) {
        self.ext_nozzle
    }

    fn get_filament(&self) -> (r: F32Bits) {
        self.ext_filament
    }

    fn get_offset_x(&self) -> (r: F32Bits) {
        self.ext_offset_x
    }

    fn get_offset_y(&self) -> (r: F32Bits) {
        self.ext_offset_y
    }

    fn get_select_gcode(&self) -> (r: String) {
        join_lines(&self.ext_select)
    }

    fn get_deselect_gcode(&self) -> (r: String) {
        join_lines(&self.ext_deselect)
    }
}

impl GridApps for GridApps01 {
    type Extruder = Extruder01;

    open spec fn spec_gridapps(&self) -> GridAppsView {
        GridAppsView {
            license: gridapps_license(),
            source: "GridApps01"@,
            origin_center: self.settings.origin_center,
            bed_circle: match self.settings.bed_circle {
                Some(b) => b,
                None => false,
            },
            bed_width: self.settings.bed_width,
            bed_depth: self.settings.bed_depth,
            build_height: self.settings.build_height,
            pre_gcode: texts(self.pre@),
            post_gcode: texts(self.post@),
            fan_gcode: self.cmd.fan_power@,
            progress_gcode: match self.cmd.progress {
                Some(p) => p@,
                None => seq![],
            },
            layer_gcode: match self.cmd.layer {
                Some(l) => lines_text(l@),
                None => seq![],
            },
            bed_belt: false,
        }
    }

    open spec fn spec_extruders(&self) -> Seq<Extruder01> {
        match self.extruders {
            Some(e) => e@,
            None => seq![],
        }
    }

    fn get_license(&self) -> (r: String) {
        "MIT".to_string()
    }

    fn get_source(&self) -> (r: String) {
        "GridApps01".to_string()
    }

    fn get_origin_center(&self) -> (r: bool) {
        self.settings.origin_center
    }

    fn get_bed_circle(&self) -> (r: bool) {
        match self.settings.bed_circle {
            Some(b) => b,
            None => false,
        }
    }

    fn get_bed_width(&self) -> (r: u16) {
        self.settings.bed_width
    }

    fn get_bed_depth(&self) -> (r: u16) {
        self.settings.bed_depth
    }

    fn get_build_height(&self) -> (r: u16) {
        self.settings.build_height
    }

    fn get_pre_gcode(&self) -> (r: Vec<String>) {
        copy_lines(&self.pre)
    }

    fn get_post_gcode(&self) -> (r: Vec<String>) {
        copy_lines(&self.post)
    }

    fn get_fan_gcode(&self) -> (r: String) {
        self.cmd.fan_power.clone()
    }

    fn get_progress_gcode(&self) -> (r: String) {
        match &self.cmd.progress {
            Some(p) => p.clone(),
            None => String::new(),
        }
    }

    fn get_layer_gcode(&self) -> (r: String) {
        match &self.cmd.layer {
            Some(l) => join_lines(l),
            None => String::new(),
        }
    }

    fn get_bed_belt(&self) -> (r: bool) {
        false
    }

    fn get_extruders(&self) -> (r: Vec<&Extruder01>) {
        match &self.extruders {
            Some(e) => element_refs(e),
            None => Vec::new(),
        }
    }
}

impl GridApps for GridApps02 {
    type Extruder = Extruder02;

    open spec fn spec_gridapps(&self) -> GridAppsView {
        GridAppsView {
            license: gridapps_license(),
            source: "GridApps02"@,
            origin_center: self.origin_center,
            bed_circle: self.bed_round,
            bed_width: self.bed_width,
            bed_depth: self.bed_depth,
            build_height: self.max_height,
            pre_gcode: texts(self.gcode_pre@),
            post_gcode: texts(self.gcode_post@),
            fan_gcode: lines_text(self.gcode_fan@),
            progress_gcode: lines_text(self.gcode_track@),
            layer_gcode: lines_text(self.gcode_layer@),
            bed_belt: self.bed_belt,
        }
    }

    open spec fn spec_extruders(&self) -> Seq<Extruder02> {
        self.extruders@
    }

    fn get_license(&self) -> (r: String) {
        "MIT".to_string()
    }

    fn get_source(&self) -> (r: String) {
        "GridApps02".to_string()
    }

    fn get_origin_center(&self) -> (r: bool) {
        self.origin_center
    }

    fn get_bed_circle(&self) -> (r: bool) {
        self.bed_round
    }

    fn get_bed_width(&self) -> (r: u16) {
        self.bed_width
    }

    fn get_bed_depth(&self) -> (r: u16) {
        self.bed_depth
    }

    fn get_build_height(&self) -> (r: u16) {
        self.max_height
    }

    fn get_pre_gcode(&self) -> (r: Vec<String>) {
        copy_lines(&self.gcode_pre)
    }

    fn get_post_gcode(&self) -> (r: Vec<String>) {
        copy_lines(&self.gcode_post)
    }

    fn get_fan_gcode(&self) -> (r: String) {
        join_lines(&self.gcode_fan)
    }

    fn get_progress_gcode(&self) -> (r: String) {
        join_lines(&self.gcode_track)
    }

    fn get_layer_gcode(&self) -> (r: String) {
        join_lines(&self.gcode_layer)
    }

    fn get_bed_belt(&self) -> (r: bool) {
        self.bed_belt
    }

    fn get_extruders(&self) -> (r: Vec<&Extruder02>) {
        element_refs(&self.extruders)
    }
}

} // verus!
