use vstd::prelude::*;

use crate::inherit::{lemma_inherited_from_parent, lemma_lookup_cases, resolve, resolved, resolves, Layered, Setting};
use crate::named_map::NamedMap;
use crate::text::same_text;
use crate::values::{F32Bits, TravelSpeed};

verus! {

/// A setting as an override gives it: an explicit `value`, and a `default_value` used where no
/// value is given.
pub struct DefaultSetting<T> {
    pub default_value: Option<T>,
    pub value: Option<T>,
}

/// A setting as a full setting description gives it: a default value only.
pub struct LongSetting<T> {
    pub default_value: Option<T>,
}

/// The value an override gives: its `value`, else its `default_value`.
pub open spec fn chosen<T>(d: Option<DefaultSetting<T>>) -> Option<T> {
    match d {
        Some(d) => if d.value is Some {
            d.value
        } else {
            d.default_value
        },
        None => None,
    }
}

/// The value a setting description gives: its default.
pub open spec fn long_default<T>(d: Option<LongSetting<T>>) -> Option<T> {
    match d {
        Some(l) => l.default_value,
        None => None,
    }
}

/// `a` where it holds a value, else `b`.
pub open spec fn either<T>(a: Option<T>, b: Option<T>) -> Option<T> {
    if a is Some {
        a
    } else {
        b
    }
}

fn chosen_copy<T: Copy>(d: &Option<DefaultSetting<T>>) -> (r: Option<T>)
    ensures
        r == chosen(*d),
{
    match d {
        Some(d) => match d.value {
            Some(v) => Some(v),
            None => d.default_value,
        },
        None => None,
    }
}

fn long_copy<T: Copy>(d: &Option<LongSetting<T>>) -> (r: Option<T>)
    ensures
        r == long_default(*d),
{
    match d {
        Some(l) => l.default_value,
        None => None,
    }
}

fn chosen_text(d: &Option<DefaultSetting<String>>) -> (r: Option<String>)
    ensures
        r == chosen(*d),
{
    match d {
        Some(d) => match &d.value {
            Some(v) => Some(v.clone()),
            None => match &d.default_value {
                Some(v) => Some(v.clone()),
                None => None,
            },
        },
        None => None,
    }
}

fn long_text(d: &Option<LongSetting<String>>) -> (r: Option<String>)
    ensures
        r == long_default(*d),
{
    match d {
        Some(l) => match &l.default_value {
            Some(v) => Some(v.clone()),
            None => None,
        },
        None => None,
    }
}

fn chosen_speed(d: &Option<DefaultSetting<TravelSpeed>>) -> (r: Option<TravelSpeed>)
    ensures
        r == chosen(*d),
{
    match d {
        Some(d) => match &d.value {
            Some(v) => Some(v.copy()),
            None => match &d.default_value {
                Some(v) => Some(v.copy()),
                None => None,
            },
        },
        None => None,
    }
}

fn long_speed(d: &Option<LongSetting<TravelSpeed>>) -> (r: Option<TravelSpeed>)
    ensures
        r == long_default(*d),
{
    match d {
        Some(l) => match &l.default_value {
            Some(v) => Some(v.copy()),
            None => None,
        },
        None => None,
    }
}

/// The overrides of a Cura extruder definition.
pub struct OverridesExtruderV2 {
    pub machine_nozzle_size: Option<DefaultSetting<F32Bits>>,
    pub machine_nozzle_offset_x: Option<DefaultSetting<F32Bits>>,
    pub machine_nozzle_offset_y: Option<DefaultSetting<F32Bits>>,
    pub material_diameter: Option<DefaultSetting<F32Bits>>,
    pub machine_extruder_start_code: Option<DefaultSetting<String>>,
    pub machine_extruder_end_code: Option<DefaultSetting<String>>,
}

/// The machine settings described in full by a Cura extruder definition.
pub struct DetailedSettingsExtruderV2 {
    pub machine_nozzle_size: Option<LongSetting<F32Bits>>,
    pub machine_nozzle_offset_x: Option<LongSetting<F32Bits>>,
    pub machine_nozzle_offset_y: Option<LongSetting<F32Bits>>,
    pub material_diameter: Option<LongSetting<F32Bits>>,
    pub machine_extruder_start_code: Option<LongSetting<String>>,
    pub machine_extruder_end_code: Option<LongSetting<String>>,
}

/// The machine settings category of a Cura extruder definition.
pub struct MachineSettingsExtruderV2 {
    pub children: DetailedSettingsExtruderV2,
}

/// The settings of a Cura extruder definition.
pub struct SettingsExtruderV2 {
    pub machine_settings: MachineSettingsExtruderV2,
}

/// A Cura extruder definition (format version 2).
pub struct CuraExtruderV2 {
    pub inherits: Option<String>,
    pub overrides: Option<OverridesExtruderV2>,
    pub settings: Option<SettingsExtruderV2>,
}

impl Layered for CuraExtruderV2 {
    open spec fn parent_name(&self) -> Option<Seq<char>> {
        match self.inherits {
            Some(p) => Some(p@),
            None => None,
        }
    }

    fn inherits(&self) -> (r: Option<&String>) {
        self.inherits.as_ref()
    }
}

/// The nozzle diameter
pub struct NozzleSize;

impl Setting<CuraExtruderV2> for NozzleSize {
    type Value = F32Bits;

    open spec fn local(c: CuraExtruderV2) -> Option<F32Bits> {
        either(
            match c.overrides {
                Some(o) => chosen(o.machine_nozzle_size),
                None => None,
            },
            match c.settings {
                Some(s) => long_default(s.machine_settings.children.machine_nozzle_size),
                None => None,
            },
        )
    }

    fn pick(c: &CuraExtruderV2) -> (r: Option<F32Bits>) {
        let a = match &c.overrides {
            Some(o) => chosen_copy(&o.machine_nozzle_size),
            None => None,
        };
        if a.is_some() {
            return a;
        }
        match &c.settings {
            Some(s) => long_copy(&s.machine_settings.children.machine_nozzle_size),
            None => None,
        }
    }
}

/// The nozzle offset along x
pub struct NozzleOffsetX;

impl Setting<CuraExtruderV2> for NozzleOffsetX {
    type Value = F32Bits;

    open spec fn local(c: CuraExtruderV2) -> Option<F32Bits> {
        either(
            match c.overrides {
                Some(o) => chosen(o.machine_nozzle_offset_x),
                None => None,
            },
            match c.settings {
                Some(s) => long_default(s.machine_settings.children.machine_nozzle_offset_x),
                None => None,
            },
        )
    }

    fn pick(c: &CuraExtruderV2) -> (r: Option<F32Bits>) {
        let a = match &c.overrides {
            Some(o) => chosen_copy(&o.machine_nozzle_offset_x),
            None => None,
        };
        if a.is_some() {
            return a;
        }
        match &c.settings {
            Some(s) => long_copy(&s.machine_settings.children.machine_nozzle_offset_x),
            None => None,
        }
    }
}

/// The nozzle offset along y
pub struct NozzleOffsetY;

impl Setting<CuraExtruderV2> for NozzleOffsetY {
    type Value = F32Bits;

    open spec fn local(c: CuraExtruderV2) -> Option<F32Bits> {
        either(
            match c.overrides {
                Some(o) => chosen(o.machine_nozzle_offset_y),
                None => None,
            },
            match c.settings {
                Some(s) => long_default(s.machine_settings.children.machine_nozzle_offset_y),
                None => None,
            },
        )
    }

    fn pick(c: &CuraExtruderV2) -> (r: Option<F32Bits>) {
        let a = match &c.overrides {
            Some(o) => chosen_copy(&o.machine_nozzle_offset_y),
            None => None,
        };
        if a.is_some() {
            return a;
        }
        match &c.settings {
            Some(s) => long_copy(&s.machine_settings.children.machine_nozzle_offset_y),
            None => None,
        }
    }
}

/// The filament diameter
pub struct FilamentDiameter;

impl Setting<CuraExtruderV2> for FilamentDiameter {
    type Value = F32Bits;

    open spec fn local(c: CuraExtruderV2) -> Option<F32Bits> {
        either(
            match c.overrides {
                Some(o) => chosen(o.material_diameter),
                None => None,
            },
            match c.settings {
                Some(s) => long_default(s.machine_settings.children.material_diameter),
                None => None,
            },
        )
    }

    fn pick(c: &CuraExtruderV2) -> (r: Option<F32Bits>) {
        let a = match &c.overrides {
            Some(o) => chosen_copy(&o.material_diameter),
            None => None,
        };
        if a.is_some() {
            return a;
        }
        match &c.settings {
            Some(s) => long_copy(&s.machine_settings.children.material_diameter),
            None => None,
        }
    }
}

/// The G-code that selects the extruder
pub struct ExtruderStartCode;

impl Setting<CuraExtruderV2> for ExtruderStartCode {
    type Value = String;

    open spec fn local(c: CuraExtruderV2) -> Option<String> {
        either(
            match c.overrides {
                Some(o) => chosen(o.machine_extruder_start_code),
                None => None,
            },
            match c.settings {
                Some(s) => long_default(s.machine_settings.children.machine_extruder_start_code),
                None => None,
            },
        )
    }

    fn pick(c: &CuraExtruderV2) -> (r: Option<String>) {
        let a = match &c.overrides {
            Some(o) => chosen_text(&o.machine_extruder_start_code),
            None => None,
        };
        if a.is_some() {
            return a;
        }
        match &c.settings {
            Some(s) => long_text(&s.machine_settings.children.machine_extruder_start_code),
            None => None,
        }
    }
}

/// The G-code that deselects the extruder
pub struct ExtruderEndCode;

impl Setting<CuraExtruderV2> for ExtruderEndCode {
    type Value = String;

    open spec fn local(c: CuraExtruderV2) -> Option<String> {
        either(
            match c.overrides {
                Some(o) => chosen(o.machine_extruder_end_code),
                None => None,
            },
            match c.settings {
                Some(s) => long_default(s.machine_settings.children.machine_extruder_end_code),
                None => None,
            },
        )
    }

    fn pick(c: &CuraExtruderV2) -> (r: Option<String>) {
        let a = match &c.overrides {
            Some(o) => chosen_text(&o.machine_extruder_end_code),
            None => None,
        };
        if a.is_some() {
            return a;
        }
        match &c.settings {
            Some(s) => long_text(&s.machine_settings.children.machine_extruder_end_code),
            None => None,
        }
    }
}

impl CuraExtruderV2 {
    /// The nozzle diameter, inherited from the parent definitions in `all` where this one does not set it.
    pub fn get_nozzle(&self, all: &NamedMap<CuraExtruderV2>) -> (r: Option<F32Bits>)
        requires
            resolves::<CuraExtruderV2, NozzleSize>(*all, *self),
        ensures
            r == resolved::<CuraExtruderV2, NozzleSize>(*all, *self),
    {
        resolve::<CuraExtruderV2, NozzleSize>(self, all)
    }

    /// The nozzle offset along x, inherited from the parent definitions in `all` where this one does not set it.
    pub fn get_offset_x(&self, all: &NamedMap<CuraExtruderV2>) -> (r: Option<F32Bits>)
        requires
            resolves::<CuraExtruderV2, NozzleOffsetX>(*all, *self),
        ensures
            r == resolved::<CuraExtruderV2, NozzleOffsetX>(*all, *self),
    {
        resolve::<CuraExtruderV2, NozzleOffsetX>(self, all)
    }

    /// The nozzle offset along y, inherited from the parent definitions in `all` where this one does not set it.
    pub fn get_offset_y(&self, all: &NamedMap<CuraExtruderV2>) -> (r: Option<F32Bits>)
        requires
            resolves::<CuraExtruderV2, NozzleOffsetY>(*all, *self),
        ensures
            r == resolved::<CuraExtruderV2, NozzleOffsetY>(*all, *self),
    {
        resolve::<CuraExtruderV2, NozzleOffsetY>(self, all)
    }

    /// The filament diameter, inherited from the parent definitions in `all` where this one does not set it.
    pub fn get_filament(&self, all: &NamedMap<CuraExtruderV2>) -> (r: Option<F32Bits>)
        requires
            resolves::<CuraExtruderV2, FilamentDiameter>(*all, *self),
        ensures
            r == resolved::<CuraExtruderV2, FilamentDiameter>(*all, *self),
    {
        resolve::<CuraExtruderV2, FilamentDiameter>(self, all)
    }

    /// The G-code that selects the extruder, inherited from the parent definitions in `all` where this one does not set it.
    pub fn get_select_gcode(&self, all: &NamedMap<CuraExtruderV2>) -> (r: Option<String>)
        requires
            resolves::<CuraExtruderV2, ExtruderStartCode>(*all, *self),
        ensures
            r == resolved::<CuraExtruderV2, ExtruderStartCode>(*all, *self),
    {
        resolve::<CuraExtruderV2, ExtruderStartCode>(self, all)
    }

    /// The G-code that deselects the extruder, inherited from the parent definitions in `all` where this one does not set it.
    pub fn get_deselect_gcode(&self, all: &NamedMap<CuraExtruderV2>) -> (r: Option<String>)
        requires
            resolves::<CuraExtruderV2, ExtruderEndCode>(*all, *self),
        ensures
            r == resolved::<CuraExtruderV2, ExtruderEndCode>(*all, *self),
    {
        resolve::<CuraExtruderV2, ExtruderEndCode>(self, all)
    }
}

/// An extruder that gives no filament diameter of its own (neither a value nor a default in its
/// overrides, no default in its settings) and whose parent `all` holds takes it from that parent:
/// `get_filament` ends on the extruder just when it ends on the parent, and both then give the
/// same.
pub proof fn lemma_filament_from_parent(all: NamedMap<CuraExtruderV2>, ext: CuraExtruderV2)
    requires
        ext.overrides matches Some(o) ==> (o.material_diameter matches Some(d) ==> (d.value is None
            && d.default_value is None)),
        ext.settings matches Some(s) ==> (s.machine_settings.children.material_diameter matches Some(
            l,
        ) ==> l.default_value is None),
        ext.inherits matches Some(k) && all.has(k@),
    ensures
        resolves::<CuraExtruderV2, FilamentDiameter>(all, ext) <==> resolves::<
            CuraExtruderV2,
            FilamentDiameter,
        >(all, all.at(ext.inherits.unwrap()@)),
        resolves::<CuraExtruderV2, FilamentDiameter>(all, ext) ==> resolved::<
            CuraExtruderV2,
            FilamentDiameter,
        >(all, ext) == resolved::<CuraExtruderV2, FilamentDiameter>(
            all,
            all.at(ext.inherits.unwrap()@),
        ),
{
    lemma_inherited_from_parent::<CuraExtruderV2, FilamentDiameter>(all, ext);
}

/// The overrides of a Cura printer definition.
pub struct OverridesV2 {
    pub machine_name: Option<DefaultSetting<String>>,
    pub machine_heated_bed: Option<DefaultSetting<bool>>,
    pub machine_width: Option<DefaultSetting<u16>>,
    pub machine_height: Option<DefaultSetting<u16>>,
    pub machine_depth: Option<DefaultSetting<u16>>,
    pub machine_center_is_zero: Option<DefaultSetting<bool>>,
    pub machine_start_gcode: Option<DefaultSetting<String>>,
    pub machine_end_gcode: Option<DefaultSetting<String>>,
    pub machine_shape: Option<DefaultSetting<String>>,
    pub speed_travel: Option<DefaultSetting<TravelSpeed>>,
}

/// The machine settings described in full by a Cura printer definition.
pub struct DetailedSettingsV2 {
    pub machine_name: Option<LongSetting<String>>,
    pub machine_heated_bed: Option<LongSetting<bool>>,
    pub machine_width: Option<LongSetting<u16>>,
    pub machine_height: Option<LongSetting<u16>>,
    pub machine_depth: Option<LongSetting<u16>>,
    pub machine_center_is_zero: Option<LongSetting<bool>>,
    pub machine_start_gcode: Option<LongSetting<String>>,
    pub machine_end_gcode: Option<LongSetting<String>>,
    pub machine_shape: Option<LongSetting<String>>,
    pub speed_travel: Option<LongSetting<TravelSpeed>>,
}

/// The machine settings category of a Cura printer definition.
pub struct MachineSettingsV2 {
    pub children: DetailedSettingsV2,
}

/// The settings of a Cura printer definition.
pub struct SettingsV2 {
    pub machine_settings: MachineSettingsV2,
}

/// The metadata of a Cura printer definition: the extruder definitions of its extruder trains,
/// by train number.
pub struct MetaDataV2 {
    pub machine_extruder_trains: Option<NamedMap<String>>,
}

/// A Cura printer definition (format version 2).
pub struct CuraV2 {
    pub name: String,
    pub inherits: Option<String>,
    pub overrides: Option<OverridesV2>,
    pub settings: Option<SettingsV2>,
    pub metadata: Option<MetaDataV2>,
}

impl Layered for CuraV2 {
    open spec fn parent_name(&self) -> Option<Seq<char>> {
        match self.inherits {
            Some(p) => Some(p@),
            None => None,
        }
    }

    fn inherits(&self) -> (r: Option<&String>) {
        self.inherits.as_ref()
    }
}

/// The machine's name
pub struct MachineName;

impl Setting<CuraV2> for MachineName {
    type Value = String;

    open spec fn local(c: CuraV2) -> Option<String> {
        either(
            match c.overrides {
                Some(o) => chosen(o.machine_name),
                None => None,
            },
            match c.settings {
                Some(s) => long_default(s.machine_settings.children.machine_name),
                None => None,
            },
        )
    }

    fn pick(c: &CuraV2) -> (r: Option<String>) {
        let a = match &c.overrides {
            Some(o) => chosen_text(&o.machine_name),
            None => None,
        };
        if a.is_some() {
            return a;
        }
        match &c.settings {
            Some(s) => long_text(&s.machine_settings.children.machine_name),
            None => None,
        }
    }
}

/// Whether the bed is heated
pub struct HeatedBed;

impl Setting<CuraV2> for HeatedBed {
    type Value = bool;

    open spec fn local(c: CuraV2) -> Option<bool> {
        either(
            match c.overrides {
                Some(o) => chosen(o.machine_heated_bed),
                None => None,
            },
            match c.settings {
                Some(s) => long_default(s.machine_settings.children.machine_heated_bed),
                None => None,
            },
        )
    }

    fn pick(c: &CuraV2) -> (r: Option<bool>) {
        let a = match &c.overrides {
            Some(o) => chosen_copy(&o.machine_heated_bed),
            None => None,
        };
        if a.is_some() {
            return a;
        }
        match &c.settings {
            Some(s) => long_copy(&s.machine_settings.children.machine_heated_bed),
            None => None,
        }
    }
}

/// The bed width in millimetres, as the integer that the number in the definition truncates to
pub struct MachineWidth;

impl Setting<CuraV2> for MachineWidth {
    type Value = u16;

    open spec fn local(c: CuraV2) -> Option<u16> {
        either(
            match c.overrides {
                Some(o) => chosen(o.machine_width),
                None => None,
            },
            match c.settings {
                Some(s) => long_default(s.machine_settings.children.machine_width),
                None => None,
            },
        )
    }

    fn pick(c: &CuraV2) -> (r: Option<u16>) {
        let a = match &c.overrides {
            Some(o) => chosen_copy(&o.machine_width),
            None => None,
        };
        if a.is_some() {
            return a;
        }
        match &c.settings {
            Some(s) => long_copy(&s.machine_settings.children.machine_width),
            None => None,
        }
    }
}

/// The build height in millimetres, as the integer that the number in the definition truncates to
pub struct MachineHeight;

impl Setting<CuraV2> for MachineHeight {
    type Value = u16;

    open spec fn local(c: CuraV2) -> Option<u16> {
        either(
            match c.overrides {
                Some(o) => chosen(o.machine_height),
                None => None,
            },
            match c.settings {
                Some(s) => long_default(s.machine_settings.children.machine_height),
                None => None,
            },
        )
    }

    fn pick(c: &CuraV2) -> (r: Option<u16>) {
        let a = match &c.overrides {
            Some(o) => chosen_copy(&o.machine_height),
            None => None,
        };
        if a.is_some() {
            return a;
        }
        match &c.settings {
            Some(s) => long_copy(&s.machine_settings.children.machine_height),
            None => None,
        }
    }
}

/// The bed depth in millimetres, as the integer that the number in the definition truncates to
pub struct MachineDepth;

impl Setting<CuraV2> for MachineDepth {
    type Value = u16;

    open spec fn local(c: CuraV2) -> Option<u16> {
        either(
            match c.overrides {
                Some(o) => chosen(o.machine_depth),
                None => None,
            },
            match c.settings {
                Some(s) => long_default(s.machine_settings.children.machine_depth),
                None => None,
            },
        )
    }

    fn pick(c: &CuraV2) -> (r: Option<u16>) {
        let a = match &c.overrides {
            Some(o) => chosen_copy(&o.machine_depth),
            None => None,
        };
        if a.is_some() {
            return a;
        }
        match &c.settings {
            Some(s) => long_copy(&s.machine_settings.children.machine_depth),
            None => None,
        }
    }
}

/// Whether the origin lies at the centre of the bed
pub struct CenterIsZero;

impl Setting<CuraV2> for CenterIsZero {
    type Value = bool;

    open spec fn local(c: CuraV2) -> Option<bool> {
        either(
            match c.overrides {
                Some(o) => chosen(o.machine_center_is_zero),
                None => None,
            },
            match c.settings {
                Some(s) => long_default(s.machine_settings.children.machine_center_is_zero),
                None => None,
            },
        )
    }

    fn pick(c: &CuraV2) -> (r: Option<bool>) {
        let a = match &c.overrides {
            Some(o) => chosen_copy(&o.machine_center_is_zero),
            None => None,
        };
        if a.is_some() {
            return a;
        }
        match &c.settings {
            Some(s) => long_copy(&s.machine_settings.children.machine_center_is_zero),
            None => None,
        }
    }
}

/// The G-code run before a print
pub struct StartGcode;

impl Setting<CuraV2> for StartGcode {
    type Value = String;

    open spec fn local(c: CuraV2) -> Option<String> {
        either(
            match c.overrides {
                Some(o) => chosen(o.machine_start_gcode),
                None => None,
            },
            match c.settings {
                Some(s) => long_default(s.machine_settings.children.machine_start_gcode),
                None => None,
            },
        )
    }

    fn pick(c: &CuraV2) -> (r: Option<String>) {
        let a = match &c.overrides {
            Some(o) => chosen_text(&o.machine_start_gcode),
            None => None,
        };
        if a.is_some() {
            return a;
        }
        match &c.settings {
            Some(s) => long_text(&s.machine_settings.children.machine_start_gcode),
            None => None,
        }
    }
}

/// The G-code run after a print
pub struct EndGcode;

impl Setting<CuraV2> for EndGcode {
    type Value = String;

    open spec fn local(c: CuraV2) -> Option<String> {
        either(
            match c.overrides {
                Some(o) => chosen(o.machine_end_gcode),
                None => None,
            },
            match c.settings {
                Some(s) => long_default(s.machine_settings.children.machine_end_gcode),
                None => None,
            },
        )
    }

    fn pick(c: &CuraV2) -> (r: Option<String>) {
        let a = match &c.overrides {
            Some(o) => chosen_text(&o.machine_end_gcode),
            None => None,
        };
        if a.is_some() {
            return a;
        }
        match &c.settings {
            Some(s) => long_text(&s.machine_settings.children.machine_end_gcode),
            None => None,
        }
    }
}

/// The name of the bed's shape
pub struct MachineShape;

impl Setting<CuraV2> for MachineShape {
    type Value = String;

    open spec fn local(c: CuraV2) -> Option<String> {
        either(
            match c.overrides {
                Some(o) => chosen(o.machine_shape),
                None => None,
            },
            match c.settings {
                Some(s) => long_default(s.machine_settings.children.machine_shape),
                None => None,
            },
        )
    }

    fn pick(c: &CuraV2) -> (r: Option<String>) {
        let a = match &c.overrides {
            Some(o) => chosen_text(&o.machine_shape),
            None => None,
        };
        if a.is_some() {
            return a;
        }
        match &c.settings {
            Some(s) => long_text(&s.machine_settings.children.machine_shape),
            None => None,
        }
    }
}

/// The travel speed (Cura's `speed_travel` setting), read like the machine settings from the
/// overrides and the machine settings category; which setting fills the travel-speed placeholders
/// is this library's own choice.
pub struct TravelSpeedSetting;

impl Setting<CuraV2> for TravelSpeedSetting {
    type Value = TravelSpeed;

    open spec fn local(c: CuraV2) -> Option<TravelSpeed> {
        either(
            match c.overrides {
                Some(o) => chosen(o.speed_travel),
                None => None,
            },
            match c.settings {
                Some(s) => long_default(s.machine_settings.children.speed_travel),
                None => None,
            },
        )
    }

    fn pick(c: &CuraV2) -> (r: Option<TravelSpeed>) {
        let a = match &c.overrides {
            Some(o) => chosen_speed(&o.speed_travel),
            None => None,
        };
        if a.is_some() {
            return a;
        }
        match &c.settings {
            Some(s) => long_speed(&s.machine_settings.children.speed_travel),
            None => None,
        }
    }
}

/// The extruder definition of extruder train `0` (only one nozzle is supported).
pub struct FirstExtruderTrain;

impl Setting<CuraV2> for FirstExtruderTrain {
    type Value = String;

    open spec fn local(c: CuraV2) -> Option<String> {
        match c.metadata {
            Some(m) => match m.machine_extruder_trains {
                Some(t) => if t.has("0"@) {
                    Some(t.at("0"@))
                } else {
                    None
                },
                None => None,
            },
            None => None,
        }
    }

    fn pick(c: &CuraV2) -> (r: Option<String>) {
        match &c.metadata {
            Some(m) => match &m.machine_extruder_trains {
                Some(t) => match t.get("0") {
                    Some(e) => Some(e.clone()),
                    None => None,
                },
                None => None,
            },
            None => None,
        }
    }
}

/// The bed shape that a shape name stands for: `Some(false)` for a rectangle, `Some(true)` for an
/// ellipse, `None` for a name that is not known.
pub open spec fn shape_named(shape: Seq<char>) -> Option<bool> {
    if shape == "Rectangular"@ || shape == "rectangular"@ {
        Some(false)
    } else if shape == "elliptic"@ {
        Some(true)
    } else {
        None
    }
}

/// The name under which Cura definitions are credited as a source.
pub open spec fn cura_source() -> Seq<char> {
    "CuraV2"@
}

/// The licence under which printers built from Cura definitions are credited. Cura's resources
/// carry no licence field; this library credits them with Cura's own licence, LGPL-3.0 (its own
/// choice, compared against `MIT` when two definitions of one machine are reconciled).
pub open spec fn cura_license() -> Seq<char> {
    "LGPL-3.0"@
}

impl CuraV2 {
    /// The name of this printer definition.
    pub fn printer_name(&self) -> (r: String)
        ensures
            r@ == self.name@,
    {
        self.name.clone()
    }

    /// The source that printers built from this definition are credited to.
    pub fn get_source(&self) -> (r: String)
        ensures
            r@ == cura_source(),
    {
        "CuraV2".to_string()
    }

    /// The licence that printers built from this definition are credited with: LGPL-3.0, this
    /// library's choice (see `cura_license`).
    pub fn get_license(&self) -> (r: String)
        ensures
            r@ == cura_license(),
    {
        "LGPL-3.0".to_string()
    }

    fn string_to_shape(shape: &str) -> (r: Option<bool>)
        ensures
            r == shape_named(shape@),
    {
        if same_text(shape, "Rectangular") {
            Some(false)
        } else if same_text(shape, "rectangular") {
            Some(false)
        } else if same_text(shape, "elliptic") {
            Some(true)
        } else {
            None
        }
    }

    /// The machine's name, inherited from the parent definitions in `all` where this one does not set it.
    pub fn get_machine_name(&self, all: &NamedMap<CuraV2>) -> (r: Option<String>)
        requires
            resolves::<CuraV2, MachineName>(*all, *self),
        ensures
            r == resolved::<CuraV2, MachineName>(*all, *self),
    {
        resolve::<CuraV2, MachineName>(self, all)
    }

    /// Whether the bed is heated, inherited from the parent definitions in `all` where this one does not set it.
    pub fn get_heated_bed(&self, all: &NamedMap<CuraV2>) -> (r: Option<bool>)
        requires
            resolves::<CuraV2, HeatedBed>(*all, *self),
        ensures
            r == resolved::<CuraV2, HeatedBed>(*all, *self),
    {
        resolve::<CuraV2, HeatedBed>(self, all)
    }

    /// The bed width in millimetres, as the integer that the number in the definition truncates to, inherited from the parent definitions in `all` where this one does not set it.
    pub fn get_bed_width(&self, all: &NamedMap<CuraV2>) -> (r: Option<u16>)
        requires
            resolves::<CuraV2, MachineWidth>(*all, *self),
        ensures
            r == resolved::<CuraV2, MachineWidth>(*all, *self),
    {
        resolve::<CuraV2, MachineWidth>(self, all)
    }

    /// The build height in millimetres, as the integer that the number in the definition truncates to, inherited from the parent definitions in `all` where this one does not set it.
    pub fn get_build_height(&self, all: &NamedMap<CuraV2>) -> (r: Option<u16>)
        requires
            resolves::<CuraV2, MachineHeight>(*all, *self),
        ensures
            r == resolved::<CuraV2, MachineHeight>(*all, *self),
    {
        resolve::<CuraV2, MachineHeight>(self, all)
    }

    /// The bed depth in millimetres, as the integer that the number in the definition truncates to, inherited from the parent definitions in `all` where this one does not set it.
    pub fn get_bed_depth(&self, all: &NamedMap<CuraV2>) -> (r: Option<u16>)
        requires
            resolves::<CuraV2, MachineDepth>(*all, *self),
        ensures
            r == resolved::<CuraV2, MachineDepth>(*all, *self),
    {
        resolve::<CuraV2, MachineDepth>(self, all)
    }

    /// Whether the origin lies at the centre of the bed, inherited from the parent definitions in `all` where this one does not set it.
    pub fn get_origin_center(&self, all: &NamedMap<CuraV2>) -> (r: Option<bool>)
        requires
            resolves::<CuraV2, CenterIsZero>(*all, *self),
        ensures
            r == resolved::<CuraV2, CenterIsZero>(*all, *self),
    {
        resolve::<CuraV2, CenterIsZero>(self, all)
    }

    /// The G-code run before a print, inherited from the parent definitions in `all` where this one does not set it.
    pub fn get_pre_gcode(&self, all: &NamedMap<CuraV2>) -> (r: Option<String>)
        requires
            resolves::<CuraV2, StartGcode>(*all, *self),
        ensures
            r == resolved::<CuraV2, StartGcode>(*all, *self),
    {
        resolve::<CuraV2, StartGcode>(self, all)
    }

    /// The G-code run after a print, inherited from the parent definitions in `all` where this one does not set it.
    pub fn get_post_gcode(&self, all: &NamedMap<CuraV2>) -> (r: Option<String>)
        requires
            resolves::<CuraV2, EndGcode>(*all, *self),
        ensures
            r == resolved::<CuraV2, EndGcode>(*all, *self),
    {
        resolve::<CuraV2, EndGcode>(self, all)
    }

    /// The travel speed (Cura's `speed_travel`, this library's choice of setting for the travel-speed
    /// placeholders), inherited from the parent definitions in `all` where this one does not set it.
    pub fn get_speed_travel(&self, all: &NamedMap<CuraV2>) -> (r: Option<TravelSpeed>)
        requires
            resolves::<CuraV2, TravelSpeedSetting>(*all, *self),
        ensures
            r == resolved::<CuraV2, TravelSpeedSetting>(*all, *self),
    {
        resolve::<CuraV2, TravelSpeedSetting>(self, all)
    }

    /// Whether the bed is elliptic: the bed shape the definition (or its first ancestor that names
    /// one) names; `None` where no shape is named or the name is not known.
    pub fn get_bed_elliptic(&self, all: &NamedMap<CuraV2>) -> (r: Option<bool>)
        requires
            resolves::<CuraV2, MachineShape>(*all, *self),
        ensures
            r == (match resolved::<CuraV2, MachineShape>(*all, *self) {
                Some(s) => shape_named(s@),
                None => None,
            }),
    {
        match resolve::<CuraV2, MachineShape>(self, all) {
            Some(s) => CuraV2::string_to_shape(s.as_str()),
            None => None,
        }
    }

    /// The extruder definitions of the printer: that of extruder train `0`, from this definition
    /// or its first ancestor that names one, else none.
    pub fn get_extruders(&self, all: &NamedMap<CuraV2>) -> (r: Vec<String>)
        requires
            resolves::<CuraV2, FirstExtruderTrain>(*all, *self),
        ensures
            r@ == (match resolved::<CuraV2, FirstExtruderTrain>(*all, *self) {
                Some(e) => seq![e],
                None => Seq::<String>::empty(),
            }),
    {
        match resolve::<CuraV2, FirstExtruderTrain>(self, all) {
            Some(e) => {
                let mut v: Vec<String> = Vec::new();
                v.push(e);
                v
            },
            None => Vec::new(),
        }
    }
}


/// A printer whose overrides name `machine_center_is_zero` without a value or a default (or do not
/// name it), whose settings give it no default, and whose parent `all` holds takes it from that
/// parent: an entry present but empty does not end the search. `get_origin_center` ends on the
/// printer just when it ends on the parent, and both then give the same.
pub proof fn lemma_origin_center_from_parent(all: NamedMap<CuraV2>, printer: CuraV2)
    requires
        printer.overrides matches Some(o) ==> (o.machine_center_is_zero matches Some(d) ==> (
        d.value is None && d.default_value is None)),
        printer.settings matches Some(s) ==> (
        s.machine_settings.children.machine_center_is_zero matches Some(l) ==> l.default_value is None),
        printer.inherits matches Some(k) && all.has(k@),
    ensures
        resolves::<CuraV2, CenterIsZero>(all, printer) <==> resolves::<CuraV2, CenterIsZero>(
            all,
            all.at(printer.inherits.unwrap()@),
        ),
        resolves::<CuraV2, CenterIsZero>(all, printer) ==> resolved::<CuraV2, CenterIsZero>(
            all,
            printer,
        ) == resolved::<CuraV2, CenterIsZero>(all, all.at(printer.inherits.unwrap()@)),
{
    lemma_inherited_from_parent::<CuraV2, CenterIsZero>(all, printer);
}

/// The order in which a setting of definition `c` is looked up in `all`, given `c`'s own override
/// entry for it (`own`), the description of it in `c`'s settings (`described`) and the name of
/// `c`'s parent: the override's value, else the override's default, else the description's
/// default; where none of these is given, what the parent gives where `all` holds it (the search
/// ending just when the parent's does), and nothing where it does not.
pub open spec fn looked_up_in_order<C: Layered, S: Setting<C>>(
    all: NamedMap<C>,
    c: C,
    own: Option<DefaultSetting<S::Value>>,
    described: Option<LongSetting<S::Value>>,
    parent: Option<String>,
) -> bool {
    let r = resolved::<C, S>(all, c);
    let ends = resolves::<C, S>(all, c);
    let own_value = match own {
        Some(d) => d.value,
        None => None,
    };
    let own_default = match own {
        Some(d) => d.default_value,
        None => None,
    };
    let described_default = match described {
        Some(l) => l.default_value,
        None => None,
    };
    let unset = own_value is None && own_default is None && described_default is None;
    &&& own_value is Some ==> ends && r == own_value
    &&& own_value is None && own_default is Some ==> ends && r == own_default
    &&& own_value is None && own_default is None && described_default is Some ==> ends && r
        == described_default
    &&& unset && parent is Some && all.has(parent.unwrap()@) ==> (ends <==> resolves::<C, S>(
        all,
        all.at(parent.unwrap()@),
    )) && (ends ==> r == resolved::<C, S>(all, all.at(parent.unwrap()@)))
    &&& unset && !(parent is Some && all.has(parent.unwrap()@)) ==> ends && r is None
}

/// The nozzle size of `c` (what `get_nozzle` gives) is looked up in the order that `looked_up_in_order`
/// states, from `c`'s override entry `machine_nozzle_size`, the description of it in its settings, and its parent.
pub proof fn lemma_nozzle_lookup(all: NamedMap<CuraExtruderV2>, c: CuraExtruderV2)
    ensures
        looked_up_in_order::<CuraExtruderV2, NozzleSize>(
            all,
            c,
            match c.overrides {
                Some(o) => o.machine_nozzle_size,
                None => None,
            },
            match c.settings {
                Some(s) => s.machine_settings.children.machine_nozzle_size,
                None => None,
            },
            c.inherits,
        ),
{
    lemma_lookup_cases::<CuraExtruderV2, NozzleSize>(all, c);
}

/// The nozzle's x offset of `c` (what `get_offset_x` gives) is looked up in the order that `looked_up_in_order`
/// states, from `c`'s override entry `machine_nozzle_offset_x`, the description of it in its settings, and its parent.
pub proof fn lemma_offset_x_lookup(all: NamedMap<CuraExtruderV2>, c: CuraExtruderV2)
    ensures
        looked_up_in_order::<CuraExtruderV2, NozzleOffsetX>(
            all,
            c,
            match c.overrides {
                Some(o) => o.machine_nozzle_offset_x,
                None => None,
            },
            match c.settings {
                Some(s) => s.machine_settings.children.machine_nozzle_offset_x,
                None => None,
            },
            c.inherits,
        ),
{
    lemma_lookup_cases::<CuraExtruderV2, NozzleOffsetX>(all, c);
}

/// The nozzle's y offset of `c` (what `get_offset_y` gives) is looked up in the order that `looked_up_in_order`
/// states, from `c`'s override entry `machine_nozzle_offset_y`, the description of it in its settings, and its parent.
pub proof fn lemma_offset_y_lookup(all: NamedMap<CuraExtruderV2>, c: CuraExtruderV2)
    ensures
        looked_up_in_order::<CuraExtruderV2, NozzleOffsetY>(
            all,
            c,
            match c.overrides {
                Some(o) => o.machine_nozzle_offset_y,
                None => None,
            },
            match c.settings {
                Some(s) => s.machine_settings.children.machine_nozzle_offset_y,
                None => None,
            },
            c.inherits,
        ),
{
    lemma_lookup_cases::<CuraExtruderV2, NozzleOffsetY>(all, c);
}

/// The filament diameter of `c` (what `get_filament` gives) is looked up in the order that `looked_up_in_order`
/// states, from `c`'s override entry `material_diameter`, the description of it in its settings, and its parent.
pub proof fn lemma_filament_lookup(all: NamedMap<CuraExtruderV2>, c: CuraExtruderV2)
    ensures
        looked_up_in_order::<CuraExtruderV2, FilamentDiameter>(
            all,
            c,
            match c.overrides {
                Some(o) => o.material_diameter,
                None => None,
            },
            match c.settings {
                Some(s) => s.machine_settings.children.material_diameter,
                None => None,
            },
            c.inherits,
        ),
{
    lemma_lookup_cases::<CuraExtruderV2, FilamentDiameter>(all, c);
}

/// The start G-code of `c` (what `get_select_gcode` gives) is looked up in the order that `looked_up_in_order`
/// states, from `c`'s override entry `machine_extruder_start_code`, the description of it in its settings, and its parent.
pub proof fn lemma_extruder_start_lookup(all: NamedMap<CuraExtruderV2>, c: CuraExtruderV2)
    ensures
        looked_up_in_order::<CuraExtruderV2, ExtruderStartCode>(
            all,
            c,
            match c.overrides {
                Some(o) => o.machine_extruder_start_code,
                None => None,
            },
            match c.settings {
                Some(s) => s.machine_settings.children.machine_extruder_start_code,
                None => None,
            },
            c.inherits,
        ),
{
    lemma_lookup_cases::<CuraExtruderV2, ExtruderStartCode>(all, c);
}

/// The end G-code of `c` (what `get_deselect_gcode` gives) is looked up in the order that `looked_up_in_order`
/// states, from `c`'s override entry `machine_extruder_end_code`, the description of it in its settings, and its parent.
pub proof fn lemma_extruder_end_lookup(all: NamedMap<CuraExtruderV2>, c: CuraExtruderV2)
    ensures
        looked_up_in_order::<CuraExtruderV2, ExtruderEndCode>(
            all,
            c,
            match c.overrides {
                Some(o) => o.machine_extruder_end_code,
                None => None,
            },
            match c.settings {
                Some(s) => s.machine_settings.children.machine_extruder_end_code,
                None => None,
            },
            c.inherits,
        ),
{
    lemma_lookup_cases::<CuraExtruderV2, ExtruderEndCode>(all, c);
}

/// The machine name of `c` (what `get_machine_name` gives) is looked up in the order that `looked_up_in_order`
/// states, from `c`'s override entry `machine_name`, the description of it in its settings, and its parent.
pub proof fn lemma_machine_name_lookup(all: NamedMap<CuraV2>, c: CuraV2)
    ensures
        looked_up_in_order::<CuraV2, MachineName>(
            all,
            c,
            match c.overrides {
                Some(o) => o.machine_name,
                None => None,
            },
            match c.settings {
                Some(s) => s.machine_settings.children.machine_name,
                None => None,
            },
            c.inherits,
        ),
{
    lemma_lookup_cases::<CuraV2, MachineName>(all, c);
}

/// The heated-bed flag of `c` (what `get_heated_bed` gives) is looked up in the order that `looked_up_in_order`
/// states, from `c`'s override entry `machine_heated_bed`, the description of it in its settings, and its parent.
pub proof fn lemma_heated_bed_lookup(all: NamedMap<CuraV2>, c: CuraV2)
    ensures
        looked_up_in_order::<CuraV2, HeatedBed>(
            all,
            c,
            match c.overrides {
                Some(o) => o.machine_heated_bed,
                None => None,
            },
            match c.settings {
                Some(s) => s.machine_settings.children.machine_heated_bed,
                None => None,
            },
            c.inherits,
        ),
{
    lemma_lookup_cases::<CuraV2, HeatedBed>(all, c);
}

/// The bed width of `c` (what `get_bed_width` gives) is looked up in the order that `looked_up_in_order`
/// states, from `c`'s override entry `machine_width`, the description of it in its settings, and its parent.
pub proof fn lemma_bed_width_lookup(all: NamedMap<CuraV2>, c: CuraV2)
    ensures
        looked_up_in_order::<CuraV2, MachineWidth>(
            all,
            c,
            match c.overrides {
                Some(o) => o.machine_width,
                None => None,
            },
            match c.settings {
                Some(s) => s.machine_settings.children.machine_width,
                None => None,
            },
            c.inherits,
        ),
{
    lemma_lookup_cases::<CuraV2, MachineWidth>(all, c);
}

/// The build height of `c` (what `get_build_height` gives) is looked up in the order that `looked_up_in_order`
/// states, from `c`'s override entry `machine_height`, the description of it in its settings, and its parent.
pub proof fn lemma_build_height_lookup(all: NamedMap<CuraV2>, c: CuraV2)
    ensures
        looked_up_in_order::<CuraV2, MachineHeight>(
            all,
            c,
            match c.overrides {
                Some(o) => o.machine_height,
                None => None,
            },
            match c.settings {
                Some(s) => s.machine_settings.children.machine_height,
                None => None,
            },
            c.inherits,
        ),
{
    lemma_lookup_cases::<CuraV2, MachineHeight>(all, c);
}

/// The bed depth of `c` (what `get_bed_depth` gives) is looked up in the order that `looked_up_in_order`
/// states, from `c`'s override entry `machine_depth`, the description of it in its settings, and its parent.
pub proof fn lemma_bed_depth_lookup(all: NamedMap<CuraV2>, c: CuraV2)
    ensures
        looked_up_in_order::<CuraV2, MachineDepth>(
            all,
            c,
            match c.overrides {
                Some(o) => o.machine_depth,
                None => None,
            },
            match c.settings {
                Some(s) => s.machine_settings.children.machine_depth,
                None => None,
            },
            c.inherits,
        ),
{
    lemma_lookup_cases::<CuraV2, MachineDepth>(all, c);
}

/// The centre-is-zero flag of `c` (what `get_origin_center` gives) is looked up in the order that `looked_up_in_order`
/// states, from `c`'s override entry `machine_center_is_zero`, the description of it in its settings, and its parent.
pub proof fn lemma_origin_center_lookup(all: NamedMap<CuraV2>, c: CuraV2)
    ensures
        looked_up_in_order::<CuraV2, CenterIsZero>(
            all,
            c,
            match c.overrides {
                Some(o) => o.machine_center_is_zero,
                None => None,
            },
            match c.settings {
                Some(s) => s.machine_settings.children.machine_center_is_zero,
                None => None,
            },
            c.inherits,
        ),
{
    lemma_lookup_cases::<CuraV2, CenterIsZero>(all, c);
}

/// The start G-code of `c` (what `get_pre_gcode` gives) is looked up in the order that `looked_up_in_order`
/// states, from `c`'s override entry `machine_start_gcode`, the description of it in its settings, and its parent.
pub proof fn lemma_pre_gcode_lookup(all: NamedMap<CuraV2>, c: CuraV2)
    ensures
        looked_up_in_order::<CuraV2, StartGcode>(
            all,
            c,
            match c.overrides {
                Some(o) => o.machine_start_gcode,
                None => None,
            },
            match c.settings {
                Some(s) => s.machine_settings.children.machine_start_gcode,
                None => None,
            },
            c.inherits,
        ),
{
    lemma_lookup_cases::<CuraV2, StartGcode>(all, c);
}

/// The end G-code of `c` (what `get_post_gcode` gives) is looked up in the order that `looked_up_in_order`
/// states, from `c`'s override entry `machine_end_gcode`, the description of it in its settings, and its parent.
pub proof fn lemma_post_gcode_lookup(all: NamedMap<CuraV2>, c: CuraV2)
    ensures
        looked_up_in_order::<CuraV2, EndGcode>(
            all,
            c,
            match c.overrides {
                Some(o) => o.machine_end_gcode,
                None => None,
            },
            match c.settings {
                Some(s) => s.machine_settings.children.machine_end_gcode,
                None => None,
            },
            c.inherits,
        ),
{
    lemma_lookup_cases::<CuraV2, EndGcode>(all, c);
}

/// The bed shape name of `c` (what `get_bed_elliptic` gives) is looked up in the order that `looked_up_in_order`
/// states, from `c`'s override entry `machine_shape`, the description of it in its settings, and its parent.
pub proof fn lemma_bed_shape_lookup(all: NamedMap<CuraV2>, c: CuraV2)
    ensures
        looked_up_in_order::<CuraV2, MachineShape>(
            all,
            c,
            match c.overrides {
                Some(o) => o.machine_shape,
                None => None,
            },
            match c.settings {
                Some(s) => s.machine_settings.children.machine_shape,
                None => None,
            },
            c.inherits,
        ),
{
    lemma_lookup_cases::<CuraV2, MachineShape>(all, c);
}

/// The travel speed of `c` (what `get_speed_travel` gives) is looked up in the order that `looked_up_in_order`
/// states, from `c`'s override entry `speed_travel`, the description of it in its settings, and its parent.
pub proof fn lemma_speed_travel_lookup(all: NamedMap<CuraV2>, c: CuraV2)
    ensures
        looked_up_in_order::<CuraV2, TravelSpeedSetting>(
            all,
            c,
            match c.overrides {
                Some(o) => o.speed_travel,
                None => None,
            },
            match c.settings {
                Some(s) => s.machine_settings.children.speed_travel,
                None => None,
            },
            c.inherits,
        ),
{
    lemma_lookup_cases::<CuraV2, TravelSpeedSetting>(all, c);
}


/// How the extruder train `0` of `c` is looked up in `all` (what `get_extruders` reads): the entry
/// `"0"` of `c`'s own extruder trains, else what the parent definition gives; with neither it is
/// unset.
pub proof fn lemma_extruder_train_lookup(all: NamedMap<CuraV2>, c: CuraV2)
    ensures
        c.metadata matches Some(m) ==> (m.machine_extruder_trains matches Some(t) ==> (t.has("0"@)
            ==> resolves::<CuraV2, FirstExtruderTrain>(all, c) && resolved::<CuraV2, FirstExtruderTrain>(all, c) == Some(t.at("0"@)))),
        c.inherits matches Some(k) ==> (all.has(k@) && !(c.metadata matches Some(m) && m.machine_extruder_trains matches Some(t) && t.has("0"@))
            ==> (resolves::<CuraV2, FirstExtruderTrain>(all, c) <==> resolves::<CuraV2, FirstExtruderTrain>(all, all.at(k@)))
            && (resolves::<CuraV2, FirstExtruderTrain>(all, c)
                ==> resolved::<CuraV2, FirstExtruderTrain>(all, c) == resolved::<CuraV2, FirstExtruderTrain>(all, all.at(k@)))),
        !(c.metadata matches Some(m) && m.machine_extruder_trains matches Some(t) && t.has("0"@)) && !(c.inherits matches Some(k) && all.has(k@))
            ==> resolves::<CuraV2, FirstExtruderTrain>(all, c) && resolved::<CuraV2, FirstExtruderTrain>(all, c) is None,
{
    lemma_lookup_cases::<CuraV2, FirstExtruderTrain>(all, c);
}

/// A bed is elliptic just when its shape is named `elliptic`, and rectangular just when it is named
/// `Rectangular` or `rectangular`; every other name is unknown.
pub proof fn lemma_shape_names(shape: Seq<char>)
    ensures
        shape_named(shape) == Some(true) <==> shape == "elliptic"@,
        shape_named(shape) == Some(false) <==> shape == "Rectangular"@ || shape == "rectangular"@,
        shape_named(shape) is None <==> shape != "elliptic"@ && shape != "Rectangular"@ && shape
            != "rectangular"@,
{
    reveal_strlit("elliptic");
    reveal_strlit("Rectangular");
    reveal_strlit("rectangular");
    if shape == "elliptic"@ {
        assert(shape.len() == 8);
    }
}

} // verus!
