use vstd::prelude::*;

use crate::cura::{CuraExtruderV2, CuraV2};
use crate::gridapps::{GridApps01, GridApps02};
use crate::named_map::NamedMap;
use crate::gcode::any_uncommented;
use crate::p3d::{
    lemma_checked_printer_shape, checked_printer, cura_unchecked, printer_lookups_terminate, lemma_checked_printer_ready, conflict_resolution, cura_printer, gridapps_printer, printer_lookups_end,
    printer_view, P3dPrinter, PrinterView,
};
use crate::text::{generalized, generalized_name};

verus! {

/// A Grid.Space device description, in either of its formats.
pub enum GridAppsDefinition {
    V01(GridApps01),
    V02(GridApps02),
}

/// The printer that a Grid.Space description, filed under `name`, describes once checked.
pub open spec fn definition_printer(name: Seq<char>, def: GridAppsDefinition) -> Option<PrinterView> {
    match def {
        GridAppsDefinition::V01(g) => checked_printer(gridapps_printer(name, g)),
        GridAppsDefinition::V02(g) => checked_printer(gridapps_printer(name, g)),
    }
}

impl GridAppsDefinition {
    /// The printer this description, filed under `name`, describes (see `definition_printer`).
    pub fn to_printer(&self, name: String) -> (r: Option<P3dPrinter>)
        ensures
            printer_view(r) == definition_printer(name@, *self),
    {
        match self {
            GridAppsDefinition::V01(g) => P3dPrinter::from_gridapps(name, g),
            GridAppsDefinition::V02(g) => P3dPrinter::from_gridapps(name, g),
        }
    }
}

/// Something worth reporting that happened while the printer catalogue was merged.
#[derive(Debug)]
pub enum MergeEvent {
    /// The Grid.Space description filed under `name` gave no printer.
    IncompleteGridApps { name: String },
    /// The Cura definition called `name` gave no printer.
    IncompleteCura { name: String },
    /// Collision number `collision`, under `key`, was resolved into the printer called `name`.
    Resolved { collision: usize, key: String, name: String },
    /// Collision number `collision`, under `key`, could not be resolved; neither printer is kept.
    Unresolved { collision: usize, key: String },
}

/// What a merge event reports.
pub enum MergeEventView {
    IncompleteGridApps(Seq<char>),
    IncompleteCura(Seq<char>),
    Resolved(nat, Seq<char>, Seq<char>),
    Unresolved(nat, Seq<char>),
}

impl View for MergeEvent {
    type V = MergeEventView;

    open spec fn view(&self) -> MergeEventView {
        match self {
            MergeEvent::IncompleteGridApps { name } => MergeEventView::IncompleteGridApps(name@),
            MergeEvent::IncompleteCura { name } => MergeEventView::IncompleteCura(name@),
            MergeEvent::Resolved { collision, key, name } => MergeEventView::Resolved(
                *collision as nat,
                key@,
                name@,
            ),
            MergeEvent::Unresolved { collision, key } => MergeEventView::Unresolved(
                *collision as nat,
                key@,
            ),
        }
    }
}

/// The state of a merge: the printers by comparison key, the number of collisions so far, and
/// the events reported.
pub struct MergeView {
    pub printers: Map<Seq<char>, PrinterView>,
    pub collisions: nat,
    pub events: Seq<MergeEventView>,
}

/// Taking in one Grid.Space description: its printer, if any, is filed under the comparison key
/// of its name (replacing one filed there before); otherwise it is reported.
pub open spec fn gridapps_step(s: MergeView, name: Seq<char>, def: GridAppsDefinition) -> MergeView {
    match definition_printer(name, def) {
        Some(p) => MergeView {
            printers: s.printers.insert(generalized_name(p.name), p),
            collisions: s.collisions,
            events: s.events,
        },
        None => MergeView {
            printers: s.printers,
            collisions: s.collisions,
            events: s.events.push(MergeEventView::IncompleteGridApps(name)),
        },
    }
}

/// The merge state after taking in the Grid.Space descriptions `defs` in order.
pub open spec fn after_gridapps(defs: Seq<(Seq<char>, GridAppsDefinition)>) -> MergeView
    decreases defs.len(),
{
    if defs.len() == 0 {
        MergeView { printers: Map::empty(), collisions: 0, events: seq![] }
    } else {
        gridapps_step(after_gridapps(defs.drop_last()), defs.last().0, defs.last().1)
    }
}

/// Taking in one Cura definition: its printer, if any, is filed under the comparison key of its
/// name; where a printer is filed there already, that is a collision, and the two are replaced by
/// the one `conflict_resolution` keeps, or by none. A definition that gives no printer is
/// reported.
pub open spec fn cura_step(
    s: MergeView,
    all: NamedMap<CuraV2>,
    extruders: NamedMap<CuraExtruderV2>,
    cfg: CuraV2,
) -> MergeView {
    match cura_printer(all, extruders, cfg) {
        None => MergeView {
            printers: s.printers,
            collisions: s.collisions,
            events: s.events.push(MergeEventView::IncompleteCura(cfg.name@)),
        },
        Some(p) => {
            let key = generalized_name(p.name);
            if s.printers.contains_key(key) {
                let n = s.collisions + 1;
                match conflict_resolution(s.printers[key], p) {
                    Some(q) => MergeView {
                        printers: s.printers.insert(key, q),
                        collisions: n,
                        events: s.events.push(MergeEventView::Resolved(n, key, q.name)),
                    },
                    None => MergeView {
                        printers: s.printers.remove(key),
                        collisions: n,
                        events: s.events.push(MergeEventView::Unresolved(n, key)),
                    },
                }
            } else {
                MergeView {
                    printers: s.printers.insert(key, p),
                    collisions: s.collisions,
                    events: s.events,
                }
            }
        },
    }
}

/// The merge state after taking in the Cura definitions `cfgs` in order, from `start`.
pub open spec fn after_cura(
    start: MergeView,
    all: NamedMap<CuraV2>,
    extruders: NamedMap<CuraExtruderV2>,
    cfgs: Seq<CuraV2>,
) -> MergeView
    decreases cfgs.len(),
{
    if cfgs.len() == 0 {
        start
    } else {
        cura_step(after_cura(start, all, extruders, cfgs.drop_last()), all, extruders, cfgs.last())
    }
}

/// The definitions that a map holds, in order.
pub open spec fn values_of<T>(m: NamedMap<T>) -> Seq<T> {
    m.pairs().map_values(|e: (Seq<char>, T)| e.1)
}

/// What the printers of a catalogue say, by comparison key.
pub open spec fn catalogue_view(m: NamedMap<P3dPrinter>) -> Map<Seq<char>, PrinterView> {
    m.as_map().map_values(|p: P3dPrinter| p@)
}

/// The merge of all sources: every Grid.Space description of `gridapps`, then every Cura
/// definition of `cura`, taken in order.
pub open spec fn merged(
    gridapps: NamedMap<GridAppsDefinition>,
    cura: NamedMap<CuraV2>,
    extruders: NamedMap<CuraExtruderV2>,
) -> MergeView {
    after_cura(after_gridapps(gridapps.pairs()), cura, extruders, values_of(cura))
}


/// Taking in a Grid.Space description filed under `name`: where it gives a printer, that printer
/// (called `name`) is filed under the comparison key of `name`, replacing any printer filed there,
/// and nothing is reported; where it gives none, the catalogue stays and that is reported. No
/// collision is counted either way.
pub proof fn lemma_gridapps_step_cases(s: MergeView, name: Seq<char>, def: GridAppsDefinition)
    ensures
        definition_printer(name, def) matches Some(p) ==> p.name == name
            && gridapps_step(s, name, def).printers == s.printers.insert(generalized_name(name), p)
            && gridapps_step(s, name, def).events == s.events,
        definition_printer(name, def) is None ==> gridapps_step(s, name, def).printers == s.printers
            && gridapps_step(s, name, def).events == s.events.push(
            MergeEventView::IncompleteGridApps(name),
        ),
        gridapps_step(s, name, def).collisions == s.collisions,
{
    match def {
        GridAppsDefinition::V01(g) => lemma_checked_printer_shape(gridapps_printer(name, g)),
        GridAppsDefinition::V02(g) => lemma_checked_printer_shape(gridapps_printer(name, g)),
    }
}

/// Taking in a Cura definition: where it gives no printer, the catalogue stays and that is
/// reported under the definition's name. Where it gives a printer and nothing is filed under the
/// comparison key of the printer's name, the printer is filed there, silently. Where something is
/// filed there, one more collision is counted and reported under its number and that key: the
/// printer filed earlier and the new one (in that order) are reconciled, and the one kept
/// replaces the earlier, or, where none is kept, the key is emptied.
pub proof fn lemma_cura_step_cases(
    s: MergeView,
    all: NamedMap<CuraV2>,
    extruders: NamedMap<CuraExtruderV2>,
    cfg: CuraV2,
)
    ensures
        cura_printer(all, extruders, cfg) is None ==> cura_step(s, all, extruders, cfg) == (MergeView {
            printers: s.printers,
            collisions: s.collisions,
            events: s.events.push(MergeEventView::IncompleteCura(cfg.name@)),
        }),
        cura_printer(all, extruders, cfg) matches Some(p) ==> (!s.printers.contains_key(
            generalized_name(p.name),
        ) ==> cura_step(s, all, extruders, cfg) == (MergeView {
            printers: s.printers.insert(generalized_name(p.name), p),
            collisions: s.collisions,
            events: s.events,
        })),
        cura_printer(all, extruders, cfg) matches Some(p) ==> (s.printers.contains_key(
            generalized_name(p.name),
        ) ==> {
            let k = generalized_name(p.name);
            let t = cura_step(s, all, extruders, cfg);
            &&& t.collisions == s.collisions + 1
            &&& conflict_resolution(s.printers[k], p) matches Some(q) ==> t.printers == s.printers.insert(k, q)
                && t.events == s.events.push(MergeEventView::Resolved(s.collisions + 1, k, q.name))
            &&& conflict_resolution(s.printers[k], p) is None ==> t.printers == s.printers.remove(k)
                && t.events == s.events.push(MergeEventView::Unresolved(s.collisions + 1, k))
        }),
{
}

/// A printer fit for use: at most 1000 mm tall, not printing on a belt, and with start G-code that
/// sets the nozzle temperature and selects absolute positioning before any comment (and sets the
/// bed temperature where the bed is heated).
pub open spec fn ready_printer(q: PrinterView) -> bool {
    &&& q.build_size.2 <= 1000
    &&& !q.bed_belt
    &&& any_uncommented(q.pre_gcode, "M104"@)
    &&& any_uncommented(q.pre_gcode, "G90"@)
    &&& q.heated_bed ==> any_uncommented(q.pre_gcode, "M140"@)
}

/// Every printer of the catalogue is filed under the comparison key of its own name and is fit
/// for use.
pub open spec fn catalogue_ready(m: Map<Seq<char>, PrinterView>) -> bool {
    forall|k: Seq<char>|
        #[trigger] m.contains_key(k) ==> generalized_name(m[k].name) == k && ready_printer(m[k])
}

proof fn lemma_checked_ready(x: PrinterView)
    requires
        checked_printer(x) is Some,
    ensures
        ready_printer(checked_printer(x).unwrap()),
        checked_printer(x).unwrap().name == x.name,
{
    lemma_checked_printer_ready(x);
}

proof fn lemma_after_gridapps_ready(defs: Seq<(Seq<char>, GridAppsDefinition)>)
    ensures
        catalogue_ready(after_gridapps(defs).printers),
    decreases defs.len(),
{
    if defs.len() > 0 {
        lemma_after_gridapps_ready(defs.drop_last());
        let (name, def) = defs.last();
        match def {
            GridAppsDefinition::V01(g) => if definition_printer(name, def) is Some {
                lemma_checked_ready(gridapps_printer(name, g));
            },
            GridAppsDefinition::V02(g) => if definition_printer(name, def) is Some {
                lemma_checked_ready(gridapps_printer(name, g));
            },
        }
    }
}

proof fn lemma_after_cura_ready(
    start: MergeView,
    all: NamedMap<CuraV2>,
    extruders: NamedMap<CuraExtruderV2>,
    cfgs: Seq<CuraV2>,
)
    requires
        catalogue_ready(start.printers),
    ensures
        catalogue_ready(after_cura(start, all, extruders, cfgs).printers),
    decreases cfgs.len(),
{
    if cfgs.len() > 0 {
        lemma_after_cura_ready(start, all, extruders, cfgs.drop_last());
        let s = after_cura(start, all, extruders, cfgs.drop_last());
        let cfg = cfgs.last();
        if let Some(x) = cura_unchecked(all, extruders, cfg) {
            if checked_printer(x) is Some {
                lemma_checked_ready(x);
                let p = checked_printer(x).unwrap();
                let key = generalized_name(p.name);
                if s.printers.contains_key(key) {
                    let a = s.printers[key];
                    if let Some(q) = conflict_resolution(a, p) {
                        assert(ready_printer(q));
                        assert(generalized_name(q.name) == key);
                    }
                }
            }
        }
    }
}

/// Every printer of the merged catalogue is filed under the comparison key of its own name, is
/// at most 1000 mm tall, does not print on a belt, and has start G-code that sets the nozzle
/// temperature and selects absolute positioning (and sets the bed temperature where the bed is
/// heated).
pub proof fn lemma_merged_catalogue_ready(
    gridapps: NamedMap<GridAppsDefinition>,
    cura: NamedMap<CuraV2>,
    extruders: NamedMap<CuraExtruderV2>,
)
    ensures
        catalogue_ready(merged(gridapps, cura, extruders).printers),
{
    lemma_after_gridapps_ready(gridapps.pairs());
    lemma_after_cura_ready(after_gridapps(gridapps.pairs()), cura, extruders, values_of(cura));
}

/// Whether, for every Cura definition of `cura`, the searches that building its printer makes
/// along inheritance chains end (what `merge_printers` needs).
pub fn catalogue_lookups_end(cura: &NamedMap<CuraV2>, cura_extruders: &NamedMap<CuraExtruderV2>) -> (r: bool)
    ensures
        r == forall|i: int|
            0 <= i < cura.pairs().len() ==> printer_lookups_end(
                *cura,
                *cura_extruders,
                #[trigger] cura.pairs()[i].1,
            ),
{
    let mut i: usize = 0;
    while i < cura.len()
        invariant
            i <= cura.pairs().len(),
            forall|k: int|
                0 <= k < i ==> printer_lookups_end(*cura, *cura_extruders, #[trigger] cura.pairs()[k].1),
        decreases cura.pairs().len() - i,
    {
        let (_name, c) = cura.entry(i);
        if !printer_lookups_terminate(cura, cura_extruders, c) {
            return false;
        }
        i = i + 1;
    }
    true
}

/// What a list of merge events reports.
pub open spec fn event_views(v: Seq<MergeEvent>) -> Seq<MergeEventView> {
    v.map_values(|e: MergeEvent| e@)
}

/// Merges the printers of all sources into one catalogue keyed by comparison key (see `merged`),
/// with the events worth reporting.
pub fn merge_printers(
    gridapps: &NamedMap<GridAppsDefinition>,
    cura: &NamedMap<CuraV2>,
    cura_extruders: &NamedMap<CuraExtruderV2>,
) -> (r: (NamedMap<P3dPrinter>, Vec<MergeEvent>))
    requires
        forall|i: int|
            0 <= i < cura.pairs().len() ==> printer_lookups_end(
                *cura,
                *cura_extruders,
                #[trigger] cura.pairs()[i].1,
            ),
    ensures
        catalogue_view(r.0) == merged(*gridapps, *cura, *cura_extruders).printers,
        event_views(r.1@) == merged(*gridapps, *cura, *cura_extruders).events,
{
    let mut entries: NamedMap<P3dPrinter> = NamedMap::new();
    let mut events: Vec<MergeEvent> = Vec::new();
    let ghost defs = gridapps.pairs();
    assert(catalogue_view(entries) =~= Map::<Seq<char>, PrinterView>::empty());
    assert(event_views(events@) =~= Seq::<MergeEventView>::empty());
    let mut i: usize = 0;
    while i < gridapps.len()
        invariant
            i <= defs.len(),
            defs == gridapps.pairs(),
            catalogue_view(entries) == after_gridapps(defs.take(i as int)).printers,
            event_views(events@) == after_gridapps(defs.take(i as int)).events,
            after_gridapps(defs.take(i as int)).collisions == 0,
        decreases defs.len() - i,
    {
        let (name, def) = gridapps.entry(i);
        assert(defs.take(i + 1).drop_last() =~= defs.take(i as int));
        let ghost before = entries;
        let ghost events_before = events@;
        match def.to_printer(name.clone()) {
            Some(p3d) => {
                let key = generalized(p3d.name.as_str());
                let ghost pv = p3d@;
                entries.insert(key, p3d);
                assert(catalogue_view(entries) =~= catalogue_view(before).insert(
                    generalized_name(pv.name),
                    pv,
                ));
            },
            None => {
                events.push(MergeEvent::IncompleteGridApps { name: name.clone() });
                assert(event_views(events@) =~= event_views(events_before).push(
                    MergeEventView::IncompleteGridApps(name@),
                ));
            },
        }
        i = i + 1;
    }
    assert(defs.take(defs.len() as int) =~= defs);
    let ghost start = after_gridapps(defs);
    let ghost cfgs = values_of(*cura);
    let mut collision: usize = 0;
    let mut j: usize = 0;
    while j < cura.len()
        invariant
            j <= cfgs.len(),
            cfgs == values_of(*cura),
            cfgs.len() == cura.pairs().len(),
            forall|k: int|
                0 <= k < cura.pairs().len() ==> printer_lookups_end(
                    *cura,
                    *cura_extruders,
                    #[trigger] cura.pairs()[k].1,
                ),
            collision <= j,
            collision == after_cura(start, *cura, *cura_extruders, cfgs.take(j as int)).collisions,
            catalogue_view(entries) == after_cura(
                start,
                *cura,
                *cura_extruders,
                cfgs.take(j as int),
            ).printers,
            event_views(events@) == after_cura(
                start,
                *cura,
                *cura_extruders,
                cfgs.take(j as int),
            ).events,
        decreases cfgs.len() - j,
    {
        let (_key, c) = cura.entry(j);
        assert(cfgs.take(j + 1).drop_last() =~= cfgs.take(j as int));
        assert(cfgs[j as int] == *c);
        let ghost before = entries;
        let ghost events_before = events@;
        match P3dPrinter::from_cura(cura, cura_extruders, c) {
            Some(p3d) => {
                let p3d_name = p3d.name.clone();
                let key = generalized(p3d_name.as_str());
                let ghost pv = p3d@;
                match entries.remove(key.as_str()) {
                    Some(ga) => {
                        assert(catalogue_view(before).contains_key(key@));
                        assert(catalogue_view(before)[key@] == ga@);
                        collision = collision + 1;
                        let ghost gv = ga@;
                        let ghost after_remove = entries;
                        match P3dPrinter::resolve_conflict(ga, p3d) {
                            Some(p3d_new) => {
                                let new_name = p3d_new.name.clone();
                                let ghost qv = p3d_new@;
                                events.push(
                                    MergeEvent::Resolved {
                                        collision: collision,
                                        key: key.clone(),
                                        name: new_name,
                                    },
                                );
                                entries.insert(key, p3d_new);
                                assert(catalogue_view(entries) =~= catalogue_view(before).insert(
                                    key@,
                                    qv,
                                ));
                                assert(event_views(events@) =~= event_views(events_before).push(
                                    MergeEventView::Resolved(collision as nat, key@, qv.name),
                                ));
                            },
                            None => {
                                events.push(MergeEvent::Unresolved { collision: collision, key: key });
                                assert(catalogue_view(entries) =~= catalogue_view(before).remove(
                                    key@,
                                ));
                                assert(event_views(events@) =~= event_views(events_before).push(
                                    MergeEventView::Unresolved(collision as nat, key@),
                                ));
                            },
                        }
                    },
                    None => {
                        assert(!catalogue_view(before).contains_key(key@));
                        entries.insert(key, p3d);
                        assert(catalogue_view(entries) =~= catalogue_view(before).insert(
                            generalized_name(pv.name),
                            pv,
                        ));
                    },
                }
            },
            None => {
                events.push(MergeEvent::IncompleteCura { name: c.printer_name() });
                assert(event_views(events@) =~= event_views(events_before).push(
                    MergeEventView::IncompleteCura(c.name@),
                ));
            },
        }
        j = j + 1;
    }
    assert(cfgs.take(cfgs.len() as int) =~= cfgs);
    (entries, events)
}

} // verus!
