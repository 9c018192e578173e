use vstd::prelude::*;
use crate::extras::{ExtrasAuthoring, entry_emitted, extras_entry_emitted};
use crate::table::{
    ActiveTable, ExportState, SlotAuthoring, TableMeta, resolve_slots, slots_of,
};
use crate::text::{c_text, is_c_text};

verus! {

/// Everything an addon declares about its export.
#[derive(Debug)]
pub struct ExportDefinition {
    /// The byte size of the host-side capability table.
    pub size: usize,
    /// The addon's signature.
    pub sig: u32,
    /// The addon's build string, without terminator.
    pub build: Vec<u8>,
    /// The addon's name, without terminator.
    pub name: Vec<u8>,
    pub slots: SlotAuthoring,
    pub extras: ExtrasAuthoring,
}

/// The assembled export: both tables, and the extras wiring.
#[derive(Debug)]
pub struct Export {
    pub state: ExportState,
    pub extras: ExtrasAuthoring,
    /// Whether the extras entry point exists at all.
    pub extras_entry: bool,
    /// The addon's name, without terminator, as the extras subscription uses it.
    pub name: Vec<u8>,
}

/// Assembles the export of an addon: the normal table with each slot decided by
/// its authoring choice, the all-null error table with the same metadata, the
/// normal table active, and whether the extras entry point is emitted.
pub fn arcdps_export(def: ExportDefinition) -> (r: Export)
    requires
        def.build@.len() < usize::MAX,
        def.name@.len() < usize::MAX,
    ensures
        r.state.normal.size == def.size,
        r.state.normal.sig == def.sig,
        r.state.normal.out_build@ == def.build@.push(0u8),
        r.state.normal.out_name@ == def.name@.push(0u8),
        r.state.normal.slots == slots_of(def.slots),
        r.state.error.size == def.size,
        r.state.error.sig == def.sig,
        r.state.error.out_build@ == def.build@.push(0u8),
        r.state.error.out_name@ == def.name@.push(0u8),
        r.state.error.slots.all_null(),
        r.state.error_text is None,
        r.state.active == ActiveTable::Normal,
        r.extras == def.extras,
        r.extras_entry == entry_emitted(def.extras),
        r.name@ == def.name@,
{
    let meta = TableMeta::new(def.size, def.sig, &def.build, &def.name);
    let slots = resolve_slots(&def.slots);
    let extras_entry = extras_entry_emitted(&def.extras);
    Export { state: ExportState::new(&meta, slots), extras: def.extras, extras_entry, name: def.name }
}

/// The safe arguments of a combat callback, beside the event and agent views.
#[derive(Debug, PartialEq, Eq)]
pub struct CombatArgs {
    pub skill_name: Option<Vec<u8>>,
    pub id: u64,
    pub revision: u64,
}

/// Marshals the raw arguments of a combat callback (area or local): the skill
/// name's C text, absent for a null pointer, and the two identifiers unchanged.
pub fn combat_args(skill_name: Option<&[u8]>, id: u64, revision: u64) -> (r: CombatArgs)
    ensures
        skill_name is None <==> r.skill_name is None,
        skill_name is Some ==> is_c_text(skill_name->0@, r.skill_name->0@),
        r.id == id,
        r.revision == revision,
{
    CombatArgs { skill_name: c_text(skill_name), id, revision }
}

/// Marshals the panel name of the options-window callback: its C text, absent
/// for a null pointer.
pub fn panel_name(raw: Option<&[u8]>) -> (r: Option<Vec<u8>>)
    ensures
        raw is None <==> r is None,
        raw is Some ==> is_c_text(raw->0@, r->0@),
{
    c_text(raw)
}

/// The UI-render slot's loading flag: zero is false, anything else true.
pub fn loading_flag(loading: u32) -> (r: bool)
    ensures
        r == (loading != 0),
{
    loading != 0
}

} // verus!
