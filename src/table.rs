use vstd::prelude::*;
use crate::slot::{Authoring, resolve_slot, slot_of};

verus! {

/// The UI-library version both tables announce to the host.
pub const IMGUI_VERSION: u32 = 18000;

/// The callback slots of the capability table, in the host's field order;
/// `None` is a null function pointer.
#[derive(Clone, Copy, Debug, PartialEq, Eq, Structural)]
pub struct TableSlots {
    pub combat: Option<usize>,
    pub combat_local: Option<usize>,
    pub imgui: Option<usize>,
    pub options_end: Option<usize>,
    pub options_windows: Option<usize>,
    pub wnd_filter: Option<usize>,
    pub wnd_nofilter: Option<usize>,
}

impl TableSlots {
    pub open spec fn all_null(self) -> bool {
        &&& self.combat is None
        &&& self.combat_local is None
        &&& self.imgui is None
        &&& self.options_end is None
        &&& self.options_windows is None
        &&& self.wnd_filter is None
        &&& self.wnd_nofilter is None
    }

    pub fn null() -> (r: TableSlots)
        ensures
            r.all_null(),
    {
        TableSlots {
            combat: None,
            combat_local: None,
            imgui: None,
            options_end: None,
            options_windows: None,
            wnd_filter: None,
            wnd_nofilter: None,
        }
    }
}

/// The capability table handed to the host.
///
/// `size` is the byte size of the host-side table, except in the error table once
/// a failure was recorded: there it holds the address of the error text.
/// `out_build` and `out_name` are NUL-terminated.
#[derive(Debug)]
pub struct CapabilityTable {
    pub size: usize,
    pub sig: u32,
    pub imgui_version: u32,
    pub out_build: Vec<u8>,
    pub out_name: Vec<u8>,
    pub slots: TableSlots,
}

/// The metadata both tables share.
#[derive(Debug)]
pub struct TableMeta {
    pub size: usize,
    pub sig: u32,
    pub out_build: Vec<u8>,
    pub out_name: Vec<u8>,
}

/// `text` followed by a NUL terminator.
pub fn terminated(text: &Vec<u8>) -> (r: Vec<u8>)
    requires
        text@.len() < usize::MAX,
    ensures
        r@ == text@.push(0u8),
{
    let mut r: Vec<u8> = Vec::new();
    let mut i: usize = 0;
    while i < text.len()
        invariant
            i <= text@.len(),
            r@ == text@.subrange(0, i as int),
        decreases text@.len() - i,
    {
        r.push(text[i]);
        i = i + 1;
    }
    assert(text@.subrange(0, text@.len() as int) == text@);
    r.push(0u8);
    r
}

impl TableMeta {
    /// Metadata for a table of `size` bytes with signature `sig`; the build and the
    /// addon name get their terminators here.
    pub fn new(size: usize, sig: u32, build: &Vec<u8>, name: &Vec<u8>) -> (r: TableMeta)
        requires
            build@.len() < usize::MAX,
            name@.len() < usize::MAX,
        ensures
            r.size == size,
            r.sig == sig,
            r.out_build@ == build@.push(0u8),
            r.out_name@ == name@.push(0u8),
    {
        TableMeta { size, sig, out_build: terminated(build), out_name: terminated(name) }
    }
}

impl CapabilityTable {
    pub open spec fn has_meta(self, meta: TableMeta) -> bool {
        &&& self.sig == meta.sig
        &&& self.imgui_version == IMGUI_VERSION
        &&& self.out_build@ == meta.out_build@
        &&& self.out_name@ == meta.out_name@
    }

    /// The normal table: the shared metadata and the given slots.
    pub fn normal(meta: &TableMeta, slots: TableSlots) -> (r: CapabilityTable)
        ensures
            r.has_meta(*meta),
            r.size == meta.size,
            r.slots == slots,
    {
        CapabilityTable {
            size: meta.size,
            sig: meta.sig,
            imgui_version: IMGUI_VERSION,
            out_build: meta.out_build.clone(),
            out_name: meta.out_name.clone(),
            slots,
        }
    }

    /// The error table: the shared metadata and every slot null.
    pub fn error(meta: &TableMeta) -> (r: CapabilityTable)
        ensures
            r.has_meta(*meta),
            r.size == meta.size,
            r.slots.all_null(),
    {
        CapabilityTable {
            size: meta.size,
            sig: meta.sig,
            imgui_version: IMGUI_VERSION,
            out_build: meta.out_build.clone(),
            out_name: meta.out_name.clone(),
            slots: TableSlots::null(),
        }
    }
}

/// What the author supplied for each event category, in the host's slot order.
#[derive(Clone, Copy, Debug, PartialEq, Eq, Structural)]
pub struct SlotAuthoring {
    pub combat: Authoring,
    pub combat_local: Authoring,
    pub imgui: Authoring,
    pub options_end: Authoring,
    pub options_windows: Authoring,
    pub wnd_filter: Authoring,
    pub wnd_nofilter: Authoring,
}

/// The slots that the authoring choices yield, one category at a time.
pub open spec fn slots_of(a: SlotAuthoring) -> TableSlots {
    TableSlots {
        combat: slot_of(a.combat).spec_address(),
        combat_local: slot_of(a.combat_local).spec_address(),
        imgui: slot_of(a.imgui).spec_address(),
        options_end: slot_of(a.options_end).spec_address(),
        options_windows: slot_of(a.options_windows).spec_address(),
        wnd_filter: slot_of(a.wnd_filter).spec_address(),
        wnd_nofilter: slot_of(a.wnd_nofilter).spec_address(),
    }
}

pub fn resolve_slots(a: &SlotAuthoring) -> (r: TableSlots)
    ensures
        r == slots_of(*a),
{
    TableSlots {
        combat: resolve_slot(&a.combat).address(),
        combat_local: resolve_slot(&a.combat_local).address(),
        imgui: resolve_slot(&a.imgui).address(),
        options_end: resolve_slot(&a.options_end).address(),
        options_windows: resolve_slot(&a.options_windows).address(),
        wnd_filter: resolve_slot(&a.wnd_filter).address(),
        wnd_nofilter: resolve_slot(&a.wnd_nofilter).address(),
    }
}

/// Which of the two tables the host was given.
#[derive(Clone, Copy, Debug, PartialEq, Eq, Structural)]
pub enum ActiveTable {
    Normal,
    Error,
}

/// The export's process-wide state: both tables, the error text once an
/// initialisation failed, and which table is active.
#[derive(Debug)]
pub struct ExportState {
    pub normal: CapabilityTable,
    pub error: CapabilityTable,
    pub error_text: Option<String>,
    pub active: ActiveTable,
}

impl ExportState {
    pub fn new(meta: &TableMeta, slots: TableSlots) -> (r: ExportState)
        ensures
            r.normal.has_meta(*meta),
            r.normal.size == meta.size,
            r.normal.slots == slots,
            r.error.has_meta(*meta),
            r.error.size == meta.size,
            r.error.slots.all_null(),
            r.error_text is None,
            r.active == ActiveTable::Normal,
    {
        ExportState {
            normal: CapabilityTable::normal(meta, slots),
            error: CapabilityTable::error(meta),
            error_text: None,
            active: ActiveTable::Normal,
        }
    }

    /// Applies the outcome of the addon's own initialiser. Success keeps the normal
    /// table. A failure records its text, selects the error table, and stores in
    /// that table's size field the address of the recorded text, as `address_of`
    /// reports it: this is how the host retrieves the diagnostic.
    pub fn load<F: Fn(&String) -> usize>(&mut self, outcome: Result<(), String>, address_of: &F) -> (r:
        ActiveTable)
        requires
            forall|s: &String| address_of.requires((s,)),
        ensures
            r == final(self).active,
            final(self).normal == old(self).normal,
            outcome is Ok ==> {
                &&& r == ActiveTable::Normal
                &&& final(self).error == old(self).error
                &&& final(self).error_text == old(self).error_text
            },
            outcome is Err ==> {
                &&& r == ActiveTable::Error
                &&& final(self).error_text == Some(outcome->Err_0)
                &&& address_of.ensures((&outcome->Err_0,), final(self).error.size)
                &&& final(self).error.sig == old(self).error.sig
                &&& final(self).error.imgui_version == old(self).error.imgui_version
                &&& final(self).error.out_build == old(self).error.out_build
                &&& final(self).error.out_name == old(self).error.out_name
                &&& final(self).error.slots == old(self).error.slots
            },
    {
        match outcome {
            Ok(()) => {
                self.active = ActiveTable::Normal;
            },
            Err(text) => {
                let address = address_of(&text);
                self.error.size = address;
                self.error_text = Some(text);
                self.active = ActiveTable::Error;
            },
        }
        self.active
    }

    /// The table the host receives; the same one on every call.

    pub fn table(&self) -> (r: &CapabilityTable)
        ensures
            self.active == ActiveTable::Normal ==> *r == self.normal,
            self.active == ActiveTable::Error ==> *r == self.error,
    {
        match self.active {
            ActiveTable::Normal => &self.normal,
            ActiveTable::Error => &self.error,
        }
    }
}

} // verus!
