use vstd::prelude::*;

verus! {

/// What ends up in one callback slot of the capability table.
///
/// An author may give a raw callback, already in the host's calling convention, or
/// a safe one, for which a trampoline is generated; a raw callback always wins.
#[derive(Clone, Copy, Debug, PartialEq, Eq, Structural)]
pub enum SlotSource {
    /// The address of the author's raw callback, used as it is.
    Raw(usize),
    /// The address of the trampoline generated for the author's safe callback.
    Trampoline(usize),
    /// No callback: the slot is null.
    Null,
}

/// The callbacks an author supplied for one event category.
///
/// `trampoline` is the address of the trampoline generated for the safe callback,
/// present exactly when a safe callback was supplied.
#[derive(Clone, Copy, Debug, PartialEq, Eq, Structural)]
pub struct Authoring {
    pub raw: Option<usize>,
    pub trampoline: Option<usize>,
}

impl SlotSource {
    /// The function pointer the host sees in the slot, `None` standing for null.
    pub open spec fn spec_address(self) -> Option<usize> {
        match self {
            SlotSource::Raw(a) => Some(a),
            SlotSource::Trampoline(a) => Some(a),
            SlotSource::Null => None,
        }
    }

    pub fn address(&self) -> (r: Option<usize>)
        ensures
            r == self.spec_address(),
    {
        match self {
            SlotSource::Raw(a) => Some(*a),
            SlotSource::Trampoline(a) => Some(*a),
            SlotSource::Null => None,
        }
    }
}

/// The slot that an authoring choice yields: raw before safe, null when neither.
pub open spec fn slot_of(a: Authoring) -> SlotSource {
    if a.raw is Some {
        SlotSource::Raw(a.raw->0)
    } else if a.trampoline is Some {
        SlotSource::Trampoline(a.trampoline->0)
    } else {
        SlotSource::Null
    }
}

/// Decides the slot for one event category.
pub fn resolve_slot(a: &Authoring) -> (r: SlotSource)
    ensures
        r == slot_of(*a),
        a.raw is Some ==> r == SlotSource::Raw(a.raw->0),
        a.raw is None && a.trampoline is Some ==> r == SlotSource::Trampoline(a.trampoline->0),
        a.raw is None && a.trampoline is None ==> r == SlotSource::Null,
{
    match (a.raw, a.trampoline) {
        (Some(raw), _) => SlotSource::Raw(raw),
        (None, Some(t)) => SlotSource::Trampoline(t),
        (None, None) => SlotSource::Null,
    }
}

/// Each authoring choice yields exactly one of the three slot kinds: the raw
/// address when a raw callback is given, else the trampoline's address when a
/// safe one is given, else null.
pub proof fn lemma_slot_is_one_of_three(a: Authoring)
    ensures
        a.raw is Some <==> slot_of(a) is Raw,
        (a.raw is None && a.trampoline is Some) <==> slot_of(a) is Trampoline,
        (a.raw is None && a.trampoline is None) <==> slot_of(a) is Null,
        slot_of(a) is Raw ==> slot_of(a).spec_address() == a.raw,
        slot_of(a) is Trampoline ==> slot_of(a).spec_address() == a.trampoline,
        slot_of(a) is Null ==> slot_of(a).spec_address() is None,
{
}

} // verus!
