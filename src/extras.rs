use vstd::prelude::*;
use crate::slot::{Authoring, SlotSource, resolve_slot, slot_of};
use crate::table::terminated;
use crate::text::{c_text, is_c_text};

verus! {

/// The extras API version this addon speaks.
pub const EXTRAS_API_VERSION: u32 = 2;

/// The subscriber-info version this addon fills in; the host must accept it.
pub const SUBSCRIBER_INFO_VERSION: u32 = 1;

/// The delimiter the host puts in front of account names.
pub const ACCOUNT_DELIMITER: u8 = 0x3a;

/// What the extras subsystem tells about itself.
#[derive(Debug)]
pub struct ExtrasAddonInfo {
    pub api_version: u32,
    pub max_info_version: u32,
    /// The bytes of the subsystem's version string, `None` for a null pointer.
    pub string_version: Option<Vec<u8>>,
    /// The bytes of the player's account name, `None` for a null pointer.
    pub self_account_name: Option<Vec<u8>>,
}

/// The subsystem speaks this addon's API version and accepts its subscriber info.
pub open spec fn compatible(info: &ExtrasAddonInfo) -> bool {
    info.api_version == EXTRAS_API_VERSION && info.max_info_version >= SUBSCRIBER_INFO_VERSION
}

impl ExtrasAddonInfo {
    pub fn check_compat(&self) -> (r: bool)
        ensures
            r == compatible(self),
    {
        self.api_version == EXTRAS_API_VERSION && self.max_info_version >= SUBSCRIBER_INFO_VERSION
    }
}

/// The record the addon fills in to subscribe to the subsystem's events.
#[derive(Debug, PartialEq, Eq)]
pub struct ExtrasSubscriberInfo {
    pub info_version: u32,
    /// The addon's NUL-terminated name.
    pub subscriber_name: Option<Vec<u8>>,
    /// The address of the squad-update callback.
    pub squad_update_callback: Option<usize>,
}

impl ExtrasSubscriberInfo {
    /// An empty record, as the host hands it over.
    pub fn empty() -> (r: ExtrasSubscriberInfo)
        ensures
            r.info_version == 0,
            r.subscriber_name is None,
            r.squad_update_callback is None,
    {
        ExtrasSubscriberInfo { info_version: 0, subscriber_name: None, squad_update_callback: None }
    }

    /// Registers the addon under `name` (already NUL-terminated) with its
    /// squad-update callback.
    pub fn subscribe(&mut self, name: &Vec<u8>, squad_update: Option<usize>)
        ensures
            final(self).info_version == SUBSCRIBER_INFO_VERSION,
            final(self).subscriber_name is Some,
            final(self).subscriber_name->0@ == name@,
            final(self).squad_update_callback == squad_update,
    {
        self.info_version = SUBSCRIBER_INFO_VERSION;
        self.subscriber_name = Some(name.clone());
        self.squad_update_callback = squad_update;
    }
}

/// `s` without one leading delimiter, if it has one.
pub open spec fn strip_delimiter(s: Seq<u8>) -> Seq<u8> {
    if s.len() > 0 && s[0] == ACCOUNT_DELIMITER {
        s.drop_first()
    } else {
        s
    }
}

/// At most one delimiter goes: a name that starts with it is the delimiter
/// followed by the result, and any other name is left as it is.
pub proof fn lemma_strip_at_most_one(s: Seq<u8>)
    ensures
        s.len() > 0 && s[0] == ACCOUNT_DELIMITER ==> seq![ACCOUNT_DELIMITER] + strip_delimiter(s)
            == s,
        !(s.len() > 0 && s[0] == ACCOUNT_DELIMITER) ==> strip_delimiter(s) == s,
        strip_delimiter(s).len() + 1 >= s.len(),
{
    if s.len() > 0 && s[0] == ACCOUNT_DELIMITER {
        assert(seq![ACCOUNT_DELIMITER] + s.drop_first() =~= s);
    }
}

/// The account name shown to the addon: the C text of `raw` with at most one
/// leading delimiter removed; absent for a null pointer.
pub fn account_name(raw: Option<&[u8]>) -> (r: Option<Vec<u8>>)
    ensures
        raw is None <==> r is None,
        raw is Some ==> exists|t: Seq<u8>|
            is_c_text(raw->0@, t) && r->0@ == #[trigger] strip_delimiter(t),
{
    match c_text(raw) {
        None => None,
        Some(mut text) => {
            let ghost t = text@;
            if text.len() > 0 && text[0] == ACCOUNT_DELIMITER {
                text.remove(0);
            }
            assert(text@ == strip_delimiter(t));
            Some(text)
        },
    }
}

/// How the author handles the subsystem's initialisation call.
#[derive(Clone, Copy, Debug, PartialEq, Eq, Structural)]
pub enum ExtrasInit {
    /// A raw function, at this address, that gets the raw records and does the
    /// negotiation itself.
    Raw(usize),
    /// A safe callback that receives the descriptor and the account name.
    Safe,
    /// No initialisation callback.
    Absent,
}

/// The author's choices for the extras subsystem.
#[derive(Clone, Copy, Debug, PartialEq, Eq, Structural)]
pub struct ExtrasAuthoring {
    pub init: ExtrasInit,
    pub squad_update: Authoring,
}

/// The extras entry point is emitted only when there is something to wire up.
pub open spec fn entry_emitted(a: ExtrasAuthoring) -> bool {
    !(a.init is Absent) || !(slot_of(a.squad_update) is Null)
}

pub fn extras_entry_emitted(a: &ExtrasAuthoring) -> (r: bool)
    ensures
        r == entry_emitted(*a),
{
    match a.init {
        ExtrasInit::Absent => !(resolve_slot(&a.squad_update) == SlotSource::Null),
        _ => true,
    }
}

/// What remains to be done after the negotiation.
#[derive(Debug, PartialEq, Eq)]
pub enum ExtrasAction {
    /// Nothing more.
    Nothing,
    /// Call the author's raw function at this address with the raw records.
    ForwardRaw(usize),
    /// Call the author's safe callback with the descriptor and this account name.
    CallInit(Option<Vec<u8>>),
}

/// Handles the subsystem's initialisation call for an addon named `name`.
///
/// A raw initialisation function takes over the whole negotiation. Otherwise the
/// squad-update callback, if any, is subscribed only when the subsystem is
/// compatible, and a safe initialisation callback is then called with the
/// account name, whether or not the subsystem was compatible.
pub fn negotiate(
    a: &ExtrasAuthoring,
    info: &ExtrasAddonInfo,
    sub: &mut ExtrasSubscriberInfo,
    name: &Vec<u8>,
) -> (r: ExtrasAction)
    requires
        name@.len() < usize::MAX,
    ensures
        a.init is Raw ==> r == ExtrasAction::ForwardRaw(a.init->Raw_0) && *final(sub) == *old(
            sub,
        ),
        !(a.init is Raw) && (!compatible(info) || slot_of(a.squad_update) is Null) ==> *final(sub)
            == *old(sub),
        !(a.init is Raw) && compatible(info) && !(slot_of(a.squad_update) is Null) ==> {
            &&& final(sub).info_version == SUBSCRIBER_INFO_VERSION
            &&& final(sub).subscriber_name is Some
            &&& final(sub).subscriber_name->0@ == name@.push(0u8)
            &&& final(sub).squad_update_callback == slot_of(a.squad_update).spec_address()
        },
        a.init is Absent ==> r == ExtrasAction::Nothing,
        a.init is Safe ==> r is CallInit,
        a.init is Safe && info.self_account_name is None ==> r == ExtrasAction::CallInit(None),
        a.init is Safe && info.self_account_name is Some ==> {
            &&& r->CallInit_0 is Some
            &&& exists|t: Seq<u8>|
                is_c_text(info.self_account_name->0@, t) && r->CallInit_0->0@
                    == #[trigger] strip_delimiter(t)
        },
{
    if let ExtrasInit::Raw(addr) = a.init {
        return ExtrasAction::ForwardRaw(addr);
    }
    let squad = resolve_slot(&a.squad_update);
    if info.check_compat() && squad != SlotSource::Null {
        sub.subscribe(&terminated(name), squad.address());
    }
    match a.init {
        ExtrasInit::Safe => {
            let user = match &info.self_account_name {
                Some(bytes) => account_name(Some(bytes.as_slice())),
                None => account_name(None),
            };
            ExtrasAction::CallInit(user)
        },
        _ => ExtrasAction::Nothing,
    }
}

/// Walks the squad-update array the host hands over: indices below `count`, one
/// at a time, never past the end.
#[derive(Debug)]
pub struct UserInfoIter {
    pub count: u64,
    pub position: u64,
}

impl UserInfoIter {
    /// The cursor never runs past the end of the array.
    pub open spec fn wf(&self) -> bool {
        self.position <= self.count
    }

    pub fn new(count: u64) -> (r: UserInfoIter)
        ensures
            r.wf(),
            r.count == count,
            r.position == 0,
    {
        UserInfoIter { count, position: 0 }
    }

    /// The next index to read, or `None` once all `count` entries were handed out.
    pub fn next_index(&mut self) -> (r: Option<u64>)
        requires
            old(self).wf(),
        ensures
            final(self).wf(),
            final(self).count == old(self).count,
            old(self).position < old(self).count ==> r == Some(old(self).position)
                && final(self).position == old(self).position + 1,
            old(self).position == old(self).count ==> r is None && final(self).position == old(
                self,
            ).position,
    {
        if self.position < self.count {
            let i = self.position;
            self.position = self.position + 1;
            Some(i)
        } else {
            None
        }
    }
}

} // verus!
