use arcdps::export::{arcdps_export, combat_args, loading_flag, panel_name, ExportDefinition};
use arcdps::extras::{
    account_name, negotiate, ExtrasAction, ExtrasAddonInfo, ExtrasAuthoring, ExtrasInit,
    ExtrasSubscriberInfo, UserInfoIter,
};
use arcdps::instance::{host_function, ArcInstance, HostFunction};
use arcdps::slot::{resolve_slot, Authoring, SlotSource};
use arcdps::table::{terminated, ActiveTable, SlotAuthoring, TableSlots};
use arcdps::text::c_text;
use arcdps::wnd::{filter_result, key_transition, wnd_filter, WM_KEYDOWN, WM_KEYUP, WM_SYSKEYDOWN, WM_SYSKEYUP};

fn s(b: &[u8]) -> Option<&[u8]> {
    Some(b)
}

fn absent() -> Authoring {
    Authoring { raw: None, trampoline: None }
}

fn no_slots() -> SlotAuthoring {
    SlotAuthoring {
        combat: absent(),
        combat_local: absent(),
        imgui: absent(),
        options_end: absent(),
        options_windows: absent(),
        wnd_filter: absent(),
        wnd_nofilter: absent(),
    }
}

fn no_extras() -> ExtrasAuthoring {
    ExtrasAuthoring { init: ExtrasInit::Absent, squad_update: absent() }
}

fn definition(slots: SlotAuthoring, extras: ExtrasAuthoring) -> ExportDefinition {
    ExportDefinition {
        size: 64,
        sig: 0xC0FFEE,
        build: b"1.2.3".to_vec(),
        name: b"demo".to_vec(),
        slots,
        extras,
    }
}

#[test]
fn raw_callback_wins_over_safe() {
    let a = Authoring { raw: Some(0x1000), trampoline: Some(0x2000) };
    assert_eq!(resolve_slot(&a), SlotSource::Raw(0x1000));
    assert_eq!(resolve_slot(&a).address(), Some(0x1000));
}

#[test]
fn safe_callback_gets_trampoline() {
    let a = Authoring { raw: None, trampoline: Some(0x2000) };
    assert_eq!(resolve_slot(&a), SlotSource::Trampoline(0x2000));
    assert_eq!(resolve_slot(&a).address(), Some(0x2000));
}

#[test]
fn absent_callback_is_null() {
    assert_eq!(resolve_slot(&absent()), SlotSource::Null);
    assert_eq!(resolve_slot(&absent()).address(), None);
}

#[test]
fn export_fills_slots_and_metadata() {
    let mut slots = no_slots();
    slots.combat = Authoring { raw: Some(0x10), trampoline: None };
    slots.imgui = Authoring { raw: None, trampoline: Some(0x20) };
    slots.wnd_nofilter = Authoring { raw: Some(0x30), trampoline: Some(0x40) };
    let export = arcdps_export(definition(slots, no_extras()));
    let t = export.state.table();
    assert_eq!(t.size, 64);
    assert_eq!(t.sig, 0xC0FFEE);
    assert_eq!(t.imgui_version, 18000);
    assert_eq!(t.out_build, b"1.2.3\0".to_vec());
    assert_eq!(t.out_name, b"demo\0".to_vec());
    assert_eq!(
        t.slots,
        TableSlots {
            combat: Some(0x10),
            combat_local: None,
            imgui: Some(0x20),
            options_end: None,
            options_windows: None,
            wnd_filter: None,
            wnd_nofilter: Some(0x30),
        }
    );
    assert!(!export.extras_entry);
    assert_eq!(export.state.error.slots, TableSlots::null());
}

#[test]
fn successful_init_keeps_normal_table() {
    let mut slots = no_slots();
    slots.combat = Authoring { raw: Some(0x10), trampoline: None };
    let mut export = arcdps_export(definition(slots, no_extras()));
    assert_eq!(export.state.load(Ok(()), &|_: &String| 1usize), ActiveTable::Normal);
    assert_eq!(export.state.table().size, 64);
    assert_eq!(export.state.table().slots.combat, Some(0x10));
    assert!(export.state.error_text.is_none());
}

#[test]
fn failed_init_selects_error_table() {
    let mut slots = no_slots();
    slots.combat = Authoring { raw: Some(0x10), trampoline: None };
    slots.wnd_filter = Authoring { raw: None, trampoline: Some(0x50) };
    let mut export = arcdps_export(definition(slots, no_extras()));
    let address_of = |text: &String| text.as_ptr() as usize;
    assert_eq!(export.state.load(Err("no config".to_string()), &address_of), ActiveTable::Error);
    assert_eq!(export.state.error_text.as_deref(), Some("no config"));
    let address = export.state.error_text.as_ref().unwrap().as_ptr() as usize;
    let t = export.state.table();
    assert_eq!(t.slots, TableSlots::null());
    assert_eq!(t.size, address);
    assert_eq!(t.out_name, b"demo\0".to_vec());
    // the table handed out is the same on every call
    assert_eq!(export.state.table().size, address);
}

#[test]
fn key_transitions_are_decoded() {
    let t = key_transition(WM_KEYDOWN, 65, 0).unwrap();
    assert_eq!((t.key, t.key_down, t.prev_key_down), (65, true, false));
    let t = key_transition(WM_KEYUP, 66, 1 << 30).unwrap();
    assert_eq!((t.key, t.key_down, t.prev_key_down), (66, false, true));
    let t = key_transition(WM_SYSKEYDOWN, 18, (1 << 30) | 1).unwrap();
    assert_eq!((t.key, t.key_down, t.prev_key_down), (18, true, true));
    let t = key_transition(WM_SYSKEYUP, 18, -1).unwrap();
    assert_eq!((t.key, t.key_down, t.prev_key_down), (18, false, true));
    let t = key_transition(WM_KEYDOWN, 18, !(1isize << 30)).unwrap();
    assert!(!t.prev_key_down);
    assert!(key_transition(0x0200, 65, 0).is_none());
}

#[test]
fn other_messages_pass_through() {
    let refuse = |_: usize, _: bool, _: bool| false;
    let accept = |_: usize, _: bool, _: bool| true;
    for msg in [0u32, 0x0001, 0x0102, 0x0200, 0xFFFF_FFFF] {
        assert_eq!(wnd_filter(&refuse, msg, 65, 0), msg);
        assert_eq!(wnd_filter(&accept, msg, 65, 0), msg);
    }
}

#[test]
fn refused_key_transition_is_swallowed() {
    let refuse = |_: usize, _: bool, _: bool| false;
    for msg in [WM_KEYDOWN, WM_KEYUP, WM_SYSKEYDOWN, WM_SYSKEYUP] {
        assert_eq!(wnd_filter(&refuse, msg, 65, 0), 0);
    }
    assert_eq!(filter_result(WM_KEYUP, false), 0);
}

#[test]
fn accepted_key_transition_passes_through() {
    let accept = |_: usize, _: bool, _: bool| true;
    for msg in [WM_KEYDOWN, WM_KEYUP, WM_SYSKEYDOWN, WM_SYSKEYUP] {
        assert_eq!(wnd_filter(&accept, msg, 65, 0), msg);
    }
}

#[test]
fn callback_sees_decoded_arguments() {
    let seen = std::cell::Cell::new((0usize, false, false));
    let record = |k: usize, d: bool, p: bool| {
        seen.set((k, d, p));
        d
    };
    assert_eq!(wnd_filter(&record, WM_KEYDOWN, 87, 1 << 30), WM_KEYDOWN);
    assert_eq!(seen.get(), (87, true, true));
    assert_eq!(wnd_filter(&record, WM_SYSKEYUP, 88, 0), 0);
    assert_eq!(seen.get(), (88, false, false));
}

#[test]
fn loading_flag_is_nonzero() {
    assert!(!loading_flag(0));
    assert!(loading_flag(1));
    assert!(loading_flag(0xFFFF_FFFF));
}

#[test]
fn null_names_stay_absent() {
    assert_eq!(c_text(None), None);
    assert_eq!(panel_name(None), None);
    assert_eq!(combat_args(None, 1, 2).skill_name, None);
    assert_eq!(account_name(None), None);
}

#[test]
fn empty_names_are_present() {
    assert_eq!(c_text(s(b"\0")), Some(Vec::new()));
    assert_eq!(panel_name(s(b"")), Some(Vec::new()));
}

#[test]
fn c_text_stops_at_terminator() {
    assert_eq!(c_text(s(b"Fireball\0junk")), Some(b"Fireball".to_vec()));
    assert_eq!(panel_name(s(b"Settings")), Some(b"Settings".to_vec()));
    let args = combat_args(s(b"Heal\0"), 7, 9);
    assert_eq!(args.skill_name, Some(b"Heal".to_vec()));
    assert_eq!((args.id, args.revision), (7, 9));
}

#[test]
fn host_functions_resolve_all_or_nothing() {
    let all = [Some(1), Some(2), Some(3), Some(4), Some(5), Some(6), Some(7)];
    let instance = ArcInstance::new(0xAA, Some(b"v1".to_vec()), all).unwrap();
    assert_eq!(instance.handle, 0xAA);
    assert_eq!((instance.e0, instance.e3, instance.e9), (1, 2, 7));
    assert_eq!(instance.address(HostFunction::LogWindow), 6);
    for missing in 0..7 {
        let mut lookups = all;
        lookups[missing] = None;
        assert!(ArcInstance::new(0xAA, None, lookups).is_none());
    }
}

#[test]
fn init_sets_the_global_instance() {
    let mut global = None;
    assert!(!ArcInstance::init(&mut global, 1, None, [Some(1), None, Some(3), Some(4), Some(5), Some(6), Some(7)]));
    assert!(global.is_none());
    assert_eq!(host_function(&global, HostFunction::ConfigPath), None);
    let all = [Some(1), Some(2), Some(3), Some(4), Some(5), Some(6), Some(7)];
    assert!(ArcInstance::init(&mut global, 1, None, all));
    assert_eq!(host_function(&global, HostFunction::AddEvent), Some(7));
    assert_eq!(host_function(&global, HostFunction::Colors), Some(3));
}

#[test]
fn host_symbols_are_named() {
    assert_eq!(HostFunction::ConfigPath.symbol(), "e0\0");
    assert_eq!(HostFunction::Log.symbol(), "e3\0");
    assert_eq!(HostFunction::AddEvent.symbol(), "e9\0");
    assert_eq!(HostFunction::at(3), HostFunction::UiSettings);
}

fn info(api_version: u32, max_info_version: u32, name: Option<&[u8]>) -> ExtrasAddonInfo {
    ExtrasAddonInfo {
        api_version,
        max_info_version,
        string_version: Some(b"1.0\0".to_vec()),
        self_account_name: name.map(|n| n.to_vec()),
    }
}

#[test]
fn incompatible_extras_leave_subscription_unchanged() {
    let a = ExtrasAuthoring { init: ExtrasInit::Safe, squad_update: Authoring { raw: None, trampoline: Some(0x77) } };
    let mut sub = ExtrasSubscriberInfo::empty();
    let r = negotiate(&a, &info(2, 0, s(b":Player.1234\0")), &mut sub, &b"demo".to_vec());
    assert_eq!(sub, ExtrasSubscriberInfo::empty());
    assert_eq!(r, ExtrasAction::CallInit(Some(b"Player.1234".to_vec())));
    let r = negotiate(&a, &info(1, 1, None), &mut sub, &b"demo".to_vec());
    assert_eq!(sub, ExtrasSubscriberInfo::empty());
    assert_eq!(r, ExtrasAction::CallInit(None));
}

#[test]
fn compatible_extras_subscribe_squad_update() {
    let a = ExtrasAuthoring { init: ExtrasInit::Absent, squad_update: Authoring { raw: None, trampoline: Some(0x77) } };
    let mut sub = ExtrasSubscriberInfo::empty();
    let r = negotiate(&a, &info(2, 1, None), &mut sub, &b"demo".to_vec());
    assert_eq!(r, ExtrasAction::Nothing);
    assert_eq!(sub.squad_update_callback, Some(0x77));
    assert_eq!(sub.subscriber_name, Some(b"demo\0".to_vec()));
    assert_eq!(sub.info_version, 1);
}

#[test]
fn raw_extras_init_takes_over() {
    let a = ExtrasAuthoring { init: ExtrasInit::Raw(0x99), squad_update: Authoring { raw: None, trampoline: Some(0x77) } };
    let mut sub = ExtrasSubscriberInfo::empty();
    assert_eq!(negotiate(&a, &info(2, 1, None), &mut sub, &b"demo".to_vec()), ExtrasAction::ForwardRaw(0x99));
    assert_eq!(sub, ExtrasSubscriberInfo::empty());
}

#[test]
fn extras_entry_only_when_wired() {
    let export = arcdps_export(definition(no_slots(), no_extras()));
    assert!(!export.extras_entry);
    let with_update = ExtrasAuthoring { init: ExtrasInit::Absent, squad_update: Authoring { raw: Some(1), trampoline: None } };
    assert!(arcdps_export(definition(no_slots(), with_update)).extras_entry);
    let with_init = ExtrasAuthoring { init: ExtrasInit::Safe, squad_update: absent() };
    assert!(arcdps_export(definition(no_slots(), with_init)).extras_entry);
}

#[test]
fn account_name_strips_one_delimiter() {
    assert_eq!(account_name(s(b":Player.1234\0")), Some(b"Player.1234".to_vec()));
    assert_eq!(account_name(s(b"Player.1234\0")), Some(b"Player.1234".to_vec()));
    assert_eq!(account_name(s(b"::Player.1234")), Some(b":Player.1234".to_vec()));
    assert_eq!(account_name(s(b":")), Some(Vec::new()));
    assert_eq!(account_name(None), None);
}

#[test]
fn terminated_appends_nul() {
    assert_eq!(terminated(&b"abc".to_vec()), b"abc\0".to_vec());
    assert_eq!(terminated(&Vec::new()), b"\0".to_vec());
}

#[test]
fn user_info_iter_stays_in_bounds() {
    let mut it = UserInfoIter::new(2);
    assert_eq!(it.next_index(), Some(0));
    assert_eq!(it.next_index(), Some(1));
    assert_eq!(it.next_index(), None);
    assert_eq!(it.next_index(), None);
    let mut empty = UserInfoIter::new(0);
    assert_eq!(empty.next_index(), None);
}
