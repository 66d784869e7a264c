use ptc_mod::events::{calc_clock_pos, clamp_volume, clock_range, rescales_event, EventType, MAX_VOLUME};
use ptc_mod::hook::{CallingConvention, Callee, HookPolicy};
use ptc_mod::ptweb::{attachment_file_name, download_file_name, download_url, song_id};
use ptc_mod::runtime::{try_run_version, SupportedVersion, PTC0925, PTC09454};

#[test]
fn clock_positions() {
    assert_eq!(calc_clock_pos(4, 480, 0, 0, 0), 0);
    assert_eq!(calc_clock_pos(4, 480, 2, 3, 10), 4 * 480 * 2 + 480 * 3 + 10);
}

#[test]
fn volume_selection() {
    assert_eq!(clock_range(50, 10), (10, 50));
    assert_eq!(clock_range(10, 50), (10, 50));
    assert!(rescales_event(EventType::Volume, 10, 10, 20, true));
    assert!(!rescales_event(EventType::Volume, 20, 10, 20, true));
    assert!(rescales_event(EventType::Volume, 1_000_000, 10, -1, true));
    assert!(!rescales_event(EventType::Velocity, 15, 10, 20, true));
    assert!(!rescales_event(EventType::Volume, 15, 10, 20, false));
    assert!(!rescales_event(EventType::Volume, 5, 10, 20, true));
    assert_eq!(clamp_volume(-3), 0);
    assert_eq!(clamp_volume(64), 64);
    assert_eq!(clamp_volume(500), MAX_VOLUME);
}

#[test]
fn hook_policies() {
    assert_eq!(HookPolicy::Replace.calls(), vec![Callee::Handler]);
    assert_eq!(HookPolicy::PreRetNew.calls(), vec![Callee::Handler, Callee::Original]);
    assert_eq!(HookPolicy::PostRetNew.calls(), vec![Callee::Original, Callee::Handler]);
    assert_eq!(HookPolicy::PreRetOld.calls(), vec![Callee::Handler, Callee::Original]);
    assert_eq!(HookPolicy::PostRetOld.calls(), vec![Callee::Original, Callee::Handler]);
    assert_eq!(HookPolicy::Hook.calls(), vec![Callee::Handler]);
    assert_eq!(HookPolicy::PreRetOld.result_from(), Callee::Original);
    assert_eq!(HookPolicy::PostRetOld.result_from(), Callee::Original);
    assert_eq!(HookPolicy::PreRetNew.result_from(), Callee::Handler);
    assert_eq!(HookPolicy::Hook.result_from(), Callee::Handler);
    assert!(HookPolicy::Hook.passes_original());
    assert!(!HookPolicy::Replace.passes_original());
    assert_eq!(CallingConvention::Stdcall.abi_name(), "stdcall");
    assert_eq!(CallingConvention::Thiscall.abi_name(), "thiscall");
}

#[test]
fn supported_versions() {
    assert_eq!(try_run_version((0, 9, 2, 5)), Some(SupportedVersion::V0925(PTC0925)));
    assert_eq!(try_run_version((0, 9, 4, 54)), Some(SupportedVersion::V09454(PTC09454)));
    assert_eq!(try_run_version((0, 9, 4, 53)), None);
    assert_eq!(SupportedVersion::V09454(PTC09454).number(), (0, 9, 4, 54));
}

#[test]
fn song_links() {
    assert_eq!(song_id("https://www.ptweb.me/play/abc123"), Some("abc123"));
    assert_eq!(song_id("http://www.ptweb.me/get/XyZ"), Some("XyZ"));
    assert_eq!(song_id("https://www.ptweb.me/full/priv/a1b2"), Some("priv/a1b2"));
    assert_eq!(song_id("https://www.ptweb.me/get/"), None);
    assert_eq!(song_id("https://www.ptweb.me/view/abc"), None);
    assert_eq!(song_id("https://www.ptweb.me/play/abc-1"), None);
    assert_eq!(song_id(" https://www.ptweb.me/play/abc"), None);
    assert_eq!(song_id("ftp://www.ptweb.me/play/abc"), None);
    assert_eq!(download_url("abc123"), "https://www.ptweb.me/get/abc123");
    assert_eq!(attachment_file_name("attachment; filename=\"song.ptcop\""), Some("song.ptcop"));
    assert_eq!(attachment_file_name("inline; filename=\"song.ptcop\""), None);
    assert_eq!(attachment_file_name("attachment; filename=\"song.ptcop"), None);
    assert_eq!(download_file_name(Some("attachment; filename=\"tune.ptcop\""), "x1"), "tune.ptcop");
    assert_eq!(download_file_name(Some("inline"), "x1"), "x1.ptcop");
    assert_eq!(download_file_name(None, "a/b"), "a/b.ptcop");
}
