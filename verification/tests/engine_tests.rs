use tabletdrivercleanup::criteria::DeviceToUninstall;
use tabletdrivercleanup::engine::{
    compute_matches, interpret_prompt_key, may_proceed, process_exit_code, should_reboot,
    should_uninstall, Engine, EngineAction, KeyInput, ModuleError, ModuleRunInfo, PromptResult,
    RunState, UninstallEvent,
};
use tabletdrivercleanup::objects::Device;
use tabletdrivercleanup::pattern::PatternCache;

fn device_with_hwid(instance: &str, hwid: &str) -> Device {
    Device::new(
        false,
        instance.to_string(),
        Some(hwid.to_string()),
        None,
        None,
        None,
        None,
        None,
        0,
        None,
        None,
        None,
        None,
        None,
    )
}

fn broad_criterion(name: &str) -> DeviceToUninstall {
    DeviceToUninstall {
        friendly_name: name.to_string(),
        device_desc: None,
        manufacturer: None,
        hardware_id: Some("USB.*".to_string()),
        class_uuid: None,
    }
}

#[test]
fn first_match_wins() {
    let mut cache = PatternCache::new();
    let object = device_with_hwid("dev-0", "USB\\VID_056A&PID_0001");
    let criteria = vec![broad_criterion("first"), broad_criterion("second")];
    assert_eq!(should_uninstall(&object, &criteria, &mut cache), Some(0));
}

#[test]
fn no_match_is_none() {
    let mut cache = PatternCache::new();
    let object = device_with_hwid("dev-0", "HID\\VID_056A");
    let criteria = vec![DeviceToUninstall {
        friendly_name: "nothing".to_string(),
        device_desc: None,
        manufacturer: None,
        hardware_id: Some("USB.*".to_string()),
        class_uuid: None,
    }];
    assert_eq!(should_uninstall(&object, &criteria, &mut cache), None);
}

#[test]
fn end_to_end_one_of_two_devices_uninstalled() {
    let mut cache = PatternCache::new();
    let criteria = vec![DeviceToUninstall {
        friendly_name: "X".to_string(),
        device_desc: None,
        manufacturer: None,
        hardware_id: Some("USB\\\\VID_1234.*".to_string()),
        class_uuid: None,
    }];
    let objects = vec![
        device_with_hwid("dev-0", "USB\\VID_1234&PID_0001"),
        device_with_hwid("dev-1", "USB\\VID_9999&PID_0002"),
    ];
    let matches = compute_matches(&objects, &criteria, &mut cache);
    assert_eq!(matches, vec![Some(0), None]);

    // Non-interactive, non-dry-run: exactly the first device's uninstall
    // action is requested once; the second is skipped.
    let mut engine = Engine::new(matches, false, false);
    let mut uninstalls = Vec::new();
    loop {
        match engine.advance() {
            EngineAction::PerformUninstall { object, criterion } => {
                uninstalls.push((object, criterion));
                engine.uninstall_done(UninstallEvent::Succeeded { reboot_required: false });
            }
            EngineAction::Finished | EngineAction::NothingFound => break,
            other => panic!("unexpected action: {:?}", other),
        }
    }
    assert_eq!(uninstalls, vec![(0, 0)]);
    assert!(!engine.result().reboot_required);
}

#[test]
fn dry_run_never_uninstalls() {
    // One matched object, dry run: the uninstall action is never requested
    // and the aggregated result reports no reboot.
    let mut engine = Engine::new(vec![Some(0)], true, true);
    let first = engine.advance();
    assert_eq!(first, EngineAction::AnnounceDryRun { object: 0, criterion: 0 });
    let second = engine.advance();
    assert_eq!(second, EngineAction::Finished);
    assert!(!engine.result().reboot_required);
}

#[test]
fn cancel_terminates_run_immediately() {
    // Two matched objects, interactive: cancelling at the first
    // confirmation aborts the whole run before the second is considered.
    let mut engine = Engine::new(vec![Some(0), Some(1)], true, false);
    let first = engine.advance();
    assert_eq!(first, EngineAction::Confirm { object: 0, criterion: 0 });
    let aborted = engine.confirm(PromptResult::Cancel);
    assert_eq!(aborted, EngineAction::Aborted);
    assert_eq!(engine.idx, 0);
}

#[test]
fn declining_skips_only_that_object() {
    let mut engine = Engine::new(vec![Some(0), Some(1)], true, false);
    assert_eq!(engine.advance(), EngineAction::Confirm { object: 0, criterion: 0 });
    assert_eq!(engine.confirm(PromptResult::No), EngineAction::Skipped { object: 0 });
    assert_eq!(engine.advance(), EngineAction::Confirm { object: 1, criterion: 1 });
    assert_eq!(
        engine.confirm(PromptResult::Yes),
        EngineAction::PerformUninstall { object: 1, criterion: 1 }
    );
    engine.uninstall_done(UninstallEvent::Succeeded { reboot_required: true });
    assert_eq!(engine.advance(), EngineAction::Finished);
    assert!(engine.result().reboot_required);
}

#[test]
fn nothing_found_is_reported_once() {
    let mut engine = Engine::new(vec![None, None], false, false);
    assert_eq!(engine.advance(), EngineAction::NothingFound);
    assert!(!engine.result().reboot_required);
}

#[test]
fn failed_uninstall_continues_the_loop() {
    let mut engine = Engine::new(vec![Some(0), Some(0)], false, false);
    assert_eq!(engine.advance(), EngineAction::PerformUninstall { object: 0, criterion: 0 });
    engine.uninstall_done(UninstallEvent::Failed);
    assert_eq!(engine.advance(), EngineAction::PerformUninstall { object: 1, criterion: 0 });
    engine.uninstall_done(UninstallEvent::Succeeded { reboot_required: false });
    assert_eq!(engine.advance(), EngineAction::Finished);
    assert!(!engine.result().reboot_required);
}

#[test]
fn prompt_keys_are_interpreted() {
    assert_eq!(interpret_prompt_key(KeyInput::Char('y')), Some(PromptResult::Yes));
    assert_eq!(interpret_prompt_key(KeyInput::Enter), Some(PromptResult::Yes));
    assert_eq!(interpret_prompt_key(KeyInput::Char('n')), Some(PromptResult::No));
    assert_eq!(interpret_prompt_key(KeyInput::Esc), Some(PromptResult::Cancel));
    assert_eq!(interpret_prompt_key(KeyInput::Char('x')), None);
    assert_eq!(interpret_prompt_key(KeyInput::Other), None);
}

#[test]
fn run_state_accumulates_reboot_requests() {
    let mut run_state = RunState::new();
    assert!(!run_state.need_reboot);
    run_state.record(&ModuleRunInfo { reboot_required: false });
    assert!(!run_state.need_reboot);
    run_state.record(&ModuleRunInfo { reboot_required: true });
    run_state.record(&ModuleRunInfo { reboot_required: false });
    assert!(run_state.need_reboot);
}

#[test]
fn elevation_and_exit_codes() {
    assert!(may_proceed(true, false));
    assert!(may_proceed(false, true));
    assert!(!may_proceed(false, false));
    assert_eq!(process_exit_code(false, false), 0);
    assert_eq!(process_exit_code(true, false), 1);
    assert_eq!(process_exit_code(false, true), 1);
}

#[test]
fn reboot_offer_honours_q() {
    assert!(!should_reboot(KeyInput::Char('q')));
    assert!(should_reboot(KeyInput::Char('a')));
    assert!(should_reboot(KeyInput::Enter));
}

#[test]
fn module_error_message_names_the_module() {
    let err = ModuleError::new("Device Cleanup".to_string());
    assert_eq!(err.name(), "Device Cleanup");
    assert_eq!(
        err.message(),
        "module 'Device Cleanup' has encountered issues while running"
    );
}
