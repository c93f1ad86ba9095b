use nvdisplay::describe::Output;
use nvdisplay::edit::{apply_edits, DisplayEdits};
use nvdisplay::model::{
    hz_to_millihz, millihz_to_hz, NvDisplayConfigPathInfo, NvDisplayConfigPathTargetInfo,
    RawPathInfo, RawTargetDetails, RawTargetInfo, SourceModeInfo, TargetDetails,
};
use nvdisplay::query::{
    apply_outcome, decode_paths, encode_paths, query_step, QueryAction, QueryEvent, QueryPhase,
};
use nvdisplay::recovery::{recovery_step, NextCall, RecoveryEvent, RecoveryStage, RecoveryState};
use nvdisplay::rotation::Rotation;
use nvdisplay::scaling::Scaling;
use nvdisplay::select::{find_by_display_id, find_primary, resolve_selection};
use nvdisplay::status::{status_message, ConfigError};

fn target(display_id: u32, refresh_rate_1k: u32) -> NvDisplayConfigPathTargetInfo {
    NvDisplayConfigPathTargetInfo {
        display_id,
        details: TargetDetails {
            refresh_rate_1k,
            scaling: Scaling::GpuScanoutToNative,
            rotation: Rotation::Rotate90,
            extra: vec![1, 2, 3],
        },
        target_id: display_id + 100,
    }
}

fn path(primary: bool, ids: &[u32]) -> NvDisplayConfigPathInfo {
    NvDisplayConfigPathInfo {
        target_info: ids.iter().map(|&id| target(id, 60000)).collect(),
        source_mode_info: SourceModeInfo {
            width: 1920,
            height: 1080,
            x: -1920,
            y: 0,
            primary,
            extra: vec![9, 8],
        },
        is_non_nvidia_adapter: false,
    }
}

fn raw_path(rotations: &[i32]) -> RawPathInfo {
    RawPathInfo {
        target_info_count: rotations.len() as u32,
        target_info: rotations
            .iter()
            .enumerate()
            .map(|(i, &rotation)| RawTargetInfo {
                display_id: i as u32 + 1,
                details: RawTargetDetails { refresh_rate_1k: 144000, scaling: 4, rotation, extra: vec![] },
                target_id: 0,
            })
            .collect(),
        source_mode_info: SourceModeInfo { width: 2560, height: 1440, x: 0, y: 0, primary: true, extra: vec![] },
        is_non_nvidia_adapter: true,
    }
}

#[test]
fn scaling_codes_round_trip() {
    let all = [
        (Scaling::Default, 0),
        (Scaling::GpuScalingToClosest, 1),
        (Scaling::GpuScalingToNative, 2),
        (Scaling::GpuScanoutToNative, 3),
        (Scaling::GpuScalingToAspectScanoutToNative, 5),
        (Scaling::GpuScalingToAspectScanoutToClosest, 6),
        (Scaling::GpuScanoutToClosest, 7),
        (Scaling::GpuIntegerAspectScaling, 8),
        (Scaling::Customized, 255),
    ];
    for (s, code) in all {
        assert_eq!(s.code(), code);
        assert_eq!(Scaling::from_code(code), s);
    }
}

#[test]
fn unknown_scaling_code_is_kept() {
    assert_eq!(Scaling::from_code(4), Scaling::Unknown(4));
    assert_eq!(Scaling::from_code(4).code(), 4);
    assert_eq!(Scaling::from_code(-7).code(), -7);
}

#[test]
fn scaling_names_parse() {
    assert_eq!(Scaling::from_name("scanout-native"), Ok(Scaling::GpuScanoutToNative));
    assert_eq!(Scaling::from_name("customized"), Ok(Scaling::Customized));
    assert_eq!(Scaling::from_name("unknown"), Err(ConfigError::InvalidScalingName));
    assert_eq!(Scaling::from_name("stretch"), Err(ConfigError::InvalidScalingName));
    assert_eq!(Scaling::GpuIntegerAspectScaling.name(), "integer-aspect");
}

#[test]
fn rotation_codes_round_trip() {
    for r in [Rotation::Identity, Rotation::Rotate90, Rotation::Rotate180, Rotation::Rotate270] {
        assert_eq!(Rotation::from_code(r.code()), Ok(r));
        assert_eq!(Rotation::from_degrees(r.degrees()), Ok(r));
    }
    assert_eq!(Rotation::Rotate270.code(), 3);
    assert_eq!(Rotation::Rotate180.degrees(), 180);
}

#[test]
fn unmapped_rotation_code_is_an_error() {
    assert_eq!(Rotation::from_code(4), Err(ConfigError::InvalidRotationValue { value: 4 }));
    assert_eq!(Rotation::from_code(-1), Err(ConfigError::InvalidRotationValue { value: -1 }));
    assert_eq!(Rotation::from_degrees(45), Err(ConfigError::InvalidRotationValue { value: 45 }));
}

#[test]
fn refresh_rate_conversion() {
    assert_eq!(hz_to_millihz(60), Some(60000));
    assert_eq!(millihz_to_hz(60000), 60);
    assert_eq!(hz_to_millihz(0), Some(0));
    assert_eq!(millihz_to_hz(59940), 59);
    assert_eq!(hz_to_millihz(4294967), Some(4294967000));
    assert_eq!(hz_to_millihz(4294968), None);
    for r in [1u32, 75, 144, 240, 4294967] {
        assert_eq!(millihz_to_hz(hz_to_millihz(r).unwrap()), r);
    }
}

#[test]
fn status_messages() {
    assert_eq!(status_message(-1), "generic error");
    assert_eq!(status_message(-104), "not supported");
    assert_eq!(status_message(-999), "unknown status -999");
    assert_eq!(status_message(12345), "unknown status 12345");
    assert_eq!(status_message(i32::MIN), "unknown status -2147483648");
    assert_eq!(
        ConfigError::driver(-5),
        ConfigError::Driver { status: -5, message: "invalid argument".to_string() }
    );
}

#[test]
fn path_round_trips_through_raw_form() {
    let original = path(true, &[4, 5, 6]);
    let raw = original.clone().into_raw();
    assert_eq!(raw.target_info_count, 3);
    assert_eq!(raw.target_info[1].details.scaling, 3);
    assert_eq!(raw.target_info[1].details.rotation, 1);
    let back = NvDisplayConfigPathInfo::from_raw(raw).unwrap();
    assert_eq!(back.target_info.len(), 3);
    assert_eq!(back.source_mode_info.width, 1920);
    assert_eq!(back.source_mode_info.x, -1920);
    assert!(back.source_mode_info.primary);
    assert_eq!(back.source_mode_info.extra, vec![9, 8]);
    for (a, b) in original.target_info.iter().zip(back.target_info.iter()) {
        assert_eq!(a.display_id, b.display_id);
        assert_eq!(a.target_id, b.target_id);
        assert_eq!(a.details.refresh_rate_1k, b.details.refresh_rate_1k);
        assert_eq!(a.details.scaling, b.details.scaling);
        assert_eq!(a.details.rotation, b.details.rotation);
        assert_eq!(a.details.extra, b.details.extra);
    }
}

#[test]
fn raw_path_with_bad_rotation_fails() {
    let err = NvDisplayConfigPathInfo::from_raw(raw_path(&[0, 7, 9])).unwrap_err();
    assert_eq!(err, ConfigError::InvalidRotationValue { value: 7 });
    let ok = NvDisplayConfigPathInfo::from_raw(raw_path(&[2])).unwrap();
    assert_eq!(ok.target_info[0].details.scaling, Scaling::Unknown(4));
    assert_eq!(ok.target_info[0].details.rotation, Rotation::Rotate180);
    assert!(ok.is_non_nvidia_adapter);
}

#[test]
fn select_by_display_id() {
    let paths = vec![path(false, &[1, 2]), path(false, &[3, 7]), path(true, &[8])];
    assert_eq!(find_by_display_id(&paths, 7), Some((1, 1)));
    assert_eq!(find_by_display_id(&paths, 999), None);
    assert_eq!(resolve_selection(&paths, Some(999)), Err(ConfigError::SelectionNotFound));
}

#[test]
fn select_primary() {
    let paths = vec![path(false, &[1]), path(false, &[2]), path(true, &[3])];
    assert_eq!(find_primary(&paths), Some((2, 0)));
    assert_eq!(resolve_selection(&paths, None), Ok((2, 0)));
    let none = vec![path(false, &[1]), path(false, &[2])];
    assert_eq!(find_primary(&none), None);
    assert_eq!(find_primary(&Vec::new()), None);
}

fn no_edits() -> DisplayEdits {
    DisplayEdits {
        resolution_x: None,
        resolution_y: None,
        position_x: None,
        position_y: None,
        scaling: None,
        refresh: None,
        rotation: None,
    }
}

#[test]
fn edits_change_the_selected_entry() {
    let mut paths = vec![path(false, &[1]), path(true, &[2, 3])];
    let edits = DisplayEdits {
        resolution_x: Some(2560),
        position_y: Some(-100),
        scaling: Some("aspect-native".to_string()),
        refresh: Some(144),
        rotation: Some(270),
        ..no_edits()
    };
    assert_eq!(apply_edits(&mut paths, 1, 1, &edits), Ok(()));
    assert_eq!(paths[1].source_mode_info.width, 2560);
    assert_eq!(paths[1].source_mode_info.height, 1080);
    assert_eq!(paths[1].source_mode_info.y, -100);
    let t = &paths[1].target_info[1];
    assert_eq!(t.details.refresh_rate_1k, 144000);
    assert_eq!(t.details.scaling, Scaling::GpuScalingToAspectScanoutToNative);
    assert_eq!(t.details.rotation, Rotation::Rotate270);
    assert_eq!(paths[1].target_info[0].details.refresh_rate_1k, 60000);
    assert_eq!(paths[0].source_mode_info.width, 1920);
}

#[test]
fn invalid_edits_change_nothing() {
    let mut paths = vec![path(true, &[1])];
    let bad_scaling = DisplayEdits { resolution_x: Some(800), scaling: Some("zoom".to_string()), ..no_edits() };
    assert_eq!(apply_edits(&mut paths, 0, 0, &bad_scaling), Err(ConfigError::InvalidScalingName));
    let bad_rotation = DisplayEdits { rotation: Some(45), ..no_edits() };
    assert_eq!(
        apply_edits(&mut paths, 0, 0, &bad_rotation),
        Err(ConfigError::InvalidRotationValue { value: 45 })
    );
    let bad_refresh = DisplayEdits { refresh: Some(5_000_000), ..no_edits() };
    assert_eq!(
        apply_edits(&mut paths, 0, 0, &bad_refresh),
        Err(ConfigError::InvalidRefreshRate { hz: 5_000_000 })
    );
    let missing_target = DisplayEdits { refresh: Some(60), ..no_edits() };
    assert_eq!(apply_edits(&mut paths, 0, 3, &missing_target), Err(ConfigError::SelectionNotFound));
    assert_eq!(paths[0].source_mode_info.width, 1920);
}

#[test]
fn failed_count_query_allocates_nothing() {
    let (phase, action) = query_step(QueryPhase::AwaitCount, QueryEvent::Counted { status: -6, path_count: 4 });
    assert!(matches!(phase, QueryPhase::Done));
    match action {
        QueryAction::Fail { error } => assert_eq!(error, ConfigError::driver(-6)),
        other => panic!("unexpected action {:?}", other),
    }
}

#[test]
fn query_runs_three_phases() {
    let (phase, action) = query_step(QueryPhase::AwaitCount, QueryEvent::Counted { status: 0, path_count: 2 });
    assert!(matches!(action, QueryAction::AllocatePaths { path_count: 2 }));
    let (phase, action) =
        query_step(phase, QueryEvent::PathsFilled { status: 0, target_counts: vec![1, 0] });
    match &action {
        QueryAction::AllocateTargets { target_counts } => assert_eq!(target_counts, &vec![1, 0]),
        other => panic!("unexpected action {:?}", other),
    }
    let (phase, action) =
        query_step(phase, QueryEvent::TargetsFilled { status: 0, paths: vec![raw_path(&[0]), raw_path(&[])] });
    assert!(matches!(phase, QueryPhase::Done));
    match action {
        QueryAction::Finish { paths } => {
            assert_eq!(paths.len(), 2);
            assert_eq!(paths[0].target_info.len(), 1);
            assert_eq!(paths[1].target_info.len(), 0);
            assert_eq!(paths[0].source_mode_info.width, 2560);
        }
        other => panic!("unexpected action {:?}", other),
    }
}

#[test]
fn zero_paths_is_an_empty_configuration() {
    let (phase, _) = query_step(QueryPhase::AwaitCount, QueryEvent::Counted { status: 0, path_count: 0 });
    let (phase, _) = query_step(phase, QueryEvent::PathsFilled { status: 0, target_counts: vec![] });
    let (_, action) = query_step(phase, QueryEvent::TargetsFilled { status: 0, paths: vec![] });
    assert!(matches!(action, QueryAction::Finish { paths } if paths.is_empty()));
}

#[test]
fn failed_target_query_fails() {
    let phase = QueryPhase::AwaitTargets { target_counts: vec![1] };
    let (_, action) = query_step(phase, QueryEvent::TargetsFilled { status: -9, paths: vec![raw_path(&[0])] });
    assert!(matches!(action, QueryAction::Fail { error } if error == ConfigError::driver(-9)));
    assert_eq!(decode_paths(vec![raw_path(&[5])]).unwrap_err(), ConfigError::InvalidRotationValue { value: 5 });
}

#[test]
fn apply_encodes_and_reports_status() {
    let raws = encode_paths(vec![path(true, &[1, 2]), path(false, &[])]);
    assert_eq!(raws.len(), 2);
    assert_eq!(raws[0].target_info_count, 2);
    assert_eq!(raws[1].target_info_count, 0);
    assert_eq!(apply_outcome(0), Ok(()));
    assert_eq!(apply_outcome(-150), Err(ConfigError::driver(-150)));
}

#[test]
fn recovery_makes_three_attempts_after_two_failures() {
    let mut state = RecoveryState::start();
    let mut next = NextCall::GetTiming;
    let mut timing_calls = 0;
    let mut logs: Vec<String> = vec![];
    let mut pauses: Vec<u64> = vec![];
    let mut custom_calls = 0;
    while next != NextCall::Stop {
        let event = match next {
            NextCall::GetTiming => {
                timing_calls += 1;
                RecoveryEvent::TimingFetched { status: 0 }
            }
            NextCall::TryCustomDisplay => {
                custom_calls += 1;
                RecoveryEvent::CustomApplied { status: if custom_calls <= 2 { -150 } else { 0 } }
            }
            NextCall::FetchConfig => RecoveryEvent::ConfigFetched { result: Ok(vec![path(true, &[1])]) },
            NextCall::Stop => unreachable!(),
        };
        let (s, action) = recovery_step(state, event);
        state = s;
        next = action.next;
        if let Some(line) = action.log {
            logs.push(line);
        }
        if action.sleep_secs > 0 {
            pauses.push(action.sleep_secs);
        }
    }
    assert_eq!(state.stage, RecoveryStage::Finished);
    assert_eq!(timing_calls, 3);
    assert_eq!(logs.len(), 6);
    assert_eq!(pauses, vec![10, 10]);
    assert_eq!(
        logs[0],
        "Failed to fix the shit: Error applying resolution mode change failed, attempt 1"
    );
    assert_eq!(logs[1], "Retrieved resolution: 1920x1080, attempt 1");
    assert_eq!(logs[4], "Successfully fixed the shit, attempt 3");
    assert_eq!(logs[5], "Retrieved resolution: 1920x1080, attempt 3");
}

#[test]
fn recovery_logs_failed_timing_and_failed_read() {
    let state = RecoveryState::start();
    let (state, action) = recovery_step(state, RecoveryEvent::TimingFetched { status: -104 });
    assert_eq!(state, RecoveryState { stage: RecoveryStage::AwaitConfig, attempt: 1 });
    assert_eq!(action.next, NextCall::FetchConfig);
    assert_eq!(action.sleep_secs, 10);
    assert_eq!(
        action.log.unwrap(),
        "Failed to fix the shit: Error retrieving timing not supported, attempt 1"
    );
    let (state, action) =
        recovery_step(state, RecoveryEvent::ConfigFetched { result: Err(ConfigError::driver(-3)) });
    assert_eq!(state, RecoveryState { stage: RecoveryStage::AwaitTiming, attempt: 2 });
    assert_eq!(action.log.unwrap(), "Failed to get current display config not implemented by this driver");
    let (_, action) = recovery_step(
        RecoveryState { stage: RecoveryStage::AwaitConfig, attempt: 3 },
        RecoveryEvent::ConfigFetched { result: Ok(vec![]) },
    );
    assert_eq!(action.next, NextCall::Stop);
    assert_eq!(action.log.unwrap(), "Failed to get current display config no display paths");
}

#[test]
fn long_display_describes_path() {
    let p = path(true, &[7]);
    assert_eq!(
        p.long_display(),
        "Source\nPrimary: true\nResolution: 1920x1080\nPosition: (-1920,0)\nTarget 1\nID: 7\nRefresh rate: 60 Hz\nScaling: scanout-native\nRotation: 90"
    );
}

#[test]
fn error_messages_are_not_empty() {
    assert_eq!(ConfigError::driver(-1).message(), "generic error");
    assert!(!ConfigError::SelectionNotFound.message().is_empty());
    assert!(!ConfigError::InvalidRefreshRate { hz: 1 }.message().is_empty());
}

#[test]
fn recovery_logs_each_failure_then_success() {
    let mut state = RecoveryState::start();
    let mut logs: Vec<String> = vec![];
    let mut attempt = 0;
    let mut next = NextCall::GetTiming;
    while next != NextCall::Stop {
        let event = match next {
            NextCall::GetTiming => {
                attempt += 1;
                RecoveryEvent::TimingFetched { status: if attempt == 1 { -5 } else { 0 } }
            }
            NextCall::TryCustomDisplay => {
                RecoveryEvent::CustomApplied { status: if attempt == 2 { -108 } else { 0 } }
            }
            NextCall::FetchConfig => RecoveryEvent::ConfigFetched {
                result: if attempt == 2 { Err(ConfigError::TargetCountChanged) } else { Ok(vec![path(true, &[1])]) },
            },
            NextCall::Stop => unreachable!(),
        };
        let (s, action) = recovery_step(state, event);
        state = s;
        next = action.next;
        if let Some(line) = action.log {
            logs.push(line);
        }
    }
    assert_eq!(
        logs,
        vec![
            "Failed to fix the shit: Error retrieving timing invalid argument, attempt 1".to_string(),
            "Retrieved resolution: 1920x1080, attempt 1".to_string(),
            "Failed to fix the shit: Error applying resolution device busy, attempt 2".to_string(),
            "Failed to get current display config target count changed during the query".to_string(),
            "Successfully fixed the shit, attempt 3".to_string(),
            "Retrieved resolution: 1920x1080, attempt 3".to_string(),
        ]
    );
}

#[test]
fn changed_target_count_fails_the_query() {
    let phase = QueryPhase::AwaitTargets { target_counts: vec![2] };
    let (_, action) = query_step(phase, QueryEvent::TargetsFilled { status: 0, paths: vec![raw_path(&[0])] });
    assert!(matches!(action, QueryAction::Fail { error: ConfigError::TargetCountChanged }));
    let phase = QueryPhase::AwaitTargets { target_counts: vec![1, 1] };
    let (_, action) = query_step(phase, QueryEvent::TargetsFilled { status: 0, paths: vec![raw_path(&[0])] });
    assert!(matches!(action, QueryAction::Fail { error: ConfigError::TargetCountChanged }));
}

#[test]
fn record_count_must_match_its_targets() {
    let mut raw = raw_path(&[0, 1]);
    raw.target_info_count = 3;
    assert_eq!(NvDisplayConfigPathInfo::from_raw(raw).unwrap_err(), ConfigError::TargetCountChanged);
}

#[test]
fn query_names_the_first_bad_rotation() {
    let phase = QueryPhase::AwaitTargets { target_counts: vec![1, 2] };
    let (_, action) = query_step(
        phase,
        QueryEvent::TargetsFilled { status: 0, paths: vec![raw_path(&[0]), raw_path(&[6, 8])] },
    );
    assert!(matches!(action, QueryAction::Fail { error: ConfigError::InvalidRotationValue { value: 6 } }));
}

#[test]
fn error_texts() {
    assert_eq!(ConfigError::SelectionNotFound.message(), "display with the requested id not found");
    assert_eq!(ConfigError::InvalidScalingName.message(), "invalid scaling option");
    assert_eq!(ConfigError::InvalidRotationValue { value: 5 }.message(), "invalid rotation value");
    assert_eq!(ConfigError::InvalidRefreshRate { hz: 1 }.message(), "refresh rate out of range");
    assert_eq!(ConfigError::TargetCountChanged.message(), "target count changed during the query");
}
