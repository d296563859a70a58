use rdaio::symphonia_control::{ControlOp, ControlState, FlagWrites, PlaybackControl};

#[test]
fn test_playback_control_new() {
    let ctrl = PlaybackControl::new();
    assert!(!ctrl.is_paused());
    assert!(!ctrl.is_stopped());
}

#[test]
fn test_playback_control_pause_resume() {
    let ctrl = PlaybackControl::new();

    assert!(!ctrl.is_paused());
    ctrl.pause();
    assert!(ctrl.is_paused());

    ctrl.resume();
    assert!(!ctrl.is_paused());
}

#[test]
fn test_playback_control_stop() {
    let ctrl = PlaybackControl::new();

    assert!(!ctrl.is_stopped());
    ctrl.stop();
    assert!(ctrl.is_stopped());
}

#[test]
fn test_playback_control_position() {
    let ctrl = PlaybackControl::new();

    assert_eq!(ctrl.get_position(), 0);
    ctrl.set_position(5000);
    assert_eq!(ctrl.get_position(), 5000);

    ctrl.set_position(10000);
    assert_eq!(ctrl.get_position(), 10000);
}

#[test]
fn test_playback_control_clone() {
    let ctrl1 = PlaybackControl::new();
    let ctrl2 = ctrl1.clone();

    ctrl1.pause();
    assert!(ctrl2.is_paused());

    ctrl2.resume();
    assert!(!ctrl1.is_paused());
}

#[test]
fn test_playback_control_default() {
    let ctrl = PlaybackControl::default();
    assert!(!ctrl.is_paused());
    assert!(!ctrl.is_stopped());
}

#[test]
fn test_playback_control_multiple_stops() {
    let ctrl = PlaybackControl::new();

    ctrl.stop();
    assert!(ctrl.is_stopped());

    // Calling stop multiple times should be fine
    ctrl.stop();
    assert!(ctrl.is_stopped());
}

#[test]
fn test_playback_control_multiple_pauses() {
    let ctrl = PlaybackControl::new();

    ctrl.pause();
    assert!(ctrl.is_paused());

    // Calling pause multiple times should be fine
    ctrl.pause();
    assert!(ctrl.is_paused());
}

#[test]
fn test_playback_control_pause_stopped() {
    let ctrl = PlaybackControl::new();

    ctrl.stop();
    ctrl.pause();

    // Should be able to pause a stopped playback
    assert!(ctrl.is_paused());
    assert!(ctrl.is_stopped());
}

#[test]
fn fresh_control_reads_as_the_initial_state() {
    let ctrl = PlaybackControl::new();
    assert_eq!(ctrl.snapshot(), ControlState::new());
    assert_eq!(
        ControlState::new(),
        ControlState { paused: false, stopped: false, position_ms: 0 }
    );
    assert_eq!(ctrl.get_position(), 0);
}

#[test]
fn pause_is_idempotent_and_resume_undoes_it() {
    let ctrl = PlaybackControl::new();
    ctrl.pause();
    let once = ctrl.snapshot();
    ctrl.pause();
    assert_eq!(ctrl.snapshot(), once);
    ctrl.resume();
    assert!(!ctrl.is_paused());

    let state = ControlState::new().apply(ControlOp::Pause);
    assert_eq!(state.apply(ControlOp::Pause), state);
    assert!(!state.apply(ControlOp::Resume).paused);
}

#[test]
fn stop_survives_pause_and_resume() {
    let ctrl = PlaybackControl::new();
    ctrl.stop();
    let once = ctrl.snapshot();
    ctrl.stop();
    assert_eq!(ctrl.snapshot(), once);
    for _ in 0..3 {
        ctrl.pause();
        assert!(ctrl.is_stopped());
        ctrl.resume();
        assert!(ctrl.is_stopped());
        ctrl.set_position(7);
        assert!(ctrl.is_stopped());
    }
}

#[test]
fn handle_follows_the_model_step_by_step() {
    let ops = [
        ControlOp::Pause,
        ControlOp::SetPosition(1500),
        ControlOp::Resume,
        ControlOp::Stop,
        ControlOp::Pause,
        ControlOp::SetPosition(2),
        ControlOp::Resume,
    ];
    let ctrl = PlaybackControl::new();
    let mut model = ControlState::new();
    for op in ops {
        ctrl.apply(op);
        model = model.apply(op);
        assert_eq!(ctrl.snapshot(), model);
    }
    assert_eq!(
        model,
        ControlState { paused: false, stopped: true, position_ms: 2 }
    );
}

#[test]
fn stop_is_seen_through_a_clone_on_another_thread_of_control() {
    let session_side = PlaybackControl::new();
    let worker_side = session_side.clone();
    worker_side.set_position(250);
    worker_side.stop();
    assert!(session_side.is_stopped());
    assert_eq!(session_side.get_position(), 250);
    assert!(!session_side.is_paused());
}

#[test]
fn each_operation_writes_one_flag() {
    let nothing = FlagWrites { paused: None, stopped: None, position_ms: None };
    assert_eq!(ControlOp::Pause.writes(), FlagWrites { paused: Some(true), ..nothing });
    assert_eq!(ControlOp::Resume.writes(), FlagWrites { paused: Some(false), ..nothing });
    assert_eq!(ControlOp::Stop.writes(), FlagWrites { stopped: Some(true), ..nothing });
    assert_eq!(
        ControlOp::SetPosition(42).writes(),
        FlagWrites { position_ms: Some(42), ..nothing }
    );
}
