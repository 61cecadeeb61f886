use device_mirror::present::{PresenterState, TickAction};
use device_mirror::types::{Command, Device, DeviceError, Event, Frame};

const SECOND: u64 = 1_000_000;

fn frame(width: u32, height: u32) -> Frame {
    Frame {
        width,
        height,
        pixels: vec![0; 4 * width as usize * height as usize],
    }
}

#[test]
fn device_list_replaces_state_wholesale() {
    let mut p = PresenterState::new(2 * SECOND);
    let a = p.apply_event(
        Event::DeviceListUnavailable(DeviceError::TransportUnavailable),
        0,
    );
    assert!(matches!(a, TickAction::Idle));
    assert_eq!(p.list_failure, Some(DeviceError::TransportUnavailable));

    let devs = vec![Device {
        id: 1,
        name: "Alpha".to_string(),
    }];
    let a = p.apply_event(Event::DeviceList(devs), 0);
    assert!(matches!(a, TickAction::Idle));
    assert!(p.list_failure.is_none());
    assert_eq!(p.devices.as_ref().map(|d| d.len()), Some(1));
}

#[test]
fn info_event_fills_the_panel() {
    let mut p = PresenterState::new(2 * SECOND);
    let info = vec![("Device Name".to_string(), "Alpha".to_string())];
    let a = p.apply_event(Event::DeviceInfoReady(info), 0);
    assert!(matches!(a, TickAction::Idle));
    assert_eq!(
        p.device_info.as_ref().and_then(|i| i.first()).map(|r| r.1.as_str()),
        Some("Alpha")
    );
}

#[test]
fn matching_frames_reuse_the_texture() {
    // Two consecutive frames with identical dimensions: one allocation, then
    // an in-place write; a dimension change forces a new allocation.
    let mut p = PresenterState::new(2 * SECOND);
    let a1 = p.apply_event(Event::FrameReady(frame(4, 3)), 0);
    assert!(matches!(a1, TickAction::AllocateTexture(_)));
    assert_eq!(p.texture, Some((4, 3)));

    let a2 = p.apply_event(Event::FrameReady(frame(4, 3)), SECOND / 10);
    assert!(matches!(a2, TickAction::WriteTexture(_)));
    assert_eq!(p.texture, Some((4, 3)));

    let a3 = p.apply_event(Event::FrameReady(frame(8, 6)), SECOND / 5);
    assert!(matches!(a3, TickAction::AllocateTexture(_)));
    assert_eq!(p.texture, Some((8, 6)));
}

#[test]
fn frames_drive_the_rate_estimator() {
    let mut p = PresenterState::new(2 * SECOND);
    p.apply_event(Event::FrameReady(frame(2, 2)), SECOND / 2);
    p.apply_event(Event::FrameReady(frame(2, 2)), SECOND);
    assert_eq!(p.rate.frames_in_window(SECOND), 2);
    assert_eq!(p.rate.current_rate_millihertz(SECOND), 1000);
}

#[test]
fn selecting_a_device_asks_for_fresh_info() {
    let mut p = PresenterState::new(2 * SECOND);
    p.apply_event(
        Event::DeviceInfoReady(vec![("Model".to_string(), "Old".to_string())]),
        0,
    );
    let c = p.select_device(Device {
        id: 9,
        name: "Gamma".to_string(),
    });
    match c {
        Command::RequestDeviceInfo(d) => assert_eq!(d.id, 9),
        _ => panic!("selection must request device info"),
    }
    assert!(p.device_info.is_none());
    assert_eq!(p.selected.as_str(), "Gamma");
}

#[test]
fn start_and_stop_reset_the_session_state() {
    let mut p = PresenterState::new(2 * SECOND);
    p.apply_event(Event::FrameReady(frame(2, 2)), SECOND);
    assert_eq!(p.rate.frames_in_window(SECOND), 1);

    let c = p.start_streaming(Device {
        id: 1,
        name: "Alpha".to_string(),
    });
    assert!(matches!(c, Command::StartStreaming(_)));
    assert!(p.streaming);
    assert_eq!(p.rate.frames_in_window(SECOND), 0);

    p.apply_event(Event::FrameReady(frame(2, 2)), 2 * SECOND);
    let c = p.stop_streaming();
    assert!(matches!(c, Command::StopStreaming));
    assert!(!p.streaming);
    assert!(p.texture.is_none());
    assert_eq!(p.rate.frames_in_window(2 * SECOND), 0);
}
