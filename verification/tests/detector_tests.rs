use microdsp_demo::mpm_demo::MpmDemoApp;
use microdsp_demo::sfnov_demo::SfnovDemoApp;
use microdsp_demo::AppMessage;

fn drain_mpm(app: &mut MpmDemoApp) -> Vec<AppMessage> {
    let mut out = Vec::new();
    while let Some(m) = app.next_outgoing_message() {
        out.push(m);
    }
    out
}

fn drain_sfnov(app: &mut SfnovDemoApp) -> Vec<AppMessage> {
    let mut out = Vec::new();
    while let Some(m) = app.next_outgoing_message() {
        out.push(m);
    }
    out
}

#[test]
fn tone_start_and_end_emit_led_edges() {
    let mut app = MpmDemoApp::new();
    // 440 Hz appears: LED 0 turns on
    app.handle_detection(true, 440000);
    assert_eq!(drain_mpm(&mut app), vec![AppMessage::Led0On]);
    // still sounding: no further event
    app.handle_detection(true, 440200);
    assert_eq!(drain_mpm(&mut app), vec![]);
    // tone gone: LED 0 turns off
    app.handle_detection(false, 440000);
    assert_eq!(drain_mpm(&mut app), vec![AppMessage::Led0Off]);
}

#[test]
fn each_target_frequency_drives_its_own_led() {
    let mut app = MpmDemoApp::new();
    app.handle_detection(true, 330000);
    assert_eq!(drain_mpm(&mut app), vec![AppMessage::Led1On]);
    // switching to another target releases one LED and sets another; the
    // events appear in target order, popped most recent first
    app.handle_detection(true, 262000);
    assert_eq!(
        drain_mpm(&mut app),
        vec![AppMessage::Led2On, AppMessage::Led1Off]
    );
    app.handle_detection(true, 392000);
    assert_eq!(
        drain_mpm(&mut app),
        vec![AppMessage::Led3On, AppMessage::Led2Off]
    );
}

#[test]
fn frequency_tolerance_is_one_hertz_exclusive() {
    let mut app = MpmDemoApp::new();
    // 999 millihertz off: inside the tolerance
    app.handle_detection(true, 440999);
    assert_eq!(drain_mpm(&mut app), vec![AppMessage::Led0On]);
    // exactly 1 Hz off: outside
    app.handle_detection(true, 441000);
    assert_eq!(drain_mpm(&mut app), vec![AppMessage::Led0Off]);
    app.handle_detection(true, 439001);
    assert_eq!(drain_mpm(&mut app), vec![AppMessage::Led0On]);
    app.handle_detection(true, 439000);
    assert_eq!(drain_mpm(&mut app), vec![AppMessage::Led0Off]);
}

#[test]
fn tone_off_result_without_sounding_state_emits_nothing() {
    let mut app = MpmDemoApp::new();
    app.handle_detection(false, 440000);
    app.handle_detection(true, 100000);
    assert_eq!(drain_mpm(&mut app), vec![]);
}

#[test]
fn mpm_ignores_incoming_events() {
    let mut app = MpmDemoApp::new();
    app.handle_message(AppMessage::Button0Down);
    app.handle_message(AppMessage::Button2Down);
    assert_eq!(drain_mpm(&mut app), vec![]);
}

#[test]
fn novelty_above_threshold_toggles_the_led_once() {
    let mut app = SfnovDemoApp::new();
    app.handle_novelty(5001);
    assert_eq!(drain_sfnov(&mut app), vec![AppMessage::Led0On]);
    // still above: debounced, no second event
    app.handle_novelty(9000);
    app.handle_novelty(700000);
    assert_eq!(drain_sfnov(&mut app), vec![]);
}

#[test]
fn novelty_trigger_rearms_below_threshold() {
    let mut app = SfnovDemoApp::new();
    app.handle_novelty(6000);
    assert_eq!(drain_sfnov(&mut app), vec![AppMessage::Led0On]);
    // exactly at the threshold counts as below: rearm
    app.handle_novelty(5000);
    assert_eq!(drain_sfnov(&mut app), vec![]);
    // next crossing toggles the LED back off
    app.handle_novelty(123456);
    assert_eq!(drain_sfnov(&mut app), vec![AppMessage::Led0Off]);
}

#[test]
fn novelty_below_threshold_emits_nothing() {
    let mut app = SfnovDemoApp::new();
    app.handle_novelty(0);
    app.handle_novelty(5000);
    app.handle_novelty(-17);
    assert_eq!(drain_sfnov(&mut app), vec![]);
}

#[test]
fn sfnov_ignores_incoming_events() {
    let mut app = SfnovDemoApp::new();
    app.handle_message(AppMessage::Button1Down);
    assert_eq!(drain_sfnov(&mut app), vec![]);
}
