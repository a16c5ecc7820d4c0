use arplus::inputs::{Button, Gate};

#[test]
fn button_reports_clicks_holds_and_releases() {
    let mut button = Button::new();
    assert!(!button.pressed());
    button.reconcile(true);
    assert!(button.clicked());
    assert!(button.pressed());
    assert_eq!(button.held_for(), 1);
    button.reconcile(true);
    assert!(!button.clicked());
    assert_eq!(button.held_for(), 2);
    button.reconcile(false);
    assert!(button.released());
    assert_eq!(button.released_after(), 2);
    assert_eq!(button.held_for(), 0);
    button.reconcile(false);
    assert!(!button.released());
    assert_eq!(button.released_after(), 2);
}

#[test]
fn gate_reports_rising_edges_only() {
    let mut gate = Gate::new();
    assert!(!gate.triggered());
    gate.reconcile(true);
    assert!(gate.triggered());
    gate.reconcile(true);
    assert!(!gate.triggered());
    gate.reconcile(false);
    assert!(!gate.triggered());
    gate.reconcile(true);
    assert!(gate.triggered());
}

#[test]
fn cv_trigger_reports_rising_edges() {
    let mut trigger = arplus::inputs::CvTrigger::new();
    assert!(!trigger.triggered);
    trigger.reconcile(true);
    assert!(trigger.triggered);
    trigger.reconcile(true);
    assert!(!trigger.triggered);
    trigger.reconcile(false);
    trigger.reconcile(true);
    assert!(trigger.triggered);
}

#[test]
fn the_snapshot_reaches_each_button() {
    let mut buttons = arplus::inputs::Buttons::new();
    buttons.apply([true, false, false, true, false, false, true]);
    assert!(buttons.trigger.clicked());
    assert!(buttons.group.clicked());
    assert!(buttons.scale.clicked());
    assert!(!buttons.rsnx.pressed());
    assert!(!buttons.arp.pressed());
    buttons.apply([false, true, true, true, true, true, false]);
    assert!(buttons.trigger.released());
    assert_eq!(buttons.group.held_for(), 2);
    assert!(buttons.rsnx.clicked());
    assert!(buttons.arp.clicked());
    assert!(buttons.stereo.clicked());
    assert!(buttons.cv_assignment.clicked());
    assert!(buttons.scale.released());
}

#[test]
fn the_snapshot_reaches_each_trigger_input() {
    let mut gates = arplus::inputs::Gates::new();
    gates.apply([true, false]);
    assert!(gates.rsnx.triggered());
    assert!(!gates.trigger.triggered());
    gates.apply([true, true]);
    assert!(!gates.rsnx.triggered());
    assert!(gates.trigger.triggered());
}
