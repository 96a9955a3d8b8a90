use animus::output::config::{fullscreen_change, OutputConfig};
use animus::output::monitor::{choose_output_monitor, MonitorDesc};

fn monitor(name: &str, primary: bool) -> MonitorDesc {
    MonitorDesc { name: name.into(), is_primary: primary }
}

#[test]
fn the_projector_is_chosen_by_not_being_primary_not_by_position() {
    let monitors = vec![monitor("TV", false), monitor("laptop", true)];
    let chosen = choose_output_monitor(&monitors, None).expect("two monitors");
    assert_eq!(chosen.name, "TV");

    let monitors = vec![monitor("laptop", true), monitor("projector", false)];
    assert_eq!(choose_output_monitor(&monitors, None).unwrap().name, "projector");
}

#[test]
fn a_single_monitor_yields_none_rather_than_burying_the_editor() {
    let monitors = vec![monitor("laptop", true)];
    assert!(choose_output_monitor(&monitors, None).is_none());
    assert!(choose_output_monitor(&[], None).is_none());
}

#[test]
fn an_explicit_override_beats_the_rule() {
    let monitors = vec![monitor("projector", true), monitor("console", false)];
    let chosen = choose_output_monitor(&monitors, Some(0)).unwrap();
    assert_eq!(chosen.name, "projector");
}

#[test]
fn an_out_of_range_override_lands_on_the_last_monitor_not_nowhere() {
    let monitors = vec![monitor("laptop", true), monitor("projector", false)];
    let chosen = choose_output_monitor(&monitors, Some(7)).unwrap();
    assert_eq!(
        chosen.name, "projector",
        "a typo in --output-monitor should still put the show somewhere visible"
    );
    assert!(choose_output_monitor(&[], Some(0)).is_none());
}

#[test]
fn two_primaries_and_no_override_yield_nothing() {
    let monitors = vec![monitor("a", true), monitor("b", true)];
    assert!(choose_output_monitor(&monitors, None).is_none());
}

#[test]
fn output_settings_start_safe_and_fullscreen_moves_only_on_request() {
    let c = OutputConfig::default();
    assert!(c.enabled && c.vsync);
    assert_eq!(c.monitor_override, None);
    assert_eq!(c.fullscreen, None, "decided from the hardware until the operator says");
    assert_eq!(fullscreen_change(None, false), None);
    assert_eq!(fullscreen_change(Some(true), false), Some(true));
    assert_eq!(fullscreen_change(Some(true), true), None);
    assert_eq!(fullscreen_change(Some(false), true), Some(false));
}
