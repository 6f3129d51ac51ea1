use utilities::plot::{plan_frame, FrameInput};

fn names(list: &[&str]) -> Vec<String> {
    list.iter().map(|s| s.to_string()).collect()
}

fn idle() -> FrameInput {
    FrameInput { escape_pressed: false, keys_down: 0 }
}

#[test]
fn idle_frame_keeps_window_open() {
    let plan = plan_frame(&names(&["sin"]), idle());
    assert!(!plan.close);
}

#[test]
fn escape_closes_window() {
    let plan = plan_frame(&names(&["sin"]), FrameInput { escape_pressed: true, keys_down: 0 });
    assert!(plan.close);
}

#[test]
fn any_held_key_closes_window() {
    let plan = plan_frame(&names(&["sin"]), FrameInput { escape_pressed: false, keys_down: 1 });
    assert!(plan.close);
    let plan = plan_frame(&names(&["sin"]), FrameInput { escape_pressed: true, keys_down: 3 });
    assert!(plan.close);
}

#[test]
fn single_unnamed_series_has_no_legend_and_no_label() {
    let plan = plan_frame(&names(&[""]), idle());
    assert!(!plan.show_legend);
    assert_eq!(plan.labelled, vec![false]);
}

#[test]
fn single_named_series_is_labelled_without_legend() {
    let plan = plan_frame(&names(&["measurement"]), idle());
    assert!(!plan.show_legend);
    assert_eq!(plan.labelled, vec![true]);
}

#[test]
fn two_named_series_get_legend_and_labels() {
    let plan = plan_frame(&names(&["sin", "cos"]), idle());
    assert!(plan.show_legend);
    assert_eq!(plan.labelled, vec![true, true]);
}

#[test]
fn unnamed_series_among_named_ones_stays_unlabelled() {
    let plan = plan_frame(&names(&["measurement", "", "setpoint"]), idle());
    assert!(plan.show_legend);
    assert_eq!(plan.labelled, vec![true, false, true]);
}

#[test]
fn no_series_has_no_legend_and_no_labels() {
    let plan = plan_frame(&Vec::new(), idle());
    assert!(!plan.show_legend);
    assert!(plan.labelled.is_empty());
    assert!(!plan.close);
}

#[test]
fn non_ascii_name_counts_as_named() {
    let plan = plan_frame(&names(&["θ", "ω"]), idle());
    assert_eq!(plan.labelled, vec![true, true]);
}
