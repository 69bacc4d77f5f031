use arrange_outputs::arrange::{
    arrange_outputs, count_active, find_primary, find_secondary, select_displays,
};
use arrange_outputs::{ArrangeError, Mode, Orientation, Output, Rect, Role};

fn output(name: &str, active: bool, width: i32, height: i32) -> Output {
    Output {
        name: name.to_string(),
        active,
        rect: Rect { x: 0, y: 0, width, height },
        current_mode: if active { Some(Mode { width, height, refresh: 60000 }) } else { None },
    }
}

fn modeless(name: &str) -> Output {
    Output {
        name: name.to_string(),
        active: true,
        rect: Rect { x: 0, y: 0, width: 0, height: 0 },
        current_mode: None,
    }
}

fn laptop_and_two_monitors() -> Vec<Output> {
    vec![
        output("HDMI-A-1", true, 2560, 1440),
        output("eDP-1", true, 1920, 1080),
        output("DP-2", true, 1280, 1024),
    ]
}

#[test]
fn counts_only_active_outputs() {
    assert_eq!(count_active(&vec![]), 0);
    assert_eq!(count_active(&laptop_and_two_monitors()), 3);
    let outputs = vec![
        output("a", false, 1, 1),
        output("b", true, 1, 1),
        output("c", false, 1, 1),
        output("d", true, 1, 1),
    ];
    assert_eq!(count_active(&outputs), 2);
}

#[test]
fn primary_is_first_active_output_of_that_name() {
    let outputs = vec![
        output("eDP-1", false, 10, 10),
        output("DP-1", true, 20, 20),
        output("eDP-1", true, 30, 30),
        output("eDP-1", true, 40, 40),
    ];
    let found = find_primary(&outputs, &"eDP-1".to_string()).unwrap();
    assert_eq!(found.rect.width, 30);
    assert!(find_primary(&outputs, &"HDMI-A-1".to_string()).is_none());
    assert!(find_primary(&vec![], &"eDP-1".to_string()).is_none());
}

#[test]
fn secondary_is_first_other_active_output() {
    let outputs = vec![
        output("eDP-1", true, 10, 10),
        output("DP-1", false, 20, 20),
        output("DP-2", true, 30, 30),
        output("DP-3", true, 40, 40),
    ];
    let primary = "eDP-1".to_string();
    assert_eq!(find_secondary(&outputs, &primary, &None).unwrap().name, "DP-2");
    assert_eq!(
        find_secondary(&outputs, &primary, &Some("DP-3".to_string())).unwrap().name,
        "DP-3"
    );
    assert!(find_secondary(&outputs, &primary, &Some("DP-1".to_string())).is_none());
    assert!(find_secondary(&outputs, &primary, &Some("eDP-1".to_string())).is_none());
    assert!(find_secondary(&outputs, &primary, &Some("DP-9".to_string())).is_none());
}

#[test]
fn selects_primary_then_secondary() {
    let outputs = laptop_and_two_monitors();
    let (primary, secondary) =
        select_displays(&outputs, &"eDP-1".to_string(), &None).unwrap().unwrap();
    assert_eq!(primary.name, "eDP-1");
    assert_eq!((primary.width, primary.height), (1920, 1080));
    assert_eq!(secondary.name, "HDMI-A-1");
    assert_eq!((secondary.width, secondary.height), (2560, 1440));
}

#[test]
fn arranges_secondary_relative_to_primary() {
    let outputs = laptop_and_two_monitors();
    let commands =
        arrange_outputs(&outputs, "eDP-1".to_string(), Orientation::Above, None).unwrap();
    assert_eq!(
        commands,
        vec![
            "output eDP-1 pos 320 1440".to_string(),
            "output HDMI-A-1 pos 0 0".to_string(),
        ]
    );
    let commands =
        arrange_outputs(&outputs, "eDP-1".to_string(), Orientation::Below, None).unwrap();
    assert_eq!(
        commands,
        vec![
            "output eDP-1 pos 320 0".to_string(),
            "output HDMI-A-1 pos 0 1080".to_string(),
        ]
    );
    let commands =
        arrange_outputs(&outputs, "eDP-1".to_string(), Orientation::Left, None).unwrap();
    assert_eq!(
        commands,
        vec![
            "output eDP-1 pos 2560 180".to_string(),
            "output HDMI-A-1 pos 0 0".to_string(),
        ]
    );
    let commands =
        arrange_outputs(&outputs, "eDP-1".to_string(), Orientation::Right, None).unwrap();
    assert_eq!(
        commands,
        vec![
            "output eDP-1 pos 0 180".to_string(),
            "output HDMI-A-1 pos 1920 0".to_string(),
        ]
    );
}

#[test]
fn arranges_named_secondary() {
    let outputs = laptop_and_two_monitors();
    let commands = arrange_outputs(
        &outputs,
        "eDP-1".to_string(),
        Orientation::Right,
        Some("DP-2".to_string()),
    )
    .unwrap();
    assert_eq!(
        commands,
        vec![
            "output eDP-1 pos 0 0".to_string(),
            "output DP-2 pos 1920 28".to_string(),
        ]
    );
}

#[test]
fn no_output_means_no_command() {
    let commands = arrange_outputs(&vec![], "eDP-1".to_string(), Orientation::Above, None);
    assert_eq!(commands, Ok(vec![]));
}

#[test]
fn one_active_output_means_no_command() {
    let outputs = vec![output("eDP-1", true, 1920, 1080)];
    let commands = arrange_outputs(&outputs, "eDP-1".to_string(), Orientation::Left, None);
    assert_eq!(commands, Ok(vec![]));

    let outputs = vec![
        output("eDP-1", true, 1920, 1080),
        output("DP-1", false, 0, 0),
        output("DP-2", false, 0, 0),
    ];
    let commands = arrange_outputs(&outputs, "eDP-1".to_string(), Orientation::Left, None);
    assert_eq!(commands, Ok(vec![]));
    assert!(matches!(select_displays(&outputs, &"eDP-1".to_string(), &None), Ok(None)));

    // Nothing to arrange comes before any lookup: a missing primary is no error here.
    let commands = arrange_outputs(&outputs, "HDMI-A-1".to_string(), Orientation::Left, None);
    assert_eq!(commands, Ok(vec![]));
}

#[test]
fn missing_primary_is_an_error() {
    let outputs = laptop_and_two_monitors();
    let result = arrange_outputs(&outputs, "VGA-1".to_string(), Orientation::Above, None);
    assert_eq!(result, Err(ArrangeError::OutputNotFound(Role::Primary)));
}

#[test]
fn inactive_primary_is_not_found() {
    let outputs = vec![
        output("eDP-1", false, 0, 0),
        output("DP-1", true, 800, 600),
        output("DP-2", true, 800, 600),
    ];
    let result = arrange_outputs(&outputs, "eDP-1".to_string(), Orientation::Above, None);
    assert_eq!(result, Err(ArrangeError::OutputNotFound(Role::Primary)));
}

#[test]
fn missing_secondary_is_an_error() {
    let outputs = laptop_and_two_monitors();
    let result = arrange_outputs(
        &outputs,
        "eDP-1".to_string(),
        Orientation::Above,
        Some("VGA-1".to_string()),
    );
    assert_eq!(result, Err(ArrangeError::OutputNotFound(Role::Secondary)));

    let same_name = vec![output("eDP-1", true, 10, 10), output("eDP-1", true, 20, 20)];
    let result = arrange_outputs(&same_name, "eDP-1".to_string(), Orientation::Above, None);
    assert_eq!(result, Err(ArrangeError::OutputNotFound(Role::Secondary)));
}

#[test]
fn inactive_output_is_skipped_as_secondary() {
    let outputs = vec![
        output("eDP-1", true, 1920, 1080),
        output("DP-1", false, 0, 0),
        output("DP-2", true, 1920, 1080),
    ];
    let commands =
        arrange_outputs(&outputs, "eDP-1".to_string(), Orientation::Right, None).unwrap();
    assert_eq!(
        commands,
        vec![
            "output eDP-1 pos 0 0".to_string(),
            "output DP-2 pos 1920 0".to_string(),
        ]
    );
}

#[test]
fn missing_mode_is_an_error() {
    let outputs = vec![modeless("eDP-1"), output("DP-1", true, 800, 600)];
    let result = arrange_outputs(&outputs, "eDP-1".to_string(), Orientation::Above, None);
    assert_eq!(result, Err(ArrangeError::NoActiveMode));

    let outputs = vec![output("eDP-1", true, 800, 600), modeless("DP-1")];
    let result = arrange_outputs(&outputs, "eDP-1".to_string(), Orientation::Above, None);
    assert_eq!(result, Err(ArrangeError::NoActiveMode));
}

#[test]
fn primary_is_resolved_before_secondary() {
    // Both roles fail; the primary one is reported.
    let outputs = vec![modeless("eDP-1"), modeless("eDP-1")];
    let result = arrange_outputs(&outputs, "eDP-1".to_string(), Orientation::Above, None);
    assert_eq!(result, Err(ArrangeError::NoActiveMode));

    let outputs = vec![output("DP-1", true, 1, 1), output("DP-1", true, 1, 1)];
    let result = arrange_outputs(
        &outputs,
        "eDP-1".to_string(),
        Orientation::Above,
        Some("VGA-1".to_string()),
    );
    assert_eq!(result, Err(ArrangeError::OutputNotFound(Role::Primary)));
}

#[test]
fn arranging_again_gives_the_same_commands() {
    let outputs = laptop_and_two_monitors();
    let first = arrange_outputs(&outputs, "eDP-1".to_string(), Orientation::Left, None);
    let second = arrange_outputs(&outputs, "eDP-1".to_string(), Orientation::Left, None);
    assert_eq!(first, second);
}
