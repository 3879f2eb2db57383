use std::str::FromStr;

use palm_launcher::spatial_ref::{tracked_state_or_default, SpatialRefAddress};
use palm_launcher::target::Target;

#[test]
fn parses_every_target_name() {
    assert_eq!(Target::parse("Hand/Left"), Ok(Target::HandLeft));
    assert_eq!(Target::parse("Hand/Right"), Ok(Target::HandRight));
    assert_eq!(Target::parse("Controller/Left"), Ok(Target::ControllerLeft));
    assert_eq!(Target::parse("Controller/Right"), Ok(Target::ControllerRight));
}

#[test]
fn from_str_agrees_with_parse() {
    assert_eq!(Target::from_str("Hand/Right"), Ok(Target::HandRight));
    assert_eq!("Controller/Left".parse::<Target>(), Ok(Target::ControllerLeft));
    assert_eq!(Target::from_str("Foot/Left"), Err("Foot/Left".to_string()));
}

#[test]
fn refuses_other_names_and_hands_them_back() {
    assert_eq!(Target::parse("hand/left"), Err("hand/left".to_string()));
    assert_eq!(Target::parse(""), Err(String::new()));
    assert_eq!(Target::parse("Hand/Left "), Err("Hand/Left ".to_string()));
    assert_eq!(Target::parse("Conroller/Right"), Err("Conroller/Right".to_string()));
    assert_eq!(Target::parse("Hand"), Err("Hand".to_string()));
}

#[test]
fn spatial_ref_info_of_hands() {
    assert_eq!(
        Target::HandLeft.spatial_ref_info(),
        (
            "org.stardustxr.Hands",
            "/org/stardustxr/Hand/left/palm",
            "/org/stardustxr/Hand/left"
        )
    );
    assert_eq!(
        Target::HandRight.spatial_ref_info(),
        (
            "org.stardustxr.Hands",
            "/org/stardustxr/Hand/right/palm",
            "/org/stardustxr/Hand/right"
        )
    );
}

#[test]
fn spatial_ref_info_of_controllers() {
    assert_eq!(
        Target::ControllerLeft.spatial_ref_info(),
        (
            "org.stardustxr.Controllers",
            "/org/stardustxr/Controller/left",
            "/org/stardustxr/Controller/left"
        )
    );
    assert_eq!(
        Target::ControllerRight.spatial_ref_info(),
        (
            "org.stardustxr.Controllers",
            "/org/stardustxr/Controller/right",
            "/org/stardustxr/Controller/right"
        )
    );
}

#[test]
fn every_name_round_trips() {
    for (name, t) in [
        ("Hand/Left", Target::HandLeft),
        ("Hand/Right", Target::HandRight),
        ("Controller/Left", Target::ControllerLeft),
        ("Controller/Right", Target::ControllerRight),
    ] {
        assert_eq!(Target::parse(name), Ok(t));
    }
}

#[test]
fn spatial_path_lies_within_tracked_path() {
    for t in [Target::HandLeft, Target::HandRight] {
        let (_, spatial, object) = t.spatial_ref_info();
        assert_eq!(spatial, format!("{object}/palm"));
    }
    for t in [Target::ControllerLeft, Target::ControllerRight] {
        let (_, spatial, object) = t.spatial_ref_info();
        assert_eq!(spatial, object);
    }
}

#[test]
fn address_copies_the_names() {
    let a = SpatialRefAddress::new("org.example.Svc", "/a/b", Some("/a"));
    assert_eq!(a.well_known_name, "org.example.Svc");
    assert_eq!(a.spatial_path, "/a/b");
    assert_eq!(a.tracked_path, Some("/a".to_string()));
    let b = SpatialRefAddress::new("n", "/p", None);
    assert_eq!(b.tracked_path, None);
}

#[test]
fn address_of_a_target() {
    let a = Target::ControllerRight.spatial_ref_address();
    assert_eq!(a.well_known_name, "org.stardustxr.Controllers");
    assert_eq!(a.spatial_path, "/org/stardustxr/Controller/right");
    assert_eq!(a.tracked_path.as_deref(), Some("/org/stardustxr/Controller/right"));
    let h = Target::HandLeft.spatial_ref_address();
    assert_eq!(h.spatial_path, "/org/stardustxr/Hand/left/palm");
    assert_eq!(h.tracked_path.as_deref(), Some("/org/stardustxr/Hand/left"));
}

#[test]
fn failed_tracking_query_counts_as_tracked() {
    assert!(tracked_state_or_default(None));
    assert!(tracked_state_or_default(Some(true)));
    assert!(!tracked_state_or_default(Some(false)));
}
