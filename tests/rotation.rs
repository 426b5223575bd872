use appium_client::commands::rotation::{Axis, DeviceRotation, InvalidAngle, Orientation};

#[test]
fn rotation_below_full_turn() {
    let r = DeviceRotation::new(0, 90, 359).unwrap();
    assert_eq!((r.x(), r.y(), r.z()), (0, 90, 359));
}

#[test]
fn rotation_reports_first_bad_axis() {
    assert_eq!(DeviceRotation::new(360, 400, 0), Err(InvalidAngle { axis: Axis::X, value: 360 }));
    assert_eq!(DeviceRotation::new(10, 400, 500), Err(InvalidAngle { axis: Axis::Y, value: 400 }));
    assert_eq!(DeviceRotation::new(10, 20, 720), Err(InvalidAngle { axis: Axis::Z, value: 720 }));
    assert_eq!(Axis::Z.name(), "z");
}

#[test]
fn orientation_names() {
    assert_eq!(Orientation::Landscape.wire_name(), "LANDSCAPE");
    assert_eq!(Orientation::Portrait.wire_name(), "PORTRAIT");
    assert_eq!(Orientation::Landscape.to_string(), "Landscape");
}
