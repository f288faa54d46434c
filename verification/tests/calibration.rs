use roboflow::io::kps::robot_calibration::RobotCalibrationGenerator;

const SAMPLE_URDF: &str = r#"
<?xml version="1.0"?>
<robot name="test_robot">
  <joint name="joint1" type="revolute">
    <limit lower="-3.14" upper="3.14"/>
  </joint>
  <joint name="joint2" type="continuous">
    <limit lower="-6.28" upper="6.28"/>
  </joint>
  <joint name="gripper" type="prismatic">
    <limit lower="0.0" upper="0.1"/>
  </joint>
</robot>
"#;

#[test]
fn test_parse_urdf_joints() {
    let joints = RobotCalibrationGenerator::parse_urdf_joints(SAMPLE_URDF);
    println!("Parsed joints: {:?}", joints);
    assert_eq!(joints.len(), 3);
    assert_eq!(joints[0].name, "joint1");
    assert_eq!(joints[1].name, "joint2");
    assert_eq!(joints[2].name, "gripper");
}

#[test]
fn urdf_joints_carry_types_and_limit_texts() {
    let joints = RobotCalibrationGenerator::parse_urdf_joints(SAMPLE_URDF);
    assert_eq!(joints[0].joint_type, "revolute");
    assert_eq!(joints[1].joint_type, "continuous");
    assert_eq!(joints[2].joint_type, "prismatic");
    assert_eq!(joints[0].limit, Some((Some("-3.14".to_string()), Some("3.14".to_string()))));
    assert_eq!(joints[2].limit, Some((Some("0.0".to_string()), Some("0.1".to_string()))));
}

#[test]
fn urdf_joint_defaults_and_own_limits() {
    let xml = r#"<robot><joint><child link="a"/></joint><joint name="j" type="fixed"><limit upper="2"/></joint><joint name="open">"#;
    let joints = RobotCalibrationGenerator::parse_urdf_joints(xml);
    assert_eq!(joints.len(), 3);
    assert_eq!(joints[0].name, "joint_0");
    assert_eq!(joints[0].joint_type, "revolute");
    // the first joint has no limit of its own
    assert_eq!(joints[0].limit, None);
    assert_eq!(joints[1].name, "j");
    assert_eq!(joints[1].limit, Some((None, Some("2".to_string()))));
    // an unclosed joint is the last one read
    assert_eq!(joints[2].name, "open");
    assert_eq!(joints[2].limit, None);
}

#[test]
fn urdf_without_joints() {
    assert!(RobotCalibrationGenerator::parse_urdf_joints("").is_empty());
    assert!(RobotCalibrationGenerator::parse_urdf_joints("<robot name=\"r\"/>").is_empty());
    assert!(RobotCalibrationGenerator::parse_urdf_joints("<joint name=\"x\"").is_empty());
}

#[test]
fn xml_attributes() {
    let tag = r#"<joint name="shoulder" type="revolute">"#;
    assert_eq!(RobotCalibrationGenerator::extract_xml_attr(tag, "name").as_deref(), Some("shoulder"));
    assert_eq!(RobotCalibrationGenerator::extract_xml_attr(tag, "type").as_deref(), Some("revolute"));
    assert_eq!(RobotCalibrationGenerator::extract_xml_attr(tag, "axis"), None);
    assert_eq!(RobotCalibrationGenerator::extract_xml_attr(r#"<x name="open>"#, "name"), None);
}

#[test]
fn urdf_limit_read_from_the_joints_own_content() {
    let xml = r#"<robot><joint name="a" type="continuous"></joint><joint name="b" type="revolute"><limit lower="-1" upper="1"/></joint></robot>"#;
    let joints = RobotCalibrationGenerator::parse_urdf_joints(xml);
    assert_eq!(joints.len(), 2);
    assert_eq!(joints[0].name, "a");
    assert_eq!(joints[0].limit, None);
    assert_eq!(joints[1].name, "b");
    assert_eq!(joints[1].limit, Some((Some("-1".to_string()), Some("1".to_string()))));
}

#[test]
fn urdf_self_closing_joint_has_no_limit() {
    let xml = r#"<joint name="a"/><limit lower="-2" upper="2"/>"#;
    let joints = RobotCalibrationGenerator::parse_urdf_joints(xml);
    assert_eq!(joints.len(), 1);
    assert_eq!(joints[0].limit, None);
}
