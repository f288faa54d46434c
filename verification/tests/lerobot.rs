use roboflow::dataset::lerobot::config::{DatasetConfig, LerobotConfig, Mapping, MappingType};
use roboflow::dataset::lerobot::video_profiles::{QualityTier, SpeedPreset, VideoEncodingProfile};
use roboflow::format::lerobot::hdf5_writer::Hdf5LeRobotWriter;
use roboflow::format::lerobot::info::build_info;

#[test]
fn test_preset_names() {
    assert_eq!(SpeedPreset::Superfast.as_ffmpeg_preset(), "superfast");
    assert_eq!(SpeedPreset::Fast.as_ffmpeg_preset(), "fast");
}

#[test]
fn test_recommended_crf() {
    assert_eq!(SpeedPreset::Superfast.recommended_crf(), 26);
    assert_eq!(SpeedPreset::Fast.recommended_crf(), 22);
}

#[test]
fn test_profiles() {
    let speed = VideoEncodingProfile::speed();
    assert_eq!(speed.preset, SpeedPreset::Superfast);
    assert_eq!(speed.crf, 26);
    let quality = VideoEncodingProfile::quality();
    assert_eq!(quality.preset, SpeedPreset::Fast);
    assert_eq!(quality.crf, 18);
}

#[test]
fn profile_toml_and_builders() {
    let p = VideoEncodingProfile::new(SpeedPreset::Ultra, 17).with_hardware_accel().with_parallel_jobs(0);
    assert!(p.hardware_accel);
    assert_eq!(p.parallel_jobs, 1);
    assert_eq!(p.to_toml_table(), "[video]\npreset = \"veryslow\"\ncrf = 17\n");
    assert_eq!(VideoEncodingProfile::storage().crf, 23);
    assert_eq!(VideoEncodingProfile::prototype().preset, SpeedPreset::Veryfast);
    assert_eq!(QualityTier::Low.recommended_preset(), SpeedPreset::Superfast);
    assert_eq!(QualityTier::Prototype.recommended_crf(), 32);
}

fn mapping(topic: &str, feature: &str, t: MappingType) -> Mapping {
    Mapping { topic: topic.to_string(), feature: feature.to_string(), mapping_type: t }
}

fn config(mappings: Vec<Mapping>) -> LerobotConfig {
    LerobotConfig {
        dataset: DatasetConfig { name: "d".to_string(), fps: 30, robot_type: Some("arm".to_string()), env_type: None },
        mappings,
        video: Default::default(),
        annotation_file: None,
    }
}

#[test]
fn lerobot_config_selections() {
    let c = config(vec![
        mapping("/cam_h", "observation.images.cam_high", MappingType::Image),
        mapping("/joint_states", "observation.state", MappingType::State),
        mapping("/cmd", "action.arm", MappingType::Action),
        mapping("/joint_states", "observation.state", MappingType::Action),
    ]);
    let cameras = c.camera_mappings();
    assert_eq!(cameras.len(), 1);
    assert_eq!(cameras[0].feature, "observation.images.cam_high");
    assert_eq!(c.state_mappings().len(), 2);
    assert_eq!(c.action_mappings().len(), 1);
    let by_topic = c.mappings_by_topic();
    assert_eq!(by_topic.len(), 3);
    let js = by_topic.iter().find(|m| m.topic == "/joint_states").unwrap();
    assert_eq!(js.mapping_type, MappingType::Action);
    assert_eq!(c.video.codec, "libx264");
    assert_eq!(c.video.crf, 18);
    assert_eq!(c.video.preset, "fast");
}

#[test]
fn lerobot_info_features_and_video() {
    let c = config(vec![
        mapping("/cam", "observation.images.cam", MappingType::Image),
        mapping("/js", "observation.state", MappingType::State),
        mapping("/cmd", "action", MappingType::Action),
        mapping("/t", "action.time", MappingType::Timestamp),
    ]);
    let mut w = Hdf5LeRobotWriter::new("/tmp/x", 0);
    w.record_image_shape("/cam".to_string(), 640, 480);
    w.record_state_dimension("/js".to_string(), 14);
    let info = build_info(&c, 12, w.image_shapes(), w.state_shapes());
    assert_eq!(info.total_frames, 12);
    assert_eq!(info.fps, 30);
    assert_eq!(info.codebase_version, "v0.2.0");
    let cam = info.features.observation.iter().find(|(k, _)| k == "images.cam").unwrap();
    assert_eq!(cam.1.shape, vec![480, 640, 3]);
    assert_eq!(cam.1.dtype, "uint8");
    let st = info.features.observation.iter().find(|(k, _)| k == "state").unwrap();
    assert_eq!(st.1.shape, vec![14]);
    assert_eq!(info.features.action.len(), 1);
    assert_eq!(info.features.action[0].0, "time");
    assert_eq!(info.features.action[0].1.dtype, "float64");
    let v = info.video_info.unwrap();
    assert_eq!((v.video_width, v.video_height), (640, 480));
    assert!(w.write_from_mcap("/tmp/in.mcap", &c).is_err());
    assert_eq!(w.frame_count(), 0);
}

#[test]
fn test_camera_mappings() {
    let mut c = config(vec![
        mapping("/cam_h/color", "observation.images.cam_high", MappingType::Image),
        mapping("/joint_states", "observation.state", MappingType::State),
    ]);
    c.dataset.name = "test".to_string();
    let cameras = c.camera_mappings();
    assert_eq!(cameras.len(), 1);
    assert_eq!(cameras[0].feature, "observation.images.cam_high");
}
