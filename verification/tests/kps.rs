use roboflow::codec::CodecValue;
use roboflow::dataset::kps::delivery::{readme_v1_content, DeliveryConfig};
use roboflow::dataset::kps::delivery_v12::{
    file_extension, readme_v12_content, v12_target, v12_target_dir, SeriesDeliveryConfig, SeriesDeliveryConfigBuilder,
    StatisticsCollector, V12Source, V12Target,
};
use roboflow::dataset::kps::task_info::{task_info_filename, ActionSegmentBuilder, TaskInfoBuilder};
use roboflow::dataset::kps::writers::v12_hdf5::{map_feature_to_v12_path, DataType, V12Hdf5Schema};
use roboflow::dataset::kps::writers::create_kps_writer;
use roboflow::dataset::kps::writers::parquet::sanitize_feature_name;
use roboflow::dataset::{create_dataset_writer, create_writer, DatasetConfig, DatasetFormat};
use roboflow::errors::RoboflowError;
use roboflow::io::formats::kps::writers::base::MessageExtractor;
use roboflow::io::kps::config::{ImageFormat, KpsConfig, Mapping, MappingType, OutputConfig, OutputFormat};
use roboflow::io::kps::hdf5_schema::{JointGroupConfig, KpsHdf5Schema};
use roboflow::io::kps::hdf5_writer::Hdf5KpsWriter;
use roboflow::io::kps::parquet_writer::ParquetKpsWriter;
use roboflow::io::kps::writers::audio_writer::{audio_frames, wav_header, AudioWriter, AudioWriterFactory};
use roboflow::io::kps::writers::original_hdf5::map_topic_to_v12_path;

#[test]
fn test_delivery_config_default() {
    let config = DeliveryConfig::default();
    assert_eq!(config.scene_name, "Scene1");
    assert_eq!(config.version, "v1.0");
}

#[test]
fn test_delivery_config_new() {
    let config = DeliveryConfig::new("/tmp", "MyRobot".to_string(), "Gripper".to_string(), "Kitchen".to_string());
    assert_eq!(config.root, "/tmp");
    assert_eq!(config.robot_name, "MyRobot");
    assert_eq!(config.end_effector, "Gripper");
    assert_eq!(config.scene_name, "Kitchen");
    assert_eq!(config.delivery_dir_name(), "MyRobot-Gripper-Kitchen");
}

#[test]
fn test_statistics_collector() {
    let mut collector = StatisticsCollector::new(30);
    collector.add_episode(900);
    collector.add_file(1024 * 1024 * 100);
    collector.add_episode(1800);
    collector.add_file(1024 * 1024 * 200);
    assert_eq!(collector.episode_count, 2);
    assert_eq!(collector.total_frames, 2700);
    assert_eq!(collector.total_bytes, 300 * 1024 * 1024);
}

#[test]
fn test_action_segment_builder() {
    let segment = ActionSegmentBuilder::new(0, 100, "Pick")
        .action_text("拿起桌面上的外卖袋")
        .english_action_text("Pick up the takeout bag on the table")
        .timestamp("2025-06-16T02:22:48.391668+00:00")
        .build()
        .unwrap();
    assert_eq!(segment.start_frame, 0);
    assert_eq!(segment.end_frame, 100);
    assert_eq!(segment.skill, "Pick");
    assert_eq!(segment.action_text, "拿起桌面上的外卖袋");
}

#[test]
fn test_task_info_builder() {
    let task_info = TaskInfoBuilder::new()
        .episode_id("test-uuid-123")
        .scene_name("Housekeeper")
        .sub_scene_name("Kitchen")
        .init_scene_text("外卖袋放置在桌面左侧")
        .english_init_scene_text("The takeout bag is on the left side of the desk")
        .task_name("收拾外卖盒")
        .english_task_name("Dispose of takeout containers")
        .sn_code("A2D0001AB00029")
        .sn_name("宇树-H1-Dexhand")
        .add_action_segment(
            ActionSegmentBuilder::new(0, 100, "Pick")
                .action_text("左臂拿起桌面上的外卖袋")
                .english_action_text("Pick up the takeout bag with left arm")
                .timestamp("2025-06-16T02:22:48.391668+00:00")
                .build()
                .unwrap(),
        )
        .build()
        .unwrap();
    assert_eq!(task_info.episode_id, "test-uuid-123");
    assert_eq!(task_info.scene_name, "Housekeeper");
    assert_eq!(task_info.label_info.action_config.len(), 1);
    assert_eq!(task_info.label_info.action_config[0].skill, "Pick");
    assert_eq!(task_info.data_type, "常规");
    assert_eq!(task_info_filename(&task_info), "Housekeeper-Kitchen-Dispose_of_takeout_containers.json");
}

#[test]
fn task_info_builder_reports_first_missing_field() {
    let err = TaskInfoBuilder::new().episode_id("e").build().unwrap_err();
    assert_eq!(err, "scene_name is required");
    let err = ActionSegmentBuilder::new(1, 2, "s").action_text("a").build().unwrap_err();
    assert_eq!(err, "english_action_text is required");
    let seg = ActionSegmentBuilder::new(1, 2, "s").action_text("a").english_action_text("b").build().unwrap();
    assert!(seg.timestamp_utc.chars().all(|c| c.is_ascii_digit()));
}

fn kps_config(formats: Vec<OutputFormat>) -> KpsConfig {
    KpsConfig {
        dataset: roboflow::io::kps::config::DatasetConfig { name: "test".to_string(), fps: 30, robot_type: None },
        mappings: vec![],
        output: OutputConfig { formats, image_format: ImageFormat::Raw, max_frames: None },
    }
}

#[test]
fn test_factory_no_feature() {
    let config = KpsConfig {
        dataset: roboflow::io::kps::config::DatasetConfig { name: "test".to_string(), fps: 30, robot_type: None },
        mappings: vec![],
        output: OutputConfig::default(),
    };
    let result = create_kps_writer("/tmp", 0, &config);
    assert!(result.is_err());
}

#[test]
fn kps_factory_messages() {
    let message = |r: Result<_, RoboflowError>| match r {
        Err(RoboflowError::Parse { message, .. }) => message,
        _ => panic!("expected a parse error"),
    };
    assert!(message(create_kps_writer("/tmp", 0, &kps_config(vec![]))).starts_with("Parquet"));
    assert!(message(create_kps_writer("/tmp", 0, &kps_config(vec![OutputFormat::Hdf5]))).starts_with("HDF5"));
    assert!(message(create_kps_writer("/tmp", 0, &kps_config(vec![OutputFormat::Hdf5, OutputFormat::Parquet]))).starts_with("Parquet"));
}

#[test]
fn dataset_config_accessors_and_writers() {
    let c = DatasetConfig::new(DatasetFormat::Kps, "ds", 12, Some("arm".to_string()));
    assert_eq!(c.format(), DatasetFormat::Kps);
    assert_eq!(c.name(), "ds");
    assert_eq!(c.fps(), 12);
    assert_eq!(c.robot_type(), Some("arm"));
    assert!(c.as_kps().is_some());
    assert!(c.as_lerobot().is_none());
    assert!(create_writer("/o", &c).is_err());
    let l = DatasetConfig::new(DatasetFormat::Lerobot, "ds", 12, None);
    assert!(create_writer("/o", &l).is_ok());
    match create_dataset_writer(DatasetFormat::Kps, "/o", &l) {
        Err(RoboflowError::Parse { message, .. }) => assert_eq!(message, "Expected KpsConfig for KPS format"),
        _ => panic!("expected a parse error"),
    }
}

#[test]
fn test_v12_schema_other_sensors() {
    let datasets = V12Hdf5Schema::other_sensors_datasets();
    assert_eq!(datasets.len(), 3);
    assert_eq!(datasets[0].path, "other_sensors/imu/angular_velocity");
    assert_eq!(datasets[1].path, "other_sensors/imu/linear_acceleration");
    assert_eq!(datasets[2].path, "other_sensors/imu/orientation");
}

#[test]
fn test_v12_schema_metadata() {
    let datasets = V12Hdf5Schema::metadata_datasets();
    assert!(datasets.iter().any(|d| d.path == "metadata/timestamps"));
    assert!(datasets.iter().any(|d| d.path == "metadata/frame_index"));
    assert!(datasets.iter().any(|d| d.path == "metadata/episode_index"));
    assert!(datasets.iter().any(|d| d.path == "metadata/reward"));
}

#[test]
fn test_data_type_size() {
    assert_eq!(DataType::Float32.size(), 4);
    assert_eq!(DataType::Float64.size(), 8);
    assert_eq!(DataType::Int32.size(), 4);
    assert_eq!(DataType::Int64.size(), 8);
    assert_eq!(DataType::UInt8.size(), 1);
    assert_eq!(DataType::String.size(), 0);
}

#[test]
fn v12_schema_from_config_maps_features() {
    let mut config = kps_config(vec![]);
    config.mappings = vec![
        Mapping { topic: "/a".to_string(), feature: "observation.arm.position".to_string(), mapping_type: MappingType::State },
        Mapping { topic: "/b".to_string(), feature: "action.gripper".to_string(), mapping_type: MappingType::Action },
        Mapping { topic: "/c".to_string(), feature: "other.thing".to_string(), mapping_type: MappingType::State },
        Mapping { topic: "/d".to_string(), feature: "nodot".to_string(), mapping_type: MappingType::State },
    ];
    let schema = V12Hdf5Schema::from_config(&config);
    assert_eq!(schema.datasets.len(), 2 + 4 + 3);
    assert_eq!(schema.datasets[0].path, "state/arm/position");
    assert_eq!(schema.datasets[0].description, "arm position data");
    assert_eq!(schema.datasets[1].path, "action/joint/gripper");
    assert!(schema.get_dataset("metadata/reward").is_some());
    assert!(schema.get_dataset("nope").is_none());
    assert_eq!(schema.get_group_datasets("other_sensors").len(), 3);
}

#[test]
fn test_default_schema() {
    let schema = KpsHdf5Schema::new();
    assert_eq!(schema.get_joint_dimension("joint"), Some(14));
    assert_eq!(schema.get_joint_dimension("leg"), Some(12));
    assert_eq!(schema.get_joint_dimension("head"), Some(2));
    assert_eq!(schema.get_joint_dimension("waist"), Some(3));
    let paths: Vec<_> = schema.datasets().iter().map(|d| d.path.clone()).collect();
    assert!(paths.contains(&"action/joint/position".to_string()));
    assert!(paths.contains(&"action/joint/names".to_string()));
    assert!(paths.contains(&"state/joint/position".to_string()));
    assert!(paths.contains(&"timestamps".to_string()));
}

#[test]
fn test_custom_joint_names() {
    let custom_names = vec!["custom_joint_0".to_string(), "custom_joint_1".to_string()];
    let schema = KpsHdf5Schema::new().with_urdf_joint_names("joint", custom_names.clone());
    let names = schema.get_joint_names("joint").unwrap();
    assert_eq!(names, custom_names.as_slice());
    assert_eq!(schema.get_joint_dimension("joint"), Some(2));
}

#[test]
fn test_add_sensor_timestamp() {
    let mut schema = KpsHdf5Schema::new();
    schema.add_sensor_timestamp("custom_camera");
    let paths: Vec<_> = schema.datasets().iter().map(|d| d.path.clone()).collect();
    assert!(paths.contains(&"custom_camera_timestamps".to_string()));
}

#[test]
fn joint_group_with_dimension_names() {
    let g = JointGroupConfig::with_dimension(3);
    assert_eq!(g.names, vec!["joint_0", "joint_1", "joint_2"]);
    assert_eq!(JointGroupConfig::new(vec!["a".to_string()]).dimension, 1);
    assert_eq!(KpsHdf5Schema::new().datasets().len(), 18 + 28 + 4);
}

#[test]
fn kps_config_selections() {
    let mut config = kps_config(vec![OutputFormat::Parquet]);
    config.mappings = vec![
        Mapping { topic: "/camera/high".to_string(), feature: "observation.camera_0".to_string(), mapping_type: MappingType::Image },
        Mapping { topic: "/joint_states".to_string(), feature: "observation.state".to_string(), mapping_type: MappingType::State },
        Mapping { topic: "/camera/low".to_string(), feature: "observation.camera_1".to_string(), mapping_type: MappingType::Image },
        Mapping { topic: "/imu".to_string(), feature: "observation.imu".to_string(), mapping_type: MappingType::OtherSensor },
    ];
    assert_eq!(config.image_mappings().len(), 2);
    assert_eq!(config.state_mappings().len(), 2);
    let by_topic = config.mappings_by_topic();
    assert_eq!(by_topic.len(), 4);
    assert!(by_topic.iter().any(|m| m.topic == "/camera/high" && m.feature == "observation.camera_0"));
}

#[test]
fn test_default_output_config() {
    let config = OutputConfig::default();
    assert_eq!(config.formats, vec![OutputFormat::Hdf5]);
    assert_eq!(config.image_format, ImageFormat::Raw);
    assert_eq!(config.max_frames, None);
}

#[test]
fn test_audio_writer_new() {
    let writer = AudioWriter::new("/tmp/output", "episode_001");
    assert_eq!(writer.episode_id(), "episode_001");
    assert_eq!(writer.output_dir(), "/tmp/output");
    assert_eq!(writer.audio_dir(), "/tmp/output/audio");
    assert_eq!(AudioWriterFactory::create("/o/", "e").audio_dir(), "/o/audio");
}

#[test]
fn test_extract_image() {
    let message = vec![
        ("width".to_string(), CodecValue::UInt32(640)),
        ("height".to_string(), CodecValue::UInt32(480)),
        ("data".to_string(), CodecValue::Bytes(vec![1, 2, 3, 4])),
        ("format".to_string(), CodecValue::String("rgb8".to_string())),
    ];
    let image = MessageExtractor::extract_image(&message).unwrap();
    assert_eq!(image.width, 640);
    assert_eq!(image.height, 480);
    assert_eq!(image.data, vec![1, 2, 3, 4]);
    assert!(!image.is_encoded);
}

#[test]
fn extract_image_needs_data_and_marks_encoded() {
    let message = vec![("width".to_string(), CodecValue::UInt32(1))];
    assert!(MessageExtractor::extract_image(&message).is_none());
    let message = vec![
        ("data".to_string(), CodecValue::Bytes(vec![9])),
        ("format".to_string(), CodecValue::String("jpeg".to_string())),
        ("width".to_string(), CodecValue::UInt16(5)),
    ];
    let image = MessageExtractor::extract_image(&message).unwrap();
    assert!(image.is_encoded);
    assert_eq!(image.width, 0);
}

#[test]
fn test_map_topic_to_v12_path() {
    assert_eq!(map_topic_to_v12_path("/joint_states"), "state/joint/position");
    assert_eq!(map_topic_to_v12_path("/effector/command"), "action/effector/position");
    assert_eq!(map_topic_to_v12_path("/joint_velocities"), "state/joint/velocity");
    assert_eq!(map_topic_to_v12_path("/gripper/action"), "action/effector/position");
    assert_eq!(map_topic_to_v12_path("/Arm/Velocity"), "state/joint/velocity");
}

#[test]
fn test_audio_frames_per_channel() {
    assert_eq!(audio_frames(96000, 2), 48000);
    assert_eq!(audio_frames(48000, 1), 48000);
    assert_eq!(audio_frames(5, 2), 2);
    assert_eq!(audio_frames(100, 0), 0);
}

#[test]
fn test_wav_header_layout() {
    let h = wav_header(5, 48000, 1);
    assert_eq!(h.len(), 45);
    assert_eq!(&h[0..4], b"RIFF");
    assert_eq!(&h[4..8], &46u32.to_le_bytes());
    assert_eq!(&h[8..12], b"WAVE");
    assert_eq!(&h[12..16], b"fmt ");
    assert_eq!(&h[16..20], &16u32.to_le_bytes());
    assert_eq!(&h[20..22], &1u16.to_le_bytes());
    assert_eq!(h[22], 1);
    assert_eq!(&h[23..27], &48000u32.to_le_bytes());
    assert_eq!(&h[27..31], &96000u32.to_le_bytes());
    assert_eq!(&h[31..35], &2u32.to_le_bytes());
    assert_eq!(&h[35..37], &16u16.to_le_bytes());
    assert_eq!(&h[37..41], b"data");
    assert_eq!(&h[41..45], &10u32.to_le_bytes());
}

#[test]
fn test_series_delivery_config_default() {
    let config = SeriesDeliveryConfig::default();
    assert_eq!(config.scene_name, "Scene1");
    assert_eq!(config.sub_scene_name, "SubScene1");
    assert_eq!(config.task_name, "Task1");
    assert_eq!(config.version, "v1.0");
}

#[test]
fn test_series_dir_name() {
    let config = SeriesDeliveryConfig {
        robot_name: "Kuavo4Pro".to_string(),
        end_effector: "Dexhand".to_string(),
        scene_name: "Housekeeper".to_string(),
        ..Default::default()
    };
    assert_eq!(config.series_dir_name(), "Kuavo4Pro-Dexhand-Housekeeper");
}

#[test]
fn test_task_dir_name() {
    let config = SeriesDeliveryConfig {
        scene_name: "Housekeeper".to_string(),
        sub_scene_name: "Kitchen".to_string(),
        task_name: "Dispose_of_takeout_containers".to_string(),
        statistics: Some("53p21GB_2000counts_85p30h".to_string()),
        ..Default::default()
    };
    assert_eq!(
        config.task_dir_name(),
        "Housekeeper-Kitchen-Dispose_of_takeout_containers-53p21GB_2000counts_85p30h"
    );
}

#[test]
fn task_dir_name_without_statistics() {
    let config = SeriesDeliveryConfig::new(
        "/out",
        "R".to_string(),
        "G".to_string(),
        "Home".to_string(),
        "Kitchen".to_string(),
        "Pick".to_string(),
    );
    assert_eq!(config.task_dir_name(), "Home-Kitchen-Pick");
    assert_eq!(config.placeholder_task_dir_name(), "Pick_temp");
    let config = config.with_statistics("1p00GB_3counts_0p50h".to_string());
    assert_eq!(config.task_dir_name(), "Home-Kitchen-Pick-1p00GB_3counts_0p50h");
}

#[test]
fn test_urdf_dir_name() {
    let config = SeriesDeliveryConfig {
        robot_name: "Kuavo4Pro".to_string(),
        end_effector: "Dexhand".to_string(),
        version: "v1.0".to_string(),
        ..Default::default()
    };
    assert_eq!(config.urdf_dir_name(), "Kuavo4Pro-Dexhand-v1.0");
}

#[test]
fn test_series_delivery_config_builder() {
    let config = SeriesDeliveryConfigBuilder::new()
        .robot("MyRobot".to_string())
        .end_effector("Gripper".to_string())
        .scene("Kitchen".to_string())
        .sub_scene("Counter".to_string())
        .task("Pick".to_string())
        .version("v2.0".to_string())
        .build();
    assert_eq!(config.robot_name, "MyRobot");
    assert_eq!(config.end_effector, "Gripper");
    assert_eq!(config.scene_name, "Kitchen");
    assert_eq!(config.sub_scene_name, "Counter");
    assert_eq!(config.task_name, "Pick");
    assert_eq!(config.version, "v2.0");
}

#[test]
fn readme_v12_lists_series_and_urdf() {
    let config = SeriesDeliveryConfig::new(
        "/out",
        "Kuavo".to_string(),
        "Dexhand".to_string(),
        "Home".to_string(),
        "Kitchen".to_string(),
        "Pick".to_string(),
    );
    let readme = readme_v12_content(&config, &kps_config(vec![]));
    assert!(readme.starts_with("# Kps v1.2 Dataset: test\n\n## Dataset Information (v1.2 Specification)\n\n"));
    assert!(readme.contains("- **Robot**: Kuavo Dexhand\n"));
    assert!(readme.contains("- **FPS**: 30\n\n"));
    assert!(readme.contains("```\nKuavo-Dexhand-Home/\n├── task_info/"));
    assert!(readme.contains("    └── Kuavo-Dexhand-v1.0/\n```\n\n"));
    assert!(readme.contains("Task information is located in `task_info/Pick.json`.\n\n"));
    assert!(readme.contains("Robot URDF and calibration are located in `URDF/Kuavo-Dexhand-v1.0`.\n\n"));
    assert!(readme.ends_with("---\nGenerated by roboflow - Kps v1.2 compliant\n"));
}

#[test]
fn file_extension_follows_path_rules() {
    assert_eq!(file_extension("ep.hdf5").as_deref(), Some("hdf5"));
    assert_eq!(file_extension("x.tar.gz").as_deref(), Some("gz"));
    assert_eq!(file_extension("a.").as_deref(), Some(""));
    assert_eq!(file_extension(".hdf5"), None);
    assert_eq!(file_extension("noext"), None);
    assert_eq!(file_extension(".."), None);
    assert_eq!(file_extension(""), None);
}

#[test]
fn v12_targets_route_episode_files() {
    assert_eq!(v12_target(V12Source::Videos, "Left_DEPTH.mp4", true), Some(V12Target::CameraDepth));
    assert_eq!(v12_target(V12Source::Videos, "color.mp4", true), Some(V12Target::CameraVideo));
    assert_eq!(v12_target(V12Source::Videos, "depth_dir", false), None);
    assert_eq!(v12_target(V12Source::Top, "proprio.hdf5", true), Some(V12Target::ProprioStats));
    assert_eq!(v12_target(V12Source::Top, "mic.wav", true), Some(V12Target::Audio));
    assert_eq!(v12_target(V12Source::Top, "mic.flac", true), Some(V12Target::Audio));
    assert_eq!(v12_target(V12Source::Top, "mic.FLAC", true), None);
    assert_eq!(v12_target(V12Source::Top, "data.parquet", true), None);
    assert_eq!(v12_target(V12Source::Meta, "camera_info.json", true), Some(V12Target::Parameters));
    assert_eq!(v12_target(V12Source::Meta, "robot_calibration.json", true), Some(V12Target::Parameters));
    assert_eq!(v12_target(V12Source::Meta, "info.json", true), None);
    assert_eq!(v12_target_dir(V12Target::CameraDepth), "camera/depth");
    assert_eq!(v12_target_dir(V12Target::ProprioStats), "proprio_stats");
}

fn kps_mapping(topic: &str, feature: &str, mapping_type: MappingType) -> Mapping {
    Mapping { topic: topic.to_string(), feature: feature.to_string(), mapping_type }
}

#[test]
fn test_mappings_by_topic() {
    let mut config = kps_config(vec![OutputFormat::Hdf5]);
    config.mappings = vec![
        kps_mapping("/camera/high", "observation.camera_0", MappingType::Image),
        kps_mapping("/joint_states", "observation.state", MappingType::State),
    ];
    let topic_map = config.mappings_by_topic();
    assert_eq!(topic_map.len(), 2);
    assert!(topic_map.iter().any(|m| m.topic == "/camera/high"));
    assert!(topic_map.iter().any(|m| m.topic == "/joint_states"));
    assert_eq!(topic_map.iter().find(|m| m.topic == "/camera/high").unwrap().feature, "observation.camera_0");
}

#[test]
fn test_image_mappings() {
    let mut config = kps_config(vec![OutputFormat::Hdf5]);
    config.mappings = vec![
        kps_mapping("/camera/high", "observation.camera_0", MappingType::Image),
        kps_mapping("/joint_states", "observation.state", MappingType::State),
        kps_mapping("/camera/low", "observation.camera_1", MappingType::Image),
    ];
    let image_mappings = config.image_mappings();
    assert_eq!(image_mappings.len(), 2);
    assert_eq!(image_mappings[0].topic, "/camera/high");
    assert_eq!(image_mappings[1].topic, "/camera/low");
}

#[test]
fn test_state_mappings() {
    let mut config = kps_config(vec![OutputFormat::Hdf5]);
    config.mappings = vec![
        kps_mapping("/joint_states", "observation.state", MappingType::State),
        kps_mapping("/action", "action", MappingType::Action),
        kps_mapping("/camera", "observation.image", MappingType::Image),
    ];
    let state_mappings = config.state_mappings();
    assert_eq!(state_mappings.len(), 2);
    assert!(state_mappings.iter().all(|m| matches!(m.mapping_type, MappingType::State | MappingType::Action)));
}

#[test]
fn test_map_feature_to_v12_path() {
    assert_eq!(map_feature_to_v12_path("observation.joint.position"), Some("state/joint/position".to_string()));
    assert_eq!(map_feature_to_v12_path("observation.effector.position"), Some("state/effector/position".to_string()));
    assert_eq!(map_feature_to_v12_path("action.joint.position"), Some("action/joint/position".to_string()));
    assert_eq!(map_feature_to_v12_path("action.effector.velocity"), Some("action/effector/velocity".to_string()));
    assert_eq!(map_feature_to_v12_path("invalid.path"), None);
    assert_eq!(map_feature_to_v12_path("observation"), None);
}

#[test]
fn v12_feature_path_edges() {
    assert_eq!(map_feature_to_v12_path("observation.state"), Some("state/state".to_string()));
    assert_eq!(map_feature_to_v12_path("action."), Some("action/".to_string()));
    assert_eq!(map_feature_to_v12_path(".joint"), None);
    assert_eq!(map_feature_to_v12_path(""), None);
}

#[test]
fn test_image_shape_recording() {
    let mut writer = ParquetKpsWriter::new("/tmp/kps_test2", 0);
    writer.record_image_shape("camera_0".to_string(), 640, 480);
    writer.record_state_dimension("joints".to_string(), 7);
    assert_eq!(writer.image_shapes().iter().find(|(t, _)| t == "camera_0").map(|(_, s)| *s), Some((640, 480)));
    assert_eq!(writer.state_shapes().iter().find(|(t, _)| t == "joints").map(|(_, d)| *d), Some(7));
}

#[test]
fn parquet_writer_shapes_replace_per_topic() {
    let mut writer = ParquetKpsWriter::new("/tmp/out", 3);
    writer.record_image_shape("cam".to_string(), 640, 480);
    writer.record_image_shape("cam".to_string(), 320, 240);
    assert_eq!(writer.image_shapes().len(), 1);
    assert_eq!(writer.image_shapes()[0].1, (320, 240));
    assert_eq!(writer.frame_count(), 0);
    assert_eq!(writer.output_dir(), "/tmp/out");
    let config = kps_config(vec![OutputFormat::Parquet]);
    assert_eq!(
        writer.write_from_mcap("/tmp/in.mcap", &config).unwrap_err(),
        "Parquet support not enabled. Add feature 'kps-parquet' to Cargo.toml"
    );
}

#[test]
fn hdf5_kps_writer_records_shapes_without_hdf5() {
    let mut writer = Hdf5KpsWriter::new("/tmp/kps_hdf5", 2);
    writer.record_image_shape("cam".to_string(), 640, 480);
    writer.record_state_dimension("joints".to_string(), 7);
    writer.record_state_dimension("joints".to_string(), 8);
    assert_eq!(writer.image_shapes().len(), 1);
    assert_eq!(writer.state_shapes(), &vec![("joints".to_string(), 8)]);
    assert_eq!(writer.frame_count(), 0);
    assert_eq!(writer.output_dir(), "/tmp/kps_hdf5");
    let config = kps_config(vec![OutputFormat::Hdf5]);
    assert_eq!(
        writer.write_from_mcap("/tmp/in.mcap", &config).unwrap_err(),
        "HDF5 support not enabled. Add feature 'kps-hdf5' to Cargo.toml"
    );
}

#[test]
fn feature_names_become_column_names() {
    assert_eq!(sanitize_feature_name("observation.images.cam_high"), "observation_images_cam_high");
    assert_eq!(sanitize_feature_name("state/joint/position"), "state_joint_position");
    assert_eq!(sanitize_feature_name("a-b c:d"), "a-b_c_d");
    assert_eq!(sanitize_feature_name("关节1"), "关节1");
    assert_eq!(sanitize_feature_name(""), "");
}

#[test]
fn readme_v1_matches_template() {
    let config = DeliveryConfig::new("/out", "Kuavo".to_string(), "Dexhand".to_string(), "Home".to_string());
    let dataset_config = kps_config(vec![]);
    let content = format!(
            r#"# Kps Dataset: {} {} {}

## Dataset Information

- **Robot**: {} {}
- **End Effector**: {}
- **Scene**: {}
- **FPS**: {}
- **Episodes**: 1

## Structure

```
episode_0/
├── meta/           # Dataset metadata
├── videos/         # Video recordings
└── *.parquet       # Episode data
```

## URDF

Robot URDF and calibration are located in `URDF/{}-{}/`.

## Usage

```python
import kps
env = kps.make("{}")
```

---
Generated by roboflow
"#,
            dataset_config.dataset.name,
            config.robot_name,
            config.end_effector,
            config.robot_name,
            config.end_effector,
            config.scene_name,
            dataset_config.dataset.fps,
            config.robot_name,
            config.end_effector,
            config.version,
            "/out/Kuavo-Dexhand-Home"
        );
    assert_eq!(readme_v1_content(&config, &dataset_config), content);
    assert_eq!(config.delivery_root_path(), "/out/Kuavo-Dexhand-Home");
}

#[test]
fn readme_v12_matches_template() {
    let config = SeriesDeliveryConfig::new(
        "/out",
        "Kuavo".to_string(),
        "Dexhand".to_string(),
        "Home".to_string(),
        "Kitchen".to_string(),
        "Pick".to_string(),
    );
    let dataset_config = kps_config(vec![]);
    let series_name = config.series_dir_name();
        let urdf_dir_name = config.urdf_dir_name();

        let mut content = String::new();
        content.push_str(&format!(
            "# Kps v1.2 Dataset: {}\n\n",
            dataset_config.dataset.name
        ));
        content.push_str("## Dataset Information (v1.2 Specification)\n\n");
        content.push_str(&format!(
            "- **Robot**: {} {}\n",
            config.robot_name, config.end_effector
        ));
        content.push_str(&format!("- **Scene**: {}\n", config.scene_name));
        content.push_str(&format!("- **Sub-Scene**: {}\n", config.sub_scene_name));
        content.push_str(&format!("- **Task**: {}\n", config.task_name));
        content.push_str(&format!("- **FPS**: {}\n\n", dataset_config.dataset.fps));
        content.push_str("## v1.2 Directory Structure\n\n");
        content.push_str(&format!("```\n{}/\n", series_name));
        content.push_str("├── task_info/           # Task metadata at series level\n");
        content.push_str("├── <Scene>/             # Scene directory\n");
        content.push_str("│   └── <SubScene>/      # SubScene directory\n");
        content.push_str("│       └── <Task>-<info>/\n");
        content.push_str("│           └── <UUID>/  # Episode UUID\n");
        content.push_str("│               ├── camera/\n");
        content.push_str("│               │   ├── video/       # Color videos\n");
        content.push_str("│               │   └── depth/       # Depth videos\n");
        content.push_str("│               ├── parameters/      # Camera parameters\n");
        content.push_str("│               ├── proprio_stats/   # HDF5 state files\n");
        content.push_str("│               └── audio/           # Audio recordings\n");
        content.push_str("└── URDF/                # Robot URDF at series level\n");
        content.push_str(&format!("    └── {}/\n", urdf_dir_name));
        content.push_str("```\n\n");
        content.push_str("## Task Info\n\n");
        content.push_str(&format!(
            "Task information is located in `task_info/{}.json`.\n\n",
            config.task_name
        ));
        content.push_str("## URDF\n\n");
        content.push_str(&format!(
            "Robot URDF and calibration are located in `URDF/{}`.\n\n",
            urdf_dir_name
        ));
        content.push_str("## Usage\n\n");
        content.push_str("```python\nimport kps\n# Load episode by UUID\n```\n\n");
        content.push_str("---\nGenerated by roboflow - Kps v1.2 compliant\n");
    assert_eq!(readme_v12_content(&config, &dataset_config), content);
}

#[test]
fn delivery_paths() {
    let config = DeliveryConfig::new("/data/", "R".to_string(), "G".to_string(), "S".to_string());
    assert_eq!(config.delivery_root_path(), "/data/R-G-S");
    assert_eq!(config.urdf_dir_name(), "R-G-v1.0");
    let config = DeliveryConfig::new("/data", "/abs".to_string(), "G".to_string(), "S".to_string());
    assert_eq!(config.delivery_root_path(), "/abs-G-S");
    let config = DeliveryConfig::new("", "R".to_string(), "G".to_string(), "S".to_string());
    assert_eq!(config.delivery_root_path(), "R-G-S");
}
