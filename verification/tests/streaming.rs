use roboflow::dataset::lerobot::config::{DatasetConfig, LerobotConfig, Mapping, MappingType};
use roboflow::dataset::streaming::backpressure::{BackpressureHandler, BackpressureStrategy};
use roboflow::dataset::streaming::config::{FeatureRequirement, LateMessageStrategy, StreamingConfig};
use roboflow::dataset::streaming::converter::StreamingDatasetConverter;
use roboflow::dataset::{DatasetFormat, DatasetWriterPlan};
use roboflow::io::kps::config::{KpsConfig, OutputConfig};

#[test]
fn test_default_config() {
    let config = StreamingConfig::default();
    assert_eq!(config.fps, 30);
    assert_eq!(config.completion_window_frames, 5);
    assert_eq!(config.max_buffered_frames, 300);
    assert_eq!(config.max_buffered_memory_mb, 500);
}

#[test]
fn test_frame_interval_calculation() {
    let config = StreamingConfig::with_fps(30);
    assert_eq!(config.frame_interval_ns(), 33_333_333);
    let config = StreamingConfig::with_fps(60);
    assert_eq!(config.frame_interval_ns(), 16_666_666);
}

#[test]
fn test_completion_window_ns() {
    let config = StreamingConfig::with_fps(30).with_completion_window(5);
    assert_eq!(config.completion_window_ns(), 166_666_665);
}

#[test]
fn config_test_config_validation() {
    let config = StreamingConfig::with_fps(30);
    assert!(config.validate().is_ok());
    let config = StreamingConfig { fps: 0, ..Default::default() };
    assert!(config.validate().is_err());
}

#[test]
fn streaming_config_validation_messages() {
    let c = StreamingConfig::default().with_completion_window(0);
    assert_eq!(c.validate().unwrap_err(), "Completion window must be at least 1 frame");
    let c = StreamingConfig::default().with_max_buffered_frames(0);
    assert_eq!(c.validate().unwrap_err(), "Max buffered frames must be at least 1");
    let c = StreamingConfig { fps: 0, ..Default::default() };
    assert_eq!(c.validate().unwrap_err(), "FPS must be greater than 0");
}

#[test]
fn streaming_config_feature_requirements_replace() {
    let c = StreamingConfig::default()
        .require_feature("observation.state")
        .optional_feature("observation.images.cam")
        .optional_feature("observation.state");
    assert_eq!(c.feature_requirements.len(), 2);
    let state = c.feature_requirements.iter().find(|(k, _)| k == "observation.state").unwrap();
    assert_eq!(state.1, FeatureRequirement::Optional);
    let c = c.with_late_message_strategy(LateMessageStrategy::Drop).with_max_memory_mb(7);
    assert_eq!(c.late_message_strategy, LateMessageStrategy::Drop);
    assert_eq!(c.max_buffered_memory_mb, 7);
}

#[test]
fn test_backpressure_on_frame_limit() {
    let config = StreamingConfig { max_buffered_frames: 10, ..Default::default() };
    let handler = BackpressureHandler::from_config(&config);
    assert_eq!(handler.max_buffered_frames(), 10);
}

#[test]
fn backpressure_limits_and_strategies() {
    let config = StreamingConfig { max_buffered_frames: 10, max_buffered_memory_mb: 1, ..Default::default() };
    let mut handler = BackpressureHandler::from_config(&config);
    assert_eq!(handler.max_memory_bytes(), 1_048_576);
    assert!(!handler.should_apply_backpressure(9));
    assert!(handler.should_apply_backpressure(10));
    handler.update_memory_estimate(2);
    assert_eq!(handler.current_memory_estimate(), 2 * 524_288);
    assert!(handler.should_apply_backpressure(2));
    let mut handler = handler.with_strategy(BackpressureStrategy::OnAllLimits);
    assert!(!handler.should_apply_backpressure(2));
    assert!(handler.should_apply_backpressure(10));
    let handler2 = BackpressureHandler::from_config(&config).with_strategy(BackpressureStrategy::Never);
    assert!(!handler2.should_apply_backpressure(1000));
    assert!(!handler.is_in_cooldown());
    handler.record_backpressure();
    assert!(handler.cooldown_active(99));
    assert!(!handler.cooldown_active(100));
}

#[test]
fn backpressure_frame_size_floor() {
    let config = StreamingConfig::default();
    let mut handler = BackpressureHandler::from_config(&config).with_estimated_frame_size(1000);
    handler.update_memory_estimate(0);
    assert_eq!(handler.current_memory_estimate(), 0);
    handler.update_memory_estimate(3);
    assert_eq!(handler.current_memory_estimate(), 3000);
    handler.update_memory_estimate(1);
    assert_eq!(handler.current_memory_estimate(), 131_072);
}

fn lerobot_config(fps: u32, mappings: Vec<Mapping>) -> LerobotConfig {
    LerobotConfig {
        dataset: DatasetConfig { name: "test".to_string(), fps, robot_type: None, env_type: None },
        mappings,
        video: Default::default(),
        annotation_file: None,
    }
}

#[test]
fn test_converter_creation() {
    let lerobot_config = lerobot_config(30, vec![]);
    let converter = StreamingDatasetConverter::new_lerobot("/tmp/test", lerobot_config);
    assert!(converter.is_ok());
}

#[test]
fn converter_routes_topics_and_plans_writer() {
    let mappings = vec![
        Mapping { topic: "/cam".to_string(), feature: "observation.images.cam".to_string(), mapping_type: MappingType::Image },
        Mapping { topic: "/js".to_string(), feature: "observation.state".to_string(), mapping_type: MappingType::State },
        Mapping { topic: "/cam".to_string(), feature: "observation.images.cam2".to_string(), mapping_type: MappingType::Timestamp },
    ];
    let converter = StreamingDatasetConverter::new_lerobot("/out", lerobot_config(15, mappings))
        .unwrap()
        .with_max_buffered_frames(3);
    assert_eq!(converter.config().fps, 15);
    assert_eq!(converter.config().max_buffered_frames, 3);
    let routes = converter.build_topic_mappings();
    assert_eq!(routes.len(), 2);
    assert_eq!(routes[0].topic, "/js");
    assert_eq!(routes[0].mapping_type, "state");
    assert_eq!(routes[1].topic, "/cam");
    assert_eq!(routes[1].feature, "observation.images.cam2");
    assert_eq!(routes[1].mapping_type, "timestamp");
    match converter.create_writer() {
        Ok(DatasetWriterPlan::Lerobot { output_dir }) => assert_eq!(output_dir, "/out"),
        _ => panic!("expected a LeRobot writer"),
    }
    assert_eq!(converter.dataset_config().format(), DatasetFormat::Lerobot);
}

#[test]
fn converter_kps_writer_is_not_built_in() {
    let kps = KpsConfig {
        dataset: roboflow::io::kps::config::DatasetConfig { name: "k".to_string(), fps: 10, robot_type: None },
        mappings: vec![],
        output: OutputConfig::default(),
    };
    let converter = StreamingDatasetConverter::new_kps("/o", kps, StreamingConfig::default()).unwrap();
    assert!(converter.create_writer().is_err());
    assert_eq!(converter.output_dir(), "/o");
}
