use roboflow::dataset::kps::task_info::{ActionSegmentBuilder, TaskInfoBuilder};
use roboflow::io::channel_iterator::ParallelReaderIteratorBuilder;
use roboflow::io::kps::hdf5_schema::default_dexhand_names;

#[test]
fn reader_iterator_builder_settings() {
    let b = ParallelReaderIteratorBuilder::new();
    assert_eq!(b.num_threads, None);
    let default_capacity = b.capacity();
    let b = b.with_threads(4).with_channel_capacity(64).with_thread_name("reader".to_string());
    assert_eq!(b.num_threads, Some(4));
    assert_eq!(b.channel_capacity, Some(64));
    assert_eq!(b.thread_name.as_deref(), Some("reader"));
    assert_eq!(b.capacity(), 64);
    assert!(default_capacity > 0);
}

#[test]
fn dexhand_joint_names() {
    let names = default_dexhand_names();
    assert_eq!(names.len(), 12);
    assert_eq!(names[0], "l_thumb_aux");
    assert_eq!(names[5], "l_pinky");
    assert_eq!(names[6], "r_thumb_aux");
    assert_eq!(names[11], "r_pinky");
}

#[test]
fn task_info_builder_appends_segments_in_order() {
    let seg = |s: u64, e: u64, skill: &str| {
        ActionSegmentBuilder::new(s, e, skill).action_text("a").english_action_text("b").build().unwrap()
    };
    let info = TaskInfoBuilder::new()
        .episode_id("e")
        .scene_name("S")
        .sub_scene_name("SS")
        .init_scene_text("i")
        .english_init_scene_text("ei")
        .task_name("t")
        .english_task_name("et")
        .sn_code("c")
        .sn_name("n")
        .add_action_segment(seg(0, 10, "Pick"))
        .add_action_segments(vec![seg(10, 20, "Move"), seg(20, 30, "Place")])
        .build()
        .unwrap();
    let skills: Vec<&str> = info.label_info.action_config.iter().map(|s| s.skill.as_str()).collect();
    assert_eq!(skills, vec!["Pick", "Move", "Place"]);
}
