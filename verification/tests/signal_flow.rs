use av_designer::drawings::{
    analyze_signal_flow, determine_video_cable_type, equipment_label, EquipmentCategory,
    EquipmentInput, MountType, PlacedEquipment, SignalConnection, SignalType,
};

fn create_test_equipment(id: &str, category: EquipmentCategory, subcategory: &str) -> EquipmentInput {
    EquipmentInput {
        id: id.to_string(),
        manufacturer: "Test Manufacturer".to_string(),
        model: format!("Model {}", id),
        category,
        subcategory: subcategory.to_string(),
    }
}

fn create_test_placed_equipment(id: &str, equipment_id: &str) -> PlacedEquipment {
    PlacedEquipment {
        id: id.to_string(),
        equipment_id: equipment_id.to_string(),
        mount_type: MountType::Floor,
    }
}

fn of_type(connections: &[SignalConnection], t: SignalType) -> Vec<&SignalConnection> {
    connections.iter().filter(|c| c.signal_type == t).collect()
}

#[test]
fn test_video_signal_flow() {
    let camera = create_test_equipment("camera-1", EquipmentCategory::Video, "cameras");
    let display = create_test_equipment("display-1", EquipmentCategory::Video, "displays");

    let placed = vec![
        create_test_placed_equipment("placed-camera", "camera-1"),
        create_test_placed_equipment("placed-display", "display-1"),
    ];
    let catalog = vec![camera, display];

    let connections = analyze_signal_flow(&placed, &catalog);

    let video_connections = of_type(&connections, SignalType::Video);
    assert_eq!(video_connections.len(), 1);
    assert_eq!(video_connections[0].from_equipment_id, "camera-1");
    assert_eq!(video_connections[0].to_equipment_id, "display-1");
    assert_eq!(video_connections[0].cable_type, "HDMI");
}

#[test]
fn test_audio_signal_flow() {
    let mic = create_test_equipment("mic-1", EquipmentCategory::Audio, "microphones");
    let speaker = create_test_equipment("speaker-1", EquipmentCategory::Audio, "speakers");

    let placed = vec![
        create_test_placed_equipment("placed-mic", "mic-1"),
        create_test_placed_equipment("placed-speaker", "speaker-1"),
    ];
    let catalog = vec![mic, speaker];

    let connections = analyze_signal_flow(&placed, &catalog);

    let audio_connections = of_type(&connections, SignalType::Audio);
    assert_eq!(audio_connections.len(), 1);
    assert_eq!(audio_connections[0].from_equipment_id, "mic-1");
    assert_eq!(audio_connections[0].to_equipment_id, "speaker-1");
    assert_eq!(audio_connections[0].cable_type, "XLR");
}

#[test]
fn test_control_signal_flow() {
    let processor = create_test_equipment("proc-1", EquipmentCategory::Control, "processors");
    let display = create_test_equipment("display-1", EquipmentCategory::Video, "displays");

    let placed = vec![
        create_test_placed_equipment("placed-proc", "proc-1"),
        create_test_placed_equipment("placed-display", "display-1"),
    ];
    let catalog = vec![processor, display];

    let connections = analyze_signal_flow(&placed, &catalog);

    let control_connections = of_type(&connections, SignalType::Control);
    assert_eq!(control_connections.len(), 1);
    assert_eq!(control_connections[0].from_equipment_id, "proc-1");
    assert_eq!(control_connections[0].cable_type, "Cat6");
}

#[test]
fn test_multiple_video_sources_different_cables() {
    let camera1 = create_test_equipment("camera-1", EquipmentCategory::Video, "cameras");
    let camera2 = create_test_equipment("camera-2", EquipmentCategory::Video, "cameras");
    let display = create_test_equipment("display-1", EquipmentCategory::Video, "displays");

    let placed = vec![
        create_test_placed_equipment("placed-camera1", "camera-1"),
        create_test_placed_equipment("placed-camera2", "camera-2"),
        create_test_placed_equipment("placed-display", "display-1"),
    ];
    let catalog = vec![camera1, camera2, display];

    let connections = analyze_signal_flow(&placed, &catalog);

    let video_connections = of_type(&connections, SignalType::Video);
    assert_eq!(video_connections.len(), 2);
    assert_eq!(video_connections[0].cable_type, "HDMI");
    assert_eq!(video_connections[1].cable_type, "DisplayPort");
}

#[test]
fn test_full_conference_room() {
    let camera = create_test_equipment("camera-1", EquipmentCategory::Video, "cameras");
    let display = create_test_equipment("display-1", EquipmentCategory::Video, "displays");
    let mic = create_test_equipment("mic-1", EquipmentCategory::Audio, "microphones");
    let speaker = create_test_equipment("speaker-1", EquipmentCategory::Audio, "speakers");
    let processor = create_test_equipment("proc-1", EquipmentCategory::Control, "processors");

    let placed = vec![
        create_test_placed_equipment("p-camera", "camera-1"),
        create_test_placed_equipment("p-display", "display-1"),
        create_test_placed_equipment("p-mic", "mic-1"),
        create_test_placed_equipment("p-speaker", "speaker-1"),
        create_test_placed_equipment("p-proc", "proc-1"),
    ];
    let catalog = vec![camera, display, mic, speaker, processor];

    let connections = analyze_signal_flow(&placed, &catalog);

    assert_eq!(of_type(&connections, SignalType::Video).len(), 1);
    assert_eq!(of_type(&connections, SignalType::Audio).len(), 1);
    // the control processor reaches all four other placed items
    assert_eq!(of_type(&connections, SignalType::Control).len(), 4);
}

#[test]
fn test_infrastructure_no_signal_connections() {
    let rack = create_test_equipment("rack-1", EquipmentCategory::Infrastructure, "racks");
    let camera = create_test_equipment("camera-1", EquipmentCategory::Video, "cameras");

    let placed = vec![
        create_test_placed_equipment("p-rack", "rack-1"),
        create_test_placed_equipment("p-camera", "camera-1"),
    ];
    let catalog = vec![rack, camera];

    let connections = analyze_signal_flow(&placed, &catalog);
    assert!(connections.is_empty());
}

#[test]
fn test_codec_as_video_source() {
    let codec = create_test_equipment("codec-1", EquipmentCategory::Video, "codecs");
    let display = create_test_equipment("display-1", EquipmentCategory::Video, "displays");

    let placed = vec![
        create_test_placed_equipment("p-codec", "codec-1"),
        create_test_placed_equipment("p-display", "display-1"),
    ];
    let catalog = vec![codec, display];

    let connections = analyze_signal_flow(&placed, &catalog);

    let video_connections = of_type(&connections, SignalType::Video);
    assert_eq!(video_connections.len(), 1);
    assert_eq!(video_connections[0].from_equipment_id, "codec-1");
}

#[test]
fn test_amplifier_as_audio_output() {
    let mic = create_test_equipment("mic-1", EquipmentCategory::Audio, "microphones");
    let amp = create_test_equipment("amp-1", EquipmentCategory::Audio, "amplifiers");

    let placed = vec![
        create_test_placed_equipment("p-mic", "mic-1"),
        create_test_placed_equipment("p-amp", "amp-1"),
    ];
    let catalog = vec![mic, amp];

    let connections = analyze_signal_flow(&placed, &catalog);

    let audio_connections = of_type(&connections, SignalType::Audio);
    assert_eq!(audio_connections.len(), 1);
    assert_eq!(audio_connections[0].to_equipment_id, "amp-1");
}

#[test]
fn test_analyze_signal_flow_empty_room() {
    let placed: Vec<PlacedEquipment> = vec![];
    let catalog: Vec<EquipmentInput> = vec![];

    let connections = analyze_signal_flow(&placed, &catalog);
    assert!(connections.is_empty());
}

#[test]
fn test_analyze_signal_flow_returns_connections() {
    let camera = create_test_equipment("camera-1", EquipmentCategory::Video, "cameras");
    let display = create_test_equipment("display-1", EquipmentCategory::Video, "displays");

    let placed = vec![
        create_test_placed_equipment("p-camera", "camera-1"),
        create_test_placed_equipment("p-display", "display-1"),
    ];
    let catalog = vec![camera, display];

    let connections = analyze_signal_flow(&placed, &catalog);
    assert!(!connections.is_empty());
}

#[test]
fn test_determine_video_cable_type() {
    assert_eq!(determine_video_cable_type(0), "HDMI");
    assert_eq!(determine_video_cable_type(1), "DisplayPort");
    assert_eq!(determine_video_cable_type(2), "SDI");
    assert_eq!(determine_video_cable_type(10), "SDI");
}

#[test]
fn test_connection_ids_name_both_endpoints() {
    let camera = create_test_equipment("camera-1", EquipmentCategory::Video, "cameras");
    let display = create_test_equipment("display-1", EquipmentCategory::Video, "displays");
    let placed = vec![
        create_test_placed_equipment("p-camera", "camera-1"),
        create_test_placed_equipment("p-display", "display-1"),
    ];
    let connections = analyze_signal_flow(&placed, &vec![camera, display]);
    assert_eq!(connections[0].id, "conn-video-p-camera-p-display");
}

#[test]
fn test_equipment_label_known_and_unknown() {
    let catalog = vec![create_test_equipment("eq-1", EquipmentCategory::Video, "cameras")];
    assert_eq!(
        equipment_label(&catalog, &"eq-1".to_string()),
        "Test Manufacturer Model eq-1"
    );
    assert_eq!(
        equipment_label(&catalog, &"unknown-eq".to_string()),
        "Unknown Equipment (unknown-eq)"
    );
}

#[test]
fn test_control_device_does_not_target_itself() {
    let processor = create_test_equipment("proc-1", EquipmentCategory::Control, "processors");
    let placed = vec![create_test_placed_equipment("p-proc", "proc-1")];
    let connections = analyze_signal_flow(&placed, &vec![processor]);
    assert!(connections.is_empty());
}
