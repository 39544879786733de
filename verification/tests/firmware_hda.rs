use awos::firmware::hda::{
    bar0, buffer_descriptor, build_verb, build_verb16, codec_address, codec_answered,
    enable_memory_and_bus_master, input_stream_count, is_hda, next_location, next_ring_slot,
    output_path_commands, output_stream_base, pci_address, stereo_byte_len, stereo_samples,
    CodecRequest, OutputSearch, Playback, SearchStage, Speaker, PARAM_FUNCTION_GROUP_TYPE, PARAM_PIN_CAP,
    PARAM_SUBNODE_COUNT, PARAM_WIDGET_CAP,
};

#[test]
fn configuration_addresses_pack_bus_device_function_and_dword() {
    assert_eq!(pci_address(0, 0x1f, 3, 0x10), 0x8000_fb10);
    assert_eq!(pci_address(2, 0, 0, 0x0b), 0x8002_0008);
    assert_eq!(next_location(0, 0, 7), Some((0, 1, 0)));
    assert_eq!(next_location(0, 31, 7), Some((1, 0, 0)));
    assert_eq!(next_location(255, 31, 7), None);
}

#[test]
fn hda_controllers_are_found_by_class() {
    assert!(is_hda(0x2668_8086, 0x0403_0001));
    assert!(!is_hda(0xffff_ffff, 0x0403_0001));
    assert!(!is_hda(0x2668_8086, 0x0401_0001));
    assert_eq!(enable_memory_and_bus_master(0x0001), 0x0007);
    assert_eq!(bar0(0xfebf_0004, 0), Some(0xfebf_0000));
    assert_eq!(bar0(0x0000_000c, 0x1), Some(0x1_0000_0000));
    assert_eq!(bar0(0x0000_000f, 0), None);
}

#[test]
fn verbs_pack_codec_node_verb_and_payload() {
    assert_eq!(build_verb(0, 2, 0xf00, 4), 0x002f_0004);
    assert_eq!(build_verb(1, 0x14, 0x707, 0x40), 0x1147_0740);
    assert_eq!(build_verb16(0, 3, 0x2, 0x0111), 0x0032_0111);
    assert_eq!(next_ring_slot(7), 8);
    assert_eq!(next_ring_slot(255), 0);
}

#[test]
fn controller_capabilities_pick_the_codec_and_stream() {
    assert_eq!(codec_address(0b0000_0100), 2);
    assert_eq!(codec_address(0b1000_0001), 0);
    assert_eq!(input_stream_count(0x4401), 4);
    assert_eq!(output_stream_base(0xfebf_0000, 4), 0xfebf_0100);
    assert!(codec_answered(0x10ec_0269));
    assert!(!codec_answered(0));
    assert!(!codec_answered(0xffff_ffff));
}

#[test]
fn mono_clips_play_as_stereo() {
    assert_eq!(stereo_samples(&[1, 2, 0xff, 0xff, 9]), vec![0x0201, 0x0201, -1, -1]);
    assert_eq!(stereo_samples(&[]), Vec::<i16>::new());
    assert_eq!(stereo_byte_len(5), 8);
    assert_eq!(stereo_byte_len(1_000_000), 393_216);
    assert_eq!(buffer_descriptor(0x1_2345_6000, 100), [0x2345_6000, 1, 100, 1]);
}

#[test]
fn playback_waits_for_the_clip_and_checks_it_moved() {
    let mut playback = Playback::start(9600);
    assert_eq!(playback.limit_ms, 250);
    assert!(playback.waiting());
    playback.observe(4800);
    assert!(playback.waiting());
    playback.observe(9600);
    assert!(!playback.waiting());
    assert!(playback.spoken());

    let mut stuck = Playback::start(9600);
    while stuck.waiting() {
        stuck.observe(0);
    }
    assert_eq!(stuck.waited_ms, 260);
    assert!(!stuck.spoken());
}

#[test]
fn the_output_path_is_powered_routed_and_unmuted() {
    assert_eq!(
        output_path_commands(0, 2, 3),
        vec![0x0027_0500, 0x0027_0610, 0x0023_b02a, 0x0037_0500, 0x0037_0740, 0x0037_0c02, 0x0033_b02a]
    );
}

#[test]
fn output_search_takes_the_first_converter_and_output_pin() {
    let mut search = OutputSearch::new();
    let mut asked = Vec::new();
    loop {
        let Some(request) = search.request() else { break };
        asked.push(request);
        let response = match request {
            CodecRequest::Parameter { nid: 0, parameter } if parameter == PARAM_SUBNODE_COUNT => 0x0001_0002,
            CodecRequest::Parameter { nid: 1, parameter } if parameter == PARAM_FUNCTION_GROUP_TYPE => 0x02,
            CodecRequest::Parameter { nid: 2, parameter } if parameter == PARAM_FUNCTION_GROUP_TYPE => 0x01,
            CodecRequest::PowerOn(2) => 0,
            CodecRequest::Parameter { nid: 2, parameter } if parameter == PARAM_SUBNODE_COUNT => 0x0010_0004,
            CodecRequest::Parameter { nid: 0x10, parameter } if parameter == PARAM_WIDGET_CAP => 0x0040_0000,
            CodecRequest::Parameter { nid: 0x10, parameter } if parameter == PARAM_PIN_CAP => 0x0000_0020,
            CodecRequest::Parameter { nid: 0x11, parameter } if parameter == PARAM_WIDGET_CAP => 0x0000_0000,
            CodecRequest::Parameter { nid: 0x12, parameter } if parameter == PARAM_WIDGET_CAP => 0x0040_0000,
            CodecRequest::Parameter { nid: 0x12, parameter } if parameter == PARAM_PIN_CAP => 0x0000_0010,
            CodecRequest::Parameter { nid: 0x13, parameter } if parameter == PARAM_WIDGET_CAP => 0x0000_0000,
            other => panic!("unexpected request {other:?}"),
        };
        search.answer(response);
    }
    assert_eq!(search.stage, SearchStage::Found(0x11, 0x12));
    assert_eq!(asked.len(), 11);
}

#[test]
fn output_search_fails_without_an_audio_group() {
    let mut search = OutputSearch::new();
    search.answer(0x0001_0001);
    assert_eq!(
        search.request(),
        Some(CodecRequest::Parameter { nid: 1, parameter: PARAM_FUNCTION_GROUP_TYPE })
    );
    search.answer(0x02);
    assert_eq!(search.stage, SearchStage::NoPath);
    assert_eq!(search.request(), None);
}

#[test]
fn speaker_addresses_its_codec_and_walks_the_response_ring() {
    let mut speaker = Speaker::new(0xfebf_0000, 0b0110, 0x4401);
    assert_eq!(speaker.codec, 1);
    assert_eq!(speaker.input_streams, 4);
    assert_eq!(speaker.verb(2, 0xf00, 0), 0x102f_0000);
    assert_eq!(speaker.verb16(2, 0x2, 0x0111), 0x1022_0111);
    assert_eq!(speaker.output_stream_base(), 0xfebf_0100);
    assert!(!speaker.response_waiting(0x8000));
    assert!(speaker.response_waiting(1));
    assert_eq!(speaker.take_response_slot(), 1);
    speaker.rirb_read = 255;
    assert_eq!(speaker.take_response_slot(), 0);
    speaker.use_output_path(0x11, 0x12);
    assert_eq!((speaker.dac, speaker.pin), (0x11, 0x12));
}
