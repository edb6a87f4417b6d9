use myvid::engine::pipeline::{
    decoders, is_hardware_decoder, is_hardware_name, sink_step, uses_hardware_decoder, Element,
    SinkStep, SINKS,
};

fn element(factory: &str, media: &str) -> Element {
    Element {
        factory: Some(factory.to_owned()),
        media: Some(media.to_owned()),
    }
}

#[test]
fn recognises_the_va_api_family() {
    for name in ["vah264dec", "vah265dec", "vavp8dec", "vavp9dec", "vaav1dec"] {
        assert!(is_hardware_decoder(name), "{name} should count as hardware");
    }
    assert!(is_hardware_decoder("vaapih264dec"));
}

#[test]
fn rejects_software_decoders() {
    for name in ["avdec_h264", "avdec_mpeg4", "avdec_prores", "vp8dec", "openh264dec"] {
        assert!(!is_hardware_decoder(name), "{name} should count as software");
    }
}

#[test]
fn ignores_elements_that_are_not_decoders() {
    assert!(!is_hardware_decoder("videoconvert"));
    assert!(!is_hardware_decoder("vaapipostproc"));
}

#[test]
fn capitals_do_not_hide_a_gpu_decoder() {
    assert!(is_hardware_decoder("NvH264Dec"));
    assert!(!is_hardware_name("NvH264Dec"));
    assert!(is_hardware_name("d3d11h264dec"));
    assert!(is_hardware_name("qsvh264dec"));
}

#[test]
fn recognises_every_vendor_by_its_prefix() {
    for name in [
        "vah266dec", "vaapivp9dec", "nvav1dec", "d3d11vp9dec", "d3d12h265dec", "vtdec",
        "v4l2slav1dec", "msdkh265dec", "qsvav1dec", "amfh264dec", "amfav1dec",
    ] {
        assert!(is_hardware_decoder(name), "{name} should count as hardware");
    }
    assert!(!is_hardware_decoder("amfh264enc"));
}

#[test]
fn decoders_are_told_apart_by_what_they_carry() {
    let elements = vec![
        element("decodebin3", "video/x-raw"),
        element("avdec_eac3", "audio/x-raw"),
        element("vah264dec", "video/x-raw"),
        element("avdec_h264", "video/x-raw"),
    ];
    assert_eq!(
        decoders(&elements),
        (Some("vah264dec".to_owned()), Some("avdec_eac3".to_owned()))
    );
    assert!(uses_hardware_decoder(&elements));
}

#[test]
fn a_pipeline_without_a_gpu_decoder_decodes_in_software() {
    let nameless = Element { factory: None, media: None };
    assert!(!uses_hardware_decoder(&vec![nameless, element("avdec_h264", "video/x-raw")]));
    assert_eq!(decoders(&vec![]), (None, None));
}

#[test]
fn the_first_sink_with_a_clock_is_used() {
    assert_eq!(sink_step(0, None), SinkStep::Try("pulsesink"));
    assert_eq!(sink_step(1, Some(false)), SinkStep::Try("alsasink"));
    assert_eq!(sink_step(2, None), SinkStep::Try("autoaudiosink"));
    assert_eq!(sink_step(3, Some(false)), SinkStep::Try("pipewiresink"));
    assert_eq!(sink_step(2, Some(true)), SinkStep::Use);
    assert_eq!(sink_step(SINKS, Some(false)), SinkStep::Settle("autoaudiosink"));
}
