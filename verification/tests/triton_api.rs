use bubble_meet::triton_api::{
    create_transcribe_request, create_vad_request, extract_string_output, has_string_output,
    speech_detected, transcription, AudioTask, InferOutputContents, InferOutputTensor,
    ModelInferResponse, TranscribeResponse,
};

fn output(name: &str, ints: Vec<i32>, bytes: Vec<Vec<u8>>) -> InferOutputTensor {
    InferOutputTensor {
        name: name.to_string(),
        contents: Some(InferOutputContents { int_contents: ints, bytes_contents: bytes }),
    }
}

#[test]
fn task_names() {
    assert_eq!(AudioTask::Transcribe.to_string(), "transcribe");
    assert_eq!(AudioTask::Translate.to_string(), "translate");
}

#[test]
fn transcribe_response_holds_its_parts() {
    let r = TranscribeResponse::new("hello".to_string(), "en".to_string());
    assert_eq!(r.text, "hello");
    assert_eq!(r.language, "en");
}

#[test]
fn transcribe_request_layout() {
    let r = create_transcribe_request(vec![0.5f32, -0.25, 0.0], AudioTask::Translate, Some("de".to_string()));
    assert_eq!(r.model_name, "audio_pipeline");
    assert_eq!(r.model_version, "");
    assert_eq!(r.id, "");
    assert!(r.raw_input_contents.is_empty());
    assert_eq!(r.inputs.len(), 3);
    assert_eq!(r.inputs[0].name, "audio");
    assert_eq!(r.inputs[0].datatype, "FP32");
    assert_eq!(r.inputs[0].shape, vec![1, 3]);
    let audio = r.inputs[0].contents.as_ref().unwrap();
    assert_eq!(audio.fp32_contents, vec![0.5, -0.25, 0.0]);
    assert!(audio.bytes_contents.is_empty());
    assert_eq!(r.inputs[1].name, "task");
    assert_eq!(r.inputs[1].datatype, "BYTES");
    assert_eq!(r.inputs[1].shape, vec![1, 1]);
    assert_eq!(r.inputs[1].contents.as_ref().unwrap().bytes_contents, vec![b"translate".to_vec()]);
    assert_eq!(r.inputs[2].name, "language");
    assert_eq!(r.inputs[2].contents.as_ref().unwrap().bytes_contents, vec![b"de".to_vec()]);
    assert_eq!(r.outputs.len(), 2);
    assert_eq!(r.outputs[0].name, "text");
    assert_eq!(r.outputs[1].name, "language");
}

#[test]
fn transcribe_request_without_language_sends_empty_bytes() {
    let r = create_transcribe_request(Vec::<f32>::new(), AudioTask::Transcribe, None);
    assert_eq!(r.inputs[0].shape, vec![1, 0]);
    assert_eq!(r.inputs[1].contents.as_ref().unwrap().bytes_contents, vec![b"transcribe".to_vec()]);
    assert_eq!(r.inputs[2].contents.as_ref().unwrap().bytes_contents, vec![Vec::<u8>::new()]);
}

#[test]
fn vad_request_layout() {
    let r = create_vad_request(vec![1.0f32; 8000]);
    assert_eq!(r.model_name, "vad");
    assert_eq!(r.inputs.len(), 1);
    assert_eq!(r.inputs[0].name, "audio");
    assert_eq!(r.inputs[0].datatype, "FP32");
    assert_eq!(r.inputs[0].shape, vec![8000]);
    assert_eq!(r.inputs[0].contents.as_ref().unwrap().fp32_contents.len(), 8000);
    assert_eq!(r.outputs.len(), 1);
    assert_eq!(r.outputs[0].name, "speech_timestamps");
}

#[test]
fn speech_from_integer_timestamps() {
    let r = ModelInferResponse {
        outputs: vec![output("other", vec![], vec![]), output("speech_timestamps", vec![0, 800], vec![])],
        raw_output_contents: vec![],
    };
    assert!(speech_detected(&r));
}

#[test]
fn speech_from_raw_output_needs_a_full_pair() {
    let short = ModelInferResponse {
        outputs: vec![output("speech_timestamps", vec![], vec![])],
        raw_output_contents: vec![vec![0; 7]],
    };
    assert!(!speech_detected(&short));
    let full = ModelInferResponse {
        outputs: vec![output("speech_timestamps", vec![], vec![])],
        raw_output_contents: vec![vec![0; 8]],
    };
    assert!(speech_detected(&full));
}

#[test]
fn no_speech_without_the_output() {
    let r = ModelInferResponse {
        outputs: vec![output("text", vec![1], vec![])],
        raw_output_contents: vec![vec![0; 16]],
    };
    assert!(!speech_detected(&r));
    let none = ModelInferResponse { outputs: vec![], raw_output_contents: vec![] };
    assert!(!speech_detected(&none));
}

#[test]
fn raw_output_is_read_at_the_output_position() {
    let r = ModelInferResponse {
        outputs: vec![
            InferOutputTensor { name: "x".to_string(), contents: None },
            InferOutputTensor { name: "speech_timestamps".to_string(), contents: None },
        ],
        raw_output_contents: vec![vec![0; 8], vec![0; 4]],
    };
    assert!(!speech_detected(&r));
}

#[test]
fn string_outputs_from_contents_or_raw() {
    let r = ModelInferResponse {
        outputs: vec![
            output("text", vec![], vec![b"hello world".to_vec()]),
            InferOutputTensor { name: "language".to_string(), contents: None },
        ],
        raw_output_contents: vec![vec![], b"en".to_vec()],
    };
    assert!(has_string_output(&r, "text"));
    assert!(has_string_output(&r, "language"));
    assert!(!has_string_output(&r, "missing"));
    assert_eq!(extract_string_output(&r, "text"), "hello world");
    assert_eq!(extract_string_output(&r, "language"), "en");
    let t = transcription(&r);
    assert_eq!(t.text, "hello world");
    assert_eq!(t.language, "en");
}

#[test]
fn invalid_utf8_is_replaced() {
    let r = ModelInferResponse {
        outputs: vec![output("text", vec![], vec![vec![b'o', 0xff, b'k']])],
        raw_output_contents: vec![],
    };
    assert_eq!(extract_string_output(&r, "text"), "o\u{fffd}k");
}

#[test]
fn output_without_bytes_or_raw_is_missing() {
    let r = ModelInferResponse {
        outputs: vec![output("text", vec![], vec![])],
        raw_output_contents: vec![],
    };
    assert!(!has_string_output(&r, "text"));
}
