//! Requests to, and answers from, the audio models of the inference server:
//! voice-activity detection (`vad`) and transcription (`audio_pipeline`).
//! The audio payload type is supplied by the caller (32-bit float samples).

use vstd::prelude::*;
use vstd::string::StringSliceAdditionalSpecFns;
use vstd::utf8::{decode_utf8, encode_utf8, valid_utf8};

verus! {

/// What the transcription model is asked to do.
#[derive(Debug, Clone, Copy, PartialEq, Eq, Structural)]
pub enum AudioTask {
    Transcribe,
    Translate,
}

/// Name of a task as the model expects it.
pub open spec fn audio_task_text(task: AudioTask) -> Seq<char> {
    match task {
        AudioTask::Transcribe => "transcribe"@,
        AudioTask::Translate => "translate"@,
    }
}

impl AudioTask {
    /// `transcribe` or `translate`.
    pub fn to_string(&self) -> (s: String)
        ensures
            s@ == audio_task_text(*self),
    {
        match self {
            AudioTask::Transcribe => {
                let s = String::from_str("transcribe");
                proof {
                    reveal_strlit("transcribe");
                }
                s
            },
            AudioTask::Translate => {
                let s = String::from_str("translate");
                proof {
                    reveal_strlit("translate");
                }
                s
            },
        }
    }
}

/// A transcription and the language it was heard in.
#[derive(Debug, Clone)]
pub struct TranscribeResponse {
    pub text: String,
    pub language: String,
}

impl TranscribeResponse {
    /// A transcription with the given text and language.
    pub fn new(text: String, language: String) -> (r: Self)
        ensures
            r.text == text,
            r.language == language,
    {
        TranscribeResponse { text, language }
    }
}

/// Contents of an input tensor; the kinds of contents that requests use.
#[derive(Debug, Clone)]
pub struct InferTensorContents<A> {
    pub bool_contents: Vec<bool>,
    pub int_contents: Vec<i32>,
    pub int64_contents: Vec<i64>,
    pub uint_contents: Vec<u32>,
    pub uint64_contents: Vec<u64>,
    pub fp32_contents: Vec<A>,
    pub bytes_contents: Vec<Vec<u8>>,
}

/// An input tensor of a request.
#[derive(Debug, Clone)]
pub struct InferInputTensor<A> {
    pub name: String,
    pub datatype: String,
    pub shape: Vec<i64>,
    pub contents: Option<InferTensorContents<A>>,
}

/// An output a request asks for.
#[derive(Debug, Clone)]
pub struct InferRequestedOutputTensor {
    pub name: String,
}

/// An inference request (no parameters are ever set).
#[derive(Debug, Clone)]
pub struct ModelInferRequest<A> {
    pub model_name: String,
    pub model_version: String,
    pub id: String,
    pub inputs: Vec<InferInputTensor<A>>,
    pub outputs: Vec<InferRequestedOutputTensor>,
    pub raw_input_contents: Vec<Vec<u8>>,
}

/// Contents of an output tensor, as far as answers are read.
#[derive(Debug, Clone)]
pub struct InferOutputContents {
    pub int_contents: Vec<i32>,
    pub bytes_contents: Vec<Vec<u8>>,
}

/// An output tensor of an answer.
#[derive(Debug, Clone)]
pub struct InferOutputTensor {
    pub name: String,
    pub contents: Option<InferOutputContents>,
}

/// An inference answer, as far as it is read.
#[derive(Debug, Clone)]
pub struct ModelInferResponse {
    pub outputs: Vec<InferOutputTensor>,
    pub raw_output_contents: Vec<Vec<u8>>,
}

/// Contents holding only the given float samples.
pub open spec fn only_fp32<A>(c: InferTensorContents<A>, audio: Seq<A>) -> bool {
    &&& c.bool_contents@.len() == 0
    &&& c.int_contents@.len() == 0
    &&& c.int64_contents@.len() == 0
    &&& c.uint_contents@.len() == 0
    &&& c.uint64_contents@.len() == 0
    &&& c.fp32_contents@ == audio
    &&& c.bytes_contents@.len() == 0
}

/// Contents holding only one byte string.
pub open spec fn only_bytes<A>(c: InferTensorContents<A>, bytes: Seq<u8>) -> bool {
    &&& c.bool_contents@.len() == 0
    &&& c.int_contents@.len() == 0
    &&& c.int64_contents@.len() == 0
    &&& c.uint_contents@.len() == 0
    &&& c.uint64_contents@.len() == 0
    &&& c.fp32_contents@.len() == 0
    &&& c.bytes_contents@.len() == 1
    &&& c.bytes_contents@[0]@ == bytes
}

/// A tensor of the given name and datatype.
pub open spec fn named_tensor<A>(t: InferInputTensor<A>, name: Seq<char>, datatype: Seq<char>) -> bool {
    t.name@ == name && t.datatype@ == datatype && t.contents is Some
}

/// The transcription request for `audio`, `task` and the language given as
/// UTF-8 bytes (empty when none is given): model `audio_pipeline`, inputs
/// `audio` (FP32, shape `[1, n]`), `task` and `language` (BYTES, shape
/// `[1, 1]`), outputs `text` and `language`.
pub open spec fn is_transcribe_request<A>(
    r: ModelInferRequest<A>,
    audio: Seq<A>,
    task: AudioTask,
    language: Seq<u8>,
) -> bool {
    &&& r.model_name@ == "audio_pipeline"@
    &&& r.model_version@.len() == 0
    &&& r.id@.len() == 0
    &&& r.raw_input_contents@.len() == 0
    &&& r.inputs@.len() == 3
    &&& named_tensor(r.inputs@[0], "audio"@, "FP32"@)
    &&& r.inputs@[0].shape@ == seq![1i64, audio.len() as i64]
    &&& only_fp32(r.inputs@[0].contents->0, audio)
    &&& named_tensor(r.inputs@[1], "task"@, "BYTES"@)
    &&& r.inputs@[1].shape@ == seq![1i64, 1i64]
    &&& only_bytes(r.inputs@[1].contents->0, encode_utf8(audio_task_text(task)))
    &&& named_tensor(r.inputs@[2], "language"@, "BYTES"@)
    &&& r.inputs@[2].shape@ == seq![1i64, 1i64]
    &&& only_bytes(r.inputs@[2].contents->0, language)
    &&& r.outputs@.len() == 2
    &&& r.outputs@[0].name@ == "text"@
    &&& r.outputs@[1].name@ == "language"@
}

/// The voice-activity request for `audio`: model `vad`, input `audio`
/// (FP32, shape `[n]`), output `speech_timestamps`.
pub open spec fn is_vad_request<A>(r: ModelInferRequest<A>, audio: Seq<A>) -> bool {
    &&& r.model_name@ == "vad"@
    &&& r.model_version@.len() == 0
    &&& r.id@.len() == 0
    &&& r.raw_input_contents@.len() == 0
    &&& r.inputs@.len() == 1
    &&& named_tensor(r.inputs@[0], "audio"@, "FP32"@)
    &&& r.inputs@[0].shape@ == seq![audio.len() as i64]
    &&& only_fp32(r.inputs@[0].contents->0, audio)
    &&& r.outputs@.len() == 1
    &&& r.outputs@[0].name@ == "speech_timestamps"@
}

/// Text of a byte string decoded with replacement of invalid sequences,
/// as `String::from_utf8_lossy` produces it.
pub uninterp spec fn utf8_lossy(bytes: Seq<u8>) -> Seq<char>;

/// Calls `String::from_utf8_lossy`: the bytes decoded as UTF-8, each invalid
/// sequence replaced by U+FFFD; valid UTF-8 is decoded unchanged.
#[verifier::external_body]
fn from_utf8_lossy(bytes: &[u8]) -> (s: String)
    ensures
        s@ == utf8_lossy(bytes@),
        valid_utf8(bytes@) ==> s@ == decode_utf8(bytes@),
{
    String::from_utf8_lossy(bytes).into_owned()
}

/// Position of the first output named `name`.
pub open spec fn output_index(outputs: Seq<InferOutputTensor>, name: Seq<char>) -> Option<int>
    decreases outputs.len(),
{
    if outputs.len() == 0 {
        None
    } else {
        match output_index(outputs.drop_last(), name) {
            Some(i) => Some(i),
            None => if outputs.last().name@ == name {
                Some(outputs.len() - 1)
            } else {
                None
            },
        }
    }
}

/// The bytes an answer holds for the string output at position `idx`: the
/// first byte string of its contents, or else its raw output.
pub open spec fn string_output_bytes(r: ModelInferResponse, idx: int) -> Option<Seq<u8>> {
    let o = r.outputs@[idx];
    if o.contents is Some && o.contents->0.bytes_contents@.len() > 0 {
        Some(o.contents->0.bytes_contents@[0]@)
    } else if 0 <= idx < r.raw_output_contents@.len() {
        Some(r.raw_output_contents@[idx]@)
    } else {
        None
    }
}

/// The answer carries the string output `name`.
pub open spec fn has_string_output_spec(r: ModelInferResponse, name: Seq<char>) -> bool {
    match output_index(r.outputs@, name) {
        Some(i) => string_output_bytes(r, i) is Some,
        None => false,
    }
}

/// The text of the string output `name` of an answer that carries it.
pub open spec fn string_output_text(r: ModelInferResponse, name: Seq<char>) -> Seq<char> {
    utf8_lossy(string_output_bytes(r, output_index(r.outputs@, name)->0)->0)
}

/// An answer of the voice-activity model reports speech: its
/// `speech_timestamps` output holds integers, or else its raw output holds
/// at least one pair of 32-bit values (8 bytes).
pub open spec fn reports_speech(r: ModelInferResponse) -> bool {
    match output_index(r.outputs@, "speech_timestamps"@) {
        None => false,
        Some(i) => {
            ||| (r.outputs@[i].contents is Some && r.outputs@[i].contents->0.int_contents@.len() > 0)
            ||| (i < r.raw_output_contents@.len() && r.raw_output_contents@[i]@.len() >= 8)
        },
    }
}

proof fn lemma_output_index_bounds(outputs: Seq<InferOutputTensor>, name: Seq<char>)
    ensures
        output_index(outputs, name) matches Some(i) ==> 0 <= i < outputs.len() && outputs[i].name@ == name,
        output_index(outputs, name) matches Some(i) ==> forall|j: int| 0 <= j < i ==> outputs[j].name@ != name,
        output_index(outputs, name) is None ==> forall|j: int| 0 <= j < outputs.len() ==> outputs[j].name@ != name,
    decreases outputs.len(),
{
    if outputs.len() > 0 {
        let rest = outputs.drop_last();
        lemma_output_index_bounds(rest, name);
        assert forall|j: int| 0 <= j < rest.len() implies rest[j] == outputs[j] by {}
    }
}

/// The first output named `name` is the one `output_index` finds.
proof fn lemma_first_output(outputs: Seq<InferOutputTensor>, name: Seq<char>, i: int)
    requires
        0 <= i < outputs.len(),
        outputs[i].name@ == name,
        forall|j: int| 0 <= j < i ==> outputs[j].name@ != name,
    ensures
        output_index(outputs, name) == Some(i),
{
    lemma_output_index_bounds(outputs, name);
    match output_index(outputs, name) {
        Some(k) => {
            if k < i {
                assert(outputs[k].name@ != name);
            }
            if k > i {
                assert(outputs[i].name@ != name);
            }
        },
        None => {
            assert(outputs[i].name@ != name);
        },
    }
}

/// How an answer of the voice-activity model is read: when the first output
/// named `speech_timestamps` sits at position `i`, speech is reported exactly
/// when that output holds integers or the raw output at the same position `i`
/// holds at least one pair of 32-bit values (8 bytes), whether or not the
/// output has contents; with no such output, no speech is reported.
pub proof fn lemma_speech_at(r: ModelInferResponse)
    ensures
        forall|i: int|
            0 <= i < r.outputs@.len() && (#[trigger] r.outputs@[i]).name@ == "speech_timestamps"@
                && (forall|j: int| 0 <= j < i ==> r.outputs@[j].name@ != "speech_timestamps"@)
                ==> (reports_speech(r) <==> {
                ||| (r.outputs@[i].contents is Some
                    && r.outputs@[i].contents->0.int_contents@.len() > 0)
                ||| (i < r.raw_output_contents@.len() && r.raw_output_contents@[i]@.len() >= 8)
            }),
        (forall|j: int| 0 <= j < r.outputs@.len() ==> r.outputs@[j].name@ != "speech_timestamps"@)
            ==> !reports_speech(r),
{
    lemma_output_index_bounds(r.outputs@, "speech_timestamps"@);
    assert forall|i: int|
        0 <= i < r.outputs@.len() && (#[trigger] r.outputs@[i]).name@ == "speech_timestamps"@
            && (forall|j: int| 0 <= j < i ==> r.outputs@[j].name@ != "speech_timestamps"@)
            implies output_index(r.outputs@, "speech_timestamps"@) == Some(i) by {
        lemma_first_output(r.outputs@, "speech_timestamps"@, i);
    }
    if output_index(r.outputs@, "speech_timestamps"@) is Some {
        let k = output_index(r.outputs@, "speech_timestamps"@)->0;
        assert(r.outputs@[k].name@ == "speech_timestamps"@);
    }
}

/// How a string output is read: when the first output named `name` sits at
/// position `i`, its text is the lossy UTF-8 decoding of the first byte
/// string of its contents when it has one, and otherwise of the raw output at
/// the same position `i`; without either the answer does not carry it. An
/// answer with no output named `name` does not carry it.
pub proof fn lemma_string_output_at(r: ModelInferResponse, name: Seq<char>)
    ensures
        forall|i: int|
            0 <= i < r.outputs@.len() && (#[trigger] r.outputs@[i]).name@ == name && (forall|j: int|
                0 <= j < i ==> r.outputs@[j].name@ != name) ==> {
                let o = r.outputs@[i];
                let in_contents = o.contents is Some && o.contents->0.bytes_contents@.len() > 0;
                &&& in_contents ==> has_string_output_spec(r, name) && string_output_text(r, name)
                    == utf8_lossy(o.contents->0.bytes_contents@[0]@)
                &&& !in_contents && i < r.raw_output_contents@.len() ==> has_string_output_spec(
                    r,
                    name,
                ) && string_output_text(r, name) == utf8_lossy(r.raw_output_contents@[i]@)
                &&& !in_contents && i >= r.raw_output_contents@.len() ==> !has_string_output_spec(
                    r,
                    name,
                )
            },
        (forall|j: int| 0 <= j < r.outputs@.len() ==> r.outputs@[j].name@ != name)
            ==> !has_string_output_spec(r, name),
{
    lemma_output_index_bounds(r.outputs@, name);
    assert forall|i: int|
        0 <= i < r.outputs@.len() && (#[trigger] r.outputs@[i]).name@ == name && (forall|j: int|
            0 <= j < i ==> r.outputs@[j].name@ != name) implies output_index(r.outputs@, name) == Some(
        i,
    ) by {
        lemma_first_output(r.outputs@, name, i);
    }
    if output_index(r.outputs@, name) is Some {
        let k = output_index(r.outputs@, name)->0;
        assert(r.outputs@[k].name@ == name);
    }
}

/// Position of the first output named `name`.
fn find_output(outputs: &Vec<InferOutputTensor>, name: &String) -> (r: Option<usize>)
    ensures
        r matches Some(i) ==> output_index(outputs@, name@) == Some(i as int),
        r is None ==> output_index(outputs@, name@) is None,
{
    let mut i: usize = 0;
    while i < outputs.len()
        invariant
            i <= outputs@.len(),
            output_index(outputs@.subrange(0, i as int), name@) is None,
        decreases outputs@.len() - i,
    {
        let ghost pre = outputs@.subrange(0, i as int + 1);
        assert(pre.drop_last() == outputs@.subrange(0, i as int));
        if outputs[i].name == *name {
            proof {
                lemma_prefix_index(outputs@, name@, i as int);
            }
            return Some(i);
        }
        i = i + 1;
    }
    assert(outputs@.subrange(0, outputs@.len() as int) == outputs@);
    None
}

/// When no output before `i` has the name and output `i` has it, it is the
/// first one.
proof fn lemma_prefix_index(outputs: Seq<InferOutputTensor>, name: Seq<char>, i: int)
    requires
        0 <= i < outputs.len(),
        output_index(outputs.subrange(0, i), name) is None,
        outputs[i].name@ == name,
    ensures
        output_index(outputs, name) == Some(i),
{
    lemma_output_index_bounds(outputs.subrange(0, i), name);
    lemma_output_index_bounds(outputs, name);
    match output_index(outputs, name) {
        Some(j) => {
            if j > i {
                assert(outputs[i].name@ == name);
            }
            if j < i {
                assert(outputs.subrange(0, i)[j] == outputs[j]);
            }
        },
        None => {},
    }
}

/// A byte string copied into its own vector.
fn bytes_of(s: &str) -> (b: Vec<u8>)
    ensures
        b@ == encode_utf8(s@),
{
    vstd::slice::slice_to_vec(s.as_bytes())
}

/// Contents holding one byte string.
fn byte_contents<A>(bytes: Vec<u8>) -> (c: InferTensorContents<A>)
    ensures
        only_bytes(c, bytes@),
{
    let mut bytes_contents: Vec<Vec<u8>> = Vec::new();
    bytes_contents.push(bytes);
    InferTensorContents {
        bool_contents: Vec::new(),
        int_contents: Vec::new(),
        int64_contents: Vec::new(),
        uint_contents: Vec::new(),
        uint64_contents: Vec::new(),
        fp32_contents: Vec::new(),
        bytes_contents,
    }
}

/// Contents holding float samples.
fn fp32_contents<A>(audio: Vec<A>) -> (c: InferTensorContents<A>)
    ensures
        only_fp32(c, audio@),
{
    InferTensorContents {
        bool_contents: Vec::new(),
        int_contents: Vec::new(),
        int64_contents: Vec::new(),
        uint_contents: Vec::new(),
        uint64_contents: Vec::new(),
        fp32_contents: audio,
        bytes_contents: Vec::new(),
    }
}

/// A string from a literal.
fn text(s: &str) -> (r: String)
    ensures
        r@ == s@,
{
    String::from_str(s)
}

/// The transcription request for `audio`, `task` and an optional language.
pub fn create_transcribe_request<A>(audio: Vec<A>, task: AudioTask, language: Option<String>) -> (r:
    ModelInferRequest<A>)
    ensures
        is_transcribe_request(
            r,
            audio@,
            task,
            match language {
                Some(l) => encode_utf8(l@),
                None => Seq::<u8>::empty(),
            },
        ),
{
    let n: usize = audio.len();
    #[verifier::truncate]
    let n64: i64 = n as i64;
    let mut audio_shape: Vec<i64> = Vec::new();
    audio_shape.push(1);
    audio_shape.push(n64);
    let task_name = task.to_string();
    let task_bytes = bytes_of(task_name.as_str());
    let language_text = match language {
        Some(l) => l,
        None => String::new(),
    };
    let language_bytes = bytes_of(language_text.as_str());
    let mut task_shape: Vec<i64> = Vec::new();
    task_shape.push(1);
    task_shape.push(1);
    let mut language_shape: Vec<i64> = Vec::new();
    language_shape.push(1);
    language_shape.push(1);
    let mut inputs: Vec<InferInputTensor<A>> = Vec::new();
    inputs.push(
        InferInputTensor {
            name: text("audio"),
            datatype: text("FP32"),
            shape: audio_shape,
            contents: Some(fp32_contents(audio)),
        },
    );
    inputs.push(
        InferInputTensor {
            name: text("task"),
            datatype: text("BYTES"),
            shape: task_shape,
            contents: Some(byte_contents(task_bytes)),
        },
    );
    inputs.push(
        InferInputTensor {
            name: text("language"),
            datatype: text("BYTES"),
            shape: language_shape,
            contents: Some(byte_contents(language_bytes)),
        },
    );
    let mut outputs: Vec<InferRequestedOutputTensor> = Vec::new();
    outputs.push(InferRequestedOutputTensor { name: text("text") });
    outputs.push(InferRequestedOutputTensor { name: text("language") });
    let r = ModelInferRequest {
        model_name: text("audio_pipeline"),
        model_version: String::new(),
        id: String::new(),
        inputs,
        outputs,
        raw_input_contents: Vec::new(),
    };
    proof {
        assert(r.inputs@[0].shape@ =~= seq![1i64, n as i64]);
        assert(r.inputs@[1].shape@ =~= seq![1i64, 1i64]);
        assert(r.inputs@[2].shape@ =~= seq![1i64, 1i64]);
    }
    r
}

/// The voice-activity request for `audio`.
pub fn create_vad_request<A>(audio: Vec<A>) -> (r: ModelInferRequest<A>)
    ensures
        is_vad_request(r, audio@),
{
    let n: usize = audio.len();
    #[verifier::truncate]
    let n64: i64 = n as i64;
    let mut shape: Vec<i64> = Vec::new();
    shape.push(n64);
    let mut inputs: Vec<InferInputTensor<A>> = Vec::new();
    inputs.push(
        InferInputTensor {
            name: text("audio"),
            datatype: text("FP32"),
            shape,
            contents: Some(fp32_contents(audio)),
        },
    );
    let mut outputs: Vec<InferRequestedOutputTensor> = Vec::new();
    outputs.push(InferRequestedOutputTensor { name: text("speech_timestamps") });
    let r = ModelInferRequest {
        model_name: text("vad"),
        model_version: String::new(),
        id: String::new(),
        inputs,
        outputs,
        raw_input_contents: Vec::new(),
    };
    proof {
        assert(r.inputs@[0].shape@ =~= seq![n as i64]);
    }
    r
}

/// Whether an answer of the voice-activity model reports speech.
pub fn speech_detected(response: &ModelInferResponse) -> (r: bool)
    ensures
        r == reports_speech(*response),
        forall|i: int|
            0 <= i < response.outputs@.len() && (#[trigger] response.outputs@[i]).name@
                == "speech_timestamps"@ && (forall|j: int|
                0 <= j < i ==> response.outputs@[j].name@ != "speech_timestamps"@) ==> (r <==> {
                ||| (response.outputs@[i].contents is Some
                    && response.outputs@[i].contents->0.int_contents@.len() > 0)
                ||| (i < response.raw_output_contents@.len()
                    && response.raw_output_contents@[i]@.len() >= 8)
            }),
        (forall|j: int|
            0 <= j < response.outputs@.len() ==> response.outputs@[j].name@
                != "speech_timestamps"@) ==> !r,
{
    let name = text("speech_timestamps");
    proof {
        lemma_speech_at(*response);
    }
    match find_output(&response.outputs, &name) {
        None => false,
        Some(idx) => {
            proof {
                lemma_output_index_bounds(response.outputs@, name@);
            }
            let output = &response.outputs[idx];
            match &output.contents {
                Some(contents) => {
                    if contents.int_contents.len() > 0 {
                        return true;
                    }
                },
                None => {},
            }
            if idx < response.raw_output_contents.len() {
                let raw = &response.raw_output_contents[idx];
                if raw.len() > 0 && raw.len() >= 8 {
                    return true;
                }
            }
            false
        },
    }
}

/// Whether an answer carries the string output `name`.
pub fn has_string_output(response: &ModelInferResponse, name: &str) -> (r: bool)
    ensures
        r == has_string_output_spec(*response, name@),
{
    let key = text(name);
    match find_output(&response.outputs, &key) {
        None => false,
        Some(idx) => {
            proof {
                lemma_output_index_bounds(response.outputs@, name@);
            }
            match &response.outputs[idx].contents {
                Some(c) => {
                    if c.bytes_contents.len() > 0 {
                        return true;
                    }
                },
                None => {},
            }
            idx < response.raw_output_contents.len()
        },
    }
}

/// The text of the string output `name`.
pub fn extract_string_output(response: &ModelInferResponse, name: &str) -> (s: String)
    requires
        has_string_output_spec(*response, name@),
    ensures
        s@ == string_output_text(*response, name@),
        forall|i: int|
            0 <= i < response.outputs@.len() && (#[trigger] response.outputs@[i]).name@ == name@
                && (forall|j: int| 0 <= j < i ==> response.outputs@[j].name@ != name@) ==> {
                let o = response.outputs@[i];
                &&& (o.contents is Some && o.contents->0.bytes_contents@.len() > 0) ==> s@
                    == utf8_lossy(o.contents->0.bytes_contents@[0]@)
                &&& !(o.contents is Some && o.contents->0.bytes_contents@.len() > 0) ==> s@
                    == utf8_lossy(response.raw_output_contents@[i]@)
            },
{
    let key = text(name);
    let idx = find_output(&response.outputs, &key).unwrap();
    proof {
        lemma_output_index_bounds(response.outputs@, name@);
        lemma_string_output_at(*response, name@);
    }
    match &response.outputs[idx].contents {
        Some(c) => {
            if c.bytes_contents.len() > 0 {
                return from_utf8_lossy(c.bytes_contents[0].as_slice());
            }
        },
        None => {},
    }
    from_utf8_lossy(response.raw_output_contents[idx].as_slice())
}

/// The transcription in an answer of the transcription model.
pub fn transcription(response: &ModelInferResponse) -> (r: TranscribeResponse)
    requires
        has_string_output_spec(*response, "text"@),
        has_string_output_spec(*response, "language"@),
    ensures
        r.text@ == string_output_text(*response, "text"@),
        r.language@ == string_output_text(*response, "language"@),
{
    let text_output = extract_string_output(response, "text");
    let lang_output = extract_string_output(response, "language");
    TranscribeResponse::new(text_output, lang_output)
}

} // verus!
