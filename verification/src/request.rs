//! The request mapper: two inbound shapes, one prediction request.

use vstd::prelude::*;

verus! {

/// Compression quality asked of the prediction service for every image.
pub const COMPRESSION_QUALITY: u32 = 75;

/// Number of images asked of the prediction service per request.
pub const SAMPLE_COUNT: u32 = 1;

/// Fields of a form submission, as the binding layer decoded them.
#[derive(Debug, PartialEq, Eq)]
pub struct GenerateImageParams {
    pub prompt: String,
    pub mime_type: String,
    pub aspect_ratio: String,
}

/// Query parameters of a submission by URL; the prompt travels in the path.
#[derive(Debug, PartialEq, Eq)]
pub struct GenerateImagePathParams {
    pub mime_type: String,
    pub aspect_ratio: String,
}

/// What a generation request says, as mathematical text.
pub ghost struct GenerationRequestView {
    pub prompt: Seq<char>,
    pub mime_type: Seq<char>,
    pub aspect_ratio: Seq<char>,
}

impl GenerationRequestView {
    /// A request is well formed when none of its three fields is empty.
    pub open spec fn well_formed(self) -> bool {
        &&& self.prompt.len() > 0
        &&& self.mime_type.len() > 0
        &&& self.aspect_ratio.len() > 0
    }
}

/// A well-formed generation request, whichever entry point produced it.
///
/// The fields are private: every value of this type has three non-empty
/// fields.
#[derive(Debug, PartialEq, Eq)]
pub struct GenerationRequest {
    prompt: String,
    mime_type: String,
    aspect_ratio: String,
}

impl View for GenerationRequest {
    type V = GenerationRequestView;

    closed spec fn view(&self) -> GenerationRequestView {
        GenerationRequestView {
            prompt: self.prompt@,
            mime_type: self.mime_type@,
            aspect_ratio: self.aspect_ratio@,
        }
    }
}

/// The request that three texts make, if they make a well-formed one.
pub open spec fn accepted_request(
    prompt: Seq<char>,
    mime_type: Seq<char>,
    aspect_ratio: Seq<char>,
) -> Option<GenerationRequestView> {
    let request = GenerationRequestView { prompt, mime_type, aspect_ratio };
    if request.well_formed() {
        Some(request)
    } else {
        None
    }
}

/// The request that a form submission stands for.
pub open spec fn form_request(params: GenerateImageParams) -> Option<GenerationRequestView> {
    accepted_request(params.prompt@, params.mime_type@, params.aspect_ratio@)
}

/// The request that a submission by URL stands for. The path segment is taken
/// as it is, already decoded.
pub open spec fn path_request(path: Seq<char>, params: GenerateImagePathParams) -> Option<
    GenerationRequestView,
> {
    accepted_request(path, params.mime_type@, params.aspect_ratio@)
}

impl GenerationRequest {
    #[verifier::type_invariant]
    closed spec fn inv(self) -> bool {
        self@.well_formed()
    }

    /// Builds a request from three texts; `None` exactly when one is empty.
    pub fn new(prompt: String, mime_type: String, aspect_ratio: String) -> (request: Option<
        GenerationRequest,
    >)
        ensures
            request.is_some() <==> accepted_request(prompt@, mime_type@, aspect_ratio@).is_some(),
            request.is_some() ==> Some(request.unwrap()@) == accepted_request(
                prompt@,
                mime_type@,
                aspect_ratio@,
            ),
    {
        if prompt.as_str().is_empty() || mime_type.as_str().is_empty()
            || aspect_ratio.as_str().is_empty() {
            None
        } else {
            Some(GenerationRequest { prompt, mime_type, aspect_ratio })
        }
    }

    /// The prompt text.
    pub fn prompt(&self) -> (text: &String)
        ensures
            text@ == self@.prompt,
            text@.len() > 0,
    {
        proof {
            use_type_invariant(self);
        }
        &self.prompt
    }

    /// The mime type asked for the image.
    pub fn mime_type(&self) -> (text: &String)
        ensures
            text@ == self@.mime_type,
            text@.len() > 0,
    {
        proof {
            use_type_invariant(self);
        }
        &self.mime_type
    }

    /// The aspect ratio asked for the image.
    pub fn aspect_ratio(&self) -> (text: &String)
        ensures
            text@ == self@.aspect_ratio,
            text@.len() > 0,
    {
        proof {
            use_type_invariant(self);
        }
        &self.aspect_ratio
    }
}

/// Entry point for a form submission: all three fields come from the form.
/// `None` exactly when a field is empty.
pub fn generate_image_post(params: GenerateImageParams) -> (request: Option<GenerationRequest>)
    ensures
        request.is_some() <==> form_request(params).is_some(),
        request.is_some() ==> Some(request.unwrap()@) == form_request(params),
{
    GenerationRequest::new(params.prompt, params.mime_type, params.aspect_ratio)
}

/// Entry point for a submission by URL: the prompt is the decoded path
/// segment, the other two fields are query parameters. `None` exactly when a
/// field is empty.
pub fn generate_image_path(path: String, params: GenerateImagePathParams) -> (request: Option<
    GenerationRequest,
>)
    ensures
        request.is_some() <==> path_request(path@, params).is_some(),
        request.is_some() ==> Some(request.unwrap()@) == path_request(path@, params),
{
    GenerationRequest::new(path, params.mime_type, params.aspect_ratio)
}

/// One prompt instance of a prediction request.
#[derive(Debug, PartialEq, Eq)]
pub struct PromptInstance {
    pub prompt: String,
}

/// Output options of a prediction request.
#[derive(Debug, PartialEq, Eq)]
pub struct OutputOptions {
    pub mime_type: String,
    pub compression_quality: u32,
}

/// Parameters of a prediction request.
#[derive(Debug, PartialEq, Eq)]
pub struct PredictionParameters {
    pub aspect_ratio: String,
    pub output_options: OutputOptions,
    pub sample_count: u32,
}

/// The one shape in which a request goes to the prediction service.
#[derive(Debug, PartialEq, Eq)]
pub struct PredictionRequest {
    pub instances: Vec<PromptInstance>,
    pub parameters: PredictionParameters,
}

/// What a prediction request says, as mathematical values.
pub ghost struct PredictionRequestView {
    pub prompts: Seq<Seq<char>>,
    pub aspect_ratio: Seq<char>,
    pub mime_type: Seq<char>,
    pub compression_quality: int,
    pub sample_count: int,
}

impl View for PredictionRequest {
    type V = PredictionRequestView;

    open spec fn view(&self) -> PredictionRequestView {
        PredictionRequestView {
            prompts: self.instances@.map_values(|instance: PromptInstance| instance.prompt@),
            aspect_ratio: self.parameters.aspect_ratio@,
            mime_type: self.parameters.output_options.mime_type@,
            compression_quality: self.parameters.output_options.compression_quality as int,
            sample_count: self.parameters.sample_count as int,
        }
    }
}

/// The prediction request that a generation request is sent as: its prompt as
/// the only instance, its aspect ratio and mime type, and the fixed policy of
/// one sample at compression quality 75.
pub open spec fn canonical_request(request: GenerationRequestView) -> PredictionRequestView {
    PredictionRequestView {
        prompts: seq![request.prompt],
        aspect_ratio: request.aspect_ratio,
        mime_type: request.mime_type,
        compression_quality: 75,
        sample_count: 1,
    }
}

impl GenerationRequest {
    /// Builds the prediction request for this generation request.
    pub fn prediction_request(self) -> (upstream: PredictionRequest)
        ensures
            upstream@ == canonical_request(self@),
    {
        let mut instances: Vec<PromptInstance> = Vec::new();
        instances.push(PromptInstance { prompt: self.prompt });
        let upstream = PredictionRequest {
            instances,
            parameters: PredictionParameters {
                aspect_ratio: self.aspect_ratio,
                output_options: OutputOptions {
                    mime_type: self.mime_type,
                    compression_quality: COMPRESSION_QUALITY,
                },
                sample_count: SAMPLE_COUNT,
            },
        };
        assert(upstream@.prompts =~= seq![self@.prompt]);
        upstream
    }
}

/// The identifier of the model that every prediction is asked of.
pub fn imagen_model() -> (model: &'static str)
    ensures
        model@ == "imagen-3.0-fast-generate-001"@,
{
    "imagen-3.0-fast-generate-001"
}

/// Both entry points lead to the same prediction request: a form submission
/// and a submission by URL with the same prompt, mime type and aspect ratio
/// are accepted or rejected alike, and where they are accepted the requests
/// built from them are equal.
pub proof fn lemma_entry_points_agree(
    form: GenerateImageParams,
    path: Seq<char>,
    query: GenerateImagePathParams,
)
    requires
        form.prompt@ == path,
        form.mime_type@ == query.mime_type@,
        form.aspect_ratio@ == query.aspect_ratio@,
    ensures
        form_request(form) == path_request(path, query),
        form_request(form).is_some() ==> canonical_request(form_request(form).unwrap())
            == canonical_request(path_request(path, query).unwrap()),
{
}

/// The prediction request keeps what the generation request asked for and
/// adds only the fixed policy; two generation requests are sent as the same
/// prediction request only if they are the same.
pub proof fn lemma_canonical_request_injective(a: GenerationRequestView, b: GenerationRequestView)
    requires
        canonical_request(a) == canonical_request(b),
    ensures
        a == b,
{
    assert(canonical_request(a).prompts[0] == a.prompt);
    assert(canonical_request(b).prompts[0] == b.prompt);
}

} // verus!
