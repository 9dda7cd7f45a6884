//! The response mapper: what the caller receives for each outcome of the
//! prediction call.

use vstd::prelude::*;
use vstd::string::StringExecFns;

verus! {

/// Status of a response that carries an image.
pub const STATUS_OK: u16 = 200;

/// Status of a response that reports a failed or empty prediction.
pub const STATUS_INTERNAL_SERVER_ERROR: u16 = 500;

/// One prediction of the service: an image and its declared mime type.
#[derive(Debug, PartialEq, Eq)]
pub struct Prediction {
    pub mime_type: String,
    pub bytes_base64_encoded: String,
}

/// What a prediction says, as mathematical text.
pub ghost struct PredictionView {
    pub mime_type: Seq<char>,
    pub bytes_base64_encoded: Seq<char>,
}

impl View for Prediction {
    type V = PredictionView;

    open spec fn view(&self) -> PredictionView {
        PredictionView {
            mime_type: self.mime_type@,
            bytes_base64_encoded: self.bytes_base64_encoded@,
        }
    }
}

/// A response of the front-end: status, the `Content-Type` header if one is
/// set, and the body.
#[derive(Debug, PartialEq, Eq)]
pub struct HttpResponse {
    pub status: u16,
    pub content_type: Option<String>,
    pub body: String,
}

/// What a response says, as mathematical values.
pub ghost struct HttpResponseView {
    pub status: int,
    pub content_type: Option<Seq<char>>,
    pub body: Seq<char>,
}

impl View for HttpResponse {
    type V = HttpResponseView;

    open spec fn view(&self) -> HttpResponseView {
        HttpResponseView {
            status: self.status as int,
            content_type: match self.content_type {
                Some(text) => Some(text@),
                None => None,
            },
            body: self.body@,
        }
    }
}

/// The views of a sequence of predictions, in order.
pub open spec fn prediction_views(predictions: Seq<Prediction>) -> Seq<PredictionView> {
    predictions.map_values(|prediction: Prediction| prediction@)
}

/// The outcome of a prediction call as mathematical values: the predictions
/// in order, or the description of the failure.
pub open spec fn outcome_view(outcome: Result<Vec<Prediction>, String>) -> Result<
    Seq<PredictionView>,
    Seq<char>,
> {
    match outcome {
        Ok(predictions) => Ok(prediction_views(predictions@)),
        Err(description) => Err(description@),
    }
}

/// The response to a failed prediction call: status 500, no content type, the
/// words `Error: ` and then the description of the failure.
pub open spec fn failure_response(description: Seq<char>) -> HttpResponseView {
    HttpResponseView { status: 500, content_type: None, body: "Error: "@ + description }
}

/// The response to a prediction call that returned nothing: status 500, no
/// content type, a fixed body.
pub open spec fn empty_response() -> HttpResponseView {
    HttpResponseView { status: 500, content_type: None, body: "No predictions returned"@ }
}

/// The response that carries a prediction: status 200, the prediction's mime
/// type as content type, and its payload, as it came, as body.
pub open spec fn success_response(prediction: PredictionView) -> HttpResponseView {
    HttpResponseView {
        status: 200,
        content_type: Some(prediction.mime_type),
        body: prediction.bytes_base64_encoded,
    }
}

/// The response for each outcome of the prediction call. Of several
/// predictions the last one is served.
pub open spec fn outcome_response(
    outcome: Result<Seq<PredictionView>, Seq<char>>,
) -> HttpResponseView {
    match outcome {
        Err(description) => failure_response(description),
        Ok(predictions) => if predictions.len() == 0 {
            empty_response()
        } else {
            success_response(predictions.last())
        },
    }
}

/// Maps the outcome of the prediction call to the response.
pub fn image_response(outcome: Result<Vec<Prediction>, String>) -> (response: HttpResponse)
    ensures
        response@ == outcome_response(outcome_view(outcome)),
{
    match outcome {
        Err(description) => {
            let body = String::from_str("Error: ").concat(description.as_str());
            HttpResponse { status: STATUS_INTERNAL_SERVER_ERROR, content_type: None, body }
        },
        Ok(mut predictions) => {
            let ghost before = predictions@;
            match predictions.pop() {
                None => HttpResponse {
                    status: STATUS_INTERNAL_SERVER_ERROR,
                    content_type: None,
                    body: String::from_str("No predictions returned"),
                },
                Some(prediction) => {
                    assert(prediction_views(before).last() == prediction@);
                    HttpResponse {
                        status: STATUS_OK,
                        content_type: Some(prediction.mime_type),
                        body: prediction.bytes_base64_encoded,
                    }
                },
            }
        },
    }
}

/// A response with status 200 is given exactly when the call returned at
/// least one prediction; its body and content type are then those of the last
/// prediction, whatever stands before it.
pub proof fn lemma_last_prediction_served(
    earlier: Seq<PredictionView>,
    last: PredictionView,
)
    ensures
        outcome_response(Ok(earlier.push(last))) == success_response(last),
        outcome_response(Ok(earlier.push(last))).body == last.bytes_base64_encoded,
        outcome_response(Ok(earlier.push(last))).content_type == Some(last.mime_type),
        outcome_response(Ok(earlier.push(last))).status == 200,
{
}

/// Every outcome but a non-empty sequence of predictions is answered with
/// status 500, and no other outcome is.
pub proof fn lemma_status_by_outcome(outcome: Result<Seq<PredictionView>, Seq<char>>)
    ensures
        outcome_response(outcome).status == 200 || outcome_response(outcome).status == 500,
        outcome_response(outcome).status == 200 <==> (outcome is Ok && outcome->Ok_0.len() >= 1),
{
}

/// The body of the response to a failed call begins with `Error: ` and holds
/// the description of the failure, whole, directly after it.
pub proof fn lemma_failure_body_holds_description(description: Seq<char>)
    ensures
        outcome_response(Err(description)).status == 500,
        "Error: "@.is_prefix_of(outcome_response(Err(description)).body),
        outcome_response(Err(description)).body.len() == 7 + description.len(),
        outcome_response(Err(description)).body.subrange(
            7,
            7 + description.len() as int,
        ) == description,
{
    reveal_strlit("Error: ");
    let body = outcome_response(Err(description)).body;
    assert(body.subrange(0, 7) =~= "Error: "@);
    assert(body.subrange(7, 7 + description.len() as int) =~= description);
}

/// A call that returned no prediction is answered with status 500 and the
/// body `No predictions returned`.
pub proof fn lemma_empty_outcome(outcome: Result<Seq<PredictionView>, Seq<char>>)
    requires
        outcome is Ok,
        outcome->Ok_0.len() == 0,
    ensures
        outcome_response(outcome).status == 500,
        outcome_response(outcome).body == "No predictions returned"@,
        outcome_response(outcome).content_type.is_none(),
{
}

} // verus!
