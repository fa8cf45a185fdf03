use nftscape::error::{ApiError, OpenSeaApiError, RaribleApiError};
use nftscape::pipeline::{Event, Exchange, PipelineError};

fn run(
    status: u16,
    as_success: Option<Result<u32, String>>,
    as_envelope: Option<Option<ApiError>>,
) -> (Vec<&'static str>, Result<u32, PipelineError<String>>) {
    let mut asked = Vec::new();
    let mut ex: Exchange<u32, String> = Exchange::new();
    ex = ex.step(Event::Status(status));
    let mut success = as_success;
    let mut envelope = as_envelope;
    loop {
        match ex {
            Exchange::DecodingSuccess { .. } => {
                asked.push("success");
                ex = ex.step(Event::SuccessDecoded(success.take().expect("success decode asked twice")));
            }
            Exchange::DecodingEnvelope { .. } => {
                asked.push("envelope");
                ex = ex.step(Event::EnvelopeDecoded(envelope.take().expect("envelope decode asked twice")));
            }
            Exchange::Finished(outcome) => return (asked, outcome),
            Exchange::AwaitingStatus => panic!("status was given"),
        }
    }
}

#[test]
fn success_body_is_returned_and_tried_first() {
    for status in [200u16, 201, 204, 299] {
        let (asked, out) = run(status, Some(Ok(7)), Some(None));
        assert_eq!(asked, vec!["success"]);
        assert!(matches!(out, Ok(7)));
    }
}

#[test]
fn envelope_in_success_body_wins_over_decode_error() {
    let env = ApiError::OpenSeaApiError(OpenSeaApiError { success: false });
    let (asked, out) = run(200, Some(Err("not a u32".to_string())), Some(Some(env.clone())));
    assert_eq!(asked, vec!["success", "envelope"]);
    match out {
        Err(PipelineError::Api(e)) => assert_eq!(e, env),
        other => panic!("unexpected {:?}", other),
    }
}

#[test]
fn undecodable_success_body_surfaces_first_error() {
    let (_, out) = run(200, Some(Err("bad json".to_string())), Some(None));
    match out {
        Err(PipelineError::Decode(e)) => assert_eq!(e, "bad json"),
        other => panic!("unexpected {:?}", other),
    }
}

#[test]
fn unauthorized_without_envelope() {
    let (asked, out) = run(401, None, Some(None));
    assert_eq!(asked, vec!["envelope"]);
    assert!(matches!(out, Err(PipelineError::Api(ApiError::Unauthorized))));
}

#[test]
fn other_status_without_envelope_keeps_code() {
    for status in [400u16, 403, 404, 500, 503, 199, 300] {
        let (asked, out) = run(status, None, Some(None));
        assert_eq!(asked, vec!["envelope"]);
        match out {
            Err(PipelineError::Api(ApiError::Other(s))) => assert_eq!(s, status),
            other => panic!("unexpected {:?}", other),
        }
    }
}

#[test]
fn failure_envelope_is_returned() {
    let env = ApiError::RaribleServerError(RaribleApiError {
        status: 404,
        code: "NOT_FOUND".to_string(),
        message: "no item".to_string(),
    });
    let (asked, out) = run(404, None, Some(Some(env.clone())));
    assert_eq!(asked, vec!["envelope"]);
    match out {
        Err(PipelineError::Api(e)) => assert_eq!(e, env),
        other => panic!("unexpected {:?}", other),
    }
}

#[test]
fn missing_single_resource_decodes_as_nothing() {
    // A provider answers 200 with `null` for an unknown asset; decoded as an
    // optional record that is a success without a value.
    let decoded: Result<Option<u32>, String> =
        serde_json::from_str::<Option<u32>>("null").map_err(|e| e.to_string());
    let mut ex: Exchange<Option<u32>, String> = Exchange::new();
    ex = ex.step(Event::Status(200));
    assert!(matches!(ex, Exchange::DecodingSuccess { status: 200 }));
    ex = ex.step(Event::SuccessDecoded(decoded));
    assert!(ex.is_finished());
    assert!(matches!(ex.into_outcome(), Ok(None)));
}

#[test]
fn accepts_only_the_awaited_event() {
    let ex: Exchange<u32, String> = Exchange::new();
    assert!(ex.accepts_event(&Event::Status(200)));
    assert!(!ex.accepts_event(&Event::SuccessDecoded(Ok(1))));
    assert!(!ex.accepts_event(&Event::EnvelopeDecoded(None)));
    assert!(!ex.is_finished());
}
