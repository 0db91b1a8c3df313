use base64::Engine;
use imagegen::b64::base64_round_trip;
use imagegen::cf_flux::CFFluxProcessor;
use imagegen::cf_sdxl::CFSdxlProcessor;
use imagegen::config::EnvConfig;
use imagegen::context::ProcessContext;
use imagegen::factory::ProcessorFactory;
use imagegen::http::{HttpRequest, HttpResponse, Transport};
use imagegen::models::InputData;
use imagegen::ta_flux::{build_ta_body, FluxRequest, TAFluxProcessor};

/// Answers every request with the same canned response and counts the calls.
struct StubTransport {
    status: u16,
    content_type: Option<Vec<u8>>,
    body: Vec<u8>,
    calls: usize,
    last_request: Option<HttpRequest>,
}

impl StubTransport {
    fn new(status: u16, content_type: Option<&str>, body: Vec<u8>) -> StubTransport {
        StubTransport {
            status,
            content_type: content_type.map(|c| c.as_bytes().to_vec()),
            body,
            calls: 0,
            last_request: None,
        }
    }

    fn json(body: &str) -> StubTransport {
        StubTransport::new(200, Some("application/json"), body.as_bytes().to_vec())
    }
}

impl Transport for StubTransport {
    fn send(&mut self, req: &HttpRequest) -> Result<HttpResponse, String> {
        self.calls += 1;
        self.last_request = Some(req.clone());
        Ok(HttpResponse {
            status: self.status,
            content_type: self.content_type.clone(),
            body: self.body.clone(),
        })
    }
}

/// Never delivers: the sending itself fails.
struct DownTransport {
    calls: usize,
}

impl Transport for DownTransport {
    fn send(&mut self, _req: &HttpRequest) -> Result<HttpResponse, String> {
        self.calls += 1;
        Err("connection refused".to_string())
    }
}

fn cf_config() -> EnvConfig {
    EnvConfig {
        cloudflare_account_id: Some("acc123".to_string()),
        cloudflare_api_token: Some("tok456".to_string()),
        cloudflare_gateway_name: Some("gw789".to_string()),
        togetherai_api_token: None,
    }
}

fn ta_config() -> EnvConfig {
    EnvConfig {
        cloudflare_account_id: None,
        cloudflare_api_token: None,
        cloudflare_gateway_name: None,
        togetherai_api_token: Some("ta_tok".to_string()),
    }
}

fn input(prompt: &str, steps: Option<u32>) -> InputData {
    InputData::new(prompt.to_string(), steps)
}

fn cf_envelope(payload: &str) -> String {
    format!("{{\"result\":{{\"image\":\"{}\"}}}}", payload)
}

fn ta_envelope(payload: &str) -> String {
    format!(
        "{{\"id\":\"x\",\"model\":\"m\",\"object\":\"list\",\"data\":[{{\"timings\":{{\"inference\":1.5}},\"index\":0,\"b64_json\":\"{}\"}}]}}",
        payload
    )
}

#[test]
fn ta_steps_out_of_range_makes_no_call() {
    let mut stub = StubTransport::json("{}");
    for steps in [0u32, 5, 7, 1000] {
        let r = TAFluxProcessor::new().process(&input("x", Some(steps)), &ta_config(), &mut stub);
        let e = r.err().expect("must fail");
        assert_eq!(e.error_message, "Invalid steps");
    }
    assert_eq!(stub.calls, 0);
}

#[test]
fn ta_steps_in_range_calls_once() {
    let png = b"fakeimagebytes".to_vec();
    let enc = base64::prelude::BASE64_STANDARD.encode(&png);
    let mut stub = StubTransport::json(&ta_envelope(&enc));
    let r = TAFluxProcessor::new().process(&input("x", Some(4)), &ta_config(), &mut stub);
    assert_eq!(r.unwrap().result, png);
    assert_eq!(stub.calls, 1);
}

#[test]
fn upstream_status_failure_for_each_adapter() {
    for status in [199u16, 300, 400, 500] {
        let mut stub = StubTransport::new(status, Some("application/json"), b"ignored".to_vec());
        let expected = format!("Failed to get response: {}", status);
        let e = CFFluxProcessor::new()
            .process(&input("x", None), &cf_config(), &mut stub)
            .err()
            .unwrap();
        assert_eq!(e.error_message, expected);

        let mut stub = StubTransport::new(status, Some("image/png"), b"ignored".to_vec());
        let e = CFSdxlProcessor::new()
            .process(&input("x", None), &cf_config(), &mut stub)
            .err()
            .unwrap();
        assert_eq!(e.error_message, expected);

        let mut stub = StubTransport::new(status, Some("application/json"), b"ignored".to_vec());
        let e = TAFluxProcessor::new()
            .process(&input("x", Some(2)), &ta_config(), &mut stub)
            .err()
            .unwrap();
        assert_eq!(e.error_message, expected);
    }
}

#[test]
fn wrong_content_type_for_each_adapter() {
    let mut stub = StubTransport::new(200, Some("text/html"), b"{}".to_vec());
    let e = CFFluxProcessor::new()
        .process(&input("x", None), &cf_config(), &mut stub)
        .err()
        .unwrap();
    assert_eq!(e.error_message, "Invalid content type");

    let mut stub = StubTransport::new(200, Some("application/json"), b"img".to_vec());
    let e = CFSdxlProcessor::new()
        .process(&input("x", None), &cf_config(), &mut stub)
        .err()
        .unwrap();
    assert_eq!(e.error_message, "Invalid content type");

    let mut stub = StubTransport::new(200, Some("image/png"), b"{}".to_vec());
    let e = TAFluxProcessor::new()
        .process(&input("x", Some(2)), &ta_config(), &mut stub)
        .err()
        .unwrap();
    assert_eq!(e.error_message, "Invalid content type");
}

#[test]
fn missing_content_type_for_each_adapter() {
    let mut stub = StubTransport::new(200, None, b"{}".to_vec());
    let e = CFFluxProcessor::new()
        .process(&input("x", None), &cf_config(), &mut stub)
        .err()
        .unwrap();
    assert_eq!(e.error_message, "Content type not found");

    let mut stub = StubTransport::new(200, None, b"img".to_vec());
    let e = CFSdxlProcessor::new()
        .process(&input("x", None), &cf_config(), &mut stub)
        .err()
        .unwrap();
    assert_eq!(e.error_message, "Content type not found");

    let mut stub = StubTransport::new(200, None, b"{}".to_vec());
    let e = TAFluxProcessor::new()
        .process(&input("x", Some(2)), &ta_config(), &mut stub)
        .err()
        .unwrap();
    assert_eq!(e.error_message, "Content type not found");
}

#[test]
fn cf_flux_round_trip_recovers_bytes() {
    let mut all: Vec<u8> = Vec::new();
    for b in 0..=255u8 {
        all.push(b);
    }
    let enc = base64::prelude::BASE64_STANDARD.encode(&all);
    let mut stub = StubTransport::json(&cf_envelope(&enc));
    let r = CFFluxProcessor::new().process(&input("x", None), &cf_config(), &mut stub);
    assert_eq!(r.unwrap().result, all);
}

#[test]
fn ta_flux_round_trip_recovers_bytes() {
    let bytes = vec![0u8, 1, 2, 254, 255, 128, 64];
    let enc = base64::prelude::BASE64_STANDARD.encode(&bytes);
    let mut stub = StubTransport::json(&ta_envelope(&enc));
    let r = TAFluxProcessor::new().process(&input("x", Some(1)), &ta_config(), &mut stub);
    assert_eq!(r.unwrap().result, bytes);
}

#[test]
fn library_round_trip_helper() {
    let bytes = vec![9u8, 8, 7, 0, 255];
    assert_eq!(base64_round_trip(&bytes).unwrap(), bytes);
    let empty: Vec<u8> = Vec::new();
    assert_eq!(base64_round_trip(&empty).unwrap(), empty);
}

#[test]
fn library_envelope_round_trips() {
    let bytes: Vec<u8> = (0..=255u8).collect();
    assert_eq!(imagegen::cf_flux::cf_envelope_round_trip(&bytes).unwrap(), bytes);
    assert_eq!(imagegen::ta_flux::ta_envelope_round_trip(&bytes).unwrap(), bytes);
    let empty: Vec<u8> = Vec::new();
    assert_eq!(imagegen::cf_flux::cf_envelope_round_trip(&empty).unwrap(), empty);
    assert_eq!(imagegen::ta_flux::ta_envelope_round_trip(&empty).unwrap(), empty);
}

#[test]
fn invalid_base64_is_decode_failure() {
    let mut stub = StubTransport::json(&cf_envelope("!!!not-base64!!!"));
    let e = CFFluxProcessor::new()
        .process(&input("x", None), &cf_config(), &mut stub)
        .err()
        .unwrap();
    assert!(e.error_message.starts_with("Failed to decode image data"), "{}", e.error_message);

    let mut stub = StubTransport::json(&ta_envelope("@@@"));
    let e = TAFluxProcessor::new()
        .process(&input("x", Some(2)), &ta_config(), &mut stub)
        .err()
        .unwrap();
    assert!(e.error_message.starts_with("Failed to decode image data"), "{}", e.error_message);
}

#[test]
fn malformed_envelope_is_parse_failure() {
    for body in ["", "null", "[1,2]", "{\"result\":{}}", "{\"result\":\"zz\"}", "{\"resul", "{\"result\":{\"image\":\"AA==\"}} trailing"] {
        let mut stub = StubTransport::json(body);
        let e = CFFluxProcessor::new()
            .process(&input("x", None), &cf_config(), &mut stub)
            .err()
            .unwrap();
        assert_eq!(e.error_message, "Failed to parse response: invalid envelope", "body: {:?}", body);
    }
    let mut stub = StubTransport::json("{\"result\":{\"image\":\"QQ==\",\"image\":\"QQ==\"}}");
    let e = CFFluxProcessor::new()
        .process(&input("x", None), &cf_config(), &mut stub)
        .err()
        .unwrap();
    assert_eq!(
        e.error_message,
        "Failed to parse response: invalid envelope",
        "duplicate keys must be rejected"
    );
    for body in ["", "{}", "{\"data\":5}", "{\"data\":[5]}", "{\"data\":[{\"b64_json\":7}]}"] {
        let mut stub = StubTransport::json(body);
        let e = TAFluxProcessor::new()
            .process(&input("x", Some(2)), &ta_config(), &mut stub)
            .err()
            .unwrap();
        assert_eq!(e.error_message, "Failed to parse response: invalid envelope", "body: {:?}", body);
    }
}

#[test]
fn envelope_with_extra_members_still_decodes() {
    let enc = base64::prelude::BASE64_STANDARD.encode(b"picture");
    let body = format!(
        " {{ \"success\" : true , \"messages\" : [ 1 , {{\"a\":null}} ] , \"result\" : {{ \"note\" : \"n\" , \"image\" : \"{}\" }} }} ",
        enc
    );
    let mut stub = StubTransport::json(&body);
    let r = CFFluxProcessor::new().process(&input("x", None), &cf_config(), &mut stub);
    assert_eq!(r.unwrap().result, b"picture".to_vec());
}

#[test]
fn cf_sdxl_returns_body_bytes_unchanged() {
    let bytes = vec![0x89u8, 0x50, 0x4e, 0x47, 0, 255, 13, 10];
    let mut stub = StubTransport::new(200, Some("image/png"), bytes.clone());
    let r = CFSdxlProcessor::new().process(&input("x", None), &cf_config(), &mut stub);
    assert_eq!(r.unwrap().result, bytes);
}

#[test]
fn ta_empty_result_list() {
    let mut stub = StubTransport::json("{\"data\":[]}");
    let e = TAFluxProcessor::new()
        .process(&input("x", Some(2)), &ta_config(), &mut stub)
        .err()
        .unwrap();
    assert_eq!(e.error_message, "Image data not found");
}

#[test]
fn missing_credentials_in_order_of_use() {
    let mut stub = StubTransport::json("{}");
    let mut config = EnvConfig::new();
    let e = CFFluxProcessor::new()
        .process(&input("x", None), &config, &mut stub)
        .err()
        .unwrap();
    assert_eq!(e.error_message, "$CLOUDFLARE_ACCOUNT_ID must be set");

    config.cloudflare_account_id = Some("acc".to_string());
    let e = CFSdxlProcessor::new()
        .process(&input("x", None), &config, &mut stub)
        .err()
        .unwrap();
    assert_eq!(e.error_message, "$CLOUDFLARE_API_TOKEN must be set");

    config.cloudflare_api_token = Some("tok".to_string());
    let e = CFFluxProcessor::new()
        .process(&input("x", None), &config, &mut stub)
        .err()
        .unwrap();
    assert_eq!(e.error_message, "$CLOUDFLARE_GATEWAY_NAME must be set");

    let e = TAFluxProcessor::new()
        .process(&input("x", Some(2)), &config, &mut stub)
        .err()
        .unwrap();
    assert_eq!(e.error_message, "$TOGETHERAI_API_TOKEN must be set");
    assert_eq!(stub.calls, 0);
}

#[test]
fn transport_failure_carries_detail() {
    let mut down = DownTransport { calls: 0 };
    let e = CFFluxProcessor::new()
        .process(&input("x", None), &cf_config(), &mut down)
        .err()
        .unwrap();
    assert_eq!(e.error_message, "Failed to send request: connection refused");
    assert_eq!(down.calls, 1);
}

#[test]
fn cf_request_is_built_exactly() {
    let enc = base64::prelude::BASE64_STANDARD.encode(b"z");
    let mut stub = StubTransport::json(&cf_envelope(&enc));
    CFFluxProcessor::new()
        .process(&input("a cat", None), &cf_config(), &mut stub)
        .unwrap();
    let req = stub.last_request.take().unwrap();
    assert_eq!(
        req.url,
        b"https://gateway.ai.cloudflare.com/v1/acc123/gw789/workers-ai/@cf/black-forest-labs/flux-1-schnell".to_vec()
    );
    assert_eq!(req.auth_header, b"Bearer tok456".to_vec());
    assert_eq!(req.body, b"{\"prompt\":\"a cat\",\"num_steps\":6}".to_vec());
    assert_eq!(req.timeout_secs, 30);
    assert!(!req.accept_json);

    let mut stub = StubTransport::new(200, Some("image/png"), b"p".to_vec());
    CFSdxlProcessor::new()
        .process(&input("dog", Some(12)), &cf_config(), &mut stub)
        .unwrap();
    let req = stub.last_request.take().unwrap();
    assert_eq!(
        req.url,
        b"https://gateway.ai.cloudflare.com/v1/acc123/gw789/workers-ai/@cf/bytedance/stable-diffusion-xl-lightning".to_vec()
    );
    assert_eq!(req.body, b"{\"prompt\":\"dog\",\"num_steps\":12}".to_vec());
}

#[test]
fn ta_request_is_built_exactly() {
    let enc = base64::prelude::BASE64_STANDARD.encode(b"z");
    let mut stub = StubTransport::json(&ta_envelope(&enc));
    TAFluxProcessor::new()
        .process(&input("a cat", Some(2)), &ta_config(), &mut stub)
        .unwrap();
    let req = stub.last_request.take().unwrap();
    assert_eq!(req.url, b"https://api.together.xyz/v1/images/generations".to_vec());
    assert_eq!(req.auth_header, b"Bearer ta_tok".to_vec());
    assert!(req.accept_json);
    assert_eq!(
        String::from_utf8(req.body).unwrap(),
        "{\"model\":\"black-forest-labs/FLUX.1-schnell-Free\",\"prompt\":\"a cat\",\"width\":1024,\"height\":1024,\"steps\":2,\"n\":1,\"response_format\":\"base64\",\"guidance\":3.5}"
    );
    assert_eq!(req.timeout_secs, 30);
}

#[test]
fn prompt_is_json_escaped_in_body() {
    let req = FluxRequest::new("say \"hi\"\\\nplease\tnow\u{1}".to_string(), 3);
    let body = String::from_utf8(build_ta_body(&req)).unwrap();
    assert!(body.contains("\"prompt\":\"say \\\"hi\\\"\\\\\\nplease\\tnow\\u0001\""), "{}", body);
}

#[test]
fn flux_request_fixed_fields() {
    let req = FluxRequest::new("p".to_string(), 4);
    assert_eq!(req.model, "black-forest-labs/FLUX.1-schnell-Free");
    assert_eq!(req.prompt, "p");
    assert_eq!(req.width, 1024);
    assert_eq!(req.height, 1024);
    assert_eq!(req.steps, 4);
    assert_eq!(req.n, 1);
    assert_eq!(req.response_format, "base64");
}

#[test]
fn scenario_cf_sdxl_end_to_end() {
    let png = vec![0x89u8, 0x50, 0x4e, 0x47, 0x0d, 0x0a, 0x1a, 0x0a];
    let strategy = ProcessorFactory::create("cf_sdxl").expect("known model");
    let context = ProcessContext::new(strategy);
    let mut stub = StubTransport::new(200, Some("image/png"), png.clone());
    let r = context.execute(input("a cat", None), &cf_config(), &mut stub);
    assert_eq!(r.unwrap().result, png);
    assert_eq!(stub.calls, 1);
}

#[test]
fn scenario_empty_prompt_makes_no_call() {
    let stub = StubTransport::json("{}");
    let data = InputData::new(String::new(), None);
    match data.validate() {
        Ok(_) => panic!("empty prompt must not validate"),
        Err(e) => assert_eq!(e.message(), "値が空です"),
    }
    // the caller stops at validation; the transport stays untouched
    assert_eq!(stub.calls, 0);
}

#[test]
fn scenario_unknown_model_makes_no_call() {
    let data = InputData::new("x".to_string(), None);
    assert!(data.validate().is_ok());
    assert!(ProcessorFactory::create("unknown_model").is_none());
}

#[test]
fn scenario_ta_steps_seven_makes_no_call() {
    let strategy = ProcessorFactory::create("ta_flux").expect("known model");
    let context = ProcessContext::new(strategy);
    let mut stub = StubTransport::json("{}");
    let mut config = ta_config();
    config.cloudflare_account_id = Some("unused".to_string());
    let e = context.execute(input("x", Some(7)), &config, &mut stub).err().unwrap();
    assert_eq!(e.error_message, "Invalid steps");
    assert_eq!(stub.calls, 0);
}
