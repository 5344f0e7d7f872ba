//! The API client end to end over the fake transport.

use edmunds::mock::{KeyedConnector, SeqConnector};
use edmunds::models::State;
use edmunds::{ApiError, Edmunds};

/// Wrap a JSON body in a minimal HTTP response.
fn http(body: &str) -> Vec<u8> {
    format!(
        "HTTP/1.1 200 OK\r\nContent-Type: application/json\r\nConnection: close\r\n\r\n{}",
        body
    )
    .into_bytes()
}

/// A make-list body with the given model counts per make.
fn makes_body(makes: &[(u32, &str, &str, usize)]) -> String {
    let mut out = String::from("{\"makes\":[");
    for (i, (id, name, nice, n_models)) in makes.iter().enumerate() {
        if i > 0 {
            out.push(',');
        }
        let mut models = String::new();
        for m in 0..*n_models {
            if m > 0 {
                models.push(',');
            }
            models.push_str(&format!(
                "{{\"id\":\"{nice}_{m}\",\"name\":\"M{m}\",\"niceName\":\"m{m}\"}}"
            ));
        }
        out.push_str(&format!(
            "{{\"id\":{id},\"name\":\"{name}\",\"niceName\":\"{nice}\",\"models\":[{models}]}}"
        ));
    }
    out.push_str("]}");
    out
}

/// A model-list body with `n` basic models.
fn models_body(n: usize) -> String {
    let mut out = String::from("{\"models\":[");
    for m in 0..n {
        if m > 0 {
            out.push(',');
        }
        out.push_str(&format!(
            "{{\"id\":\"BMW_{m}\",\"name\":\"Series {m}\",\"niceName\":\"series-{m}\"}}"
        ));
    }
    out.push_str("]}");
    out
}

/// A full-view style-list body with `n` minimal styles.
fn styles_body(n: usize) -> String {
    let mut out = String::from("{\"styles\":[");
    for i in 0..n {
        if i > 0 {
            out.push(',');
        }
        out.push_str(&format!(
            "{{\"id\":{},\"name\":\"Style {i}\",\"trim\":\"trim{i}\",\
             \"submodel\":{{\"modelName\":\"M\",\"niceName\":\"m\"}},\
             \"price\":{{\"baseMSRP\":53900,\"estimateTmv\":false}},\
             \"MPG\":{{\"highway\":34,\"city\":24}},\
             \"squishVins\":[\"ZARBA5A5\"]}}",
            100000 + i
        ));
    }
    out.push_str("]}");
    out
}

#[test]
fn all_makes() {
    let mut connector = KeyedConnector::new();
    connector.script(
        "https",
        "api.edmunds.com",
        &http(&makes_body(&[(200002038, "Acura", "acura", 2), (200000081, "BMW", "bmw", 1)])),
    );

    let ed = Edmunds::with_connector("api_key", connector);

    let makes = ed.all_makes(State::New).unwrap();

    assert_eq!(2, makes.len());
    assert_eq!(200002038, makes[0].id);
    assert_eq!("acura", makes[0].nice_name);
    assert_eq!(2, makes[0].models.len());
}

#[test]
fn all_bmw_models() {
    let mut connector = KeyedConnector::new();
    connector.script("https", "api.edmunds.com", &http(&models_body(30)));

    let ed = Edmunds::with_connector("api_key", connector);

    let models = ed.models_by_make("bmw").unwrap();

    assert_eq!(30, models.len());
}

#[test]
fn alfa_romeo_4c_2015_styles_full() {
    let mut connector = KeyedConnector::new();
    connector.script("https", "api.edmunds.com", &http(&styles_body(3)));

    let ed = Edmunds::with_connector("api_key", connector);

    let styles = ed.styles_by_make_model_year("alfa-romeo", "4c", 2015).unwrap();

    assert_eq!(3, styles.len());
}

#[test]
fn acura_ilx_2014_styles_full() {
    let mut connector = KeyedConnector::new();
    connector.script("https", "api.edmunds.com", &http(&styles_body(4)));

    let ed = Edmunds::with_connector("api_key", connector);

    let styles = ed.styles_by_make_model_year("acura", "ilx", 2014).unwrap();

    assert_eq!(4, styles.len());
}

#[test]
fn acura_ilx_2016_styles_full() {
    let mut connector = KeyedConnector::new();
    connector.script("https", "api.edmunds.com", &http(&styles_body(6)));

    let ed = Edmunds::with_connector("api_key", connector);

    let styles = ed.styles_by_make_model_year("acura", "ilx", 2016).unwrap();

    assert_eq!(6, styles.len());
}

#[test]
fn bmw_i3_2014_styles_full() {
    let mut connector = KeyedConnector::new();
    connector.script("https", "api.edmunds.com", &http(&styles_body(2)));

    let ed = Edmunds::with_connector("api_key", connector);

    let styles = ed.styles_by_make_model_year("bmw", "i3", 2014).unwrap();

    assert_eq!(2, styles.len());
}

#[test]
fn equipment_by_styleid_decodes_envelope() {
    let body = "{\"equipment\":[\
                {\"id\":\"E1\",\"name\":\"SEATS\",\"equipmentType\":\"OTHER\",\
                 \"availability\":\"STANDARD\",\
                 \"attributes\":[{\"name\":\"COUNT\",\"value\":\"4\"}]}]}";
    let mut connector = KeyedConnector::new();
    connector.script("https", "api.edmunds.com", &http(body));

    let ed = Edmunds::with_connector("api_key", connector);

    let equipment = ed.equipment_by_styleid(401593354).unwrap();
    assert_eq!(1, equipment.len());
    assert_eq!(Ok(Some(4)), equipment[0].get_attr::<u64>("COUNT"));
}

#[test]
fn sequential_connector_drives_the_client_too() {
    let connector = SeqConnector::new(vec![http(&models_body(5))]);
    let ed = Edmunds::with_connector("api_key", connector);

    let models = ed.models_by_make("whatever").unwrap();
    assert_eq!(5, models.len());
}

#[test]
fn injectable_base_url_drives_plain_http_mode() {
    // The base URL is injectable: a client built for plain http
    // connects with the "http" scheme, so a connector without TLS can
    // carry a whole call.
    let mut connector = KeyedConnector::new();
    connector.script("http", "proxy.example.test", &http(&models_body(2)));

    let ed = Edmunds::with_connector_at("api_key", "http", "proxy.example.test", connector);

    let models = ed.models_by_make("bmw").unwrap();
    assert_eq!(2, models.len());
}

#[test]
fn unscripted_host_surfaces_as_transport_error() {
    let connector = KeyedConnector::new();
    let ed = Edmunds::with_connector("api_key", connector);

    match ed.all_makes(State::New) {
        Err(ApiError::Transport(_)) => (),
        _ => panic!("expected a transport error for the unscripted key"),
    }
}

#[test]
fn garbage_body_surfaces_as_decode_error() {
    let mut connector = KeyedConnector::new();
    connector.script("https", "api.edmunds.com", &http("***"));
    let ed = Edmunds::with_connector("api_key", connector);

    match ed.all_makes(State::Used) {
        Err(ApiError::Decode(_)) => (),
        _ => panic!("expected a decode error for the garbage body"),
    }
}

#[test]
fn headerless_response_is_a_protocol_error() {
    let connector = SeqConnector::new(vec![b"no header separator here".to_vec()]);
    let ed = Edmunds::with_connector("api_key", connector);

    match ed.all_makes(State::New) {
        Err(ApiError::Transport(_)) => (),
        _ => panic!("expected a transport error for the malformed response"),
    }
}
