use petrovich_core::web::{
    parse_query, read_step, reason, respond, route, url_decode, ReadStep, Response,
};

fn get(path: &str) -> Response {
    let (path, query) = path.split_once('?').unwrap_or((path, ""));
    route(path, &parse_query(query).unwrap())
}

#[test]
fn health() {
    let response = get("/health");
    assert_eq!((response.status, response.body.as_str()), (200, "ok"));
}

#[test]
fn decline_dative() {
    let response = get(
        "/decline?lastname=%D0%98%D0%B2%D0%B0%D0%BD%D0%BE%D0%B2&firstname=%D0%98%D0%B2%D0%B0%D0%BD&case=dative&sex=male",
    );
    assert_eq!(response.status, 200);
    assert_eq!(response.body, "Иванову Ивану");
}

#[test]
fn decline_case_number_and_auto_sex() {
    let response = get("/decline?firstname=Александра&case=2");
    assert_eq!(response.body, "Александры");
}

#[test]
fn gender_plain() {
    let response = get("/gender?firstname=Саша");
    assert_eq!(response.body, "androgynous");
}

#[test]
fn cases_tab_order() {
    let response = get("/cases?firstname=Иван&sex=male");
    assert_eq!(response.status, 200);
    let fields: Vec<&str> = response.body.split('\t').collect();
    assert_eq!(
        fields,
        ["Иван", "Ивана", "Ивану", "Ивана", "Иваном", "Иване"]
    );
}

#[test]
fn json_decline() {
    let response = get("/api/v1/decline?lastname=Иванов&case=3&sex=male");
    assert_eq!(response.content_type, "application/json; charset=utf-8");
    assert_eq!(
        response.body,
        "{\"lastname\":\"Иванову\",\"firstname\":\"\",\"middlename\":\"\"}"
    );
}

#[test]
fn appoint_title_and_office() {
    let response = get("/appoint?appointment=генеральный директор&case=dative");
    assert_eq!(response.status, 200);
    assert_eq!(response.body, "генеральному директор");
    let response = get(
        "/appoint?appointment=генеральный директор&office=департамента продаж&case=genitive",
    );
    assert_eq!(response.body, "генерального директор департамента продаж");
}

#[test]
fn appoint_json_and_errors() {
    let response = get("/api/v1/appoint?appointment=начальник отдела&case=instrumental");
    assert_eq!(response.content_type, "application/json; charset=utf-8");
    assert_eq!(response.body, "{\"appointment\":\"начальником отдела\"}");
    assert_eq!(get("/appoint").status, 400);
    assert_eq!(get("/appoint?appointment=директор&case=9").status, 400);
}

#[test]
fn errors_are_400() {
    assert_eq!(get("/decline").status, 400);
    assert_eq!(get("/decline?firstname=Иван&case=9").status, 400);
    assert_eq!(get("/decline?firstname=Иван&sex=x").status, 400);
    assert_eq!(get("/nope").status, 404);
    assert!(url_decode("%ZZ").is_err());
}

#[test]
fn url_decoding_details() {
    assert_eq!(url_decode("a+b%20c").unwrap(), "a b c");
    assert_eq!(url_decode("%D0%98").unwrap(), "И");
    assert!(url_decode("%+9").is_err());
    assert!(url_decode("%+5").is_err());
    assert_eq!(url_decode("%2B").unwrap(), "+");
    assert_eq!(url_decode("%2b%09").unwrap(), "+\t");
    assert_eq!(url_decode("%4").unwrap_err(), "bad percent-encoding");
    assert_eq!(url_decode("%FF").unwrap_err(), "query is not valid UTF-8");
    assert_eq!(url_decode("").unwrap(), "");
}

#[test]
fn query_pairs_and_overrides() {
    let params = parse_query("a=1&b&a=%32").unwrap();
    assert_eq!(
        params,
        vec![
            ("a".to_owned(), "1".to_owned()),
            ("b".to_owned(), String::new()),
            ("a".to_owned(), "2".to_owned())
        ]
    );
    assert!(parse_query("").unwrap().is_empty());
    assert_eq!(parse_query("a=%G1").unwrap_err(), "bad percent-encoding");
    let response = get("/gender?firstname=Иван&firstname=Мария");
    assert_eq!(response.body, "female");
}

#[test]
fn error_messages_and_json_gender() {
    let response = get("/decline?firstname=Иван&case=9");
    assert_eq!(response.body, "unknown case \"9\" (want 1-6 or genitive/…)");
    let response = get("/decline?firstname=Иван&sex=X");
    assert_eq!(response.body, "unknown sex \"x\" (want male/female/auto)");
    let response = get("/api/v1/gender?firstname=Саша");
    assert_eq!(response.content_type, "application/json; charset=utf-8");
    assert_eq!(response.body, "{\"gender\":\"androgynous\"}");
    let response = get("/decline?firstname=%20%20");
    assert_eq!(response.status, 400);
    assert_eq!(
        response.body,
        "at least one of lastname/firstname/middlename is required"
    );
    let response = get("/decline?firstname=Иван&case=ДТ&sex=м");
    assert_eq!(response.body, "Ивану");
    let response = get("/api/v1/appoint?appointment=a%22b%5Cc%01&case=1");
    assert_eq!(response.body, "{\"appointment\":\"a\\\"b\\\\c\\u0001\"}");
}

#[test]
fn reason_phrases() {
    assert_eq!(reason(200), "OK");
    assert_eq!(reason(400), "Bad Request");
    assert_eq!(reason(404), "Not Found");
    assert_eq!(reason(500), "Error");
}

#[test]
fn plain_text_decodes_to_itself() {
    assert_eq!(url_decode("Иванов").unwrap(), "Иванов");
    assert_eq!(url_decode("a=b&c").unwrap(), "a=b&c");
}

#[test]
fn request_heads_are_answered() {
    let r = respond("GET /gender?firstname=%D0%A1%D0%B0%D1%88%D0%B0 HTTP/1.1\r\nHost: x\r\n\r\n");
    assert_eq!(r.status, 200);
    assert_eq!(r.body, "androgynous");
    let r = respond("GET /health HTTP/1.1\r\n\r\n");
    assert_eq!(r.body, "ok");
    let r = respond("POST /health HTTP/1.1\r\n\r\n");
    assert_eq!(r.status, 404);
    assert_eq!(r.body, "only GET is supported");
    let r = respond("GET /decline?firstname=%ZZ HTTP/1.1\r\n\r\n");
    assert_eq!(r.status, 400);
    assert_eq!(r.body, "bad percent-encoding");
    assert_eq!(respond("").status, 404);
}

#[test]
fn responses_on_the_wire() {
    let r = Response {
        status: 200,
        content_type: "text/plain; charset=utf-8",
        body: "Иван".to_owned(),
    };
    assert_eq!(
        r.to_wire(),
        "HTTP/1.1 200 OK\r\nContent-Type: text/plain; charset=utf-8\r\nContent-Length: 8\r\nConnection: close\r\n\r\nИван"
    );
    let r = Response {
        status: 404,
        content_type: "text/plain; charset=utf-8",
        body: String::new(),
    };
    assert_eq!(
        r.to_wire(),
        "HTTP/1.1 404 Not Found\r\nContent-Type: text/plain; charset=utf-8\r\nContent-Length: 0\r\nConnection: close\r\n\r\n"
    );
}

#[test]
fn reading_a_request_head() {
    assert_eq!(read_step(&b"GET / HTTP/1.1\r\n".to_vec()), ReadStep::Continue);
    assert_eq!(read_step(&b"GET / HTTP/1.1\r\n\r\n".to_vec()), ReadStep::Complete);
    assert_eq!(read_step(&Vec::new()), ReadStep::Continue);
    assert_eq!(read_step(&vec![b'a'; 65537]), ReadStep::Abandon);
    assert_eq!(read_step(&vec![b'a'; 65536]), ReadStep::Continue);
}

#[test]
fn percent_encoding_round_trip() {
    assert_eq!(url_decode("%D0%98%D0%B2%D0%B0%D0%BD").unwrap(), "Иван");
    assert_eq!(url_decode("%25%2B%26").unwrap(), "%+&");
    assert_eq!(url_decode("a+b").unwrap(), "a b");
    let params = parse_query("k=%31&k=%32&j=3").unwrap();
    assert_eq!(params.len(), 3);
    assert!(parse_query("k=1&%ZZ=2").is_err());
}
