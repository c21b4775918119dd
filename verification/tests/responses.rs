//! What a call shows for each way its request can end.

use foaas::{
    awesome, ballmer, check_status, decoded, get_message, report, ApiResponse, Failure, Status,
};

fn phrase(message: &str, subtitle: &str) -> ApiResponse {
    ApiResponse { message: String::from(message), subtitle: String::from(subtitle) }
}

fn status(code: u16) -> Status {
    match Status::from_u16(code) {
        Some(status) => status,
        None => panic!("{} is no status code", code),
    }
}

/// Runs the steps of one call on what a transport would hand back: how
/// sending ended, and how decoding the body ends if it is tried.
fn call(sent: Result<Status, String>, body: Result<ApiResponse, String>) -> ApiResponse {
    let status = match sent {
        Ok(status) => status,
        Err(reason) => return get_message(Err(Failure::Transport(reason))),
    };
    match check_status(status) {
        Ok(()) => get_message(decoded(body)),
        Err(failure) => get_message(Err(failure)),
    }
}

#[test]
fn a_decoded_reply_is_shown_as_it_came() {
    assert_eq!(awesome("alice"), "https://foaas.com/awesome/alice");
    let shown = call(Ok(status(200)), Ok(phrase("M", "S")));
    assert_eq!(shown, phrase("M", "S"));
    assert_eq!(shown.message, "M");
    assert_eq!(shown.subtitle, "S");
}

#[test]
fn a_server_error_is_shown_as_an_error() {
    assert_eq!(awesome("alice"), "https://foaas.com/awesome/alice");
    let shown = call(Ok(status(500)), Ok(phrase("M", "S")));
    assert!(shown.message.starts_with("Error: "));
    assert_eq!(shown.message, "Error: 500 Internal Server Error");
    assert_eq!(shown.subtitle, "error");
}

#[test]
fn a_body_without_subtitle_is_shown_as_an_error() {
    let reason = "error decoding response body: missing field `subtitle` at line 1 column 15";
    let shown = call(Ok(status(200)), Err(String::from(reason)));
    assert_eq!(
        shown.message,
        "Error: error decoding response body: missing field `subtitle` at line 1 column 15"
    );
    assert_eq!(shown.subtitle, "error");
    assert_ne!(shown.message, "M");
}

#[test]
fn a_transport_failure_is_shown_as_an_error() {
    let reason = "error sending request for url (https://foaas.com/awesome/alice): \
                  error trying to connect: dns error";
    let shown = call(Err(String::from(reason)), Ok(phrase("M", "S")));
    assert_eq!(
        shown.message,
        "Error: error sending request for url (https://foaas.com/awesome/alice): \
         error trying to connect: dns error"
    );
    assert_eq!(shown.subtitle, "error");
}

#[test]
fn only_status_200_lets_the_body_count() {
    assert_eq!(check_status(status(200)), Ok(()));
    for code in [100u16, 199, 201, 204, 206, 299, 301, 304, 400, 404, 418, 500, 503, 999] {
        assert_eq!(check_status(status(code)), Err(Failure::Status(status(code))));
        let shown = call(Ok(status(code)), Ok(phrase("M", "S")));
        assert_eq!(shown.subtitle, "error");
        assert!(shown.message.starts_with(&format!("Error: {} ", code)));
    }
}

#[test]
fn decoded_keeps_the_reply_or_the_decoders_reason() {
    assert_eq!(decoded(Ok(phrase("M", "S"))), Ok(phrase("M", "S")));
    assert_eq!(decoded(Ok(phrase("", ""))), Ok(phrase("", "")));
    assert_eq!(
        decoded(Err(String::from("expected value at line 1 column 1"))),
        Err(Failure::Decode(String::from("expected value at line 1 column 1")))
    );
}

#[test]
fn get_message_returns_the_reply_untouched() {
    assert_eq!(get_message(Ok(phrase("Awesome.", "- alice"))), phrase("Awesome.", "- alice"));
    assert_eq!(get_message(Ok(phrase("", ""))), phrase("", ""));
    assert_eq!(get_message(Ok(phrase("Error: x", "error"))), phrase("Error: x", "error"));
}

#[test]
fn get_message_reports_each_kind_of_failure() {
    assert_eq!(
        get_message(Err(Failure::Transport(String::from("dns error")))),
        phrase("Error: dns error", "error")
    );
    assert_eq!(
        get_message(Err(Failure::Status(status(404)))),
        phrase("Error: 404 Not Found", "error")
    );
    assert_eq!(
        get_message(Err(Failure::Decode(String::from("EOF while parsing a value")))),
        phrase("Error: EOF while parsing a value", "error")
    );
    assert_eq!(get_message(Err(Failure::Transport(String::new()))), phrase("Error: ", "error"));
}

#[test]
fn report_puts_the_prefix_before_the_description() {
    assert_eq!(report("dns error"), phrase("Error: dns error", "error"));
    assert_eq!(report(""), phrase("Error: ", "error"));
    assert_eq!(report("Error: again"), phrase("Error: Error: again", "error"));
}

#[test]
fn failures_describe_themselves() {
    assert_eq!(Failure::Transport(String::from("timed out")).describe(), "timed out");
    assert_eq!(Failure::Status(status(503)).describe(), "503 Service Unavailable");
    assert_eq!(Failure::Decode(String::from("bad json")).describe(), "bad json");
}

#[test]
fn a_status_has_three_digits() {
    assert_eq!(Status::from_u16(0), None);
    assert_eq!(Status::from_u16(99), None);
    assert_eq!(Status::from_u16(1000), None);
    assert_eq!(Status::from_u16(u16::MAX), None);
    for code in [100u16, 200, 404, 599, 600, 999] {
        assert_eq!(status(code).as_u16(), code);
    }
}

#[test]
fn only_200_is_ok() {
    assert!(status(200).is_ok());
    for code in [100u16, 199, 201, 202, 204, 299, 300, 404, 500, 999] {
        assert!(!status(code).is_ok());
    }
}

#[test]
fn a_status_prints_its_number_and_reason() {
    assert_eq!(status(200).describe(), "200 OK");
    assert_eq!(status(404).describe(), "404 Not Found");
    assert_eq!(status(418).describe(), "418 I'm a teapot");
    assert_eq!(status(500).describe(), "500 Internal Server Error");
    assert_eq!(status(799).describe(), "799 <unknown status code>");
}

#[test]
fn every_status_prints_its_three_digits_first() {
    for code in 100u16..=999 {
        let line = status(code).describe();
        assert!(line.starts_with(&format!("{} ", code)), "{:?}", line);
        assert!(line.len() > 4, "{:?}", line);
        let shown = get_message(Err(Failure::Status(status(code))));
        assert_eq!(shown.message, format!("Error: {}", line));
        assert_eq!(shown.subtitle, "error");
    }
}

#[test]
fn what_is_shown_is_a_reply_or_an_error() {
    let sends = [
        Ok(200u16),
        Ok(201),
        Ok(404),
        Ok(500),
        Err("connection reset"),
    ];
    let bodies = [Ok(("M", "S")), Ok(("x", "y")), Err("trailing characters at line 1 column 3")];
    for sent in sends {
        for body in bodies {
            let shown = call(
                sent.map(status).map_err(String::from),
                body.map(|(message, subtitle)| phrase(message, subtitle)).map_err(String::from),
            );
            match (sent, body) {
                (Ok(200), Ok((message, subtitle))) => {
                    assert_eq!(shown, phrase(message, subtitle));
                    assert!(!shown.message.is_empty() && !shown.subtitle.is_empty());
                }
                _ => {
                    assert_eq!(shown.subtitle, "error");
                    assert!(shown.message.starts_with("Error: "));
                }
            }
        }
    }
}

#[test]
fn calls_in_flight_together_do_not_mix() {
    let froms = ["ann", "bob", "cyd", "dee", "eve", "fay"];
    let urls: Vec<String> = froms.iter().map(|from| ballmer("x", "y", from)).collect();

    // Every request is out before any reply is looked at, and the replies
    // are taken up in another order than the requests went out.
    let order = [4usize, 0, 5, 2, 1, 3];
    let mut going_on: Vec<Option<Result<(), Failure>>> = froms.iter().map(|_| None).collect();
    for &i in order.iter() {
        going_on[i] = Some(match i % 3 {
            0 => check_status(status(200)),
            1 => check_status(status(500 + i as u16)),
            _ => Err(Failure::Transport(format!("no route to host for {}", froms[i]))),
        });
    }
    let mut shown: Vec<Option<ApiResponse>> = froms.iter().map(|_| None).collect();
    for &i in order.iter().rev() {
        let outcome = match going_on[i].take() {
            Some(Ok(())) => decoded(Ok(phrase(&format!("Hello {}", froms[i]), "- x"))),
            Some(Err(failure)) => Err(failure),
            None => panic!("call {} was never sent", i),
        };
        shown[i] = Some(get_message(outcome));
    }

    assert_eq!(urls[0], "https://foaas.com/ballmer/x/y/ann");
    assert_eq!(urls[5], "https://foaas.com/ballmer/x/y/fay");
    assert_eq!(shown[0], Some(phrase("Hello ann", "- x")));
    assert_eq!(shown[1], Some(phrase("Error: 501 Not Implemented", "error")));
    assert_eq!(shown[2], Some(phrase("Error: no route to host for cyd", "error")));
    assert_eq!(shown[3], Some(phrase("Hello dee", "- x")));
    assert_eq!(shown[4], Some(phrase("Error: 504 Gateway Timeout", "error")));
    assert_eq!(shown[5], Some(phrase("Error: no route to host for fay", "error")));
}
