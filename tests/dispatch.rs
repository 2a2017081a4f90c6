use hsm_onboarding::dispatch::{Action, Dispatcher, Event, Phase, Request};
use hsm_onboarding::envelope::decode;
use hsm_onboarding::hsm::hashicorp_vault::verify_arguments;
use hsm_onboarding::hsm::Error;
use hsm_onboarding::{Bytes, Signature};

/// What a stub backend saw, in order.
#[derive(Debug, PartialEq)]
enum Call {
    Sign(Vec<u8>),
    Verify(Vec<u8>, String),
}

struct Stub {
    calls: Vec<Call>,
    in_flight: usize,
    max_in_flight: usize,
    fail_on: Option<usize>,
    replies: Vec<Signature>,
    verdicts: Vec<bool>,
    receiver_gone: bool,
}

impl Stub {
    fn new(fail_on: Option<usize>) -> Stub {
        Stub {
            calls: vec![],
            in_flight: 0,
            max_in_flight: 0,
            fail_on,
            replies: vec![],
            verdicts: vec![],
            receiver_gone: false,
        }
    }

    fn start(&mut self, call: Call) -> bool {
        self.in_flight += 1;
        self.max_in_flight = self.max_in_flight.max(self.in_flight);
        self.calls.push(call);
        self.fail_on == Some(self.calls.len())
    }
}

/// Runs the loop over the requests against the stub, as an application would.
fn drive(stub: &mut Stub, requests: Vec<Request>) -> Result<(), Error> {
    let mut queue = requests.into_iter();
    let mut d = Dispatcher::new();
    let mut action = Action::Fetch;
    loop {
        let event = match action {
            Action::Fetch => match queue.next() {
                Some(r) => Event::Received(r),
                None => Event::EndOfInput,
            },
            Action::Sign(p) => {
                let fails = stub.start(Call::Sign(p.0.clone()));
                stub.in_flight -= 1;
                if fails {
                    Event::Signed(Err(Error::unexpected_response("boom".to_string())))
                } else {
                    Event::Signed(decode("vault:v1:aGVsbG8=".to_string()))
                }
            }
            Action::Verify(p, s) => {
                let (_, envelope) = verify_arguments(&p, &s);
                let fails = stub.start(Call::Verify(p.0.clone(), envelope));
                stub.in_flight -= 1;
                if fails {
                    Event::Verified(Err(Error::unexpected_response("boom".to_string())))
                } else {
                    Event::Verified(Ok(true))
                }
            }
            Action::Reply(sig) => {
                if stub.receiver_gone {
                    Event::Replied(false)
                } else {
                    stub.replies.push(sig);
                    Event::Replied(true)
                }
            }
            Action::Report(v) => {
                stub.verdicts.push(v);
                Event::Reported
            }
            Action::Finish(r) => return r,
        };
        assert!(d.can_accept(&event));
        action = d.step(event);
    }
}

fn hello() -> Bytes {
    Bytes(b"Hello, world".to_vec())
}

#[test]
fn end_to_end_sign_then_verify() {
    let mut stub = Stub::new(None);
    drive(&mut stub, vec![Request::Sign(hello())]).unwrap();
    assert_eq!(stub.replies.len(), 1);
    let sig = stub.replies[0].clone();
    assert_eq!(sig.derivation, "v1");
    assert_eq!(sig.data, b"hello".to_vec());
    drive(&mut stub, vec![Request::Verify(hello(), sig)]).unwrap();
    assert_eq!(
        stub.calls,
        vec![
            Call::Sign(b"Hello, world".to_vec()),
            Call::Verify(b"Hello, world".to_vec(), "vault:v1:aGVsbG8=".to_string()),
        ]
    );
    assert_eq!(stub.verdicts, vec![true]);
}

#[test]
fn requests_are_served_one_at_a_time_in_order() {
    let mut stub = Stub::new(None);
    let sig = Signature { derivation: "v1".to_string(), data: b"hello".to_vec() };
    let mut requests = vec![];
    for i in 0..6u8 {
        if i % 2 == 0 {
            requests.push(Request::Sign(Bytes(vec![i])));
        } else {
            requests.push(Request::Verify(Bytes(vec![i]), sig.clone()));
        }
    }
    drive(&mut stub, requests).unwrap();
    assert_eq!(stub.calls.len(), 6);
    assert_eq!(stub.max_in_flight, 1);
    for (i, call) in stub.calls.iter().enumerate() {
        match call {
            Call::Sign(p) | Call::Verify(p, _) => assert_eq!(p, &vec![i as u8]),
        }
    }
}

#[test]
fn dropped_reply_is_not_an_error() {
    let mut stub = Stub::new(None);
    stub.receiver_gone = true;
    let r = drive(&mut stub, vec![Request::Sign(hello()), Request::Sign(hello())]);
    assert!(r.is_ok());
    assert_eq!(stub.calls.len(), 2);
    assert!(stub.replies.is_empty());
}

#[test]
fn dropped_reply_returns_to_idle() {
    let mut d = Dispatcher::new();
    let a = d.step(Event::Received(Request::Sign(hello())));
    assert!(matches!(a, Action::Sign(_)));
    let a = d.step(Event::Signed(decode("vault:v1:aGVsbG8=".to_string())));
    assert!(matches!(a, Action::Reply(_)));
    assert_eq!(d.phase, Phase::Replying);
    let a = d.step(Event::Replied(false));
    assert!(matches!(a, Action::Fetch));
    assert_eq!(d.phase, Phase::Idle);
}

#[test]
fn third_failure_stops_the_loop() {
    let mut stub = Stub::new(Some(3));
    let sig = Signature { derivation: "v1".to_string(), data: b"hello".to_vec() };
    let requests = vec![
        Request::Sign(Bytes(vec![1])),
        Request::Verify(Bytes(vec![2]), sig.clone()),
        Request::Sign(Bytes(vec![3])),
        Request::Sign(Bytes(vec![4])),
        Request::Verify(Bytes(vec![5]), sig),
    ];
    match drive(&mut stub, requests) {
        Err(Error::UnexpectedResponse(text)) => assert_eq!(text, "boom"),
        other => panic!("unexpected outcome: {:?}", other),
    }
    assert_eq!(stub.calls.len(), 3);
    assert_eq!(stub.calls[2], Call::Sign(vec![3]));
}

#[test]
fn failed_loop_takes_no_more_events() {
    let mut d = Dispatcher::new();
    d.step(Event::Received(Request::Verify(hello(), Signature {
        derivation: "v1".to_string(),
        data: vec![],
    })));
    let a = d.step(Event::Verified(Err(Error::unexpected_response("x".to_string()))));
    assert!(matches!(a, Action::Finish(Err(Error::UnexpectedResponse(_)))));
    assert_eq!(d.phase, Phase::Failed);
    assert!(!d.can_accept(&Event::Received(Request::Sign(hello()))));
    assert!(!d.can_accept(&Event::EndOfInput));
}

#[test]
fn empty_input_finishes_cleanly() {
    let mut d = Dispatcher::new();
    assert!(!d.can_accept(&Event::Reported));
    let a = d.step(Event::EndOfInput);
    assert!(matches!(a, Action::Finish(Ok(()))));
    assert_eq!(d.phase, Phase::Drained);
}

#[test]
fn signing_failure_from_bad_envelope_stops_the_loop() {
    let mut d = Dispatcher::new();
    d.step(Event::Received(Request::Sign(hello())));
    let a = d.step(Event::Signed(decode("vault:v1".to_string())));
    match a {
        Action::Finish(Err(Error::UnexpectedResponse(text))) => assert_eq!(text, "vault:v1"),
        other => panic!("unexpected action: {:?}", other),
    }
}
