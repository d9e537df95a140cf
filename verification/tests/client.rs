use std::cell::RefCell;
use std::collections::VecDeque;
use std::rc::Rc;

use atat::client::Client;
use atat::codec;
use atat::commands::{
    Functionality, MessageWaitingIndication, NoResponse, ResetMode, SetModuleFunctionality,
    Test2Cmd, TestRespStringCmd, TestRespStringMixCmd, TestResponseString,
    TestResponseStringMixed, Urc,
};
use atat::traits::{CommandSink, Countdown, ResponseSource, SerialTx, TxOutcome, UrcSource};
use atat::types::{ClientState, Command, Config, Error, Mode, NbError};
use vstd::prelude::{nat, Seq};

struct TxMock {
    buf: Rc<RefCell<Vec<u8>>>,
}

impl SerialTx for TxMock {
    fn written(&self) -> Seq<u8> {
        unreachable!()
    }

    fn budget(&self) -> nat {
        unreachable!()
    }

    fn write(&mut self, byte: u8) -> TxOutcome {
        self.buf.borrow_mut().push(byte);
        TxOutcome::Done
    }

    fn flush(&mut self) -> TxOutcome {
        TxOutcome::Done
    }
}

struct TxFailMock;

impl SerialTx for TxFailMock {
    fn written(&self) -> Seq<u8> {
        unreachable!()
    }

    fn budget(&self) -> nat {
        unreachable!()
    }

    fn write(&mut self, _byte: u8) -> TxOutcome {
        TxOutcome::Failed
    }

    fn flush(&mut self) -> TxOutcome {
        TxOutcome::Failed
    }
}

struct CdMock {
    starts: Rc<RefCell<Vec<u32>>>,
    waits: Rc<RefCell<u32>>,
}

impl Countdown for CdMock {
    fn armed(&self) -> Option<u32> {
        unreachable!()
    }

    fn elapsed_count(&self) -> nat {
        unreachable!()
    }

    fn remaining(&self) -> nat {
        unreachable!()
    }

    fn start(&mut self, duration_ms: u32) {
        self.starts.borrow_mut().push(duration_ms);
    }

    fn wait(&mut self) -> bool {
        *self.waits.borrow_mut() += 1;
        true
    }
}

struct ResMock {
    q: Rc<RefCell<VecDeque<Result<Vec<u8>, Error>>>>,
}

impl ResponseSource for ResMock {
    fn pending(&self) -> Seq<Result<Vec<u8>, Error>> {
        unreachable!()
    }

    fn quiet(&self) -> nat {
        unreachable!()
    }

    fn dequeue(&mut self) -> Option<Result<Vec<u8>, Error>> {
        self.q.borrow_mut().pop_front()
    }
}

struct UrcMock {
    q: Rc<RefCell<VecDeque<Vec<u8>>>>,
}

impl UrcSource for UrcMock {
    fn pending(&self) -> Seq<Vec<u8>> {
        unreachable!()
    }

    fn ready(&self) -> bool {
        !self.q.borrow().is_empty()
    }

    fn dequeue(&mut self) -> Vec<u8> {
        self.q.borrow_mut().pop_front().unwrap()
    }
}

struct ComMock {
    q: Rc<RefCell<Vec<Command>>>,
}

impl CommandSink for ComMock {
    fn sent(&self) -> Seq<Command> {
        unreachable!()
    }

    fn enqueue(&mut self, com: Command) -> bool {
        self.q.borrow_mut().push(com);
        true
    }
}

struct Harness {
    client: Client<TxMock, CdMock, ResMock, UrcMock, ComMock>,
    res: Rc<RefCell<VecDeque<Result<Vec<u8>, Error>>>>,
    urc: Rc<RefCell<VecDeque<Vec<u8>>>>,
    com: Rc<RefCell<Vec<Command>>>,
    tx: Rc<RefCell<Vec<u8>>>,
    starts: Rc<RefCell<Vec<u32>>>,
    waits: Rc<RefCell<u32>>,
}

fn setup(config: Config) -> Harness {
    let res = Rc::new(RefCell::new(VecDeque::new()));
    let urc = Rc::new(RefCell::new(VecDeque::new()));
    let com = Rc::new(RefCell::new(Vec::new()));
    let tx = Rc::new(RefCell::new(Vec::new()));
    let starts = Rc::new(RefCell::new(Vec::new()));
    let waits = Rc::new(RefCell::new(0u32));
    let client = Client::new(
        TxMock { buf: tx.clone() },
        ResMock { q: res.clone() },
        UrcMock { q: urc.clone() },
        ComMock { q: com.clone() },
        CdMock { starts: starts.clone(), waits: waits.clone() },
        config,
    );
    Harness { client, res, urc, com, tx, starts, waits }
}

#[test]
fn string_sent() {
    let mut h = setup(Config::new(Mode::Blocking));

    let cmd = SetModuleFunctionality { fun: Functionality::APM, rst: Some(ResetMode::DontReset) };

    h.res.borrow_mut().push_back(Ok(Vec::new()));

    assert_eq!(h.client.state, ClientState::Idle);
    assert_eq!(h.client.send(&cmd), Ok(NoResponse));
    assert_eq!(h.client.state, ClientState::Idle);

    assert_eq!(*h.tx.borrow(), b"AT+CFUN=4,0\r\n".to_vec(), "Wrong encoding of string");

    h.res.borrow_mut().push_back(Ok(Vec::new()));

    let cmd = Test2Cmd { fun: Functionality::DM, rst: Some(ResetMode::Reset) };
    assert_eq!(h.client.send(&cmd), Ok(NoResponse));

    assert_eq!(
        *h.tx.borrow(),
        b"AT+CFUN=4,0\r\nAT+FUN=1,6\r\n".to_vec(),
        "Reverse order string did not match"
    );
}

#[test]
fn blocking() {
    let mut h = setup(Config::new(Mode::Blocking));

    let cmd = SetModuleFunctionality { fun: Functionality::APM, rst: Some(ResetMode::DontReset) };

    h.res.borrow_mut().push_back(Ok(Vec::new()));

    assert_eq!(h.client.state, ClientState::Idle);
    assert_eq!(h.client.send(&cmd), Ok(NoResponse));
    assert_eq!(h.client.state, ClientState::Idle);
    assert_eq!(*h.tx.borrow(), b"AT+CFUN=4,0\r\n".to_vec());
}

#[test]
fn non_blocking() {
    let mut h = setup(Config::new(Mode::NonBlocking));

    let cmd = SetModuleFunctionality { fun: Functionality::APM, rst: Some(ResetMode::DontReset) };

    assert_eq!(h.client.state, ClientState::Idle);
    assert_eq!(h.client.send(&cmd), Err(NbError::WouldBlock));
    assert_eq!(h.client.state, ClientState::AwaitingResponse);

    assert_eq!(h.client.check_response(&cmd), Err(NbError::WouldBlock));

    h.res.borrow_mut().push_back(Ok(Vec::new()));

    assert_eq!(h.client.state, ClientState::AwaitingResponse);

    assert_eq!(h.client.check_response(&cmd), Ok(NoResponse));
    assert_eq!(h.client.state, ClientState::Idle);
}

#[test]
fn response_string() {
    let mut h = setup(Config::new(Mode::Blocking));

    // String last
    let cmd = TestRespStringCmd { fun: Functionality::APM, rst: Some(ResetMode::DontReset) };

    h.res.borrow_mut().push_back(Ok(b"+CUN: 22,16,\"0123456789012345\"".to_vec()));

    assert_eq!(h.client.state, ClientState::Idle);

    assert_eq!(
        h.client.send(&cmd),
        Ok(TestResponseString { socket: 22, length: 16, data: b"0123456789012345".to_vec() })
    );
    assert_eq!(h.client.state, ClientState::Idle);

    // Mixed order for string
    let cmd = TestRespStringMixCmd { fun: Functionality::APM, rst: Some(ResetMode::DontReset) };

    h.res.borrow_mut().push_back(Ok(b"+CUN: \"0123456789012345\",22,16".to_vec()));

    assert_eq!(
        h.client.send(&cmd),
        Ok(TestResponseStringMixed { socket: 22, length: 16, data: b"0123456789012345".to_vec() })
    );
    assert_eq!(h.client.state, ClientState::Idle);
}

#[test]
fn urc() {
    let mut h = setup(Config::new(Mode::NonBlocking));

    h.urc.borrow_mut().push_back(b"+UMWI: 0, 1".to_vec());

    assert_eq!(h.client.state, ClientState::Idle);
    assert!(h.client.check_urc::<Urc>().is_some());
    assert_eq!(h.client.state, ClientState::Idle);
}

#[test]
fn invalid_response() {
    let mut h = setup(Config::new(Mode::Blocking));

    // String last
    let cmd = TestRespStringCmd { fun: Functionality::APM, rst: Some(ResetMode::DontReset) };

    h.res.borrow_mut().push_back(Ok(b"+CUN: 22,16,22".to_vec()));

    assert_eq!(h.client.state, ClientState::Idle);
    assert_eq!(h.client.send(&cmd), Err(NbError::Other(Error::ParseString)));
    assert_eq!(h.client.state, ClientState::Idle);
}

#[test]
fn urc_value() {
    let mut h = setup(Config::new(Mode::NonBlocking));

    h.urc.borrow_mut().push_back(b"+UMWI: 0, 1".to_vec());

    assert_eq!(
        h.client.check_urc::<Urc>(),
        Some(Urc::MessageWaitingIndication(MessageWaitingIndication { status: 0, code: 1 }))
    );
    // Consuming the URC rearmed the cooldown with the configured quiet time.
    assert_eq!(*h.starts.borrow(), vec![20]);
}

#[test]
fn urc_unparsable_still_consumed() {
    let mut h = setup(Config::new(Mode::NonBlocking));

    h.urc.borrow_mut().push_back(b"+OTHER: 7".to_vec());

    assert_eq!(h.client.check_urc::<Urc>(), None);
    assert!(h.urc.borrow().is_empty());
    // The frame was consumed from the link, so the cooldown was rearmed.
    assert_eq!(*h.starts.borrow(), vec![20]);
}

#[test]
fn urc_empty_queue() {
    let mut h = setup(Config::new(Mode::NonBlocking));

    assert_eq!(h.client.check_urc::<Urc>(), None);
    assert!(h.starts.borrow().is_empty());
}

#[test]
fn timeout_on_empty_queue() {
    let mut h = setup(Config::new(Mode::Timeout));

    let cmd = Test2Cmd { fun: Functionality::DM, rst: Some(ResetMode::Reset) };

    assert_eq!(h.client.state, ClientState::Idle);
    assert_eq!(h.client.send(&cmd), Err(NbError::Other(Error::Timeout)));
    assert_eq!(h.client.state, ClientState::Idle);
    assert_eq!(h.client.get_mode(), Mode::Timeout);
    // The response timer was armed with the command's own bound.
    assert_eq!(*h.starts.borrow(), vec![180000]);
    // The ingress side was asked to discard its partial buffer.
    assert_eq!(*h.com.borrow(), vec![Command::ClearBuffer]);
}

#[test]
fn write_error_surfaces() {
    let res: Rc<RefCell<VecDeque<Result<Vec<u8>, Error>>>> = Rc::new(RefCell::new(VecDeque::new()));
    let urc: Rc<RefCell<VecDeque<Vec<u8>>>> = Rc::new(RefCell::new(VecDeque::new()));
    let com: Rc<RefCell<Vec<Command>>> = Rc::new(RefCell::new(Vec::new()));
    let starts: Rc<RefCell<Vec<u32>>> = Rc::new(RefCell::new(Vec::new()));
    let waits: Rc<RefCell<u32>> = Rc::new(RefCell::new(0));
    let mut client = Client::new(
        TxFailMock,
        ResMock { q: res.clone() },
        UrcMock { q: urc.clone() },
        ComMock { q: com.clone() },
        CdMock { starts: starts.clone(), waits: waits.clone() },
        Config::new(Mode::Blocking),
    );

    let cmd = SetModuleFunctionality { fun: Functionality::APM, rst: Some(ResetMode::DontReset) };

    assert_eq!(client.send(&cmd), Err(NbError::Other(Error::Write)));
    assert_eq!(client.state, ClientState::Idle);
}

#[test]
fn ingress_error_surfaces() {
    let mut h = setup(Config::new(Mode::Blocking));

    let cmd = SetModuleFunctionality { fun: Functionality::APM, rst: Some(ResetMode::DontReset) };

    h.res.borrow_mut().push_back(Err(Error::Read));

    assert_eq!(h.client.send(&cmd), Err(NbError::Other(Error::Read)));
    assert_eq!(h.client.state, ClientState::Idle);
}

#[test]
fn stale_response_discarded() {
    let mut h = setup(Config::new(Mode::Blocking));

    let cmd = SetModuleFunctionality { fun: Functionality::APM, rst: Some(ResetMode::DontReset) };

    // A late frame arrives while no command is in flight.
    h.res.borrow_mut().push_back(Ok(b"stale".to_vec()));

    assert_eq!(h.client.state, ClientState::Idle);
    assert_eq!(h.client.check_response(&cmd), Err(NbError::WouldBlock));
    assert_eq!(h.client.state, ClientState::Idle);
    // The frame was dropped and the cooldown was not rearmed.
    assert!(h.res.borrow().is_empty());
    assert!(h.starts.borrow().is_empty());
}

#[test]
fn one_cooldown_poll_per_send() {
    let mut h = setup(Config::new(Mode::Blocking));

    let cmd = SetModuleFunctionality { fun: Functionality::APM, rst: Some(ResetMode::DontReset) };

    h.res.borrow_mut().push_back(Ok(Vec::new()));
    assert_eq!(h.client.send(&cmd), Ok(NoResponse));
    assert_eq!(*h.waits.borrow(), 1);

    h.res.borrow_mut().push_back(Ok(Vec::new()));
    assert_eq!(h.client.send(&cmd), Ok(NoResponse));
    assert_eq!(*h.waits.borrow(), 2);

    // Each consumed response rearmed the cooldown.
    assert_eq!(*h.starts.borrow(), vec![20, 20]);
}

#[test]
fn no_reemission_while_awaiting() {
    let mut h = setup(Config::new(Mode::NonBlocking));

    let cmd = SetModuleFunctionality { fun: Functionality::APM, rst: Some(ResetMode::DontReset) };

    assert_eq!(h.client.send(&cmd), Err(NbError::WouldBlock));
    assert_eq!(*h.tx.borrow(), b"AT+CFUN=4,0\r\n".to_vec());

    assert_eq!(h.client.send(&cmd), Err(NbError::WouldBlock));
    assert_eq!(*h.tx.borrow(), b"AT+CFUN=4,0\r\n".to_vec());

    h.res.borrow_mut().push_back(Ok(Vec::new()));
    assert_eq!(h.client.send(&cmd), Ok(NoResponse));
    assert_eq!(*h.tx.borrow(), b"AT+CFUN=4,0\r\n".to_vec());
    assert_eq!(h.client.state, ClientState::Idle);
}

#[test]
fn overflow_argument() {
    let mut h = setup(Config::new(Mode::Blocking));

    let cmd = TestRespStringCmd { fun: Functionality::APM, rst: Some(ResetMode::DontReset) };

    h.res.borrow_mut().push_back(Ok(b"+CUN: 300,16,\"a\"".to_vec()));

    assert_eq!(h.client.send(&cmd), Err(NbError::Other(Error::Overflow)));
    assert_eq!(h.client.state, ClientState::Idle);
}

#[test]
fn malformed_argument_list() {
    let mut h = setup(Config::new(Mode::Blocking));

    let cmd = TestRespStringCmd { fun: Functionality::APM, rst: Some(ResetMode::DontReset) };

    h.res.borrow_mut().push_back(Ok(b"+NOPE: 22,16,\"a\"".to_vec()));

    assert_eq!(h.client.send(&cmd), Err(NbError::Other(Error::InvalidResponse)));
    assert_eq!(h.client.state, ClientState::Idle);
}

#[test]
fn decimal_token_parsing() {
    assert_eq!(codec::parse_u64(&b"0".to_vec()), Ok(0));
    assert_eq!(codec::parse_u64(&b"18446744073709551615".to_vec()), Ok(u64::MAX));
    assert_eq!(codec::parse_u64(&b"18446744073709551616".to_vec()), Err(Error::Overflow));
    assert_eq!(codec::parse_u64(&b"".to_vec()), Err(Error::InvalidResponse));
    assert_eq!(codec::parse_u64(&b"12x".to_vec()), Err(Error::InvalidResponse));
}

#[test]
fn quoted_comma_does_not_split() {
    let mut h = setup(Config::new(Mode::Blocking));

    let cmd = TestRespStringCmd { fun: Functionality::APM, rst: Some(ResetMode::DontReset) };

    h.res.borrow_mut().push_back(Ok(b"+CUN: 7,3,\"a,b\"".to_vec()));

    assert_eq!(
        h.client.send(&cmd),
        Ok(TestResponseString { socket: 7, length: 3, data: b"a,b".to_vec() })
    );
}

#[test]
fn config_accessors() {
    let config = Config::new(Mode::NonBlocking).cmd_cooldown(50);
    assert_eq!(config.mode, Mode::NonBlocking);
    assert_eq!(config.cmd_cooldown, 50);

    let h = setup(Config::new(Mode::Blocking));
    assert_eq!(h.client.get_mode(), Mode::Blocking);
}

#[test]
fn optional_argument_omitted() {
    let mut h = setup(Config::new(Mode::Blocking));

    let cmd = Test2Cmd { fun: Functionality::Full, rst: None };

    h.res.borrow_mut().push_back(Ok(Vec::new()));

    assert_eq!(h.client.send(&cmd), Ok(NoResponse));
    assert_eq!(*h.tx.borrow(), b"AT+FUN=1\r\n".to_vec());
}

#[test]
fn decimal_serialization() {
    let mut v: Vec<u8> = Vec::new();
    codec::push_dec(&mut v, 0);
    codec::push_dec(&mut v, 45);
    codec::push_dec(&mut v, 207);
    assert_eq!(v, b"045207".to_vec());

    let mut line: Vec<u8> = Vec::new();
    codec::push_args(&mut line, 128, Some(9));
    assert_eq!(line, b"=128,9\r\n".to_vec());
}
