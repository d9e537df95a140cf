//! Concrete command, response and URC schemas.
//!
//! These are hand-written instances of the schema contract in
//! [`crate::traits`]: each command declares its tag, its positional
//! arguments, its response shape, and its dispatch attributes, and its
//! serializer and parser are verified against the grammar in
//! [`crate::codec`].

use vstd::prelude::*;

use crate::codec;
use crate::traits::{AtatCmd, AtatUrc};
use crate::types::Error;

verus! {

// ---------------------------------------------------------------------------
// Argument value enumerations
// ---------------------------------------------------------------------------

/// Module functionality levels, serialized as their numeric codes.
#[derive(Clone, Copy, PartialEq, Eq, Structural, Debug)]
pub enum Functionality {
    Min,
    Full,
    APM,
    DM,
}

impl Functionality {
    /// The numeric wire code of the level.
    pub open spec fn code_spec(&self) -> u8 {
        match self {
            Functionality::Min => 0,
            Functionality::Full => 1,
            Functionality::APM => 4,
            Functionality::DM => 6,
        }
    }

    /// The numeric wire code of the level.
    pub fn code(&self) -> (r: u8)
        ensures
            r == self.code_spec(),
    {
        match self {
            Functionality::Min => 0,
            Functionality::Full => 1,
            Functionality::APM => 4,
            Functionality::DM => 6,
        }
    }
}

/// Reset behaviour, serialized as its numeric code.
#[derive(Clone, Copy, PartialEq, Eq, Structural, Debug)]
pub enum ResetMode {
    DontReset,
    Reset,
}

impl ResetMode {
    /// The numeric wire code of the mode.
    pub open spec fn code_spec(&self) -> u8 {
        match self {
            ResetMode::DontReset => 0,
            ResetMode::Reset => 1,
        }
    }

    /// The numeric wire code of the mode.
    pub fn code(&self) -> (r: u8)
        ensures
            r == self.code_spec(),
    {
        match self {
            ResetMode::DontReset => 0,
            ResetMode::Reset => 1,
        }
    }
}

/// The code of an optional reset argument.
pub open spec fn opt_code(o: Option<ResetMode>) -> Option<u8> {
    match o {
        Some(m) => Some(m.code_spec()),
        None => None,
    }
}

// ---------------------------------------------------------------------------
// Response types
// ---------------------------------------------------------------------------

/// Response of commands answered by a bare `OK`.
#[derive(Clone, Copy, PartialEq, Eq, Structural, Debug)]
pub struct NoResponse;

impl View for NoResponse {
    type V = NoResponse;

    open spec fn view(&self) -> NoResponse {
        NoResponse
    }
}

/// Model of [`TestResponseString`].
pub struct TestResponseStringV {
    pub socket: u8,
    pub length: usize,
    pub data: Seq<u8>,
}

/// A response carrying a socket id, a length, and a quoted string in that
/// positional order.
#[derive(Clone, PartialEq, Eq, Debug)]
pub struct TestResponseString {
    pub socket: u8,
    pub length: usize,
    pub data: Vec<u8>,
}

impl View for TestResponseString {
    type V = TestResponseStringV;

    open spec fn view(&self) -> TestResponseStringV {
        TestResponseStringV { socket: self.socket, length: self.length, data: self.data@ }
    }
}

/// Model of [`TestResponseStringMixed`].
pub struct TestResponseStringMixedV {
    pub socket: u8,
    pub length: usize,
    pub data: Seq<u8>,
}

/// The same response fields with the quoted string at position zero.
#[derive(Clone, PartialEq, Eq, Debug)]
pub struct TestResponseStringMixed {
    pub socket: u8,
    pub length: usize,
    pub data: Vec<u8>,
}

impl View for TestResponseStringMixed {
    type V = TestResponseStringMixedV;

    open spec fn view(&self) -> TestResponseStringMixedV {
        TestResponseStringMixedV { socket: self.socket, length: self.length, data: self.data@ }
    }
}

// ---------------------------------------------------------------------------
// Tags
// ---------------------------------------------------------------------------

/// The tag `+CFUN`.
pub open spec fn cfun_tag() -> Seq<u8> {
    seq![43u8, 67u8, 70u8, 85u8, 78u8]
}

/// The tag `+FUN`.
pub open spec fn fun_tag() -> Seq<u8> {
    seq![43u8, 70u8, 85u8, 78u8]
}

/// The tag `+CUN`.
pub open spec fn cun_tag() -> Seq<u8> {
    seq![43u8, 67u8, 85u8, 78u8]
}

/// The tag `+UMWI`.
pub open spec fn umwi_tag() -> Seq<u8> {
    seq![43u8, 85u8, 77u8, 87u8, 73u8]
}

fn make_cun_tag() -> (r: Vec<u8>)
    ensures
        r@ == cun_tag(),
{
    let mut t: Vec<u8> = Vec::new();
    t.push(43u8);
    t.push(67u8);
    t.push(85u8);
    t.push(78u8);
    assert(t@ =~= cun_tag());
    t
}

fn make_umwi_tag() -> (r: Vec<u8>)
    ensures
        r@ == umwi_tag(),
{
    let mut t: Vec<u8> = Vec::new();
    t.push(43u8);
    t.push(85u8);
    t.push(77u8);
    t.push(87u8);
    t.push(73u8);
    assert(t@ =~= umwi_tag());
    t
}

// ---------------------------------------------------------------------------
// Commands
// ---------------------------------------------------------------------------

/// `AT+CFUN`: set module functionality. Arguments in positional order:
/// the functionality level, then an optional reset mode.
#[derive(Clone, PartialEq, Eq, Structural, Debug)]
pub struct SetModuleFunctionality {
    pub fun: Functionality,
    pub rst: Option<ResetMode>,
}

impl AtatCmd for SetModuleFunctionality {
    type Response = NoResponse;

    open spec fn wire(&self) -> Seq<u8> {
        seq![65u8, 84u8] + cfun_tag() + codec::args_tail(
            self.fun.code_spec(),
            opt_code(self.rst),
        )
    }

    open spec fn parse_res(&self, payload: Seq<u8>) -> Result<NoResponse, Error> {
        Ok(NoResponse)
    }

    open spec fn timeout_spec(&self) -> u32 {
        180000
    }

    open spec fn force_spec(&self) -> bool {
        false
    }

    fn as_bytes(&self) -> (r: Vec<u8>) {
        let mut v: Vec<u8> = Vec::new();
        v.push(65u8);
        v.push(84u8);
        v.push(43u8);
        v.push(67u8);
        v.push(70u8);
        v.push(85u8);
        v.push(78u8);
        let a1 = match self.rst {
            Some(m) => Some(m.code()),
            None => None,
        };
        codec::push_args(&mut v, self.fun.code(), a1);
        assert(v@ =~= self.wire());
        v
    }

    fn parse(&self, payload: &Vec<u8>) -> (r: Result<NoResponse, Error>) {
        Ok(NoResponse)
    }

    fn max_timeout_ms(&self) -> (r: u32) {
        180000
    }

    fn force_receive_state(&self) -> (r: bool) {
        false
    }
}

/// `AT+FUN`: the same arguments declared in reverse positional order, so
/// the optional reset mode is serialized first.
#[derive(Clone, PartialEq, Eq, Structural, Debug)]
pub struct Test2Cmd {
    pub fun: Functionality,
    pub rst: Option<ResetMode>,
}

impl AtatCmd for Test2Cmd {
    type Response = NoResponse;

    open spec fn wire(&self) -> Seq<u8> {
        seq![65u8, 84u8] + fun_tag() + (match self.rst {
            Some(m) => codec::args_tail(m.code_spec(), Some(self.fun.code_spec())),
            None => codec::args_tail(self.fun.code_spec(), None),
        })
    }

    open spec fn parse_res(&self, payload: Seq<u8>) -> Result<NoResponse, Error> {
        Ok(NoResponse)
    }

    open spec fn timeout_spec(&self) -> u32 {
        180000
    }

    open spec fn force_spec(&self) -> bool {
        false
    }

    fn as_bytes(&self) -> (r: Vec<u8>) {
        let mut v: Vec<u8> = Vec::new();
        v.push(65u8);
        v.push(84u8);
        v.push(43u8);
        v.push(70u8);
        v.push(85u8);
        v.push(78u8);
        match self.rst {
            Some(m) => codec::push_args(&mut v, m.code(), Some(self.fun.code())),
            None => codec::push_args(&mut v, self.fun.code(), None),
        }
        assert(v@ =~= self.wire());
        v
    }

    fn parse(&self, payload: &Vec<u8>) -> (r: Result<NoResponse, Error>) {
        Ok(NoResponse)
    }

    fn max_timeout_ms(&self) -> (r: u32) {
        180000
    }

    fn force_receive_state(&self) -> (r: bool) {
        false
    }
}

/// `AT+CUN`, answered by [`TestResponseString`]: socket at position 0,
/// length at 1, quoted string at 2.
#[derive(Clone, PartialEq, Eq, Structural, Debug)]
pub struct TestRespStringCmd {
    pub fun: Functionality,
    pub rst: Option<ResetMode>,
}

impl AtatCmd for TestRespStringCmd {
    type Response = TestResponseString;

    open spec fn wire(&self) -> Seq<u8> {
        seq![65u8, 84u8] + cun_tag() + codec::args_tail(
            self.fun.code_spec(),
            opt_code(self.rst),
        )
    }

    open spec fn parse_res(&self, payload: Seq<u8>) -> Result<TestResponseStringV, Error> {
        let args = codec::spec_args(payload, cun_tag());
        match codec::spec_arg_u8(args, 0) {
            Err(e) => Err(e),
            Ok(socket) => match codec::spec_arg_usize(args, 1) {
                Err(e) => Err(e),
                Ok(length) => match codec::spec_arg_str(args, 2) {
                    Err(e) => Err(e),
                    Ok(data) => Ok(TestResponseStringV { socket, length, data }),
                },
            },
        }
    }

    open spec fn timeout_spec(&self) -> u32 {
        180000
    }

    open spec fn force_spec(&self) -> bool {
        false
    }

    fn as_bytes(&self) -> (r: Vec<u8>) {
        let mut v: Vec<u8> = Vec::new();
        v.push(65u8);
        v.push(84u8);
        v.push(43u8);
        v.push(67u8);
        v.push(85u8);
        v.push(78u8);
        let a1 = match self.rst {
            Some(m) => Some(m.code()),
            None => None,
        };
        codec::push_args(&mut v, self.fun.code(), a1);
        assert(v@ =~= self.wire());
        v
    }

    fn parse(&self, payload: &Vec<u8>) -> (r: Result<TestResponseString, Error>) {
        let tag = make_cun_tag();
        let args = codec::split_args(payload, &tag);
        let socket = match codec::arg_u8(&args, 0) {
            Ok(v) => v,
            Err(e) => {
                return Err(e);
            },
        };
        let length = match codec::arg_usize(&args, 1) {
            Ok(v) => v,
            Err(e) => {
                return Err(e);
            },
        };
        let data = match codec::arg_str(&args, 2) {
            Ok(v) => v,
            Err(e) => {
                return Err(e);
            },
        };
        Ok(TestResponseString { socket, length, data })
    }

    fn max_timeout_ms(&self) -> (r: u32) {
        180000
    }

    fn force_receive_state(&self) -> (r: bool) {
        false
    }
}

/// `AT+CUN`, answered by [`TestResponseStringMixed`]: quoted string at
/// position 0, socket at 1, length at 2. The command's own arguments are
/// declared in reverse positional order, as in [`Test2Cmd`].
#[derive(Clone, PartialEq, Eq, Structural, Debug)]
pub struct TestRespStringMixCmd {
    pub fun: Functionality,
    pub rst: Option<ResetMode>,
}

impl AtatCmd for TestRespStringMixCmd {
    type Response = TestResponseStringMixed;

    open spec fn wire(&self) -> Seq<u8> {
        seq![65u8, 84u8] + cun_tag() + (match self.rst {
            Some(m) => codec::args_tail(m.code_spec(), Some(self.fun.code_spec())),
            None => codec::args_tail(self.fun.code_spec(), None),
        })
    }

    open spec fn parse_res(&self, payload: Seq<u8>) -> Result<TestResponseStringMixedV, Error> {
        let args = codec::spec_args(payload, cun_tag());
        match codec::spec_arg_u8(args, 1) {
            Err(e) => Err(e),
            Ok(socket) => match codec::spec_arg_usize(args, 2) {
                Err(e) => Err(e),
                Ok(length) => match codec::spec_arg_str(args, 0) {
                    Err(e) => Err(e),
                    Ok(data) => Ok(TestResponseStringMixedV { socket, length, data }),
                },
            },
        }
    }

    open spec fn timeout_spec(&self) -> u32 {
        180000
    }

    open spec fn force_spec(&self) -> bool {
        false
    }

    fn as_bytes(&self) -> (r: Vec<u8>) {
        let mut v: Vec<u8> = Vec::new();
        v.push(65u8);
        v.push(84u8);
        v.push(43u8);
        v.push(67u8);
        v.push(85u8);
        v.push(78u8);
        match self.rst {
            Some(m) => codec::push_args(&mut v, m.code(), Some(self.fun.code())),
            None => codec::push_args(&mut v, self.fun.code(), None),
        }
        assert(v@ =~= self.wire());
        v
    }

    fn parse(&self, payload: &Vec<u8>) -> (r: Result<TestResponseStringMixed, Error>) {
        let tag = make_cun_tag();
        let args = codec::split_args(payload, &tag);
        let socket = match codec::arg_u8(&args, 1) {
            Ok(v) => v,
            Err(e) => {
                return Err(e);
            },
        };
        let length = match codec::arg_usize(&args, 2) {
            Ok(v) => v,
            Err(e) => {
                return Err(e);
            },
        };
        let data = match codec::arg_str(&args, 0) {
            Ok(v) => v,
            Err(e) => {
                return Err(e);
            },
        };
        Ok(TestResponseStringMixed { socket, length, data })
    }

    fn max_timeout_ms(&self) -> (r: u32) {
        180000
    }

    fn force_receive_state(&self) -> (r: bool) {
        false
    }
}

// ---------------------------------------------------------------------------
// URCs
// ---------------------------------------------------------------------------

/// Payload of the `+UMWI` message-waiting indication.
#[derive(Clone, Copy, PartialEq, Eq, Structural, Debug)]
pub struct MessageWaitingIndication {
    pub status: u8,
    pub code: u8,
}

impl View for MessageWaitingIndication {
    type V = MessageWaitingIndication;

    open spec fn view(&self) -> MessageWaitingIndication {
        *self
    }
}

/// The unsolicited result codes this driver understands, dispatched on
/// their `+TAG` discriminators.
#[derive(Clone, Copy, PartialEq, Eq, Structural, Debug)]
pub enum Urc {
    MessageWaitingIndication(MessageWaitingIndication),
}

impl View for Urc {
    type V = Urc;

    open spec fn view(&self) -> Urc {
        *self
    }
}

impl AtatUrc for Urc {
    type Response = Urc;

    open spec fn parse_res(payload: Seq<u8>) -> Result<Urc, Error> {
        if codec::has_preamble(payload, umwi_tag()) {
            let args = codec::split_from(payload, umwi_tag().len() + 1 as int);
            match codec::spec_arg_u8(args, 0) {
                Err(e) => Err(e),
                Ok(status) => match codec::spec_arg_u8(args, 1) {
                    Err(e) => Err(e),
                    Ok(code) => Ok(
                        Urc::MessageWaitingIndication(
                            MessageWaitingIndication { status, code },
                        ),
                    ),
                },
            }
        } else {
            Err(Error::InvalidResponse)
        }
    }

    fn parse(payload: &Vec<u8>) -> (r: Result<Urc, Error>) {
        let tag = make_umwi_tag();
        if !codec::starts_with_preamble(payload, &tag) {
            return Err(Error::InvalidResponse);
        }
        let args = codec::split_args_from(payload, tag.len() + 1);
        let status = match codec::arg_u8(&args, 0) {
            Ok(v) => v,
            Err(e) => {
                return Err(e);
            },
        };
        let code = match codec::arg_u8(&args, 1) {
            Ok(v) => v,
            Err(e) => {
                return Err(e);
            },
        };
        Ok(Urc::MessageWaitingIndication(MessageWaitingIndication { status, code }))
    }
}

} // verus!
