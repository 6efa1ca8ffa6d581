//! The host's primitive operations, in safe form, with a model of the host.
//!
//! Each method is one entry point of the host's calling convention, with raw
//! pointers and lengths replaced by slices and fixed-size arrays. The model
//! says what every host shares: each method asks the host once, and is
//! recorded in `requests`; the host's answer (a status, a number, the bytes it
//! leaves in an output buffer) is a function of its state and of the request,
//! named by `status`, `number` and `written`; the call's input is
//! `call_input`. What the answers are is left open: a host may refuse any call
//! and write anything. An implementation that Verus checks defines the five
//! spec functions; a binding outside verified code (the runtime's imported
//! entry points, a test double) keeps their unspecified defaults.
use vstd::prelude::*;

verus! {

/// One request made of the host, with the bytes it was handed.
pub enum HostRequest {
    Call { gas: i64, address: Seq<u8>, value: Seq<u8>, input: Seq<u8> },
    CodeCall { gas: i64, address: Seq<u8>, input: Seq<u8> },
    StaticCall { gas: i64, address: Seq<u8>, input: Seq<u8> },
    BlockHash { number: i64 },
    Balance { address: Seq<u8> },
    Coinbase,
    Timestamp,
    BlockNumber,
    Difficulty,
    GasLimit,
    GasLeft,
    Sender,
    ExecutingAddress,
    CallValue,
    Origin,
    Log { topics: Seq<u8>, topic_count: u32, data: Seq<u8> },
    Create { endowment: Seq<u8>, code: Seq<u8> },
    Create2 { endowment: Seq<u8>, salt: Seq<u8>, code: Seq<u8> },
    Suicide { refund: Seq<u8> },
    Return { data: Seq<u8> },
    InputLength,
    FetchInput,
}

/// The current execution environment.
pub trait Externalities {
    /// The requests made of the host so far, in order.
    closed spec fn requests(&self) -> Seq<HostRequest> {
        arbitrary()
    }

    /// The status code the host answers to `req`.
    closed spec fn status(&self, req: HostRequest) -> i32 {
        arbitrary()
    }

    /// The number the host answers to `req`.
    closed spec fn number(&self, req: HostRequest) -> i64 {
        arbitrary()
    }

    /// What an output buffer holds after `req`, given what it held before.
    closed spec fn written(&self, req: HostRequest, before: Seq<u8>) -> Seq<u8> {
        arbitrary()
    }

    /// The input of the current call.
    closed spec fn call_input(&self) -> Seq<u8> {
        arbitrary()
    }

    /// Message call with value transfer; returns the host's status code.
    fn ccall(
        &mut self,
        gas: i64,
        address: &[u8; 20],
        value: &[u8; 32],
        input: &[u8],
        result: &mut [u8],
    ) -> (r: i32)
        ensures
            ({
                let req = HostRequest::Call {
                    gas,
                    address: address@,
                    value: value@,
                    input: input@,
                };
                &&& final(self).requests() == old(self).requests().push(req)
                &&& r == old(self).status(req)
                &&& final(result)@ == old(self).written(req, old(result)@)
            }),
            final(result)@.len() == old(result)@.len(),
    ;

    /// Runs the code of `address` in the caller's context; returns the status code.
    fn dcall(&mut self, gas: i64, address: &[u8; 20], input: &[u8], result: &mut [u8]) -> (r: i32)
        ensures
            ({
                let req = HostRequest::CodeCall { gas, address: address@, input: input@ };
                &&& final(self).requests() == old(self).requests().push(req)
                &&& r == old(self).status(req)
                &&& final(result)@ == old(self).written(req, old(result)@)
            }),
            final(result)@.len() == old(result)@.len(),
    ;

    /// Read-only call; returns the status code.
    fn scall(&mut self, gas: i64, address: &[u8; 20], input: &[u8], result: &mut [u8]) -> (r: i32)
        ensures
            ({
                let req = HostRequest::StaticCall { gas, address: address@, input: input@ };
                &&& final(self).requests() == old(self).requests().push(req)
                &&& r == old(self).status(req)
                &&& final(result)@ == old(self).written(req, old(result)@)
            }),
            final(result)@.len() == old(result)@.len(),
    ;

    /// Writes the hash of block `number` into `dest`.
    fn blockhash(&mut self, number: i64, dest: &mut [u8; 32])
        ensures
            final(self).requests() == old(self).requests().push(HostRequest::BlockHash { number }),
            final(dest)@ == old(self).written(HostRequest::BlockHash { number }, old(dest)@),
    ;

    /// Writes the big-endian balance of `address` into `dest`.
    fn balance(&mut self, address: &[u8; 20], dest: &mut [u8; 32])
        ensures
            final(self).requests() == old(self).requests().push(
                HostRequest::Balance { address: address@ },
            ),
            final(dest)@ == old(self).written(
                HostRequest::Balance { address: address@ },
                old(dest)@,
            ),
    ;

    /// Writes the current block's beneficiary into `dest`.
    fn coinbase(&mut self, dest: &mut [u8; 20])
        ensures
            final(self).requests() == old(self).requests().push(HostRequest::Coinbase),
            final(dest)@ == old(self).written(HostRequest::Coinbase, old(dest)@),
    ;

    /// The current block's timestamp.
    fn timestamp(&mut self) -> (r: i64)
        ensures
            final(self).requests() == old(self).requests().push(HostRequest::Timestamp),
            r == old(self).number(HostRequest::Timestamp),
    ;

    /// The current block's number.
    fn blocknumber(&mut self) -> (r: i64)
        ensures
            final(self).requests() == old(self).requests().push(HostRequest::BlockNumber),
            r == old(self).number(HostRequest::BlockNumber),
    ;

    /// Writes the big-endian block difficulty into `dest`.
    fn difficulty(&mut self, dest: &mut [u8; 32])
        ensures
            final(self).requests() == old(self).requests().push(HostRequest::Difficulty),
            final(dest)@ == old(self).written(HostRequest::Difficulty, old(dest)@),
    ;

    /// Writes the big-endian block gas limit into `dest`.
    fn gaslimit(&mut self, dest: &mut [u8; 32])
        ensures
            final(self).requests() == old(self).requests().push(HostRequest::GasLimit),
            final(dest)@ == old(self).written(HostRequest::GasLimit, old(dest)@),
    ;

    /// Gas left to the current execution.
    fn gasleft(&mut self) -> (r: i64)
        ensures
            final(self).requests() == old(self).requests().push(HostRequest::GasLeft),
            r == old(self).number(HostRequest::GasLeft),
    ;

    /// Writes the direct caller's address into `dest`.
    fn sender(&mut self, dest: &mut [u8; 20])
        ensures
            final(self).requests() == old(self).requests().push(HostRequest::Sender),
            final(dest)@ == old(self).written(HostRequest::Sender, old(dest)@),
    ;

    /// Writes the executing account's address into `dest`.
    fn address(&mut self, dest: &mut [u8; 20])
        ensures
            final(self).requests() == old(self).requests().push(HostRequest::ExecutingAddress),
            final(dest)@ == old(self).written(HostRequest::ExecutingAddress, old(dest)@),
    ;

    /// Writes the big-endian value deposited with this execution into `dest`.
    fn value(&mut self, dest: &mut [u8; 32])
        ensures
            final(self).requests() == old(self).requests().push(HostRequest::CallValue),
            final(dest)@ == old(self).written(HostRequest::CallValue, old(dest)@),
    ;

    /// Writes the transaction originator's address into `dest`.
    fn origin(&mut self, dest: &mut [u8; 20])
        ensures
            final(self).requests() == old(self).requests().push(HostRequest::Origin),
            final(dest)@ == old(self).written(HostRequest::Origin, old(dest)@),
    ;

    /// Records a log entry: `topic_count` topics of 32 bytes laid end to end, then `data`.
    /// More than four topics is a fatal fault of the host, so callers never ask for it.
    fn elog(&mut self, topics: &[u8], topic_count: u32, data: &[u8])
        requires
            topic_count <= 4,
            topics@.len() == 32 * topic_count,
        ensures
            final(self).requests() == old(self).requests().push(
                HostRequest::Log { topics: topics@, topic_count, data: data@ },
            ),
    ;

    /// Deploys `code` with `endowment`; writes the new address into `result`;
    /// returns the status code.
    fn create(&mut self, endowment: &[u8; 32], code: &[u8], result: &mut [u8; 20]) -> (r: i32)
        ensures
            ({
                let req = HostRequest::Create { endowment: endowment@, code: code@ };
                &&& final(self).requests() == old(self).requests().push(req)
                &&& r == old(self).status(req)
                &&& final(result)@ == old(self).written(req, old(result)@)
            }),
    ;

    /// Deploys `code` at an address derived from `salt`; returns the status code.
    fn create2(
        &mut self,
        endowment: &[u8; 32],
        salt: &[u8; 32],
        code: &[u8],
        result: &mut [u8; 20],
    ) -> (r: i32)
        ensures
            ({
                let req = HostRequest::Create2 { endowment: endowment@, salt: salt@, code: code@ };
                &&& final(self).requests() == old(self).requests().push(req)
                &&& r == old(self).status(req)
                &&& final(result)@ == old(self).written(req, old(result)@)
            }),
    ;

    /// Halts execution and deletes the current account; a host does not return from it.
    fn suicide(&mut self, refund: &[u8; 20])
        ensures
            final(self).requests() == old(self).requests().push(
                HostRequest::Suicide { refund: refund@ },
            ),
    ;

    /// Hands `data` back as the call's output and halts; a host does not return from it.
    fn ret(&mut self, data: &[u8])
        ensures
            final(self).requests() == old(self).requests().push(
                HostRequest::Return { data: data@ },
            ),
    ;

    /// The length of the current call's input.
    fn input_length(&mut self) -> (r: u32)
        ensures
            final(self).requests() == old(self).requests().push(HostRequest::InputLength),
            final(self).call_input() == old(self).call_input(),
            r as int == old(self).call_input().len(),
    ;

    /// Copies the current call's input into `dest`, which is as long as the input.
    fn fetch_input(&mut self, dest: &mut [u8])
        requires
            old(dest)@.len() == old(self).call_input().len(),
        ensures
            final(self).requests() == old(self).requests().push(HostRequest::FetchInput),
            final(dest)@ == old(self).call_input(),
    ;
}

} // verus!
