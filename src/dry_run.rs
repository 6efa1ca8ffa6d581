//! A host with an empty chain, for dry runs and tests of contract code.
use vstd::prelude::*;

use crate::host::{Externalities, HostRequest};

verus! {

/// A host that answers every call with one fixed status and every numeric
/// query with one fixed number, leaves every output buffer as it was handed
/// over (no account, block or result is known to it), and holds a given call
/// input. It records the requests made of it.
pub struct DryRunHost {
    status: i32,
    number: i64,
    input: Vec<u8>,
    requests: Ghost<Seq<HostRequest>>,
}

impl DryRunHost {
    /// A host answering `status` and `number`, with `input` as the call's input.
    pub fn new(status: i32, number: i64, input: Vec<u8>) -> (r: DryRunHost)
        requires
            input@.len() <= u32::MAX,
        ensures
            r.requests() == Seq::<HostRequest>::empty(),
            r.call_input() == input@,
            forall|req: HostRequest| #[trigger] r.status(req) == status,
            forall|req: HostRequest| #[trigger] r.number(req) == number,
            forall|req: HostRequest, before: Seq<u8>| #[trigger] r.written(req, before) == before,
    {
        DryRunHost { status, number, input, requests: Ghost(Seq::empty()) }
    }

    /// The call input's length fits the host's 32-bit length.
    #[verifier::type_invariant]
    closed spec fn wf(&self) -> bool {
        self.input@.len() <= u32::MAX
    }
}

impl Externalities for DryRunHost {
    closed spec fn requests(&self) -> Seq<HostRequest> {
        self.requests@
    }

    closed spec fn status(&self, req: HostRequest) -> i32 {
        self.status
    }

    closed spec fn number(&self, req: HostRequest) -> i64 {
        self.number
    }

    closed spec fn written(&self, req: HostRequest, before: Seq<u8>) -> Seq<u8> {
        before
    }

    closed spec fn call_input(&self) -> Seq<u8> {
        self.input@
    }

    fn ccall(
        &mut self,
        gas: i64,
        address: &[u8; 20],
        value: &[u8; 32],
        input: &[u8],
        result: &mut [u8],
    ) -> (r: i32) {
        proof {
            use_type_invariant(&*self);
        }
        let ghost req = HostRequest::Call { gas, address: address@, value: value@, input: input@ };
        self.requests = Ghost(self.requests@.push(req));
        self.status
    }

    fn dcall(&mut self, gas: i64, address: &[u8; 20], input: &[u8], result: &mut [u8]) -> (r: i32) {
        proof {
            use_type_invariant(&*self);
        }
        let ghost req = HostRequest::CodeCall { gas, address: address@, input: input@ };
        self.requests = Ghost(self.requests@.push(req));
        self.status
    }

    fn scall(&mut self, gas: i64, address: &[u8; 20], input: &[u8], result: &mut [u8]) -> (r: i32) {
        proof {
            use_type_invariant(&*self);
        }
        let ghost req = HostRequest::StaticCall { gas, address: address@, input: input@ };
        self.requests = Ghost(self.requests@.push(req));
        self.status
    }

    fn blockhash(&mut self, number: i64, dest: &mut [u8; 32]) {
        proof {
            use_type_invariant(&*self);
        }
        self.requests = Ghost(self.requests@.push(HostRequest::BlockHash { number }));
    }

    fn balance(&mut self, address: &[u8; 20], dest: &mut [u8; 32]) {
        proof {
            use_type_invariant(&*self);
        }
        self.requests = Ghost(self.requests@.push(HostRequest::Balance { address: address@ }));
    }

    fn coinbase(&mut self, dest: &mut [u8; 20]) {
        proof {
            use_type_invariant(&*self);
        }
        self.requests = Ghost(self.requests@.push(HostRequest::Coinbase));
    }

    fn timestamp(&mut self) -> (r: i64) {
        proof {
            use_type_invariant(&*self);
        }
        self.requests = Ghost(self.requests@.push(HostRequest::Timestamp));
        self.number
    }

    fn blocknumber(&mut self) -> (r: i64) {
        proof {
            use_type_invariant(&*self);
        }
        self.requests = Ghost(self.requests@.push(HostRequest::BlockNumber));
        self.number
    }

    fn difficulty(&mut self, dest: &mut [u8; 32]) {
        proof {
            use_type_invariant(&*self);
        }
        self.requests = Ghost(self.requests@.push(HostRequest::Difficulty));
    }

    fn gaslimit(&mut self, dest: &mut [u8; 32]) {
        proof {
            use_type_invariant(&*self);
        }
        self.requests = Ghost(self.requests@.push(HostRequest::GasLimit));
    }

    fn gasleft(&mut self) -> (r: i64) {
        proof {
            use_type_invariant(&*self);
        }
        self.requests = Ghost(self.requests@.push(HostRequest::GasLeft));
        self.number
    }

    fn sender(&mut self, dest: &mut [u8; 20]) {
        proof {
            use_type_invariant(&*self);
        }
        self.requests = Ghost(self.requests@.push(HostRequest::Sender));
    }

    fn address(&mut self, dest: &mut [u8; 20]) {
        proof {
            use_type_invariant(&*self);
        }
        self.requests = Ghost(self.requests@.push(HostRequest::ExecutingAddress));
    }

    fn value(&mut self, dest: &mut [u8; 32]) {
        proof {
            use_type_invariant(&*self);
        }
        self.requests = Ghost(self.requests@.push(HostRequest::CallValue));
    }

    fn origin(&mut self, dest: &mut [u8; 20]) {
        proof {
            use_type_invariant(&*self);
        }
        self.requests = Ghost(self.requests@.push(HostRequest::Origin));
    }

    fn elog(&mut self, topics: &[u8], topic_count: u32, data: &[u8]) {
        proof {
            use_type_invariant(&*self);
        }
        let ghost req = HostRequest::Log { topics: topics@, topic_count, data: data@ };
        self.requests = Ghost(self.requests@.push(req));
    }

    fn create(&mut self, endowment: &[u8; 32], code: &[u8], result: &mut [u8; 20]) -> (r: i32) {
        proof {
            use_type_invariant(&*self);
        }
        let ghost req = HostRequest::Create { endowment: endowment@, code: code@ };
        self.requests = Ghost(self.requests@.push(req));
        self.status
    }

    fn create2(
        &mut self,
        endowment: &[u8; 32],
        salt: &[u8; 32],
        code: &[u8],
        result: &mut [u8; 20],
    ) -> (r: i32) {
        proof {
            use_type_invariant(&*self);
        }
        let ghost req = HostRequest::Create2 { endowment: endowment@, salt: salt@, code: code@ };
        self.requests = Ghost(self.requests@.push(req));
        self.status
    }

    fn suicide(&mut self, refund: &[u8; 20]) {
        proof {
            use_type_invariant(&*self);
        }
        self.requests = Ghost(self.requests@.push(HostRequest::Suicide { refund: refund@ }));
    }

    fn ret(&mut self, data: &[u8]) {
        proof {
            use_type_invariant(&*self);
        }
        self.requests = Ghost(self.requests@.push(HostRequest::Return { data: data@ }));
    }

    fn input_length(&mut self) -> (r: u32) {
        proof {
            use_type_invariant(&*self);
        }
        self.requests = Ghost(self.requests@.push(HostRequest::InputLength));
        self.input.len() as u32
    }

    fn fetch_input(&mut self, dest: &mut [u8]) {
        proof {
            use_type_invariant(&*self);
        }
        self.requests = Ghost(self.requests@.push(HostRequest::FetchInput));
        let mut i: usize = 0;
        while i < dest.len()
            invariant
                dest@.len() == self.input@.len(),
                0 <= i <= dest@.len(),
                forall|k: int| 0 <= k < i ==> dest@[k] == self.input@[k],
            decreases dest@.len() - i,
        {
            dest[i] = self.input[i];
            i = i + 1;
        }
        proof {
            assert(dest@ =~= self.input@);
        }
    }
}

} // verus!
