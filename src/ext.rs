//! Typed host operations: calls, contract creation, context readout, logging
//! and the call's input and output.
use vstd::prelude::*;

use crate::codec::{
    decode_u256, encode_u256, lemma_zero_bytes_decode_to_zero, u256_be_bytes, u256_value, zeros,
    Address, H256,
};
use crate::host::{Externalities, HostRequest};
use uint::U256;

verus! {

/// The host reported that an operation did not complete.
#[derive(Clone, Copy, PartialEq, Eq, Debug)]
pub struct Error;

/// The two's-complement reading of `x` as a signed 64-bit number.
pub open spec fn signed_of(x: u64) -> int {
    if x <= i64::MAX {
        x as int
    } else {
        x as int - 0x1_0000_0000_0000_0000
    }
}

/// An unsigned number (a gas limit, a block number) as the host's signed
/// 64-bit argument, bit for bit.
pub fn host_signed(x: u64) -> (r: i64)
    ensures
        r as int == signed_of(x),
{
    if x <= i64::MAX as u64 {
        x as i64
    } else {
        -((u64::MAX - x) as i64) - 1
    }
}

/// The two's-complement reading of a signed 64-bit host number as unsigned.
pub open spec fn unsigned_of(x: i64) -> int {
    if x >= 0 {
        x as int
    } else {
        x as int + 0x1_0000_0000_0000_0000
    }
}

/// A signed 64-bit number from the host, reread as unsigned, bit for bit.
pub fn host_unsigned(x: i64) -> (r: u64)
    ensures
        r as int == unsigned_of(x),
{
    if x >= 0 {
        x as u64
    } else {
        u64::MAX - ((-(x + 1)) as u64)
    }
}

/// Reads a host status code: exactly zero is success.
pub fn status_result(status: i32) -> (r: Result<(), Error>)
    ensures
        status == 0 ==> r == Ok::<(), Error>(()),
        status != 0 ==> r == Err::<(), Error>(Error),
{
    if status == 0 {
        Ok(())
    } else {
        Err(Error)
    }
}

/// Reads the outcome of a contract creation: the address the host wrote when the
/// status is zero, else the failure.
pub fn creation_result(status: i32, created: Address) -> (r: Result<Address, Error>)
    ensures
        status == 0 ==> r == Ok::<Address, Error>(created),
        status != 0 ==> r == Err::<Address, Error>(Error),
{
    if status == 0 {
        Ok(created)
    } else {
        Err(Error)
    }
}

/// The bytes handed to the host for a list of topics: each topic's 32 bytes, in order.
pub open spec fn topic_words(topics: Seq<H256>) -> Seq<u8> {
    topics.map_values(|t: H256| t.0@).flatten()
}

/// Lays the topics end to end, in order, as the host reads them.
pub fn topic_bytes(topics: &[H256]) -> (r: Vec<u8>)
    ensures
        r@ == topic_words(topics@),
        r@.len() == 32 * topics@.len(),
{
    let mut out: Vec<u8> = Vec::new();
    let mut i: usize = 0;
    while i < topics.len()
        invariant
            0 <= i <= topics@.len(),
            out@ == topic_words(topics@.subrange(0, i as int)),
            out@.len() == 32 * i,
        decreases topics@.len() - i,
    {
        let word = &topics[i].0;
        let ghost before = out@;
        let mut j: usize = 0;
        while j < 32
            invariant
                0 <= j <= 32,
                out@ == before + word@.subrange(0, j as int),
                before.len() == 32 * i,
            decreases 32 - j,
        {
            out.push(word[j]);
            j = j + 1;
            proof {
                assert(out@ =~= before + word@.subrange(0, j as int));
            }
        }
        proof {
            let done = topics@.subrange(0, i as int);
            let next = topics@.subrange(0, i + 1);
            assert(next =~= done.push(topics@[i as int]));
            assert(next.map_values(|t: H256| t.0@) =~= done.map_values(|t: H256| t.0@).push(
                word@,
            ));
            done.map_values(|t: H256| t.0@).lemma_flatten_push(word@);
            assert(word@.subrange(0, 32) =~= word@);
        }
        i = i + 1;
    }
    proof {
        assert(topics@.subrange(0, topics@.len() as int) =~= topics@);
    }
    out
}

/// A buffer of `len` zero bytes, for the host to fill.
pub fn zeroed_buffer(len: u32) -> (r: Vec<u8>)
    ensures
        r@ == Seq::new(len as nat, |i: int| 0u8),
{
    let mut out: Vec<u8> = Vec::new();
    let mut i: u32 = 0;
    while i < len
        invariant
            i <= len,
            out@ == Seq::new(i as nat, |k: int| 0u8),
        decreases len - i,
    {
        out.push(0u8);
        i = i + 1;
        proof {
            assert(out@ =~= Seq::new(i as nat, |k: int| 0u8));
        }
    }
    out
}

/// Fetches the current call's input, given the length the host reported for it:
/// exactly the call's input. A zero length gives an empty input and asks the
/// host for nothing; any other length has the host fill a zeroed buffer of that
/// many bytes.
pub fn input_of_length<E: Externalities>(ext: &mut E, len: u32) -> (r: Vec<u8>)
    requires
        len as int == old(ext).call_input().len(),
    ensures
        r@ == old(ext).call_input(),
        r@.len() == len as nat,
        len == 0 ==> final(ext).requests() == old(ext).requests(),
        len != 0 ==> final(ext).requests() == old(ext).requests().push(HostRequest::FetchInput),
{
    if len == 0 {
        proof {
            assert(old(ext).call_input() =~= Seq::<u8>::empty());
        }
        Vec::new()
    } else {
        let mut data = zeroed_buffer(len);
        ext.fetch_input(data.as_mut_slice());
        data
    }
}

/// The request for a message call.
pub open spec fn call_request(
    gas: u64,
    address: Address,
    value: U256,
    input: Seq<u8>,
) -> HostRequest {
    HostRequest::Call {
        gas: signed_of(gas) as i64,
        address: address.0@,
        value: u256_be_bytes(value),
        input,
    }
}

/// Halts execution and registers the current account for deletion; its
/// balance goes to `refund`. A host does not return from it.
pub fn suicide<E: Externalities>(ext: &mut E, refund: &Address)
    ensures
        final(ext).requests() == old(ext).requests().push(
            HostRequest::Suicide { refund: refund.0@ },
        ),
{
    ext.suicide(&refund.0)
}

/// The balance of `address`: what the host writes into a zeroed buffer, read
/// big-endian. An account the chain has not seen has balance zero: the host
/// leaves the buffer as it is.
pub fn balance<E: Externalities>(ext: &mut E, address: &Address) -> (r: U256)
    ensures
        ({
            let req = HostRequest::Balance { address: address.0@ };
            &&& final(ext).requests() == old(ext).requests().push(req)
            &&& u256_be_bytes(r) == old(ext).written(req, zeros(32))
            &&& old(ext).written(req, zeros(32)) == zeros(32) ==> u256_value(r) == 0
        }),
{
    let mut dest = [0u8; 32];
    proof {
        assert(dest@ =~= zeros(32));
    }
    ext.balance(&address.0, &mut dest);
    let r = decode_u256(&dest);
    proof {
        if u256_be_bytes(r) == zeros(32) {
            lemma_zero_bytes_decode_to_zero(r);
        }
    }
    r
}

/// Creates an account holding `code` and `endowment`; the new address on success,
/// `Error` when the host reports that the constructor failed.
pub fn create<E: Externalities>(
    ext: &mut E,
    endowment: U256,
    code: &[u8],
) -> (r: Result<Address, Error>)
    ensures
        ({
            let req = HostRequest::Create { endowment: u256_be_bytes(endowment), code: code@ };
            &&& final(ext).requests() == old(ext).requests().push(req)
            &&& (r is Ok <==> old(ext).status(req) == 0)
            &&& r is Ok ==> r->Ok_0.0@ == old(ext).written(req, zeros(20))
        }),
{
    let endowment_arr = encode_u256(&endowment);
    let mut result = Address::zero();
    let status = ext.create(&endowment_arr, code, &mut result.0);
    creation_result(status, result)
}

/// Like `create`, at an address that the host derives from `salt`.
pub fn create2<E: Externalities>(
    ext: &mut E,
    endowment: U256,
    salt: H256,
    code: &[u8],
) -> (r: Result<Address, Error>)
    ensures
        ({
            let req = HostRequest::Create2 {
                endowment: u256_be_bytes(endowment),
                salt: salt.0@,
                code: code@,
            };
            &&& final(ext).requests() == old(ext).requests().push(req)
            &&& (r is Ok <==> old(ext).status(req) == 0)
            &&& r is Ok ==> r->Ok_0.0@ == old(ext).written(req, zeros(20))
        }),
{
    let endowment_arr = encode_u256(&endowment);
    let mut result = Address::zero();
    let status = ext.create2(&endowment_arr, &salt.0, code, &mut result.0);
    creation_result(status, result)
}

/// Message call into `address`, sending `value` and `input`; the host writes the
/// call's output into `result`. `Ok` exactly when the host reports status zero.
pub fn call<E: Externalities>(
    ext: &mut E,
    gas: u64,
    address: &Address,
    value: U256,
    input: &[u8],
    result: &mut [u8],
) -> (r: Result<(), Error>)
    ensures
        ({
            let req = call_request(gas, *address, value, input@);
            &&& final(ext).requests() == old(ext).requests().push(req)
            &&& (r is Ok <==> old(ext).status(req) == 0)
            &&& final(result)@ == old(ext).written(req, old(result)@)
        }),
        final(result)@.len() == old(result)@.len(),
{
    let value_arr = encode_u256(&value);
    let status = ext.ccall(host_signed(gas), &address.0, &value_arr, input, result);
    status_result(status)
}

/// Like `call`, running the code of `address` in the current account's context.
pub fn call_code<E: Externalities>(
    ext: &mut E,
    gas: u64,
    address: &Address,
    input: &[u8],
    result: &mut [u8],
) -> (r: Result<(), Error>)
    ensures
        ({
            let req = HostRequest::CodeCall {
                gas: signed_of(gas) as i64,
                address: address.0@,
                input: input@,
            };
            &&& final(ext).requests() == old(ext).requests().push(req)
            &&& (r is Ok <==> old(ext).status(req) == 0)
            &&& final(result)@ == old(ext).written(req, old(result)@)
        }),
        final(result)@.len() == old(result)@.len(),
{
    let status = ext.dcall(host_signed(gas), &address.0, input, result);
    status_result(status)
}

/// Like `call`, but the host fails the call if it or any of its sub-calls
/// would change state.
pub fn static_call<E: Externalities>(
    ext: &mut E,
    gas: u64,
    address: &Address,
    input: &[u8],
    result: &mut [u8],
) -> (r: Result<(), Error>)
    ensures
        ({
            let req = HostRequest::StaticCall {
                gas: signed_of(gas) as i64,
                address: address.0@,
                input: input@,
            };
            &&& final(ext).requests() == old(ext).requests().push(req)
            &&& (r is Ok <==> old(ext).status(req) == 0)
            &&& final(result)@ == old(ext).written(req, old(result)@)
        }),
        final(result)@.len() == old(result)@.len(),
{
    let status = ext.scall(host_signed(gas), &address.0, input, result);
    status_result(status)
}

/// The hash of block `block_number`: what the host writes into a zeroed buffer.
/// Outside the host's window of recent blocks the host leaves it, and the hash
/// is all zero.
pub fn block_hash<E: Externalities>(ext: &mut E, block_number: u64) -> (r: H256)
    ensures
        ({
            let req = HostRequest::BlockHash { number: signed_of(block_number) as i64 };
            &&& final(ext).requests() == old(ext).requests().push(req)
            &&& r.0@ == old(ext).written(req, zeros(32))
        }),
{
    let mut res = H256::zero();
    ext.blockhash(host_signed(block_number), &mut res.0);
    res
}

/// What the host writes into a zeroed 20-byte buffer for `req`, as an address.
pub open spec fn written_address<E: Externalities>(ext: E, req: HostRequest) -> Seq<u8> {
    ext.written(req, zeros(20))
}

/// The current block's beneficiary.
pub fn coinbase<E: Externalities>(ext: &mut E) -> (r: Address)
    ensures
        final(ext).requests() == old(ext).requests().push(HostRequest::Coinbase),
        r.0@ == written_address(*old(ext), HostRequest::Coinbase),
{
    let mut res = Address::zero();
    ext.coinbase(&mut res.0);
    res
}

/// The current block's timestamp.
pub fn timestamp<E: Externalities>(ext: &mut E) -> (r: u64)
    ensures
        final(ext).requests() == old(ext).requests().push(HostRequest::Timestamp),
        r as int == unsigned_of(old(ext).number(HostRequest::Timestamp)),
{
    let t = ext.timestamp();
    host_unsigned(t)
}

/// The current block's number: how many ancestors it has.
pub fn block_number<E: Externalities>(ext: &mut E) -> (r: u64)
    ensures
        final(ext).requests() == old(ext).requests().push(HostRequest::BlockNumber),
        r as int == unsigned_of(old(ext).number(HostRequest::BlockNumber)),
{
    let n = ext.blocknumber();
    host_unsigned(n)
}

/// The current block's difficulty.
pub fn difficulty<E: Externalities>(ext: &mut E) -> (r: U256)
    ensures
        final(ext).requests() == old(ext).requests().push(HostRequest::Difficulty),
        u256_be_bytes(r) == old(ext).written(HostRequest::Difficulty, zeros(32)),
{
    let mut dest = [0u8; 32];
    proof {
        assert(dest@ =~= zeros(32));
    }
    ext.difficulty(&mut dest);
    decode_u256(&dest)
}

/// The current block's gas limit.
pub fn gas_limit<E: Externalities>(ext: &mut E) -> (r: U256)
    ensures
        final(ext).requests() == old(ext).requests().push(HostRequest::GasLimit),
        u256_be_bytes(r) == old(ext).written(HostRequest::GasLimit, zeros(32)),
{
    let mut dest = [0u8; 32];
    proof {
        assert(dest@ =~= zeros(32));
    }
    ext.gaslimit(&mut dest);
    decode_u256(&dest)
}

/// The gas left to the current execution.
pub fn gas_left<E: Externalities>(ext: &mut E) -> (r: u64)
    ensures
        final(ext).requests() == old(ext).requests().push(HostRequest::GasLeft),
        r as int == unsigned_of(old(ext).number(HostRequest::GasLeft)),
{
    let g = ext.gasleft();
    host_unsigned(g)
}

/// The address of the account directly responsible for this execution.
pub fn sender<E: Externalities>(ext: &mut E) -> (r: Address)
    ensures
        final(ext).requests() == old(ext).requests().push(HostRequest::Sender),
        r.0@ == written_address(*old(ext), HostRequest::Sender),
{
    let mut res = Address::zero();
    ext.sender(&mut res.0);
    res
}

/// The address of the account that sent the original transaction.
pub fn origin<E: Externalities>(ext: &mut E) -> (r: Address)
    ensures
        final(ext).requests() == old(ext).requests().push(HostRequest::Origin),
        r.0@ == written_address(*old(ext), HostRequest::Origin),
{
    let mut res = Address::zero();
    ext.origin(&mut res.0);
    res
}

/// The value deposited with this execution.
pub fn value<E: Externalities>(ext: &mut E) -> (r: U256)
    ensures
        final(ext).requests() == old(ext).requests().push(HostRequest::CallValue),
        u256_be_bytes(r) == old(ext).written(HostRequest::CallValue, zeros(32)),
{
    let mut dest = [0u8; 32];
    proof {
        assert(dest@ =~= zeros(32));
    }
    ext.value(&mut dest);
    decode_u256(&dest)
}

/// The address of the executing account.
pub fn address<E: Externalities>(ext: &mut E) -> (r: Address)
    ensures
        final(ext).requests() == old(ext).requests().push(HostRequest::ExecutingAddress),
        r.0@ == written_address(*old(ext), HostRequest::ExecutingAddress),
{
    let mut res = Address::zero();
    ext.address(&mut res.0);
    res
}

/// Records a log entry with up to four topics, in order, and `data`: one
/// request, with the topics laid end to end and their count.
pub fn log<E: Externalities>(ext: &mut E, topics: &[H256], data: &[u8])
    requires
        topics@.len() <= 4,
    ensures
        final(ext).requests() == old(ext).requests().push(
            HostRequest::Log {
                topics: topic_words(topics@),
                topic_count: topics@.len() as u32,
                data: data@,
            },
        ),
{
    let words = topic_bytes(topics);
    ext.elog(words.as_slice(), topics.len() as u32, data);
}

/// The current call's input: the length is asked first, and the bytes are
/// fetched only when there are any.
pub fn input<E: Externalities>(ext: &mut E) -> (r: Vec<u8>)
    ensures
        r@ == old(ext).call_input(),
        old(ext).call_input().len() == 0 ==> final(ext).requests() == old(ext).requests().push(
            HostRequest::InputLength,
        ),
        old(ext).call_input().len() != 0 ==> final(ext).requests() == old(ext).requests().push(
            HostRequest::InputLength,
        ).push(HostRequest::FetchInput),
{
    let len = ext.input_length();
    input_of_length(ext, len)
}

/// Hands `data` to the host as the call's output; a host does not return from it.
pub fn ret<E: Externalities>(ext: &mut E, data: &[u8])
    ensures
        final(ext).requests() == old(ext).requests().push(HostRequest::Return { data: data@ }),
{
    ext.ret(data)
}

} // verus!
