use pwasm_ethereum::{
    address, balance, block_hash, block_number, call, call_code, coinbase, create, create2,
    creation_result, difficulty, gas_left, gas_limit, host_signed, host_unsigned, input,
    input_of_length, log, origin, ret, sender, static_call, status_result, suicide, timestamp,
    topic_bytes, value, zeroed_buffer, Address, DryRunHost, Error, Externalities, H256, U256,
};

/// A scripted host that records what it was handed.
struct Scripted {
    status: i32,
    output: Vec<u8>,
    created: [u8; 20],
    known_balance: Option<([u8; 20], [u8; 32])>,
    current_block: u64,
    hash_of_parent: [u8; 32],
    context_address: [u8; 20],
    context_value: [u8; 32],
    number: i64,
    input: Vec<u8>,
    fetches: usize,
    gas_seen: Option<i64>,
    value_seen: Option<[u8; 32]>,
    address_seen: Option<[u8; 20]>,
    input_seen: Vec<u8>,
    salt_seen: Option<[u8; 32]>,
    logged: Option<(Vec<u8>, u32, Vec<u8>)>,
    returned: Option<Vec<u8>>,
    refund_seen: Option<[u8; 20]>,
}

impl Scripted {
    fn new() -> Scripted {
        Scripted {
            status: 0,
            output: Vec::new(),
            created: [0u8; 20],
            known_balance: None,
            current_block: 1000,
            hash_of_parent: [0u8; 32],
            context_address: [0u8; 20],
            context_value: [0u8; 32],
            number: 0,
            input: Vec::new(),
            fetches: 0,
            gas_seen: None,
            value_seen: None,
            address_seen: None,
            input_seen: Vec::new(),
            salt_seen: None,
            logged: None,
            returned: None,
            refund_seen: None,
        }
    }

    fn run(&mut self, gas: i64, address: &[u8; 20], input: &[u8], result: &mut [u8]) -> i32 {
        self.gas_seen = Some(gas);
        self.address_seen = Some(*address);
        self.input_seen = input.to_vec();
        let n = result.len().min(self.output.len());
        result[..n].copy_from_slice(&self.output[..n]);
        self.status
    }
}

impl Externalities for Scripted {
    fn ccall(&mut self, gas: i64, address: &[u8; 20], value: &[u8; 32], input: &[u8], result: &mut [u8]) -> i32 {
        self.value_seen = Some(*value);
        self.run(gas, address, input, result)
    }
    fn dcall(&mut self, gas: i64, address: &[u8; 20], input: &[u8], result: &mut [u8]) -> i32 {
        self.run(gas, address, input, result)
    }
    fn scall(&mut self, gas: i64, address: &[u8; 20], input: &[u8], result: &mut [u8]) -> i32 {
        self.run(gas, address, input, result)
    }
    fn blockhash(&mut self, number: i64, dest: &mut [u8; 32]) {
        let n = number as u64;
        if n + 1 == self.current_block {
            *dest = self.hash_of_parent;
        }
    }
    fn balance(&mut self, address: &[u8; 20], dest: &mut [u8; 32]) {
        if let Some((known, amount)) = self.known_balance {
            if known == *address {
                *dest = amount;
            }
        }
    }
    fn coinbase(&mut self, dest: &mut [u8; 20]) {
        *dest = self.context_address;
    }
    fn timestamp(&mut self) -> i64 {
        self.number
    }
    fn blocknumber(&mut self) -> i64 {
        self.number
    }
    fn difficulty(&mut self, dest: &mut [u8; 32]) {
        *dest = self.context_value;
    }
    fn gaslimit(&mut self, dest: &mut [u8; 32]) {
        *dest = self.context_value;
    }
    fn gasleft(&mut self) -> i64 {
        self.number
    }
    fn sender(&mut self, dest: &mut [u8; 20]) {
        *dest = self.context_address;
    }
    fn address(&mut self, dest: &mut [u8; 20]) {
        *dest = self.context_address;
    }
    fn value(&mut self, dest: &mut [u8; 32]) {
        *dest = self.context_value;
    }
    fn origin(&mut self, dest: &mut [u8; 20]) {
        *dest = self.context_address;
    }
    fn elog(&mut self, topics: &[u8], topic_count: u32, data: &[u8]) {
        self.logged = Some((topics.to_vec(), topic_count, data.to_vec()));
    }
    fn create(&mut self, endowment: &[u8; 32], code: &[u8], result: &mut [u8; 20]) -> i32 {
        self.value_seen = Some(*endowment);
        self.input_seen = code.to_vec();
        if self.status == 0 {
            *result = self.created;
        }
        self.status
    }
    fn create2(&mut self, endowment: &[u8; 32], salt: &[u8; 32], code: &[u8], result: &mut [u8; 20]) -> i32 {
        self.salt_seen = Some(*salt);
        self.create(endowment, code, result)
    }
    fn suicide(&mut self, refund: &[u8; 20]) {
        self.refund_seen = Some(*refund);
    }
    fn ret(&mut self, data: &[u8]) {
        self.returned = Some(data.to_vec());
    }
    fn input_length(&mut self) -> u32 {
        self.input.len() as u32
    }
    fn fetch_input(&mut self, dest: &mut [u8]) {
        self.fetches += 1;
        dest.copy_from_slice(&self.input);
    }
}

fn addr(b: u8) -> Address {
    Address([b; 20])
}

#[test]
fn status_zero_is_success() {
    assert_eq!(status_result(0), Ok(()));
}

#[test]
fn nonzero_statuses_are_the_same_failure() {
    assert_eq!(status_result(1), Err(Error));
    assert_eq!(status_result(-1), Err(Error));
    assert_eq!(status_result(i32::MAX), Err(Error));
    assert_eq!(status_result(i32::MIN), Err(Error));
}

#[test]
fn creation_result_reads_status() {
    assert_eq!(creation_result(0, addr(7)), Ok(addr(7)));
    assert_eq!(creation_result(1, addr(7)), Err(Error));
    assert_eq!(creation_result(-3, addr(7)), Err(Error));
}

#[test]
fn unsigned_numbers_are_reinterpreted_bit_for_bit() {
    assert_eq!(host_signed(0), 0);
    assert_eq!(host_signed(21000), 21000);
    assert_eq!(host_signed(i64::MAX as u64), i64::MAX);
    assert_eq!(host_signed(1u64 << 63), i64::MIN);
    assert_eq!(host_signed(u64::MAX), -1);
}

#[test]
fn host_numbers_are_reread_unsigned() {
    assert_eq!(host_unsigned(0), 0);
    assert_eq!(host_unsigned(1_600_000_000), 1_600_000_000);
    assert_eq!(host_unsigned(-1), u64::MAX);
    assert_eq!(host_unsigned(i64::MIN), 1u64 << 63);
}

#[test]
fn topics_are_laid_end_to_end_in_order() {
    let topics = [H256([1u8; 32]), H256([2u8; 32]), H256([3u8; 32])];
    let bytes = topic_bytes(&topics);
    assert_eq!(bytes.len(), 96);
    assert!(bytes[..32].iter().all(|b| *b == 1));
    assert!(bytes[32..64].iter().all(|b| *b == 2));
    assert!(bytes[64..].iter().all(|b| *b == 3));
    assert!(topic_bytes(&[]).is_empty());
}

#[test]
fn zeroed_buffer_has_exact_length() {
    assert_eq!(zeroed_buffer(0), Vec::<u8>::new());
    assert_eq!(zeroed_buffer(5), vec![0u8; 5]);
}

#[test]
fn call_succeeds_on_status_zero() {
    let mut host = Scripted::new();
    host.output = vec![9, 8, 7];
    let mut out = [0u8; 3];
    let r = call(&mut host, 50_000, &addr(4), U256([5, 0, 0, 0]), &[1, 2], &mut out);
    assert_eq!(r, Ok(()));
    assert_eq!(out, [9, 8, 7]);
    assert_eq!(host.gas_seen, Some(50_000));
    assert_eq!(host.address_seen, Some([4u8; 20]));
    let mut value = [0u8; 32];
    value[31] = 5;
    assert_eq!(host.value_seen, Some(value));
    assert_eq!(host.input_seen, vec![1, 2]);
}

#[test]
fn call_fails_on_any_nonzero_status() {
    for status in [1, 2, -7] {
        let mut host = Scripted::new();
        host.status = status;
        let mut out = [0u8; 4];
        assert_eq!(call(&mut host, 1, &addr(1), U256([0, 0, 0, 0]), &[], &mut out), Err(Error));
    }
}

#[test]
fn call_code_and_static_call_read_status() {
    let mut host = Scripted::new();
    let mut out = [0u8; 0];
    assert_eq!(call_code(&mut host, u64::MAX, &addr(2), &[3], &mut out), Ok(()));
    assert_eq!(host.gas_seen, Some(-1));
    assert_eq!(static_call(&mut host, 10, &addr(2), &[3], &mut out), Ok(()));
    host.status = 1;
    assert_eq!(call_code(&mut host, 10, &addr(2), &[3], &mut out), Err(Error));
    host.status = 2;
    assert_eq!(static_call(&mut host, 10, &addr(2), &[3], &mut out), Err(Error));
}

#[test]
fn create_returns_the_new_address() {
    let mut host = Scripted::new();
    host.created = [0xab; 20];
    let r = create(&mut host, U256([0, 0, 0, 1]), &[0x60, 0x00]);
    assert_eq!(r, Ok(Address([0xab; 20])));
    let mut endowment = [0u8; 32];
    endowment[7] = 1;
    assert_eq!(host.value_seen, Some(endowment));
    assert_eq!(host.input_seen, vec![0x60, 0x00]);
}

#[test]
fn create_fails_on_nonzero_status() {
    let mut host = Scripted::new();
    host.status = 1;
    assert_eq!(create(&mut host, U256([0, 0, 0, 0]), &[]), Err(Error));
    host.status = 255;
    assert_eq!(create(&mut host, U256([0, 0, 0, 0]), &[]), Err(Error));
}

#[test]
fn create2_hands_over_the_salt() {
    let mut host = Scripted::new();
    host.created = [0x11; 20];
    let r = create2(&mut host, U256([3, 0, 0, 0]), H256([0x5a; 32]), &[1]);
    assert_eq!(r, Ok(Address([0x11; 20])));
    assert_eq!(host.salt_seen, Some([0x5a; 32]));
    host.status = -1;
    assert_eq!(create2(&mut host, U256([3, 0, 0, 0]), H256([0x5a; 32]), &[1]), Err(Error));
}

#[test]
fn balance_of_unseen_account_is_zero() {
    let mut host = Scripted::new();
    let mut amount = [0u8; 32];
    amount[31] = 100;
    host.known_balance = Some(([1u8; 20], amount));
    assert_eq!(balance(&mut host, &addr(2)), U256([0, 0, 0, 0]));
    assert_eq!(balance(&mut host, &addr(1)), U256([100, 0, 0, 0]));
}

#[test]
fn block_hash_outside_window_is_zero() {
    let mut host = Scripted::new();
    host.current_block = 1000;
    host.hash_of_parent = [0x42; 32];
    assert_eq!(block_hash(&mut host, 999), H256([0x42; 32]));
    assert_eq!(block_hash(&mut host, 5), H256::zero());
    assert_eq!(block_hash(&mut host, 2000), H256::zero());
}

#[test]
fn input_of_zero_length_fetches_nothing() {
    let mut host = Scripted::new();
    assert_eq!(input(&mut host), Vec::<u8>::new());
    assert_eq!(host.fetches, 0);
    assert_eq!(input_of_length(&mut host, 0), Vec::<u8>::new());
    assert_eq!(host.fetches, 0);
}

#[test]
fn input_returns_host_bytes() {
    let mut host = Scripted::new();
    host.input = vec![10, 20, 30, 40];
    assert_eq!(input(&mut host), vec![10, 20, 30, 40]);
    assert_eq!(host.fetches, 1);
}

#[test]
fn log_with_four_topics_is_forwarded() {
    let mut host = Scripted::new();
    let topics = [H256([1; 32]), H256([2; 32]), H256([3; 32]), H256([4; 32])];
    log(&mut host, &topics, &[0xde, 0xad]);
    let (words, count, data) = host.logged.expect("logged");
    assert_eq!(count, 4);
    assert_eq!(words.len(), 128);
    assert_eq!(words[0], 1);
    assert_eq!(words[127], 4);
    assert_eq!(data, vec![0xde, 0xad]);
}

#[test]
fn context_accessors_decode_host_buffers() {
    let mut host = Scripted::new();
    host.context_address = [0x33; 20];
    let mut v = [0u8; 32];
    v[0] = 0x80;
    v[31] = 2;
    host.context_value = v;
    host.number = 1_700_000_000;
    let expected = U256([2, 0, 0, 1u64 << 63]);
    assert_eq!(coinbase(&mut host), Address([0x33; 20]));
    assert_eq!(sender(&mut host), Address([0x33; 20]));
    assert_eq!(origin(&mut host), Address([0x33; 20]));
    assert_eq!(address(&mut host), Address([0x33; 20]));
    assert_eq!(value(&mut host), expected);
    assert_eq!(difficulty(&mut host), expected);
    assert_eq!(gas_limit(&mut host), expected);
    assert_eq!(timestamp(&mut host), 1_700_000_000);
    assert_eq!(block_number(&mut host), 1_700_000_000);
    assert_eq!(gas_left(&mut host), 1_700_000_000);
}

#[test]
fn ret_and_suicide_reach_the_host() {
    let mut host = Scripted::new();
    ret(&mut host, &[1, 2, 3]);
    assert_eq!(host.returned, Some(vec![1, 2, 3]));
    suicide(&mut host, &addr(9));
    assert_eq!(host.refund_seen, Some([9u8; 20]));
}

#[test]
fn input_of_three_bytes() {
    let mut host = Scripted::new();
    host.input = vec![1u8, 2, 3];
    assert_eq!(input(&mut host), vec![1u8, 2, 3]);
    assert_eq!(host.fetches, 1);
}

#[test]
fn dry_run_unseen_balance_and_old_block_are_zero() {
    let mut host = DryRunHost::new(0, 0, Vec::new());
    assert_eq!(balance(&mut host, &addr(5)), U256([0, 0, 0, 0]));
    assert_eq!(block_hash(&mut host, 1), H256::zero());
    assert_eq!(coinbase(&mut host), Address::zero());
}

#[test]
fn dry_run_status_decides_calls_and_creation() {
    let mut ok = DryRunHost::new(0, 7, Vec::new());
    let mut out = [3u8; 2];
    assert_eq!(call(&mut ok, 5, &addr(1), U256([1, 0, 0, 0]), &[], &mut out), Ok(()));
    assert_eq!(out, [3u8, 3]);
    assert_eq!(create(&mut ok, U256([0, 0, 0, 0]), &[1]), Ok(Address::zero()));
    assert_eq!(timestamp(&mut ok), 7);
    for status in [1, -1] {
        let mut failing = DryRunHost::new(status, 0, Vec::new());
        assert_eq!(static_call(&mut failing, 5, &addr(1), &[], &mut out), Err(Error));
        assert_eq!(create2(&mut failing, U256([0, 0, 0, 0]), H256::zero(), &[]), Err(Error));
    }
}

#[test]
fn dry_run_input_is_the_call_input() {
    let mut empty = DryRunHost::new(0, 0, Vec::new());
    assert_eq!(input(&mut empty), Vec::<u8>::new());
    let mut three = DryRunHost::new(0, 0, vec![1u8, 2, 3]);
    assert_eq!(input(&mut three), vec![1u8, 2, 3]);
    let topics = [H256([1; 32]), H256([2; 32]), H256([3; 32]), H256([4; 32])];
    log(&mut three, &topics, &[9]);
}
