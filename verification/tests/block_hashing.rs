use blockchains::block::Block;
use blockchains::digest::hex_digest_of;
use blockchains::encoding::{join, push_decimal, push_signed_decimal, to_lower_hex};
use blockchains::mining::{has_leading_zeros, MiningStrategy, ProofOfWorkStrategy, RandomStrategy};

fn decimal_of(n: u64) -> String {
    let mut out = String::from("n=");
    push_decimal(&mut out, n);
    out
}

fn signed_decimal_of(n: i64) -> String {
    let mut out = String::from("n=");
    push_signed_decimal(&mut out, n);
    out
}

#[test]
fn decimal_rendering_matches_the_usual_notation() {
    assert_eq!(decimal_of(0), "n=0");
    assert_eq!(decimal_of(7), "n=7");
    assert_eq!(decimal_of(10), "n=10");
    assert_eq!(decimal_of(1000), "n=1000");
    assert_eq!(decimal_of(9_007_199_254_740_993), "n=9007199254740993");
    assert_eq!(decimal_of(u64::MAX), "n=18446744073709551615");
    for n in [1u64, 9, 11, 99, 100, 101, 12345, 4_294_967_296] {
        assert_eq!(decimal_of(n), format!("n={}", n));
    }
}

#[test]
fn signed_decimal_rendering_puts_a_minus_before_negative_numbers() {
    assert_eq!(signed_decimal_of(0), "n=0");
    assert_eq!(signed_decimal_of(1000), "n=1000");
    assert_eq!(signed_decimal_of(-1), "n=-1");
    assert_eq!(signed_decimal_of(-42), "n=-42");
    assert_eq!(signed_decimal_of(i64::MAX), "n=9223372036854775807");
    assert_eq!(signed_decimal_of(i64::MIN), "n=-9223372036854775808");
}

#[test]
fn hex_rendering_writes_two_lower_case_digits_per_byte() {
    assert_eq!(to_lower_hex(&[]), "");
    assert_eq!(to_lower_hex(&[10, 20, 30]), "0a141e");
    assert_eq!(to_lower_hex(&[0x00, 0x0f, 0xf0, 0xff, 0x9a, 0xbc, 0xde]), "000ff0ff9abcde");
    let all: Vec<u8> = (0..=255u8).collect();
    let expected: String = all.iter().map(|b| format!("{:02x}", b)).collect();
    assert_eq!(to_lower_hex(&all), expected);
}

#[test]
fn join_puts_the_separator_between_neighbours_only() {
    assert_eq!(join(&vec![], "|"), "");
    assert_eq!(join(&vec!["a".to_string()], "|"), "a");
    assert_eq!(join(&vec!["t1".to_string(), "t2".to_string()], "|"), "t1|t2");
    assert_eq!(
        join(&vec!["".to_string(), "x".to_string(), "".to_string()], ", "),
        ", x, "
    );
}

#[test]
fn hex_digest_is_sha256_of_the_utf8_bytes() {
    assert_eq!(
        hex_digest_of(""),
        "e3b0c44298fc1c149afbf4c8996fb92427ae41e4649b934ca495991b7852b855"
    );
    assert_eq!(
        hex_digest_of("abc"),
        "ba7816bf8f01cfea414140de5dae2223b00361a396177a9cb410ff61f20015ad"
    );
    assert_eq!(
        hex_digest_of("Genesis Block"),
        "89eb0ac031a63d2421cd05a2fbe41f3ea35f5c3712ca839cbf6b85c4ee07b7a3"
    );
}

#[test]
fn new_block_is_sealed_over_its_fields_in_order() {
    let block = Block::new(1, 1000, "prev_hash".to_string(), "test data".to_string());
    assert_eq!(block.index, 1);
    assert_eq!(block.timestamp, 1000);
    assert_eq!(block.prev_hash, "prev_hash");
    assert_eq!(block.data, "test data");
    assert_eq!(block.nonce, 0);
    assert_eq!(block.merkle_root, "0");
    assert_eq!(block.hash, "f87d0fa24b6f239b0fc8db8a3e9c91085f30facea4bd6126285c04d1293d324f");
    assert_eq!(block.hash, hex_digest_of("11000prev_hashtest data00"));
    assert!(block.is_valid());
}

#[test]
fn hash_follows_the_fields_not_the_stored_hash() {
    let mut block = Block::new(1, 1000, "prev_hash".to_string(), "test data".to_string());
    block.data = "tampered data".to_string();
    assert_eq!(
        block.calculate_hash(),
        "8b983336f16f9a53a1db5731599795e6957b96ea4709ad9957dcb378db217c6c"
    );
    block.hash = "anything".to_string();
    assert_eq!(
        block.calculate_hash(),
        "8b983336f16f9a53a1db5731599795e6957b96ea4709ad9957dcb378db217c6c"
    );
    assert!(!block.is_valid());
}

#[test]
fn hash_of_extreme_and_non_ascii_fields() {
    let block = Block::new(7, -42, "ab".to_string(), "cd".to_string());
    assert_eq!(block.hash, "eaca28c67e387cdb230093a4fc5b3d6473b90e2608434c42bfe8411aa76e28c9");

    let block = Block::new(u64::MAX, i64::MIN, String::new(), String::new());
    assert_eq!(block.hash, "427343f79082a20afc5f32f187a983270602a14dded3e010fb347dc9adc750f4");

    let block = Block::new(2, 5, "0".to_string(), "h\u{e9}llo \u{2713}".to_string());
    assert_eq!(block.hash, "32e488da4be1a84ceb517068cb9a02d41b7398e8027c604d4e32226573105480");
}

#[test]
fn calculate_hash_gives_the_same_string_each_time() {
    let block = Block::new(3, 99, "p".to_string(), "d".to_string());
    let first = block.calculate_hash();
    let second = block.calculate_hash();
    assert_eq!(first, second);
    assert_eq!(first, block.hash);
    assert_eq!(first.len(), 64);
    assert!(first.chars().all(|c| c.is_ascii_digit() || ('a'..='f').contains(&c)));

    let twin = Block::new(3, 99, "p".to_string(), "d".to_string());
    assert_eq!(twin.calculate_hash(), first);
}

#[test]
fn fields_are_hashed_without_separators() {
    let one = Block::new(1, 23, "p".to_string(), "d".to_string());
    let other = Block::new(12, 3, "p".to_string(), "d".to_string());
    assert_eq!(one.hash, other.hash);
    assert_eq!(one.hash, "e7c9ff04c1d46517bdcbf7ccc01136ddd671f8c2030007718b01867c54febb66");
}

#[test]
fn genesis_block_carries_the_digest_of_its_data() {
    let genesis = Block::genesis_at(0);
    assert_eq!(genesis.index, 0);
    assert_eq!(genesis.timestamp, 0);
    assert_eq!(genesis.prev_hash, "0");
    assert_eq!(genesis.data, "Genesis Block");
    assert_eq!(genesis.nonce, 0);
    assert_eq!(
        genesis.merkle_root,
        "89eb0ac031a63d2421cd05a2fbe41f3ea35f5c3712ca839cbf6b85c4ee07b7a3"
    );
    assert_eq!(genesis.hash, "f33b7fb5b29199eb94c58f08d9dba6cd67bd7608679b562655ab4254f86e529d");
    assert!(genesis.is_valid());

    let later = Block::genesis_at(1_700_000_000);
    assert_eq!(later.hash, "d6eb2d7c0c937e8fdada8c1e85bd0c9b8ef671fc9d75a78164427077d0b63ca3");
    assert!(later.is_valid());
}

#[test]
fn genesis_is_stamped_with_the_current_time() {
    let genesis = Block::genesis();
    assert!(genesis.timestamp > 1_600_000_000);
    assert_eq!(genesis.hash, Block::genesis_at(genesis.timestamp).hash);
    assert_eq!(genesis.merkle_root, Block::genesis_at(0).merkle_root);
    assert!(genesis.is_valid());
}

#[test]
fn reseal_sets_the_nonce_and_the_matching_hash() {
    let mut block = Block::new(1, 1000, "prev".to_string(), "data".to_string());
    block.hash = "stale".to_string();
    block.reseal(5);
    assert_eq!(block.nonce, 5);
    assert_eq!(block.hash, "1eea9d96342cd0655260f1536a84b721e686429a3e0db9863956dda5a66de711");
    assert_eq!(block.data, "data");
    assert!(block.is_valid());
}

#[test]
fn clone_copies_every_field() {
    let mut block = Block::new(4, -3, "p".to_string(), "d".to_string());
    block.reseal(17);
    let copy = block.clone();
    assert_eq!(copy.index, 4);
    assert_eq!(copy.timestamp, -3);
    assert_eq!(copy.prev_hash, "p");
    assert_eq!(copy.data, "d");
    assert_eq!(copy.nonce, 17);
    assert_eq!(copy.merkle_root, "0");
    assert_eq!(copy.hash, block.hash);
}

#[test]
fn leading_zeros_are_counted_in_characters() {
    assert!(has_leading_zeros("", 0));
    assert!(has_leading_zeros("abc", 0));
    assert!(has_leading_zeros("0abc", 1));
    assert!(!has_leading_zeros("0abc", 2));
    assert!(has_leading_zeros("000", 3));
    assert!(!has_leading_zeros("000", 4));
    assert!(!has_leading_zeros("", 1));
    assert!(!has_leading_zeros("a000", 1));
    assert!(has_leading_zeros("00\u{e9}", 2));
    assert!(!has_leading_zeros("00\u{e9}", 3));
    assert!(!has_leading_zeros("\u{e9}00", 1));
}

#[test]
fn proof_of_work_stops_at_the_first_accepted_nonce() {
    let cases: [(usize, u64, &str); 4] = [
        (0, 0, "3f1ed4b2644c65f88c7cf930007b4bc1aa41fe2e031f757853a01df531aadb43"),
        (1, 73, "04c456a7355b6ed93008843d36240fd95b267b13f43554826f7b88fe5b7d2b50"),
        (2, 132, "003638c96a23240cf22e62e61f13c4ea3bf0082abcb0e959143478c06a4c6c76"),
        (3, 724, "000a2c09865f8184283eb95fdc787cae1bcd7267c4c32cbe6c29306cc53ffffc"),
    ];
    for (difficulty, nonce, hash) in cases {
        let mut block = Block::new(1, 1000, "prev".to_string(), "data".to_string());
        ProofOfWorkStrategy { difficulty }.mine(&mut block);
        assert_eq!(block.nonce, nonce);
        assert_eq!(block.hash, hash);
        assert!(block.hash.starts_with(&"0".repeat(difficulty)));
        assert!(block.is_valid());
        assert_eq!(block.index, 1);
        assert_eq!(block.timestamp, 1000);
        assert_eq!(block.prev_hash, "prev");
        assert_eq!(block.data, "data");
        assert_eq!(block.merkle_root, "0");
    }
}

#[test]
fn proof_of_work_leaves_an_accepted_block_alone() {
    let mut block = Block::new(1, 1000, "prev".to_string(), "data".to_string());
    block.reseal(73);
    ProofOfWorkStrategy { difficulty: 1 }.mine(&mut block);
    assert_eq!(block.nonce, 73);

    block.hash = "0 but stale".to_string();
    ProofOfWorkStrategy { difficulty: 1 }.mine(&mut block);
    assert_eq!(block.nonce, 73);
    assert_eq!(block.hash, "0 but stale");
    assert!(!block.is_valid());
}

#[test]
fn proof_of_work_searches_upwards_from_the_current_nonce() {
    let mut block = Block::new(1, 1000, "prev".to_string(), "data".to_string());
    block.reseal(74);
    ProofOfWorkStrategy { difficulty: 1 }.mine(&mut block);
    assert!(block.nonce > 74);
    assert!(block.hash.starts_with('0'));
    assert!(block.is_valid());

    let mut stale = Block::new(1, 1000, "prev".to_string(), "data".to_string());
    stale.hash = "short".to_string();
    ProofOfWorkStrategy { difficulty: 64 - 63 }.mine(&mut stale);
    assert_eq!(stale.nonce, 73);
    assert!(stale.is_valid());
}

#[test]
fn proof_of_work_stops_at_the_largest_nonce() {
    let mut block = Block::new(1, 1000, "prev".to_string(), "data".to_string());
    block.reseal(u64::MAX - 2);
    ProofOfWorkStrategy { difficulty: 64 }.mine(&mut block);
    assert_eq!(block.nonce, u64::MAX);
    assert!(block.is_valid());
    assert!(!block.hash.starts_with(&"0".repeat(64)));
}

#[test]
fn random_strategy_draws_a_small_nonce_and_seals() {
    let mut seen_other_than_start = false;
    for _ in 0..200 {
        let mut block = Block::new(1, 1000, "prev".to_string(), "data".to_string());
        block.hash = "stale".to_string();
        RandomStrategy.mine(&mut block);
        assert!(block.nonce >= 1 && block.nonce < 1000);
        assert!(block.is_valid());
        assert_eq!(block.hash, block.calculate_hash());
        assert_eq!(block.data, "data");
        assert_eq!(block.prev_hash, "prev");
        if block.nonce != 1 {
            seen_other_than_start = true;
        }
    }
    assert!(seen_other_than_start);
}

#[test]
fn mine_block_hands_the_block_to_the_strategy() {
    let mut block = Block::new(1, 1000, "prev".to_string(), "data".to_string());
    block.mine_block(&ProofOfWorkStrategy { difficulty: 2 });
    assert_eq!(block.nonce, 132);
    assert!(block.hash.starts_with("00"));
    assert!(block.is_valid());
}

#[test]
fn describe_names_every_field_on_one_line() {
    let block = Block::new(1, -1000, "prev".to_string(), "some data".to_string());
    assert_eq!(
        block.describe(),
        format!(
            "Block {{ index: 1, hash: {}, prev_hash: prev, timestamp: -1000, data: some data, nonce: 0, merkle_root: 0 }}",
            block.hash
        )
    );
}

struct FixedNonce(u64);

impl MiningStrategy for FixedNonce {
    fn mine(&self, block: &mut Block) {
        block.reseal(self.0);
    }
}

#[test]
fn a_strategy_of_the_caller_can_mine() {
    let mut block = Block::new(1, 1000, "prev".to_string(), "data".to_string());
    block.mine_block(&FixedNonce(5));
    assert_eq!(block.nonce, 5);
    assert_eq!(block.hash, "1eea9d96342cd0655260f1536a84b721e686429a3e0db9863956dda5a66de711");
    assert!(block.is_valid());
}

#[test]
fn every_sealed_hash_has_64_digits() {
    let mut block = Block::new(9, 9, String::new(), "x".repeat(1000));
    assert_eq!(block.hash.len(), 64);
    block.hash = String::new();
    block.reseal(1);
    assert_eq!(block.hash.len(), 64);
    assert_eq!(Block::genesis_at(-5).hash.len(), 64);
    assert_eq!(Block::genesis().hash.len(), 64);
    assert_eq!(Block::genesis_at(-5).merkle_root.len(), 64);
}
