use raiblocks::blockstorage::{BlockStorage, Storage};
use raiblocks::crypto::{verify_signature, Keypair};
use raiblocks::transaction::{
    work_hash, ChangeTransaction, OpenTransaction, RaiHash, RaiWork, ReceiveTransaction,
    SendTransaction, Transaction,
};
use raiblocks::types::{Balance, PubKey, Signature, Work, WorkHash, RAI_WORK_THRESHOLD};
use raiblocks::work::search_work;
use raiblocks::Failure;

// Nonces that are valid work for the fixture blocks below, each the smallest
// such nonce for its work element.
const WORK_AFTER_GENESIS: u64 = 14593826;
const WORK_OPEN_DEST: u64 = 27773822;
const WORK_AFTER_SEND: u64 = 110392688;
const WORK_AFTER_OPEN: u64 = 236871397;

const GENESIS_PUBLIC: [u8; 32] = [
    119, 69, 186, 76, 38, 26, 39, 2, 71, 47, 220, 135, 180, 235, 246, 17, 132, 171, 178, 104,
    87, 39, 202, 59, 45, 51, 171, 60, 255, 38, 14, 73,
];
const DEST_PUBLIC: [u8; 32] = [
    252, 124, 239, 169, 46, 18, 111, 232, 193, 211, 67, 23, 193, 253, 209, 14, 227, 122, 65,
    105, 56, 142, 16, 128, 251, 174, 103, 79, 81, 222, 19, 48,
];
const GENESIS_HASH: [u8; 32] = [
    168, 187, 101, 188, 82, 125, 84, 4, 126, 24, 190, 233, 167, 221, 247, 118, 15, 31, 249, 13,
    164, 65, 67, 144, 38, 105, 244, 105, 122, 52, 154, 237,
];
const SEND_HASH: [u8; 32] = [
    46, 138, 106, 241, 44, 60, 36, 32, 234, 52, 18, 113, 65, 150, 146, 174, 97, 145, 98, 163,
    120, 214, 78, 196, 169, 213, 213, 247, 239, 128, 77, 5,
];
const OPEN_HASH: [u8; 32] = [
    94, 173, 133, 234, 189, 186, 148, 167, 160, 209, 134, 154, 101, 162, 246, 85, 102, 235, 140,
    185, 248, 176, 73, 66, 217, 249, 55, 171, 55, 156, 246, 16,
];

fn genesis_key() -> Keypair {
    Keypair::from_secret([1u8; 32])
}

fn dest_key() -> Keypair {
    Keypair::from_secret([2u8; 32])
}

fn genesis_block() -> OpenTransaction {
    let k = genesis_key();
    OpenTransaction {
        account: k.public,
        source: [0u8; 32],
        representative: k.public,
        work: Work(0),
        signature: Signature::default(),
    }
}

fn fresh() -> Storage {
    Storage::new(genesis_block(), Balance(1000))
}

fn first_send() -> SendTransaction {
    let mut s = SendTransaction::new_without_work(
        &genesis_key(),
        genesis_block().hash(),
        Balance(600),
        dest_key().public,
    );
    s.work = Work(WORK_AFTER_GENESIS);
    s
}

fn dest_open() -> OpenTransaction {
    let mut o = OpenTransaction::new_without_work(&dest_key(), first_send().hash(), None);
    o.work = Work(WORK_OPEN_DEST);
    o
}

fn opened() -> Storage {
    let mut s = fresh();
    s.insert(first_send().into()).unwrap();
    s.insert(dest_open().into()).unwrap();
    s
}

#[test]
fn fixture_keys_and_digests() {
    assert_eq!(genesis_key().public, PubKey(GENESIS_PUBLIC));
    assert_eq!(dest_key().public, PubKey(DEST_PUBLIC));
    assert_eq!(genesis_block().hash(), GENESIS_HASH);
    assert_eq!(first_send().hash(), SEND_HASH);
    assert_eq!(dest_open().hash(), OPEN_HASH);
}

#[test]
fn test_storage() {
    let mut s = fresh();
    let send = first_send();
    assert!(send.work_validate().verify());
    let open = dest_open();
    s.insert(send.into()).unwrap();
    s.insert(open.into()).unwrap();
}

#[test]
fn hash_ignores_work_and_signature() {
    let send = first_send();
    let mut other = send;
    other.work = Work(7);
    other.signature = Signature([9u8; 64]);
    assert_eq!(send.hash(), other.hash());
    assert_eq!(send.hash(), send.hash());
    let moved = SendTransaction { balance: Balance(601), ..send };
    assert_ne!(send.hash(), moved.hash());
    let t: Transaction = send.into();
    assert_eq!(t.hash(), send.hash());
}

#[test]
fn signature_round_trip() {
    let key = genesis_key();
    let msg = first_send().hash();
    let sig = key.sign(&msg);
    assert!(verify_signature(&key.public, &msg, &sig));
    for i in [0usize, 31, 63] {
        let mut bad = sig;
        bad.0[i] ^= 1;
        assert!(!verify_signature(&key.public, &msg, &bad));
    }
    let mut other_msg = msg;
    other_msg[5] ^= 0x10;
    assert!(!verify_signature(&key.public, &other_msg, &sig));
    assert!(!verify_signature(&dest_key().public, &msg, &sig));
}

#[test]
fn work_threshold_is_strict() {
    assert!(!WorkHash(RAI_WORK_THRESHOLD.to_le_bytes()).verify());
    assert!(WorkHash((RAI_WORK_THRESHOLD + 1).to_le_bytes()).verify());
    assert!(WorkHash(u64::MAX.to_le_bytes()).verify());
    assert!(!WorkHash([0u8; 8]).verify());
}

#[test]
fn work_calculate_value() {
    let send = first_send();
    let wh = send.work_calculate(Work(WORK_AFTER_GENESIS));
    assert_eq!(wh.0, 0xfffffffbf77ee1b5u64.to_le_bytes());
    assert_eq!(work_hash(Work(WORK_AFTER_GENESIS), &GENESIS_HASH).0, wh.0);
    assert!(send.verify_work().is_ok());
    let lazy = SendTransaction { work: Work(0), ..send };
    assert_eq!(lazy.verify_work(), Err(Failure::Work));
}

#[test]
fn search_finds_first_valid_nonce() {
    let send = first_send();
    assert_eq!(
        search_work(&send, WORK_AFTER_GENESIS - 1000, WORK_AFTER_GENESIS + 1000).map(|w| w.0),
        Some(WORK_AFTER_GENESIS)
    );
    assert!(search_work(&send, 0, 1000).is_none());
    assert!(search_work(&send, WORK_AFTER_GENESIS, WORK_AFTER_GENESIS).is_none());
}

#[test]
fn genesis_ledger() {
    let s = fresh();
    let g = genesis_block();
    assert_eq!(s.find_head(&g.account), Some(GENESIS_HASH));
    assert_eq!(s.find_balance(&GENESIS_HASH), Some(Balance(1000)));
    assert_eq!(s.find_key(&GENESIS_HASH), Some(g.account));
    assert!(s.find_open(&GENESIS_HASH).is_some());
    assert!(s.lookup(&[7u8; 32]).is_none());
    assert!(s.find_head(&dest_key().public).is_none());
    assert!(!s.is_unspent(&GENESIS_HASH));
}

#[test]
fn send_then_open_credits_amount() {
    let mut s = fresh();
    let send = first_send();
    assert_eq!(s.insert(send.into()), Ok(()));
    assert!(s.is_unspent(&SEND_HASH));
    assert_eq!(s.find_balance(&SEND_HASH), Some(Balance(600)));
    assert_eq!(s.find_head(&genesis_key().public), Some(SEND_HASH));
    assert_eq!(s.find_key(&SEND_HASH), Some(genesis_key().public));
    assert_eq!(s.insert(dest_open().into()), Ok(()));
    assert_eq!(s.find_balance(&OPEN_HASH), Some(Balance(400)));
    assert_eq!(s.find_head(&dest_key().public), Some(OPEN_HASH));
    assert_eq!(s.find_key(&OPEN_HASH), Some(dest_key().public));
    assert!(!s.is_unspent(&SEND_HASH));
}

#[test]
fn open_twice_is_received() {
    let mut s = opened();
    assert_eq!(s.insert(dest_open().into()), Err(Failure::Received));
}

#[test]
fn send_off_head_is_fork() {
    let mut s = fresh();
    s.insert(first_send().into()).unwrap();
    let mut second = SendTransaction::new_without_work(
        &genesis_key(),
        GENESIS_HASH,
        Balance(500),
        dest_key().public,
    );
    second.work = Work(WORK_AFTER_GENESIS);
    assert_eq!(s.insert(second.into()), Err(Failure::Fork));
    assert_eq!(s.find_head(&genesis_key().public), Some(SEND_HASH));
}

#[test]
fn send_above_balance_is_over_send() {
    let mut s = fresh();
    let mut send = SendTransaction::new_without_work(
        &genesis_key(),
        GENESIS_HASH,
        Balance(1001),
        dest_key().public,
    );
    send.work = Work(WORK_AFTER_GENESIS);
    assert_eq!(s.insert(send.into()), Err(Failure::OverSend));
    assert_eq!(s.find_head(&genesis_key().public), Some(GENESIS_HASH));
}

#[test]
fn send_of_whole_balance_is_accepted() {
    let mut s = fresh();
    let mut send = SendTransaction::new_without_work(
        &genesis_key(),
        GENESIS_HASH,
        Balance(1000),
        dest_key().public,
    );
    send.work = Work(WORK_AFTER_GENESIS);
    assert_eq!(s.insert(send.into()), Ok(()));
}

#[test]
fn inserted_block_round_trips() {
    let mut s = fresh();
    let send = first_send();
    let h = send.hash();
    s.insert(send.into()).unwrap();
    let found = s.lookup(&h).unwrap();
    assert_eq!(found.hash(), h);
    match found {
        Transaction::Send(f) => {
            assert_eq!(f.balance, Balance(600));
            assert_eq!(f.work, Work(WORK_AFTER_GENESIS));
        }
        _ => panic!("expected a send"),
    }
}

#[test]
fn receive_adds_amount() {
    let mut s = opened();
    let mut send2 =
        SendTransaction::new_without_work(&genesis_key(), SEND_HASH, Balance(500), dest_key().public);
    send2.work = Work(WORK_AFTER_SEND);
    s.insert(send2.into()).unwrap();
    let h2 = send2.hash();
    assert!(s.is_unspent(&h2));
    let mut recv = ReceiveTransaction::new_without_work(&dest_key(), OPEN_HASH, h2);
    recv.work = Work(WORK_AFTER_OPEN);
    assert_eq!(s.insert(recv.into()), Ok(()));
    let rh = recv.hash();
    assert_eq!(s.find_balance(&rh), Some(Balance(500)));
    assert_eq!(s.find_head(&dest_key().public), Some(rh));
    assert_eq!(s.find_key(&rh), Some(dest_key().public));
    assert!(s.find_open(&rh).is_some());
    assert!(!s.is_unspent(&h2));
    assert_eq!(s.insert(recv.into()), Err(Failure::Received));
}

#[test]
fn receive_signed_by_stranger_is_refused() {
    let mut s = opened();
    let mut send2 =
        SendTransaction::new_without_work(&genesis_key(), SEND_HASH, Balance(500), dest_key().public);
    send2.work = Work(WORK_AFTER_SEND);
    s.insert(send2.into()).unwrap();
    let mut recv = ReceiveTransaction::new_without_work(&genesis_key(), OPEN_HASH, send2.hash());
    recv.work = Work(WORK_AFTER_OPEN);
    assert_eq!(s.insert(recv.into()), Err(Failure::Signature));
}

#[test]
fn change_keeps_balance() {
    let mut s = opened();
    let mut change =
        ChangeTransaction::new_without_work(&dest_key(), OPEN_HASH, genesis_key().public);
    change.work = Work(WORK_AFTER_OPEN);
    assert_eq!(s.insert(change.into()), Ok(()));
    let ch = change.hash();
    assert_eq!(s.find_balance(&ch), Some(Balance(400)));
    assert_eq!(s.find_head(&dest_key().public), Some(ch));
    assert_eq!(s.find_key(&ch), Some(dest_key().public));
}

#[test]
fn change_with_bad_work_is_refused() {
    let mut s = opened();
    let change = ChangeTransaction::new_without_work(&dest_key(), OPEN_HASH, genesis_key().public);
    assert_eq!(s.insert(change.into()), Err(Failure::Work));
}

#[test]
fn unknown_previous_is_missing() {
    let mut s = fresh();
    let change = ChangeTransaction::new_without_work(&genesis_key(), [3u8; 32], dest_key().public);
    assert_eq!(s.insert(change.into()), Err(Failure::Missing));
}

#[test]
fn open_of_unknown_source_is_missing() {
    let mut s = fresh();
    let mut open = OpenTransaction::new_without_work(&dest_key(), [9u8; 32], None);
    open.work = Work(WORK_OPEN_DEST);
    assert_eq!(s.insert(open.into()), Err(Failure::Missing));
}

#[test]
fn open_of_non_send_source_is_invalid() {
    let mut s = fresh();
    let mut open = OpenTransaction::new_without_work(&dest_key(), GENESIS_HASH, None);
    open.work = Work(WORK_OPEN_DEST);
    assert_eq!(s.insert(open.into()), Err(Failure::Invalid));
}

#[test]
fn bad_signature_is_refused() {
    let mut s = fresh();
    let mut send = first_send();
    send.signature.0[10] ^= 0x40;
    assert_eq!(s.insert(send.into()), Err(Failure::Signature));
    let mut open = dest_open();
    open.signature = Signature::default();
    assert_eq!(open.verify(&s), Err(Failure::Signature));
}

#[test]
fn bad_work_is_refused() {
    let mut s = fresh();
    let send = SendTransaction { work: Work(0), ..first_send() };
    assert_eq!(s.insert(send.into()), Err(Failure::Work));
}

#[test]
fn transaction_verify_dispatches() {
    let s = fresh();
    let t: Transaction = first_send().into();
    assert_eq!(t.verify(&s), Ok(()));
    assert_eq!(t.previous(), Some(GENESIS_HASH));
    let o: Transaction = genesis_block().into();
    assert_eq!(o.previous(), None);
}

#[test]
fn byte_encodings() {
    assert_eq!(Work(0x0102).to_bytes(), [2, 1, 0, 0, 0, 0, 0, 0]);
    let b = Balance(0x0a0b).to_bytes();
    assert_eq!(b[0], 0x0b);
    assert_eq!(b[1], 0x0a);
    assert_eq!(b[2..], [0u8; 14]);
    assert_eq!(Balance(5).checked_sub(Balance(7)), None);
    assert_eq!(Balance(7).checked_sub(Balance(5)), Some(Balance(2)));
    assert_eq!(Balance(u128::MAX).checked_add(Balance(1)), None);
    assert_eq!(Balance(1).checked_add(Balance(2)), Some(Balance(3)));
    assert_eq!(PubKey::from([4u8; 32]), PubKey([4u8; 32]));
    assert!(PubKey([4u8; 32]).same(&PubKey([4u8; 32])));
    assert!(!PubKey([4u8; 32]).same(&PubKey([5u8; 32])));
}
