use opentender::api::ApiResponse;
use opentender::contract::OpenTenderContract;
use opentender::encryption::{decrypt_amount, derive_key, encrypt_amount, make_commitment};
use opentender::errors::{EncryptionError, TenderError};
use opentender::model::{phase_of, schedule_ok, Phase};

#[test]
fn test_encrypt_decrypt() {
    let amount = 150_000i128;
    let master_key = "test-master-key-32-chars-long!!";

    let (encrypted, _nonce_hex) = encrypt_amount(amount, master_key).unwrap();
    let decrypted = decrypt_amount(&encrypted, &_nonce_hex, master_key).unwrap();

    assert_eq!(amount, decrypted);
}

#[test]
fn test_encrypt_decrypt_negative_amount() {
    let master_key = "another-master-key";
    let (encrypted, key) = encrypt_amount(-42i128, master_key).unwrap();
    assert_eq!(decrypt_amount(&encrypted, &key, master_key).unwrap(), -42i128);
}

#[test]
fn test_encrypt_returns_hex_nonce() {
    let (_, nonce_hex) = encrypt_amount(7i128, "key").unwrap();
    assert_eq!(nonce_hex.len(), 24);
    assert!(nonce_hex.chars().all(|c| c.is_ascii_hexdigit()));
}

#[test]
fn test_decrypt_rejects_bad_base64() {
    let result = decrypt_amount("not base64 at all!!", "", "key");
    assert_eq!(result, Err(EncryptionError::Base64));
}

#[test]
fn test_decrypt_rejects_short_data() {
    // "AAAA" decodes to three zero bytes: too short to hold a nonce.
    let result = decrypt_amount("AAAA", "", "key");
    assert_eq!(result, Err(EncryptionError::InvalidData));
}

#[test]
fn test_decrypt_wrong_master_key_fails() {
    let (encrypted, key) = encrypt_amount(5i128, "master-one").unwrap();
    let result = decrypt_amount(&encrypted, &key, "master-two");
    assert_eq!(result, Err(EncryptionError::Aes));
}

#[test]
fn test_encrypt_uses_fresh_nonces() {
    // Each call draws a fresh random nonce, so even equal amounts under the
    // same key produce different transport text.
    let (encrypted, _) = encrypt_amount(0i128, "key").unwrap();
    let (encrypted_again, _) = encrypt_amount(0i128, "key").unwrap();
    assert_ne!(encrypted, encrypted_again);
}

#[test]
fn test_derive_key_pads_and_truncates() {
    let short = derive_key("ab");
    let mut expected = vec![0u8; 32];
    expected[0] = b'a';
    expected[1] = b'b';
    assert_eq!(short, expected);

    let long = derive_key("0123456789012345678901234567890123456789");
    assert_eq!(long.len(), 32);
    assert_eq!(long, "01234567890123456789012345678901".as_bytes().to_vec());
}

#[test]
fn test_commitment_depends_on_amount_and_secret() {
    let base = make_commitment(150000i128, "secret");
    assert_ne!(base, make_commitment(150001i128, "secret"));
    assert_ne!(base, make_commitment(150000i128, "tercess"));
    assert_eq!(base, make_commitment(150000i128, "secret"));
}

#[test]
fn test_reveal_wrong_secret_is_mismatch() {
    let mut contract = OpenTenderContract::new();
    contract.initialize("admin".to_string()).unwrap();
    let id = contract
        .create_tender(
            "creator".to_string(),
            "Project".to_string(),
            String::new(),
            "QmHash".to_string(),
            1000,
            2000,
            100000i128,
            0,
        )
        .unwrap();
    contract
        .commit_bid(id, "bidder".to_string(), make_commitment(150000i128, "right"), 0)
        .unwrap();

    let wrong_secret =
        contract.reveal_bid(id, "bidder".to_string(), 150000i128, "wrong".to_string(), 1200);
    assert_eq!(wrong_secret, Err(TenderError::ProofMismatch));

    let wrong_amount =
        contract.reveal_bid(id, "bidder".to_string(), 160000i128, "right".to_string(), 1200);
    assert_eq!(wrong_amount, Err(TenderError::ProofMismatch));

    // The failed attempts changed nothing: the true reveal still goes through.
    contract
        .reveal_bid(id, "bidder".to_string(), 150000i128, "right".to_string(), 1200)
        .unwrap();
}

#[test]
fn test_reveal_twice_keeps_first_amount() {
    let mut contract = OpenTenderContract::new();
    contract.initialize("admin".to_string()).unwrap();
    let id = contract
        .create_tender(
            "creator".to_string(),
            "Project".to_string(),
            String::new(),
            "QmHash".to_string(),
            1000,
            2000,
            100000i128,
            0,
        )
        .unwrap();
    contract
        .commit_bid(id, "bidder".to_string(), make_commitment(150000i128, "s"), 0)
        .unwrap();
    contract.reveal_bid(id, "bidder".to_string(), 150000i128, "s".to_string(), 1200).unwrap();

    let again = contract.reveal_bid(id, "bidder".to_string(), 150000i128, "s".to_string(), 1300);
    assert_eq!(again, Err(TenderError::AlreadyRevealed));

    let bid = contract.get_bid(id, "bidder".to_string()).unwrap();
    assert_eq!(bid.revealed_amount, Some(150000i128));
    assert_eq!(bid.is_valid, true);
}

#[test]
fn test_duplicate_bid_keeps_original() {
    let mut contract = OpenTenderContract::new();
    contract.initialize("admin".to_string()).unwrap();
    let id = contract
        .create_tender(
            "creator".to_string(),
            "Project".to_string(),
            String::new(),
            "QmHash".to_string(),
            1000,
            2000,
            100000i128,
            0,
        )
        .unwrap();
    let original = vec![7u8; 32];
    contract.commit_bid(id, "bidder".to_string(), original.clone(), 100).unwrap();

    let second = contract.commit_bid(id, "bidder".to_string(), vec![9u8; 32], 200);
    assert_eq!(second, Err(TenderError::DuplicateBid));

    let bid = contract.get_bid(id, "bidder".to_string()).unwrap();
    assert_eq!(bid.commit_hash, original);
    assert_eq!(bid.timestamp, 100);
}

fn scenario_tender(contract: &mut OpenTenderContract) -> u64 {
    contract.initialize("admin".to_string()).unwrap();
    contract
        .create_tender(
            "creator".to_string(),
            "Scenario".to_string(),
            String::new(),
            "QmHash".to_string(),
            1000,
            2000,
            100000i128,
            0,
        )
        .unwrap()
}

#[test]
fn test_scenario_lowest_valid_bid_wins() {
    let mut contract = OpenTenderContract::new();
    let id = scenario_tender(&mut contract);

    contract
        .submit_bid(id, "BidderA".to_string(), make_commitment(150000i128, "ka"), 500)
        .unwrap();
    contract
        .submit_bid(id, "BidderB".to_string(), make_commitment(120000i128, "kb"), 600)
        .unwrap();

    contract.reveal_bid(id, "BidderA".to_string(), 150000i128, "ka".to_string(), 1200).unwrap();
    contract.reveal_bid(id, "BidderB".to_string(), 120000i128, "kb".to_string(), 1200).unwrap();

    contract.close_tender(id, "admin".to_string(), 2500).unwrap();

    let winner = contract.get_winner(id).unwrap();
    assert_eq!(winner.bidder, "BidderB".to_string());
    assert_eq!(winner.amount, 120000i128);
    assert_eq!(winner.tender_id, id);
    assert_eq!(winner.selected_at, 2500);
}

#[test]
fn test_scenario_below_minimum_is_excluded() {
    let mut contract = OpenTenderContract::new();
    let id = scenario_tender(&mut contract);

    contract
        .submit_bid(id, "BidderC".to_string(), make_commitment(50000i128, "kc"), 500)
        .unwrap();
    contract
        .submit_bid(id, "BidderD".to_string(), make_commitment(120000i128, "kd"), 600)
        .unwrap();

    let below = contract.reveal_bid(id, "BidderC".to_string(), 50000i128, "kc".to_string(), 1200);
    assert_eq!(below, Err(TenderError::BelowMinimum));
    let bid_c = contract.get_bid(id, "BidderC".to_string()).unwrap();
    assert_eq!(bid_c.is_valid, false);

    contract.reveal_bid(id, "BidderD".to_string(), 120000i128, "kd".to_string(), 1200).unwrap();
    contract.close_tender(id, "admin".to_string(), 2500).unwrap();

    // 50000 is numerically the lowest, but its bid never became valid.
    let winner = contract.get_winner(id).unwrap();
    assert_eq!(winner.bidder, "BidderD".to_string());
    assert_eq!(winner.amount, 120000i128);
}

#[test]
fn test_scenario_submit_at_deadline_fails() {
    let mut contract = OpenTenderContract::new();
    let id = scenario_tender(&mut contract);

    let result = contract.submit_bid(id, "Bidder".to_string(), vec![1u8; 32], 1000);
    assert_eq!(result, Err(TenderError::DeadlineExceeded));
}

#[test]
fn test_scenario_reveal_just_before_deadline_fails() {
    let mut contract = OpenTenderContract::new();
    let id = scenario_tender(&mut contract);

    contract
        .submit_bid(id, "Bidder".to_string(), make_commitment(150000i128, "k"), 500)
        .unwrap();

    let result = contract.reveal_bid(id, "Bidder".to_string(), 150000i128, "k".to_string(), 999);
    assert_eq!(result, Err(TenderError::TooEarly));
}

#[test]
fn test_winner_tie_prefers_earlier_submission() {
    let mut contract = OpenTenderContract::new();
    let id = scenario_tender(&mut contract);

    contract
        .submit_bid(id, "first".to_string(), make_commitment(120000i128, "k1"), 100)
        .unwrap();
    contract
        .submit_bid(id, "second".to_string(), make_commitment(120000i128, "k2"), 200)
        .unwrap();

    // Reveal in the opposite order: submission order must still decide.
    contract.reveal_bid(id, "second".to_string(), 120000i128, "k2".to_string(), 1200).unwrap();
    contract.reveal_bid(id, "first".to_string(), 120000i128, "k1".to_string(), 1300).unwrap();

    contract.close_tender(id, "creator".to_string(), 2000).unwrap();

    let winner = contract.get_winner(id).unwrap();
    assert_eq!(winner.bidder, "first".to_string());
    assert_eq!(winner.amount, 120000i128);
}

#[test]
fn test_winner_absent_without_valid_reveal() {
    let mut contract = OpenTenderContract::new();
    let id = scenario_tender(&mut contract);

    contract.submit_bid(id, "silent".to_string(), vec![4u8; 32], 100).unwrap();
    contract.close_tender(id, "admin".to_string(), 2500).unwrap();

    assert!(contract.get_winner(id).is_none());
    assert!(contract.is_tender_closed(id).unwrap());
}

#[test]
fn test_select_winner_is_a_pure_read() {
    let mut contract = OpenTenderContract::new();
    let id = scenario_tender(&mut contract);

    contract
        .submit_bid(id, "bidder".to_string(), make_commitment(130000i128, "k"), 100)
        .unwrap();
    contract.reveal_bid(id, "bidder".to_string(), 130000i128, "k".to_string(), 1200).unwrap();

    let picked = contract.select_winner(id);
    assert_eq!(picked, Some(("bidder".to_string(), 130000i128)));

    // Nothing was persisted by the scan.
    assert!(contract.get_winner(id).is_none());
    assert!(!contract.is_tender_closed(id).unwrap());
}

#[test]
fn test_get_all_tenders_lists_ids_in_order() {
    let mut contract = OpenTenderContract::new();
    contract.initialize("admin".to_string()).unwrap();
    for k in 0..4 {
        contract
            .create_tender(
                "creator".to_string(),
                format!("Project {}", k),
                String::new(),
                format!("Hash{}", k),
                1000,
                2000,
                100000i128,
                0,
            )
            .unwrap();
    }
    assert_eq!(contract.get_all_tenders(), vec![1u64, 2, 3, 4]);
}

#[test]
fn test_get_tender_bidders_in_submission_order() {
    let mut contract = OpenTenderContract::new();
    let id = scenario_tender(&mut contract);

    contract.submit_bid(id, "one".to_string(), vec![1u8; 32], 100).unwrap();
    contract.submit_bid(id, "two".to_string(), vec![2u8; 32], 200).unwrap();
    contract.submit_bid(id, "three".to_string(), vec![3u8; 32], 300).unwrap();

    let bidders = contract.get_tender_bidders(id);
    assert_eq!(
        bidders,
        vec!["one".to_string(), "two".to_string(), "three".to_string()]
    );
    assert_eq!(contract.get_tender_bidders(99), Vec::<String>::new());
}

#[test]
fn test_phase_classification() {
    let mut contract = OpenTenderContract::new();
    let id = scenario_tender(&mut contract);
    let tender = contract.get_tender(id).unwrap();

    assert_eq!(phase_of(&tender, 0), Phase::Open);
    assert_eq!(phase_of(&tender, 999), Phase::Open);
    assert_eq!(phase_of(&tender, 1000), Phase::RevealWindow);
    assert_eq!(phase_of(&tender, 1999), Phase::RevealWindow);
    assert_eq!(phase_of(&tender, 2000), Phase::Closeable);

    contract.close_tender(id, "admin".to_string(), 2500).unwrap();
    let closed = contract.get_tender(id).unwrap();
    assert_eq!(phase_of(&closed, 2500), Phase::Closed);
    assert_eq!(phase_of(&closed, 0), Phase::Closed);
}

#[test]
fn test_schedule_ok_boundaries() {
    assert!(schedule_ok(0, 1000, 2000));
    assert!(!schedule_ok(1000, 1000, 2000));
    assert!(!schedule_ok(0, 1000, 1000));
    assert!(!schedule_ok(2000, 1000, 3000));
}

#[test]
fn test_api_response_success() {
    let response: ApiResponse<u64> = ApiResponse::success(7);
    assert!(response.success);
    assert_eq!(response.data, Some(7));
    assert!(response.error.is_none());
}

#[test]
fn test_api_response_error() {
    let response: ApiResponse<u64> = ApiResponse::error("boom".to_string());
    assert!(!response.success);
    assert!(response.data.is_none());
    assert_eq!(response.error, Some("boom".to_string()));
}

#[test]
fn test_operations_on_missing_records_fail_not_found() {
    let mut contract = OpenTenderContract::new();
    let id = scenario_tender(&mut contract);

    let no_tender_submit = contract.submit_bid(99, "bidder".to_string(), vec![1u8; 32], 0);
    assert_eq!(no_tender_submit, Err(TenderError::NotFound));

    let no_bid_reveal =
        contract.reveal_bid(id, "stranger".to_string(), 150000i128, "k".to_string(), 1200);
    assert_eq!(no_bid_reveal, Err(TenderError::NotFound));

    let no_tender_close = contract.close_tender(99, "admin".to_string(), 2500);
    assert_eq!(no_tender_close, Err(TenderError::NotFound));
}
