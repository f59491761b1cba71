use logos_time::birthright::{
    backoff_after_tick, day_number, seconds_until_day_boundary, seconds_until_next_tick,
    BirthrightClock,
    SECONDS_PER_DAY, TICK_RETRY_BACKOFF_SECS,
};
use logos_time::config::{
    default_birthright_interval, default_enabled, default_max_earned, default_rpc,
    default_storage, default_topic, default_waku, TimeModuleConfig,
};
use logos_time::error::TimeModuleError;
use logos_time::mint_trigger::{
    mint_trigger_step, on_mint_confirmed, on_mints_confirmed, pending_metadata_uri, record_mint, same_word,
    work_nft_metadata, MintTriggerAction, MintTriggerEvent, PendingAgreements,
};
use logos_time::service::{initial_status, service_health};
use logos_time::signing::{agreement_domain_separator, agreement_signing_hash, is_signed_by};
use logos_time::types::{MintEvent, ModuleStatus, WorkAgreement, U256};
use logos_time::waku_listener::{
    on_connection_ended, record_agreement_forwarded, validate_agreement, validate_agreement_at,
    RECONNECT_DELAY_SECS,
};
use logos_time::{module_health, ModuleHealth};

fn agreement(id: u8, payer_signed: bool, expires_at: u64) -> WorkAgreement {
    WorkAgreement {
        id: [id; 32],
        worker: [1; 20],
        payer: [2; 20],
        hours_worked_scaled: 1500,
        payment_token: [0; 20],
        payment_amount: [0; 32],
        description: "fixed the roof".to_string(),
        created_at: 1_700_000_000,
        expires_at,
        worker_signature: vec![7, 7, 7],
        payer_signature: if payer_signed { Some(vec![9, 9]) } else { None },
    }
}

fn u256_from_u64(v: u64) -> U256 {
    let mut be = [0u8; 32];
    be[24..].copy_from_slice(&v.to_be_bytes());
    be
}

fn event(agreement_hash: [u8; 32], block: u64, nft_id: u64) -> MintEvent {
    MintEvent {
        tx_hash: [3; 32],
        block_number: block,
        worker: [1; 20],
        payer: [2; 20],
        time_amount: u256_from_u64(1_500_000_000_000_000_000),
        work_nft_id: u256_from_u64(nft_id),
        hours_worked_scaled: 1500,
        agreement_hash,
        payment_token: [0; 20],
        payment_amount: u256_from_u64(100),
    }
}

fn hex(bytes: &[u8]) -> String {
    bytes.iter().map(|b| format!("{:02x}", b)).collect()
}

// ---- agreement hash (keccak256 through the library) ----

#[test]
fn agreement_hash_of_empty_encoding_is_keccak_of_empty() {
    let h = WorkAgreement::agreement_hash(&[]);
    assert_eq!(hex(&h), "c5d2460186f7233c927e7db2dcc703c0e500b653ca82273b7bfad8045d85a470");
}

#[test]
fn agreement_hash_of_abc() {
    let h = WorkAgreement::agreement_hash(b"abc");
    assert_eq!(hex(&h), "4e03657aea45a94fc7d47ba826c8d667c0d1e6e33a64a036ec44f58fa12d6c45");
}

#[test]
fn agreement_hash_differs_for_different_encodings() {
    assert_ne!(WorkAgreement::agreement_hash(b"{\"a\":1}"), WorkAgreement::agreement_hash(b"{\"a\":2}"));
    assert_eq!(WorkAgreement::agreement_hash(b"{\"a\":1}"), WorkAgreement::agreement_hash(b"{\"a\":1}"));
}

#[test]
fn countersigned_iff_payer_signature() {
    assert!(agreement(1, true, 0).is_countersigned());
    assert!(!agreement(1, false, 0).is_countersigned());
    let mut a = agreement(1, true, 0);
    a.worker_signature = vec![];
    assert!(!a.is_countersigned());
    a.payer_signature = None;
    assert!(!a.is_countersigned());
}

// ---- birthright clock ----

#[test]
fn day_number_examples() {
    assert_eq!(day_number(0), 0);
    assert_eq!(day_number(86_399), 0);
    assert_eq!(day_number(86_400), 1);
    assert_eq!(day_number(1_700_000_000), 19_675);
    assert_eq!(day_number(u64::MAX), u64::MAX / 86_400);
}

#[test]
fn seconds_until_next_tick_daily_examples() {
    assert_eq!(seconds_until_next_tick(0, 86_400), 86_400);
    assert_eq!(seconds_until_next_tick(1, 86_400), 86_399);
    assert_eq!(seconds_until_next_tick(86_399, 86_400), 1);
    assert_eq!(seconds_until_next_tick(86_400, 86_400), 86_400);
    assert_eq!(seconds_until_next_tick(1_700_000_000, 86_400), 86_400 - 1_700_000_000 % 86_400);
}

#[test]
fn seconds_until_next_tick_follows_the_interval() {
    assert_eq!(seconds_until_next_tick(0, 3_600), 3_600);
    assert_eq!(seconds_until_next_tick(3_599, 3_600), 1);
    assert_eq!(seconds_until_next_tick(7_200, 3_600), 3_600);
    assert_eq!(seconds_until_next_tick(1_700_000_000, 3_600), 3_600 - 1_700_000_000 % 3_600);
    assert_eq!(seconds_until_next_tick(10, 1), 1);
    // An interval of 0 ticks daily.
    assert_eq!(seconds_until_next_tick(1, 0), 86_399);
}

#[test]
fn tick_boundary_law_on_values() {
    for interval in [1u64, 60, 3_600, 86_400, 604_800] {
        for now in [0u64, 1, 43_200, 86_399, 86_400, 1_700_000_000, 1_700_006_399] {
            let s = seconds_until_next_tick(now, interval);
            assert!(1 <= s && s <= interval);
            assert_eq!((now + s) % interval, 0);
            assert_eq!((now + s) / interval, now / interval + 1);
        }
    }
    for now in [0u64, 5, 86_399, 1_700_000_000] {
        let s = seconds_until_next_tick(now, SECONDS_PER_DAY);
        assert_eq!(day_number(now + s), day_number(now) + 1);
    }
}

fn clock() -> BirthrightClock {
    clock_with_interval(86_400)
}

fn clock_with_interval(interval_secs: u64) -> BirthrightClock {
    match BirthrightClock::new(
        "ws://localhost:8546".to_string(),
        "0xabc".to_string(),
        "0xdef".to_string(),
        interval_secs,
        "KEY".to_string(),
    ) {
        Ok(c) => c,
        Err(_) => panic!("a clock is always created"),
    }
}

#[test]
fn birthright_clock_new_keeps_settings() {
    let c = clock();
    assert_eq!(c.rpc_url, "ws://localhost:8546");
    assert_eq!(c.contract_address, "0xabc");
    assert_eq!(c.world_id_address, "0xdef");
    assert_eq!(c.interval_secs, 86_400);
    assert_eq!(c.signer_key_env, "KEY");
}

fn now_secs() -> u64 {
    std::time::SystemTime::now().duration_since(std::time::UNIX_EPOCH).unwrap().as_secs()
}

#[test]
fn birthright_clock_reads_the_system_clock() {
    let c = clock();
    let before = now_secs() / 86_400;
    let day = c.current_day();
    let after = now_secs() / 86_400;
    assert!(before <= day && day <= after);
    let s = c.seconds_until_next_day();
    assert!(1 <= s && s <= 86_400);
    match c.tick() {
        Ok(d) => assert!(d >= before && d <= now_secs() / 86_400),
        Err(_) => panic!("tick never fails"),
    }
}

#[test]
fn hourly_clock_ticks_hourly_and_still_knows_midnight() {
    let c = clock_with_interval(3_600);
    let t0 = now_secs();
    let s = c.seconds_until_next_tick();
    let t1 = now_secs();
    assert!(1 <= s && s <= 3_600);
    assert!((t0 + s) % 3_600 == 0 || (t1 + s) % 3_600 == 0);
    let t0 = now_secs();
    let d = c.seconds_until_next_day();
    let t1 = now_secs();
    assert!(1 <= d && d <= 86_400);
    assert!((t0 + d) % 86_400 == 0 || (t1 + d) % 86_400 == 0);
}

#[test]
fn seconds_until_day_boundary_examples() {
    assert_eq!(seconds_until_day_boundary(0), 86_400);
    assert_eq!(seconds_until_day_boundary(1), 86_399);
    assert_eq!(seconds_until_day_boundary(86_399), 1);
    assert_eq!(seconds_until_day_boundary(86_400), 86_400);
    assert_eq!(seconds_until_day_boundary(1_700_000_000), 86_400 - 1_700_000_000 % 86_400);
    for now in [0u64, 1, 43_200, 86_399, 86_400, 1_700_000_000] {
        let s = seconds_until_day_boundary(now);
        assert!(1 <= s && s <= 86_400);
        assert_eq!((now + s) % 86_400, 0);
        assert_eq!(day_number(now + s), day_number(now) + 1);
    }
}

// ---- config ----

#[test]
fn config_defaults() {
    let c = TimeModuleConfig::default();
    assert!(c.enabled);
    assert_eq!(c.logos_rpc_url, "ws://localhost:8546");
    assert_eq!(c.lssa_contract_address, "");
    assert_eq!(c.world_id_verifier, "");
    assert_eq!(c.waku_content_topic, "/time/1/work-agreements/proto");
    assert_eq!(c.waku_node_url, "ws://localhost:8547");
    assert_eq!(c.birthright_interval_secs, 86_400);
    assert_eq!(c.max_earned_per_day_wei, "23000000000000000000");
    assert_eq!(c.logos_storage_url, "http://localhost:8090");
    assert_eq!(c.signer_key_env, "TIME_MODULE_SIGNER_KEY");
}

#[test]
fn config_default_fields() {
    assert!(default_enabled());
    assert_eq!(default_rpc(), "ws://localhost:8546");
    assert_eq!(default_topic(), "/time/1/work-agreements/proto");
    assert_eq!(default_waku(), "ws://localhost:8547");
    assert_eq!(default_storage(), "http://localhost:8090");
    assert_eq!(default_birthright_interval(), 86_400);
    assert_eq!(default_max_earned(), "23000000000000000000");
    assert_eq!(default_max_earned().parse::<u128>().unwrap(), 23 * 10u128.pow(18));
}

// ---- validation of received agreements ----

use k256::ecdsa::SigningKey;

fn key(seed: u8) -> SigningKey {
    SigningKey::from_bytes(&[seed; 32].into()).unwrap()
}

fn address_of(k: &SigningKey) -> [u8; 20] {
    alloy_primitives::Address::from_private_key(k).into_array()
}

fn sign(k: &SigningKey, digest: &[u8; 32]) -> Vec<u8> {
    let (sig, recid) = k.sign_prehash_recoverable(digest).unwrap();
    let mut raw = sig.to_bytes().to_vec();
    raw.push(27 + recid.to_byte());
    raw
}

/// An agreement between the worker key 11 and the payer key 22, signed by both.
fn signed(id: u8, expires_at: u64) -> WorkAgreement {
    let mut a = agreement(id, true, expires_at);
    a.worker = address_of(&key(11));
    a.payer = address_of(&key(22));
    let digest = agreement_signing_hash(&a);
    a.worker_signature = sign(&key(11), &digest);
    a.payer_signature = Some(sign(&key(22), &digest));
    a
}

fn invalid_message(r: Result<WorkAgreement, TimeModuleError>) -> String {
    match r {
        Err(TimeModuleError::InvalidAgreement(m)) => m,
        Err(e) => panic!("unexpected error {:?}", e),
        Ok(_) => panic!("expected a refusal"),
    }
}

fn signature_message(r: Result<WorkAgreement, TimeModuleError>) -> String {
    match r {
        Err(TimeModuleError::SignatureError(m)) => m,
        Err(e) => panic!("unexpected error {:?}", e),
        Ok(_) => panic!("expected a refusal"),
    }
}

#[test]
fn domain_separator_is_the_eip712_hash_of_the_domain() {
    let k = |b: &[u8]| WorkAgreement::agreement_hash(b);
    let mut enc = Vec::new();
    enc.extend_from_slice(&k(b"EIP712Domain(string name,string version)"));
    enc.extend_from_slice(&k(b"TIME Protocol"));
    enc.extend_from_slice(&k(b"1"));
    assert_eq!(agreement_domain_separator(), k(&enc));
}

#[test]
fn signing_hash_is_the_eip712_digest_of_the_agreement() {
    let k = |b: &[u8]| WorkAgreement::agreement_hash(b);
    let a = signed(3, 77);
    let word_u64 = |v: u64| {
        let mut w = [0u8; 32];
        w[24..].copy_from_slice(&v.to_be_bytes());
        w
    };
    let word_addr = |x: [u8; 20]| {
        let mut w = [0u8; 32];
        w[12..].copy_from_slice(&x);
        w
    };
    let mut enc = Vec::new();
    enc.extend_from_slice(&k(b"WorkAgreement(bytes32 id,address worker,address payer,uint64 hoursWorkedScaled,address paymentToken,uint256 paymentAmount,string description,uint64 createdAt,uint64 expiresAt)"));
    enc.extend_from_slice(&a.id);
    enc.extend_from_slice(&word_addr(a.worker));
    enc.extend_from_slice(&word_addr(a.payer));
    enc.extend_from_slice(&word_u64(a.hours_worked_scaled));
    enc.extend_from_slice(&word_addr(a.payment_token));
    enc.extend_from_slice(&a.payment_amount);
    enc.extend_from_slice(&k(a.description.as_bytes()));
    enc.extend_from_slice(&word_u64(a.created_at));
    enc.extend_from_slice(&word_u64(a.expires_at));
    let mut msg = vec![0x19u8, 0x01u8];
    msg.extend_from_slice(&agreement_domain_separator());
    msg.extend_from_slice(&k(&enc));
    assert_eq!(agreement_signing_hash(&a), k(&msg));
    // The signatures are not part of what is signed.
    let mut b = a.clone();
    b.worker_signature = vec![1, 2, 3];
    b.payer_signature = None;
    assert_eq!(agreement_signing_hash(&a), agreement_signing_hash(&b));
    // Every field is.
    let mut c = a.clone();
    c.expires_at += 1;
    assert_ne!(agreement_signing_hash(&a), agreement_signing_hash(&c));
}

#[test]
fn is_signed_by_recovers_the_signer() {
    let digest = [5u8; 32];
    let sig = sign(&key(11), &digest);
    assert!(is_signed_by(&digest, &sig, &address_of(&key(11))));
    assert!(!is_signed_by(&digest, &sig, &address_of(&key(22))));
    assert!(!is_signed_by(&[6u8; 32], &sig, &address_of(&key(11))));
    assert!(!is_signed_by(&digest, &sig[..64].to_vec(), &address_of(&key(11))));
    assert!(!is_signed_by(&digest, &vec![], &address_of(&key(11))));
}

#[test]
fn validation_refuses_missing_signatures() {
    let mut a = signed(1, 0);
    a.payer_signature = None;
    assert_eq!(invalid_message(validate_agreement_at(a, 10)), "Agreement missing payer signature");
    // The signature check comes first, even for an expired agreement.
    let mut a = signed(1, 5);
    a.payer_signature = None;
    assert_eq!(invalid_message(validate_agreement_at(a, 10)), "Agreement missing payer signature");
    let mut a = signed(1, 0);
    a.worker_signature = vec![];
    assert_eq!(invalid_message(validate_agreement_at(a, 10)), "Agreement missing worker signature");
}

#[test]
fn validation_refuses_expired() {
    assert_eq!(invalid_message(validate_agreement_at(signed(1, 100), 101)), "Agreement has expired");
}

#[test]
fn validation_refuses_signatures_that_do_not_verify() {
    // Signed by the wrong key.
    let mut a = signed(1, 0);
    let digest = agreement_signing_hash(&a);
    a.worker_signature = sign(&key(33), &digest);
    assert_eq!(
        signature_message(validate_agreement_at(a, 10)),
        "worker signature does not match the worker address"
    );
    let mut a = signed(1, 0);
    a.payer_signature = Some(sign(&key(33), &digest));
    assert_eq!(
        signature_message(validate_agreement_at(a, 10)),
        "payer signature does not match the payer address"
    );
    // Not a signature at all.
    let mut a = signed(1, 0);
    a.worker_signature = vec![7, 7, 7];
    assert_eq!(
        signature_message(validate_agreement_at(a, 10)),
        "worker signature does not match the worker address"
    );
    // Fields changed after signing.
    let mut a = signed(1, 0);
    a.hours_worked_scaled += 1000;
    assert_eq!(
        signature_message(validate_agreement_at(a, 10)),
        "worker signature does not match the worker address"
    );
}

#[test]
fn validation_accepts_at_and_before_expiry_and_without_expiry() {
    let ok = validate_agreement_at(signed(4, 100), 100).unwrap();
    assert_eq!(ok.id, [4; 32]);
    assert_eq!(ok.expires_at, 100);
    assert!(validate_agreement_at(signed(1, 100), 0).is_ok());
    assert!(validate_agreement_at(signed(1, 0), u64::MAX).is_ok());
}

#[test]
fn validation_against_the_clock() {
    assert!(validate_agreement(signed(1, 0)).is_ok());
    assert!(validate_agreement(signed(1, u64::MAX)).is_ok());
    assert_eq!(invalid_message(validate_agreement(signed(1, 1))), "Agreement has expired");
    let mut a = signed(1, 0);
    a.payer_signature = None;
    assert_eq!(invalid_message(validate_agreement(a)), "Agreement missing payer signature");
    assert!(validate_agreement(agreement(1, true, 0)).is_err());
}

#[test]
fn acceptance_is_monotone_in_time_on_values() {
    let a = signed(1, 1000);
    for (earlier, later) in [(0u64, 1000u64), (999, 1000), (10, 20), (1000, 1001)] {
        if validate_agreement_at(a.clone(), later).is_ok() {
            assert!(validate_agreement_at(a.clone(), earlier).is_ok());
        }
    }
}

// ---- status counters and health ----

#[test]
fn initial_status_is_all_off() {
    let s = initial_status();
    assert_eq!(
        s,
        ModuleStatus {
            waku_connected: false,
            chain_connected: false,
            storage_connected: false,
            agreements_pending: 0,
            total_mints_observed: 0,
            last_block_seen: 0,
        }
    );
}

fn status(chain: bool, waku: bool, storage: bool) -> ModuleStatus {
    ModuleStatus {
        waku_connected: waku,
        chain_connected: chain,
        storage_connected: storage,
        agreements_pending: 0,
        total_mints_observed: 0,
        last_block_seen: 0,
    }
}

#[test]
fn health_unhealthy_without_chain() {
    assert_eq!(
        service_health(&status(false, true, true)),
        ModuleHealth::Unhealthy("Not connected to Logos chain RPC".to_string())
    );
    assert_eq!(
        service_health(&status(false, false, false)),
        ModuleHealth::Unhealthy("Not connected to Logos chain RPC".to_string())
    );
}

#[test]
fn health_degraded_without_waku_or_storage() {
    assert_eq!(
        service_health(&status(true, false, true)),
        ModuleHealth::Degraded("Waku connection unavailable — work agreements paused".to_string())
    );
    assert_eq!(
        service_health(&status(true, false, false)),
        ModuleHealth::Degraded("Waku connection unavailable — work agreements paused".to_string())
    );
    assert_eq!(
        service_health(&status(true, true, false)),
        ModuleHealth::Degraded("Logos Storage unavailable — Work NFT metadata will queue".to_string())
    );
}

#[test]
fn health_healthy_when_all_connected() {
    assert_eq!(service_health(&status(true, true, true)), ModuleHealth::Healthy);
}

#[test]
fn module_health_before_and_after_init() {
    assert_eq!(
        module_health(None),
        ModuleHealth::Unhealthy("Service not initialised".to_string())
    );
    assert_eq!(module_health(Some(&status(true, true, true))), ModuleHealth::Healthy);
    assert_eq!(module_health(Some(&initial_status())), service_health(&initial_status()));
}

#[test]
fn forwarding_counts_a_pending_agreement() {
    let mut s = initial_status();
    record_agreement_forwarded(&mut s);
    record_agreement_forwarded(&mut s);
    assert_eq!(s.agreements_pending, 2);
    assert_eq!(s.total_mints_observed, 0);
}

#[test]
fn record_mint_updates_counters() {
    let mut s = initial_status();
    s.agreements_pending = 3;
    record_mint(&mut s, &event([5; 32], 42, 1));
    assert_eq!(s.total_mints_observed, 1);
    assert_eq!(s.last_block_seen, 42);
    assert_eq!(s.agreements_pending, 2);
}

#[test]
fn record_mint_never_takes_pending_below_zero() {
    let mut s = initial_status();
    record_mint(&mut s, &event([5; 32], 7, 1));
    assert_eq!(s.agreements_pending, 0);
    assert_eq!(s.total_mints_observed, 1);
    assert_eq!(s.last_block_seen, 7);
}

#[test]
fn forward_then_mint_balances_on_values() {
    let mut s = initial_status();
    s.agreements_pending = 5;
    record_agreement_forwarded(&mut s);
    record_mint(&mut s, &event([5; 32], 9, 1));
    assert_eq!(s.agreements_pending, 5);
    assert_eq!(s.total_mints_observed, 1);
}

// ---- pending agreements ----

fn hashes(p: &PendingAgreements) -> Vec<[u8; 32]> {
    p.entries().iter().map(|e| e.agreement_hash).collect()
}

#[test]
fn receive_appends_with_hash_of_encoding() {
    let mut p = PendingAgreements::new();
    assert!(p.is_empty());
    p.receive(agreement(1, true, 0), b"one");
    p.receive(agreement(2, true, 0), b"two");
    assert_eq!(p.len(), 2);
    assert_eq!(p.entries()[0].agreement.id, [1; 32]);
    assert_eq!(p.entries()[1].agreement.id, [2; 32]);
    assert_eq!(
        hashes(&p),
        vec![WorkAgreement::agreement_hash(b"one"), WorkAgreement::agreement_hash(b"two")]
    );
}

#[test]
fn confirm_removes_exactly_the_matching_agreements() {
    let mut p = PendingAgreements::new();
    p.receive(agreement(1, true, 0), b"a");
    p.receive(agreement(2, true, 0), b"b");
    p.receive(agreement(3, true, 0), b"a");
    p.receive(agreement(4, true, 0), b"c");
    p.confirm(&WorkAgreement::agreement_hash(b"a"));
    let ids: Vec<[u8; 32]> = p.entries().iter().map(|e| e.agreement.id).collect();
    assert_eq!(ids, vec![[2; 32], [4; 32]]);
    // Confirming the same mint again changes nothing.
    p.confirm(&WorkAgreement::agreement_hash(b"a"));
    assert_eq!(p.len(), 2);
    // An unknown hash removes nothing.
    p.confirm(&[0xee; 32]);
    assert_eq!(p.len(), 2);
}

#[test]
fn receive_then_confirm_restores_queue() {
    let mut p = PendingAgreements::new();
    p.receive(agreement(1, true, 0), b"x");
    let before = hashes(&p);
    p.receive(agreement(2, true, 0), b"y");
    p.confirm(&WorkAgreement::agreement_hash(b"y"));
    assert_eq!(hashes(&p), before);
}

#[test]
fn mint_confirmed_updates_queue_and_status() {
    let mut p = PendingAgreements::new();
    let mut s = initial_status();
    p.receive(agreement(1, true, 0), b"x");
    record_agreement_forwarded(&mut s);
    p.receive(agreement(2, true, 0), b"y");
    record_agreement_forwarded(&mut s);
    let h = WorkAgreement::agreement_hash(b"x");
    on_mint_confirmed(&mut p, &mut s, &event(h, 100, 7));
    assert_eq!(p.len(), 1);
    assert_eq!(p.entries()[0].agreement.id, [2; 32]);
    assert_eq!(s.agreements_pending, 1);
    assert_eq!(s.total_mints_observed, 1);
    assert_eq!(s.last_block_seen, 100);
}

#[test]
fn same_word_compares_every_byte() {
    let a = [1u8; 32];
    let mut b = [1u8; 32];
    assert!(same_word(&a, &b));
    b[31] = 2;
    assert!(!same_word(&a, &b));
    b[31] = 1;
    b[0] = 0;
    assert!(!same_word(&a, &b));
}

// ---- Work NFT metadata ----

#[test]
fn work_nft_metadata_fields() {
    let e = event([5; 32], 1, 42);
    let m = work_nft_metadata(&e, "desc".to_string());
    assert_eq!(m.name, "Work Record #42");
    assert_eq!(m.description, "desc");
    assert_eq!(m.mint_event.block_number, 1);
    assert_eq!(m.mint_event.work_nft_id, e.work_nft_id);
    assert_eq!(m.tags, vec!["time-protocol", "work", "parallel-society"]);
    assert_eq!(m.schema_version, "1.0.0");
}

#[test]
fn work_nft_names_render_decimal_ids() {
    assert_eq!(work_nft_metadata(&event([0; 32], 0, 0), String::new()).name, "Work Record #0");
    let mut e = event([0; 32], 0, 0);
    e.work_nft_id = [0xff; 32];
    assert_eq!(
        work_nft_metadata(&e, String::new()).name,
        "Work Record #115792089237316195423570985008687907853269984665640564039457584007913129639935"
    );
    let mut big = [0u8; 32];
    big[15] = 1; // 2^128
    e.work_nft_id = big;
    assert_eq!(pending_metadata_uri(&e), "logos://pending/340282366920938463463374607431768211456");
}

#[test]
fn pending_metadata_uri_examples() {
    assert_eq!(pending_metadata_uri(&event([0; 32], 0, 42)), "logos://pending/42");
    assert_eq!(pending_metadata_uri(&event([0; 32], 0, 0)), "logos://pending/0");
    assert_eq!(
        pending_metadata_uri(&event([0; 32], 0, u64::MAX)),
        "logos://pending/18446744073709551615"
    );
}

// ---- run-loop decisions ----

#[test]
fn mint_trigger_step_events() {
    let mut p = PendingAgreements::new();
    assert!(matches!(mint_trigger_step(&mut p, MintTriggerEvent::PollTimer), MintTriggerAction::Continue));
    let a = mint_trigger_step(
        &mut p,
        MintTriggerEvent::Received { agreement: agreement(1, true, 0), encoded: b"e".to_vec() },
    );
    assert!(matches!(a, MintTriggerAction::Continue));
    assert_eq!(p.len(), 1);
    assert_eq!(p.entries()[0].agreement_hash, WorkAgreement::agreement_hash(b"e"));
    assert!(matches!(mint_trigger_step(&mut p, MintTriggerEvent::Lagged(3)), MintTriggerAction::Continue));
    assert_eq!(p.len(), 1);
    assert!(matches!(mint_trigger_step(&mut p, MintTriggerEvent::PollTimer), MintTriggerAction::QueryChain));
    assert!(matches!(
        mint_trigger_step(&mut p, MintTriggerEvent::Closed),
        MintTriggerAction::Stop(TimeModuleError::ChannelClosed)
    ));
    assert_eq!(p.len(), 1);
}

#[test]
fn waku_connection_end_decisions() {
    let mut s = status(true, true, true);
    assert_eq!(on_connection_ended(&mut s, true), 0);
    assert!(s.waku_connected);
    assert_eq!(on_connection_ended(&mut s, false), RECONNECT_DELAY_SECS);
    assert_eq!(RECONNECT_DELAY_SECS, 5);
    assert!(!s.waku_connected);
    assert!(s.chain_connected && s.storage_connected);
}

#[test]
fn birthright_backoff_after_tick() {
    assert_eq!(backoff_after_tick(&Ok(19_675)), 0);
    assert_eq!(
        backoff_after_tick(&Err(TimeModuleError::RpcError("down".to_string()))),
        TICK_RETRY_BACKOFF_SECS
    );
    assert_eq!(TICK_RETRY_BACKOFF_SECS, 300);
}

#[test]
fn a_poll_of_mints_confirms_each_in_order() {
    let mut p = PendingAgreements::new();
    let mut s = initial_status();
    for (i, enc) in [b"a", b"b", b"c", b"a"].iter().enumerate() {
        p.receive(agreement(i as u8, true, 0), *enc);
        record_agreement_forwarded(&mut s);
    }
    let events = vec![
        event(WorkAgreement::agreement_hash(b"a"), 10, 1),
        event(WorkAgreement::agreement_hash(b"c"), 12, 2),
        event([0xee; 32], 13, 3),
    ];
    on_mints_confirmed(&mut p, &mut s, &events);
    let ids: Vec<[u8; 32]> = p.entries().iter().map(|e| e.agreement.id).collect();
    assert_eq!(ids, vec![[1; 32]]);
    assert_eq!(s.total_mints_observed, 3);
    assert_eq!(s.last_block_seen, 13);
    assert_eq!(s.agreements_pending, 1);
    // An empty poll changes nothing.
    on_mints_confirmed(&mut p, &mut s, &vec![]);
    assert_eq!(p.len(), 1);
    assert_eq!(s.total_mints_observed, 3);
}
