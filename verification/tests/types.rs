use wallet_index::types::codec::{get_blob, get_flag, get_text, get_u64, put_blob, put_flag, put_text, put_u64};
use wallet_index::types::error::{Error, ErrorKind};
use wallet_index::types::principal::Principal;
use wallet_index::types::spawn_status::SpawnStatus;
use wallet_index::types::text::{decimal_string, push_decimal, push_padded_decimal, push_tokens};
use wallet_index::types::wallet_data::WalletData;

fn principal(bytes: &[u8]) -> Principal {
    Principal::try_from_slice(bytes).unwrap()
}

#[test]
fn principal_holds_at_most_29_bytes() {
    assert!(Principal::try_from_slice(&[7u8; 29]).is_some());
    assert!(Principal::try_from_slice(&[7u8; 30]).is_none());
    assert_eq!(principal(&[1, 2, 3]).as_slice(), &[1, 2, 3]);
    assert_eq!(Principal::from_slice(&[9, 9]).as_slice(), &[9, 9]);
    assert_eq!(Principal::management_canister().as_slice(), &[] as &[u8]);
}

#[test]
fn anonymous_principal_is_the_byte_four() {
    assert_eq!(Principal::anonymous().as_slice(), &[4]);
    assert_eq!(Principal::anonymous().as_slice(), candid::Principal::anonymous().as_slice());
    assert!(Principal::anonymous().is_anonymous());
    assert!(!principal(&[4, 0]).is_anonymous());
    assert!(!principal(&[5]).is_anonymous());
    assert!(!Principal::management_canister().is_anonymous());
}

#[test]
fn principal_same_compares_bytes() {
    assert!(principal(&[1, 2, 3]).same(&principal(&[1, 2, 3])));
    assert!(!principal(&[1, 2, 3]).same(&principal(&[1, 2, 4])));
    assert!(!principal(&[1, 2, 3]).same(&principal(&[1, 2])));
    assert!(principal(&[]).same(&Principal::management_canister()));
    let p = principal(&[8, 7, 6]);
    assert!(p.clone().same(&p));
}

#[test]
fn principal_text_is_that_of_candid() {
    assert_eq!(Principal::anonymous().to_text(), "2vxsx-fae");
    assert_eq!(Principal::management_canister().to_text(), "aaaaa-aa");
    let ledger = principal(&[0, 0, 0, 0, 0, 0, 0, 2, 1, 1]);
    assert_eq!(ledger.to_text(), "ryjl3-tyaaa-aaaaa-aaaba-cai");
    let parsed = Principal::from_text("ryjl3-tyaaa-aaaaa-aaaba-cai").unwrap();
    assert_eq!(parsed.as_slice(), &[0, 0, 0, 0, 0, 0, 0, 2, 1, 1]);
    assert!(Principal::from_text("not a principal").is_none());
    assert!(Principal::from_text("ryjl3-tyaaa-aaaaa-aaaba-caj").is_none());
}

#[test]
fn decimal_text_of_numbers() {
    assert_eq!(decimal_string(0), "0");
    assert_eq!(decimal_string(7), "7");
    assert_eq!(decimal_string(10), "10");
    assert_eq!(decimal_string(1347768404), "1347768404");
    assert_eq!(decimal_string(u64::MAX), "18446744073709551615");
    let mut s = String::from("n=");
    push_decimal(&mut s, 4200);
    assert_eq!(s, "n=4200");
    let mut s = String::new();
    push_padded_decimal(&mut s, 42, 8);
    assert_eq!(s, "00000042");
    let mut s = String::new();
    push_padded_decimal(&mut s, 123456789, 4);
    assert_eq!(s, "6789");
    let mut s = String::new();
    push_padded_decimal(&mut s, 5, 0);
    assert_eq!(s, "");
}

#[test]
fn tokens_text_is_that_of_the_ledger_types() {
    for e8s in [0u64, 1, 10_000, 50_000_000, 200_000_000, 123_456_789_012, u64::MAX] {
        let mut s = String::new();
        push_tokens(&mut s, e8s);
        assert_eq!(s, ic_ledger_types::Tokens::from_e8s(e8s).to_string());
    }
    let mut s = String::new();
    push_tokens(&mut s, 200_000_000);
    assert_eq!(s, "2.00000000");
    let mut s = String::new();
    push_tokens(&mut s, 50_000_001);
    assert_eq!(s, "0.50000001");
}

#[test]
fn error_kind_names() {
    assert_eq!(ErrorKind::NotImplemented.to_string(), "NotImplemented");
    assert_eq!(ErrorKind::Internal.to_string(), "Internal");
    assert_eq!(ErrorKind::Unauthorized.to_string(), "Unauthorized");
    assert_eq!(ErrorKind::NotFound.to_string(), "NotFound");
    assert_eq!(ErrorKind::BadRequest.to_string(), "BadRequest");
    assert_eq!(ErrorKind::Unsupported.to_string(), "Unsupported");
    assert_eq!(ErrorKind::Duplicate.to_string(), "Duplicate");
    assert_eq!(ErrorKind::InsufficientBalance.to_string(), "InsufficientBalance");
    assert_eq!(ErrorKind::SerializeError.to_string(), "SerializeError");
    assert_eq!(ErrorKind::DeserializeError.to_string(), "DeserializeError");
    assert_eq!(ErrorKind::Duplicate.as_str(), "Duplicate");
}

#[test]
fn error_constructors_set_kind_and_time() {
    let cases = vec![
        (Error::insufficient_balance(1), ErrorKind::InsufficientBalance),
        (Error::serialize(1), ErrorKind::SerializeError),
        (Error::deserialize(1), ErrorKind::DeserializeError),
        (Error::internal(1), ErrorKind::Internal),
        (Error::not_implemented(1), ErrorKind::NotImplemented),
        (Error::unauthorized(1), ErrorKind::Unauthorized),
        (Error::not_found(1), ErrorKind::NotFound),
        (Error::bad_request(1), ErrorKind::BadRequest),
        (Error::unsupported(1), ErrorKind::Unsupported),
        (Error::duplicate(1), ErrorKind::Duplicate),
        (Error::new(ErrorKind::Internal, 1), ErrorKind::Internal),
    ];
    for (e, kind) in cases {
        assert_eq!(e.error_type(), kind);
        assert_eq!(e.timestamp(), 1);
        assert_eq!(e.tag(), None);
        assert_eq!(e.message(), None);
        assert_eq!(e.method_name(), None);
        assert_eq!(e.info(), None);
    }
    assert_eq!(Error::not_found(77).timestamp(), 77);
}

#[test]
fn error_builders_add_details() {
    let e = Error::not_found(3)
        .add_tag("t1")
        .add_tag("t2")
        .add_message("m1")
        .add_message("m2")
        .add_method_name("get")
        .add_info("multisigs")
        .add_info("second");
    assert_eq!(e.tag(), Some("t2".to_string()));
    assert_eq!(e.message(), Some("m2".to_string()));
    assert_eq!(e.method_name(), Some("get".to_string()));
    assert_eq!(e.info(), Some(vec!["multisigs".to_string(), "second".to_string()]));
    assert_eq!(e.error_type(), ErrorKind::NotFound);
    let c = e.clone();
    assert_eq!(c.info(), e.info());
    assert_eq!(c.message(), e.message());
    assert_eq!(c.timestamp(), 3);
}

#[test]
fn error_to_string_is_one_line() {
    let e = Error::unauthorized(0).add_message("Anonymous caller not allowed.");
    assert_eq!(
        e.to_string(),
        "Error: tag: None, message: Some(\"Anonymous caller not allowed.\"), method_name: None, error_type: Unauthorized, info: None"
    );
    let e = Error::duplicate(0)
        .add_tag("a\"b")
        .add_method_name("insert")
        .add_info("multisigs")
        .add_info("x\ny")
        .add_info("z");
    let tag: Option<String> = Some("a\"b".to_string());
    let message: Option<String> = None;
    let method: Option<String> = Some("insert".to_string());
    let info: Option<Vec<String>> =
        Some(vec!["multisigs".to_string(), "x\ny".to_string(), "z".to_string()]);
    assert_eq!(
        e.to_string(),
        format!(
            "Error: tag: {:?}, message: {:?}, method_name: {:?}, error_type: {:?}, info: {:?}",
            tag,
            message,
            method,
            ErrorKind::Duplicate,
            info
        )
    );
    let empty: Option<Vec<String>> = Some(vec![]);
    assert_eq!(format!("{:?}", empty), "Some([])");
}

#[test]
fn codec_reads_back_what_it_wrote() {
    let mut out: Vec<u8> = Vec::new();
    put_u64(&mut out, 0x0102030405060708);
    put_blob(&mut out, &[9, 8, 7]);
    put_flag(&mut out, true);
    put_text(&mut out, "héllo");
    put_flag(&mut out, false);
    assert_eq!(&out[..8], &[8, 7, 6, 5, 4, 3, 2, 1]);
    let (x, at) = get_u64(&out, 0).unwrap();
    assert_eq!(x, 0x0102030405060708);
    assert_eq!(at, 8);
    let (blob, at) = get_blob(&out, at).unwrap();
    assert_eq!(blob, vec![9, 8, 7]);
    assert_eq!(at, 8 + 8 + 3);
    let (flag, at) = get_flag(&out, at).unwrap();
    assert!(flag);
    let (text, at) = get_text(&out, at).unwrap();
    assert_eq!(text, "héllo");
    let (flag, at) = get_flag(&out, at).unwrap();
    assert!(!flag);
    assert_eq!(at, out.len());
    assert!(get_flag(&out, at).is_none());
    assert!(get_u64(&out, at - 1).is_none());
    assert!(get_flag(&[2], 0).is_none());
    let mut short: Vec<u8> = Vec::new();
    put_u64(&mut short, 5);
    short.extend_from_slice(&[1, 2]);
    assert!(get_blob(&short, 0).is_none());
    let mut bad: Vec<u8> = Vec::new();
    put_blob(&mut bad, &[0xff, 0xfe]);
    assert!(get_text(&bad, 0).is_none());
}

#[test]
fn wallet_data_new_and_owner() {
    let caller = principal(&[1, 2, 3]);
    let mut w = WalletData::new(caller.clone(), 1000, 42, 43, 9);
    assert!(w.created_by().same(&caller));
    assert!(w.owner().same(&caller));
    assert_eq!(w.created_at(), 1000);
    assert_eq!(w.updated_at(), 1000);
    assert_eq!(w.icp_blockheight(), 42);
    assert_eq!(w.cmc_blockheight(), 43);
    assert_eq!(w.group_id(), 9);
    assert!(w.is_owner(caller.clone()));
    assert!(!w.is_owner(principal(&[1, 2])));
    let changed = w.set_owner(principal(&[7]));
    assert!(changed.is_owner(principal(&[7])));
    assert!(w.is_owner(principal(&[7])));
    assert!(!w.is_owner(caller.clone()));
    assert!(w.created_by().same(&caller));
    assert_eq!(w.updated_at(), 1000);
}

#[test]
fn wallet_data_round_trip() {
    let mut w = WalletData::new(principal(&[1; 29]), u64::MAX, 0, 1, 2);
    w.set_owner(Principal::management_canister());
    let bytes = w.to_bytes();
    let back = WalletData::from_bytes(&bytes).unwrap();
    assert!(back.created_by().same(&principal(&[1; 29])));
    assert!(back.owner().same(&Principal::management_canister()));
    assert_eq!(back.created_at(), u64::MAX);
    assert_eq!(back.updated_at(), u64::MAX);
    assert_eq!(back.icp_blockheight(), 0);
    assert_eq!(back.cmc_blockheight(), 1);
    assert_eq!(back.group_id(), 2);
    assert_eq!(back.to_bytes(), bytes);
    assert!(WalletData::from_bytes(&bytes[..bytes.len() - 1]).is_none());
    let mut longer = bytes.clone();
    longer.push(0);
    assert!(WalletData::from_bytes(&longer).is_none());
    assert!(WalletData::from_bytes(&[]).is_none());
    let mut too_long: Vec<u8> = Vec::new();
    put_blob(&mut too_long, &[0u8; 30]);
    put_blob(&mut too_long, &[]);
    for _ in 0..5 {
        put_u64(&mut too_long, 0);
    }
    assert!(WalletData::from_bytes(&too_long).is_none());
}

#[test]
fn spawn_status_starts_empty() {
    let s = SpawnStatus::new(Some("Wallet spawn".to_string()));
    assert_eq!(s.status_type(), Some("Wallet spawn".to_string()));
    assert_eq!(s.get_transaction_valid(), None);
    assert_eq!(s.get_min_amount_error(), None);
    assert_eq!(s.get_transferred_to_cmc(), None);
    assert_eq!(s.get_topped_up_self(), None);
    assert!(s.get_canister_spawned().is_none());
    assert!(s.get_canister_installed().is_none());
    assert!(!s.is_done());
    let d = SpawnStatus::default();
    assert_eq!(d.status_type(), None);
    assert!(!d.is_done());
}

#[test]
fn spawn_status_records_steps_and_keeps_them() {
    let mut s = SpawnStatus::new(Some("Wallet spawn".to_string()));
    let c = s.transaction_valid(200_000_000);
    assert_eq!(c.get_transaction_valid(), Some(200_000_000));
    assert_eq!(s.get_transaction_valid(), Some(200_000_000));
    s.transferred_to_cmc(43);
    assert_eq!(s.get_transferred_to_cmc(), Some(43));
    s.topped_up_self(5_000_000_000_000);
    s.canister_spawned(principal(&[1]));
    assert!(!s.may_finish());
    s.canister_installed(principal(&[2]));
    assert!(!s.is_done());
    assert!(s.may_finish());
    let c = s.done();
    assert!(c.is_done());
    assert!(s.is_done());
    assert!(!s.may_finish());
    assert_eq!(s.get_transferred_to_cmc(), Some(43));
    assert_eq!(s.get_topped_up_self(), Some(5_000_000_000_000));
    assert!(s.get_canister_spawned().unwrap().same(&principal(&[1])));
    assert!(s.get_canister_installed().unwrap().same(&principal(&[2])));
    assert_eq!(s.get_min_amount_error(), None);
    assert_eq!(s.get_transaction_valid(), Some(200_000_000));
    assert_eq!(s.status_type(), Some("Wallet spawn".to_string()));
}

#[test]
fn spawn_status_refuses_steps_out_of_order() {
    let mut s = SpawnStatus::new(Some("Wallet spawn".to_string()));
    assert!(!s.done().is_done());
    assert!(!s.is_done());
    assert_eq!(s.min_amount_error(5).get_min_amount_error(), None);
    assert_eq!(s.transferred_to_cmc(5).get_transferred_to_cmc(), None);
    assert_eq!(s.topped_up_self(5).get_topped_up_self(), None);
    assert!(s.canister_spawned(principal(&[1])).get_canister_spawned().is_none());
    assert!(s.canister_installed(principal(&[1])).get_canister_installed().is_none());
    s.transaction_valid(7);
    assert_eq!(s.transaction_valid(8).get_transaction_valid(), Some(7));
    assert_eq!(s.topped_up_self(5).get_topped_up_self(), None);
    assert!(!s.done().is_done());
    s.transferred_to_cmc(43);
    assert_eq!(s.transferred_to_cmc(44).get_transferred_to_cmc(), Some(43));
    assert_eq!(s.min_amount_error(5).get_min_amount_error(), None);
    assert!(s.canister_spawned(principal(&[1])).get_canister_spawned().is_none());
    assert!(!s.done().is_done());
    s.topped_up_self(9);
    assert_eq!(s.topped_up_self(10).get_topped_up_self(), Some(9));
    assert!(s.canister_installed(principal(&[1])).get_canister_installed().is_none());
    assert!(!s.done().is_done());
    s.canister_spawned(principal(&[1]));
    assert!(s.canister_spawned(principal(&[3])).get_canister_spawned().unwrap().same(&principal(&[1])));
    assert!(!s.done().is_done());
    s.canister_installed(principal(&[2]));
    assert!(s.done().is_done());
    assert_eq!(s.transaction_valid(1).get_transaction_valid(), Some(7));
    assert!(s.canister_installed(principal(&[4])).get_canister_installed().unwrap().same(&principal(&[2])));
    assert!(s.is_done());
}

#[test]
fn a_refunded_payment_goes_no_further() {
    let mut s = SpawnStatus::new(Some("Wallet spawn".to_string()));
    s.transaction_valid(50_000_000);
    s.min_amount_error(8);
    assert_eq!(s.get_min_amount_error(), Some(8));
    assert_eq!(s.min_amount_error(9).get_min_amount_error(), Some(8));
    assert_eq!(s.transferred_to_cmc(43).get_transferred_to_cmc(), None);
    assert_eq!(s.topped_up_self(5).get_topped_up_self(), None);
    assert!(!s.done().is_done());
    assert_eq!(s.get_transaction_valid(), Some(50_000_000));
}

#[test]
fn a_top_up_is_done_after_three_steps() {
    let mut s = SpawnStatus::new(Some("Top up wallet".to_string()));
    s.transaction_valid(20_000_000);
    assert!(!s.done().is_done());
    s.transferred_to_cmc(78);
    assert!(!s.done().is_done());
    s.topped_up_self(123);
    assert!(s.may_finish());
    assert!(s.done().is_done());
    let mut unlabelled = SpawnStatus::new(None);
    unlabelled.transaction_valid(1);
    unlabelled.transferred_to_cmc(2);
    unlabelled.topped_up_self(3);
    assert!(unlabelled.done().is_done());
}

#[test]
fn spawn_status_round_trip() {
    let mut s = SpawnStatus::new(Some("Top up wallet ✓".to_string()));
    let bytes = s.to_bytes();
    let back = SpawnStatus::from_bytes(&bytes).unwrap();
    assert_eq!(back.status_type(), Some("Top up wallet ✓".to_string()));
    assert_eq!(back.get_transaction_valid(), None);
    assert!(!back.is_done());
    s.transaction_valid(1);
    s.transferred_to_cmc(u64::MAX);
    s.topped_up_self(u128::MAX);
    s.canister_spawned(principal(&[3; 29]));
    s.done();
    let bytes = s.to_bytes();
    let back = SpawnStatus::from_bytes(&bytes).unwrap();
    assert_eq!(back.get_transaction_valid(), Some(1));
    assert_eq!(back.get_min_amount_error(), None);
    assert_eq!(back.get_transferred_to_cmc(), Some(u64::MAX));
    assert_eq!(back.get_topped_up_self(), Some(u128::MAX));
    assert!(back.get_canister_spawned().unwrap().same(&principal(&[3; 29])));
    assert!(back.get_canister_installed().is_none());
    assert!(back.is_done());
    assert_eq!(back.to_bytes(), bytes);
    assert!(SpawnStatus::from_bytes(&bytes[1..]).is_none());
    assert!(SpawnStatus::from_bytes(&[]).is_none());
    assert!(SpawnStatus::from_bytes(&[0, 0, 0, 0, 0, 0, 0, 2]).is_none());
    assert!(SpawnStatus::from_bytes(&[0, 0, 0, 0, 0, 0, 0, 0]).is_some());
    assert!(SpawnStatus::from_bytes(&[0, 0, 0, 0, 0, 0, 0, 0, 0]).is_none());
}
