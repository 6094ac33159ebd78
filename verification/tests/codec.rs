use blsct::amount_recovery_res::AmountRecoveryRes;
use blsct::blsct_obj::BlsctObj;
use blsct::blsct_serde::c_str_bytes;
use blsct::blsct_serde::c_string;
use blsct::blsct_serde::display;
use blsct::blsct_serde::from_c_string;
use blsct::blsct_serde::to_c_string;
use blsct::blsct_serde::Error;
use blsct::blsct_serde::ObjKind;
use blsct::chain;
use blsct::chain::Chain;
use blsct::ffi::BlsctRetVal;
use blsct::ffi::BlsctTxIn;
use blsct::ffi::BlsctTxOut;
use blsct::ffi::TxOutputType;
use blsct::keys::public_key::PublicKey;
use blsct::tx_in::TxIn;
use blsct::tx_out::TxOut;
use blsct::util;
use blsct::util::build_succ_blsct_ret_val;
use blsct::util::c_hex_str_to_array;
use blsct::util::decimal;
use blsct::util::pad_hex_left;
use blsct::view_tag::ViewTag;

#[test]
fn test_display() {
    let s = display(ObjKind::Scalar, "0f3a");
    assert!(s.starts_with("Scalar("));
    assert!(s.ends_with(")"));
    let digits = &s["Scalar(".len()..s.len() - 1];
    assert!(!digits.is_empty());
    assert!(digits.chars().all(|c| c.is_ascii_hexdigit()));
}

#[test]
fn display_is_name_and_hex_of_framed_text() {
    assert_eq!(display(ObjKind::Scalar, "ab"), "Scalar(02000000000000006162)");
    assert_eq!(display(ObjKind::CTx, ""), "CTx(0000000000000000)");
    assert_eq!(display(ObjKind::TokenId, "0"), "TokenId(010000000000000030)");
}

#[test]
fn serialize_reads_what_the_serializer_returned() {
    assert_eq!(BlsctObj::serialize(None), Err(Error::SerializationFailed));
    assert_eq!(BlsctObj::serialize(Some(b"00ff".to_vec())), Ok("00ff".to_string()));
    assert_eq!(BlsctObj::serialize(Some(vec![0x61, 0xff])), Err(Error::InvalidUtf8));
    assert_eq!(from_c_string(vec![0xc3, 0xa9]), Ok("\u{e9}".to_string()));
    assert_eq!(from_c_string(vec![0xc3]), Err(Error::InvalidUtf8));
}

#[test]
fn deserialize_prepares_the_c_string() {
    let call = BlsctObj::deserialize(ObjKind::Scalar, "0a0b").unwrap();
    assert_eq!(call.c_hex, b"0a0b\0".to_vec());
    assert_eq!(call.obj_size, None);
    let call = BlsctObj::deserialize(ObjKind::RangeProof, "0a0b0c").unwrap();
    assert_eq!(call.c_hex, b"0a0b0c\0".to_vec());
    assert_eq!(call.obj_size, Some(3));
    let err = BlsctObj::deserialize(ObjKind::Scalar, "0a\u{0}0b").unwrap_err();
    assert_eq!(err, Error::InteriorNul(2));
}

#[test]
fn c_string_finds_the_first_zero_byte() {
    assert_eq!(c_string(""), Ok(vec![0]));
    assert_eq!(c_string("navio"), Ok(b"navio\0".to_vec()));
    assert_eq!(c_string("\u{0}"), Err(0));
    assert_eq!(c_string("ab\u{0}c\u{0}"), Err(2));
    assert_eq!(to_c_string("ab\u{0}c\u{0}"), Err(Error::InteriorNul(2)));
    assert_eq!(to_c_string("ab"), Ok(b"ab\0".to_vec()));
}

#[test]
fn c_str_bytes_stops_at_the_terminator() {
    assert_eq!(c_str_bytes(b"navio\0rest"), b"navio".to_vec());
    assert_eq!(c_str_bytes(b"\0"), Vec::<u8>::new());
    assert_eq!(c_str_bytes(b""), Vec::<u8>::new());
    assert_eq!(c_str_bytes(b"abc"), b"abc".to_vec());
}

#[test]
fn hex_text_decodes_to_an_array() {
    assert_eq!(c_hex_str_to_array::<2>("0aFF"), Ok([10u8, 255u8]));
    assert_eq!(c_hex_str_to_array::<0>(""), Ok([]));
    assert_eq!(c_hex_str_to_array::<2>("0aF"), Err(util::Error::InvalidHex));
    assert_eq!(c_hex_str_to_array::<2>("0aFg"), Err(util::Error::InvalidHex));
    assert_eq!(c_hex_str_to_array::<2>("0aFF01"), Err(util::Error::InvalidHexSize(3)));
    assert_eq!(c_hex_str_to_array::<2>("0a"), Err(util::Error::InvalidHexSize(1)));
}

#[test]
fn hex_round_trip_through_display_digits() {
    let data: Vec<u8> = (0..=255u8).collect();
    let text = hex::encode(&data);
    let back = c_hex_str_to_array::<256>(&text).unwrap();
    assert_eq!(back.to_vec(), data);
}

#[test]
fn public_key_test_deser() {
    let point: Vec<u8> = (1..=48u8).collect();
    let hex = hex::encode(&point);
    let bytes = PublicKey::deserialize(&hex).unwrap();
    assert_eq!(bytes.to_vec(), point);
    assert_eq!(PublicKey::deserialize("zz"), Err(util::Error::InvalidHex));
    assert_eq!(PublicKey::deserialize("00"), Err(util::Error::InvalidHexSize(1)));
    let rv = PublicKey::deserialized(0x77, 0x99).unwrap();
    assert_eq!(rv, BlsctRetVal { result: 0, value: 0x77, value_size: 48 });
    assert!(PublicKey::deserialized(0x77, 0).is_err());
    let key = PublicKey::from_retval(Some(rv)).unwrap();
    assert_eq!(key.value(), 0x77);
}

#[test]
fn success_envelope_carries_value_and_size() {
    assert_eq!(
        build_succ_blsct_ret_val::<32>(0x1234, 0x10),
        Ok(BlsctRetVal { result: 0, value: 0x1234, value_size: 32 })
    );
    assert_eq!(
        build_succ_blsct_ret_val::<32>(0x1234, 0),
        Err(blsct::blsct_obj::Error::FailedToAllocateMemory)
    );
}

#[test]
fn pad_hex_left_fills_with_zero_digits() {
    assert_eq!(pad_hex_left(b"abc", 4), b"00000abc".to_vec());
    assert_eq!(pad_hex_left(b"", 2), b"0000".to_vec());
    assert_eq!(pad_hex_left(b"12345678", 4), b"12345678".to_vec());
    assert_eq!(pad_hex_left(b"123456789a", 4), b"123456789a".to_vec());
    assert_eq!(pad_hex_left(b"7b", 32).len(), 64);
}

#[test]
fn decimal_writes_digits() {
    assert_eq!(decimal(0), "0");
    assert_eq!(decimal(9), "9");
    assert_eq!(decimal(10), "10");
    assert_eq!(decimal(12345), "12345");
    assert_eq!(decimal(usize::MAX), usize::MAX.to_string());
}

#[test]
fn amount_recovery_res_test_deser() {
    let is_succ = true;
    let amount = 12345u64;
    let msg = "navio";
    let a = AmountRecoveryRes::new(is_succ, amount, msg);
    let hex = bincode::serialize(&(a.is_succ, a.amount, a.msg.as_str())).unwrap();
    let (b_succ, b_amount, b_msg) = bincode::deserialize::<(bool, u64, String)>(&hex).unwrap();
    let b = AmountRecoveryRes::new(b_succ, b_amount, &b_msg);
    assert_eq!(a, b);
    assert_ne!(a, AmountRecoveryRes::new(false, amount, msg));
    assert_ne!(a, AmountRecoveryRes::new(is_succ, 1, msg));
    assert_ne!(a, AmountRecoveryRes::new(is_succ, amount, "navi"));
}

#[test]
fn test_get_set_chain() {
    for exp_chain in [Chain::Mainnet, Chain::Testnet, Chain::Signet, Chain::Regtest] {
        let id = Chain::set(exp_chain);
        assert_eq!(exp_chain, Chain::get(id));
    }
    assert_eq!(Chain::set(Chain::Mainnet), 0);
    assert_eq!(Chain::set(Chain::Regtest), 3);
}

#[test]
fn chain_try_from_accepts_four_numbers() {
    assert_eq!(Chain::try_from(0), Ok(Chain::Mainnet));
    assert_eq!(Chain::try_from(1), Ok(Chain::Testnet));
    assert_eq!(Chain::try_from(2), Ok(Chain::Signet));
    assert_eq!(Chain::try_from(3), Ok(Chain::Regtest));
    assert_eq!(Chain::try_from(4), Err(chain::Error::InvalidChainId(4)));
    assert_eq!(chain::Error::InvalidChainId(200).message(), "Invalid chain ID: 200");
}

#[test]
fn view_tag_test_new() {
    let tag = ViewTag::new(0xbeef);
    assert_eq!(tag.value(), 0xbeef);
    assert_eq!(tag, ViewTag::new(0xbeef));
    assert_ne!(tag, ViewTag::new(1));
}

fn tx_in_parts(amount: u64) -> BlsctTxIn {
    BlsctTxIn {
        amount,
        gamma: 100,
        spending_key: [1; 32],
        token_id: [2; 40],
        out_point: [3; 36],
        staked_commitment: false,
        rbf: false,
    }
}

#[test]
fn tx_in_test_eq() {
    let a = tx_in_parts(123);
    let b = tx_in_parts(456);
    assert!(TxIn::eq(&a, &a, 1, true, true));
    assert!(!TxIn::eq(&a, &b, 1, true, true));
    assert!(!TxIn::eq(&b, &a, 1, true, true));
    assert!(TxIn::eq(&b, &b, 1, true, true));
    assert!(!TxIn::eq(&a, &a, 0, true, true));
    assert!(!TxIn::eq(&a, &a, 1, false, true));
    assert!(!TxIn::eq(&a, &a, 1, true, false));
    let mut c = tx_in_parts(123);
    c.gamma = 9;
    assert!(!TxIn::eq(&a, &c, 1, true, true));
    let mut d = tx_in_parts(123);
    d.rbf = true;
    assert!(!TxIn::eq(&a, &d, 1, true, true));
    let mut e = tx_in_parts(123);
    e.staked_commitment = true;
    assert!(!TxIn::eq(&a, &e, 1, true, true));
}

fn tx_out_parts(dest: u8, memo: &[u8]) -> BlsctTxOut {
    let mut memo_c_str = [0u8; 101];
    memo_c_str[..memo.len()].copy_from_slice(memo);
    BlsctTxOut {
        dest: [dest; 96],
        amount: 123,
        memo_c_str,
        token_id: [0; 40],
        output_type: TxOutputType::Normal,
        min_stake: 5,
    }
}

#[test]
fn tx_out_test_eq() {
    let a = tx_out_parts(1, b"navio");
    let b = tx_out_parts(2, b"navio");
    assert!(TxOut::eq(&a, &a, true));
    assert!(!TxOut::eq(&a, &b, true));
    assert!(!TxOut::eq(&b, &a, true));
    assert!(TxOut::eq(&b, &b, true));
    assert!(!TxOut::eq(&a, &a, false));
    assert!(!TxOut::eq(&a, &tx_out_parts(1, b"navi"), true));
    let mut c = tx_out_parts(1, b"navio");
    c.memo_c_str[50] = 7;
    assert!(TxOut::eq(&a, &c, true));
    let mut d = tx_out_parts(1, b"navio");
    d.output_type = TxOutputType::StakedCommitment;
    assert!(!TxOut::eq(&a, &d, true));
    let mut e = tx_out_parts(1, b"navio");
    e.min_stake = 6;
    assert!(!TxOut::eq(&a, &e, true));
}

#[test]
fn memo_buffer_holds_at_most_a_hundred_bytes() {
    let buf = TxOut::memo_buf(b"navio").unwrap();
    assert_eq!(buf.len(), 101);
    assert_eq!(&buf[..5], b"navio");
    assert!(buf[5..].iter().all(|b| *b == 0));
    assert_eq!(c_str_bytes(&buf), b"navio".to_vec());
    let longest = [b'x'; 100];
    let buf = TxOut::memo_buf(&longest).unwrap();
    assert_eq!(c_str_bytes(&buf), longest.to_vec());
    assert_eq!(buf[100], 0);
    assert!(TxOut::memo_buf(&[b'x'; 101]).is_none());
    assert_eq!(TxOut::memo_buf(b"").unwrap(), [0u8; 101]);
}

#[test]
fn test_memo() {
    assert_eq!(TxOut::memo_c_str("navio"), Ok(b"navio\0".to_vec()));
    assert_eq!(TxOut::memo_c_str("na\u{0}vio"), Err(Error::InteriorNul(2)));
    let memo = TxOut::memo(b"navio".to_vec()).unwrap();
    assert_eq!(&memo, "navio");
    assert_eq!(TxOut::memo(vec![0x80]), Err(Error::InvalidUtf8));
}

#[test]
fn codec_error_messages() {
    assert_eq!(Error::SerializationFailed.message(), "Serialization failed. c_hex is null");
    assert_eq!(Error::InvalidUtf8.message(), "Converting C-Str to String failed");
    assert_eq!(Error::InteriorNul(7).message(), "string contains interior NUL at 7");
    assert_eq!(util::Error::InvalidHex.message(), "Invalid hex");
    assert_eq!(util::Error::InvalidHexSize(31).message(), "Invalid hex size: 31");
    assert_eq!(
        blsct::blsct_obj::Error::FailedToAllocateMemory.message(),
        "Failed to allocate memory to the object"
    );
    assert_eq!(
        blsct::blsct_obj::Error::FailedToGenerateObject(2).message(),
        "Failed to generate object. result code: 2"
    );
    assert_eq!(
        blsct::address::Error::FailedToConstructCString(4).message(),
        "Failed to construct CString: nul byte at 4"
    );
    assert_eq!(blsct::address::Error::FailedToEncodeAddress.message(), "Failed to encode address");
    assert_eq!(blsct::address::Error::FailedToDecodeAddress.message(), "Failed to decode address");
}
