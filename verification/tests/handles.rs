use blsct::blsct_obj::free_unless_null;
use blsct::blsct_obj::release_all;
use blsct::blsct_obj::same_bytes;
use blsct::blsct_obj::BlsctObj;
use blsct::blsct_obj::Deallocator;
use blsct::blsct_obj::Error;
use blsct::blsct_obj::Release;
use blsct::blsct_serde::Equality;
use blsct::blsct_serde::ObjKind;
use blsct::ctx_id::CTxId;
use blsct::ffi::BlsctRetVal;
use blsct::hash_id::HashId;
use blsct::initializer::Initializer;
use blsct::keys::child_key::ChildKey;
use blsct::keys::double_public_key::DoublePublicKey;
use blsct::keys::public_key::PublicKey;
use blsct::out_point::OutPoint;
use blsct::point::Point;
use blsct::scalar::Scalar;
use blsct::script::Script;
use blsct::signature::Signature;
use blsct::sub_addr::SubAddr;
use blsct::sub_addr_id::SubAddrId;
use blsct::token_id::TokenId;
use blsct::util::gen_random_malloced_buf;
use blsct::vector_predicate::VectorPredicate;

fn envelope(result: u8, value: usize, value_size: usize) -> Option<BlsctRetVal> {
    Some(BlsctRetVal { result, value, value_size })
}

#[test]
fn from_retval_null_envelope_is_allocation_failure() {
    assert_eq!(BlsctObj::from_retval(None).unwrap_err(), Error::FailedToAllocateMemory);
}

#[test]
fn from_retval_non_zero_status_carries_the_code() {
    let res = BlsctObj::from_retval(envelope(7, 0, 0));
    assert_eq!(res.unwrap_err(), Error::FailedToGenerateObject(7));
    let res = Scalar::from_retval(envelope(1, 0x1000, 32));
    assert_eq!(res.unwrap_err(), Error::FailedToGenerateObject(1));
}

#[test]
fn from_retval_success_takes_value_and_size() {
    let obj = BlsctObj::from_retval(envelope(0, 0x4000, 77)).unwrap();
    assert_eq!(obj.as_ptr(), 0x4000);
    assert_eq!(obj.size(), 77);
    assert_eq!(obj.release(), Release { ptr: 0x4000, by: Deallocator::FreeObj });
}

#[test]
fn handle_with_deallocator_is_released_by_it() {
    let obj = BlsctObj::new_with_deallocator(0x10, 0, Some(0xdead));
    assert_eq!(obj.release(), Release { ptr: 0x10, by: Deallocator::Custom(0xdead) });
    let obj = BlsctObj::new(0x20, 4);
    assert_eq!(obj.size(), 4);
    assert_eq!(obj.release(), Release { ptr: 0x20, by: Deallocator::FreeObj });
}

#[test]
fn from_c_obj_takes_the_static_size() {
    assert_eq!(BlsctObj::from_c_obj(ObjKind::Scalar, 8).size(), 32);
    assert_eq!(BlsctObj::from_c_obj(ObjKind::Point, 8).size(), 48);
    assert_eq!(BlsctObj::from_c_obj(ObjKind::PublicKey, 8).size(), 48);
    assert_eq!(BlsctObj::from_c_obj(ObjKind::DoublePublicKey, 8).size(), 96);
    assert_eq!(BlsctObj::from_c_obj(ObjKind::CTxId, 8).size(), 32);
    assert_eq!(BlsctObj::from_c_obj(ObjKind::HashId, 8).size(), 20);
    assert_eq!(BlsctObj::from_c_obj(ObjKind::OutPoint, 8).size(), 36);
    assert_eq!(BlsctObj::from_c_obj(ObjKind::Script, 8).size(), 28);
    assert_eq!(BlsctObj::from_c_obj(ObjKind::Signature, 8).size(), 96);
    assert_eq!(BlsctObj::from_c_obj(ObjKind::SubAddr, 8).size(), 96);
    assert_eq!(BlsctObj::from_c_obj(ObjKind::SubAddrId, 8).size(), 16);
    assert_eq!(BlsctObj::from_c_obj(ObjKind::TokenId, 8).size(), 40);
    assert_eq!(BlsctObj::from_c_obj_and_size(8, 5).size(), 5);
}

#[test]
fn variable_types_have_no_static_size() {
    assert_eq!(ObjKind::RangeProof.static_size(), None);
    assert_eq!(ObjKind::VectorPredicate.static_size(), None);
    assert_eq!(ObjKind::CTx.static_size(), None);
    assert!(ObjKind::RangeProof.sized_codec());
    assert!(!ObjKind::Scalar.sized_codec());
}

#[test]
fn equality_rule_per_type() {
    assert_eq!(ObjKind::Scalar.equality(), Equality::Foreign);
    assert_eq!(ObjKind::Point.equality(), Equality::Foreign);
    assert_eq!(ObjKind::VectorPredicate.equality(), Equality::Foreign);
    assert_eq!(ObjKind::RangeProof.equality(), Equality::Parts);
    assert_eq!(ObjKind::TokenId.equality(), Equality::Parts);
    assert_eq!(ObjKind::HashId.equality(), Equality::Bytes);
    assert_eq!(ObjKind::PublicKey.equality(), Equality::Bytes);
}

#[test]
fn typed_values_keep_their_handle() {
    let s = Scalar::from_c_obj(0x100);
    assert_eq!(s.value(), 0x100);
    assert_eq!(Scalar::kind(), ObjKind::Scalar);
    assert_eq!(s.release(), Release { ptr: 0x100, by: Deallocator::FreeObj });
    let p = Point::from(BlsctObj::new(0x200, 48));
    assert_eq!(p.value(), 0x200);
    let k = ChildKey::from_c_obj(0x300);
    assert_eq!(k.value(), 0x300);
    assert_eq!(k.release(), Release { ptr: 0x300, by: Deallocator::FreeObj });
    let v = VectorPredicate::from_retval(envelope(0, 0x400, 5)).unwrap();
    assert_eq!(v.size(), 5);
    let t = TokenId::from_retval(envelope(0, 0x500, 40)).unwrap();
    assert_eq!(t.value(), 0x500);
}

#[test]
fn release_all_gives_one_release_for_each_handle() {
    let n: usize = 64;
    let mut handles = Vec::new();
    for i in 0..n {
        handles.push(BlsctObj::new(0x1000 + 16 * i, 16));
    }
    let releases = release_all(handles);
    assert_eq!(releases.len(), n);
    for i in 0..n {
        assert_eq!(releases[i], Release { ptr: 0x1000 + 16 * i, by: Deallocator::FreeObj });
        let times = releases.iter().filter(|r| r.ptr == 0x1000 + 16 * i).count();
        assert_eq!(times, 1);
    }
    assert_eq!(releases.iter().filter(|r| r.ptr == 0x999).count(), 0);
    assert!(release_all(Vec::new()).is_empty());
}

#[test]
fn same_bytes_compares_length_and_content() {
    assert!(same_bytes(&[], &[]));
    assert!(same_bytes(&[1, 2, 3], &[1, 2, 3]));
    assert!(!same_bytes(&[1, 2, 3], &[1, 2]));
    assert!(!same_bytes(&[1, 2, 3], &[1, 2, 4]));
}

fn two_different<const N: usize>() -> ([u8; N], [u8; N]) {
    loop {
        let a = gen_random_malloced_buf::<N>();
        let b = gen_random_malloced_buf::<N>();
        if a != b {
            return (a, b);
        }
    }
}

#[test]
fn hash_id_test_eq() {
    let (ma, mb) = two_different::<20>();
    let a = HashId::from_c_obj(0x10);
    let b = HashId::from_c_obj(0x20);
    assert!(a.eq(&ma, &a, &ma));
    assert!(!a.eq(&ma, &b, &mb));
    assert!(!b.eq(&mb, &a, &ma));
    assert!(b.eq(&mb, &b, &mb));
}

#[test]
fn double_public_key_test_eq() {
    let (ma, mb) = two_different::<96>();
    let a = DoublePublicKey::from_c_obj(0x10);
    let b = DoublePublicKey::from_c_obj(0x20);
    assert!(a.eq(&ma, &a, &ma));
    assert!(!a.eq(&ma, &b, &mb));
    assert!(!b.eq(&mb, &a, &ma));
    assert!(b.eq(&mb, &b, &mb));
}

#[test]
fn public_key_test_eq() {
    let (ma, mb) = two_different::<48>();
    let a = PublicKey::from_c_obj(0x10);
    let b = PublicKey::from_c_obj(0x20);
    assert!(a.eq(&ma, &a, &ma));
    assert!(!a.eq(&ma, &b, &mb));
    assert!(!b.eq(&mb, &a, &ma));
    assert!(b.eq(&mb, &b, &mb));
}

#[test]
fn script_test_eq() {
    let (ma, mb) = two_different::<28>();
    let a = Script::from_c_obj(0x10);
    let b = Script::from_c_obj(0x20);
    assert!(a.eq(&ma, &a, &ma));
    assert!(!a.eq(&ma, &b, &mb));
    assert!(!b.eq(&mb, &a, &ma));
    assert!(b.eq(&mb, &b, &mb));
}

#[test]
fn signature_test_eq() {
    let (ma, mb) = two_different::<96>();
    let a = Signature::from_c_obj(0x10);
    let b = Signature::from_c_obj(0x20);
    assert!(a.eq(&ma, &a, &ma));
    assert!(!a.eq(&ma, &b, &mb));
    assert!(!b.eq(&mb, &a, &ma));
    assert!(b.eq(&mb, &b, &mb));
}

#[test]
fn sub_addr_test_eq() {
    let (ma, mb) = two_different::<96>();
    let a = SubAddr::from_c_obj(0x10);
    let b = SubAddr::from_c_obj(0x20);
    assert!(a.eq(&ma, &a, &ma));
    assert!(!a.eq(&ma, &b, &mb));
    assert!(!b.eq(&mb, &a, &ma));
    assert!(b.eq(&mb, &b, &mb));
}

#[test]
fn sub_addr_id_test_eq() {
    let (ma, mb) = two_different::<16>();
    let a = SubAddrId::from_c_obj(0x10);
    let b = SubAddrId::from_c_obj(0x20);
    assert!(a.eq(&ma, &a, &ma));
    assert!(!a.eq(&ma, &b, &mb));
    assert!(!b.eq(&mb, &a, &ma));
    assert!(b.eq(&mb, &b, &mb));
}

#[test]
fn bytewise_equality_needs_equal_sizes() {
    let a = BlsctObj::new(0x10, 2);
    let b = BlsctObj::new(0x20, 3);
    assert!(!a.eq(&[1, 2], &b, &[1, 2, 3]));
    assert!(a.eq(&[1, 2], &a, &[1, 2]));
}

#[test]
fn scalar_test_eq() {
    assert!(Scalar::eq(1));
    assert!(Scalar::eq(-1));
    assert!(!Scalar::eq(0));
}

#[test]
fn point_test_eq() {
    assert!(Point::eq(1));
    assert!(!Point::eq(0));
    assert!(Point::is_valid(1));
    assert!(!Point::is_valid(0));
    assert!(VectorPredicate::eq(2));
    assert!(!VectorPredicate::eq(0));
}

#[test]
fn token_id_and_out_point_equality_by_parts() {
    assert!(TokenId::eq(1, 2, 1, 2));
    assert!(!TokenId::eq(1, 2, 1, 3));
    assert!(!TokenId::eq(1, 2, 2, 2));
    let (ma, mb) = two_different::<36>();
    let a = OutPoint::from_c_obj(0x10);
    let b = OutPoint::from_c_obj(0x20);
    assert!(a.eq(&ma, 0, &a, &ma, 0));
    assert!(!a.eq(&ma, 0, &a, &ma, 1));
    assert!(!a.eq(&ma, 0, &b, &mb, 0));
}

#[test]
fn scalar_test_random() {
    let mut prev = [0u8; 32];
    let mut dup_tolerance = 5;
    for _ in 0..1000 {
        let (_, x) = CTxId::random(0x10);
        if prev == x {
            dup_tolerance -= 1;
            if dup_tolerance == 0 {
                panic!("the same bytes were generated too many times");
            }
        } else {
            assert!(x != prev);
            prev = x;
        }
    }
}

#[test]
fn test_init() {
    let mut guard = Initializer::new();
    assert!(guard.init());
    assert!(!guard.init());
    assert!(!guard.init());
}

#[test]
fn blsct_test_hello() {
    let mut guard = Initializer::new();
    assert!(guard.init());
}

#[test]
fn common_test_hello() {
    let mut guard = Initializer::new();
    guard.init();
    assert!(!guard.init());
}

#[test]
fn what_was_returned_is_freed_unless_null() {
    assert_eq!(free_unless_null(0), None);
    assert_eq!(free_unless_null(0x40), Some(Release { ptr: 0x40, by: Deallocator::FreeObj }));
}

#[test]
fn random_ctx_id_owns_the_memory_given() {
    let (id, content) = CTxId::random(0x7000);
    assert_eq!(content.len(), 32);
    assert_eq!(id.value(), 0x7000);
    assert_eq!(id.size(), 32);
    assert_eq!(id.release(), Release { ptr: 0x7000, by: Deallocator::FreeObj });
}
