use kunai::hash::{md5_data, sha1_data, sha256_data, sha512_data};
use kunai::lsm::is_module_listed;
use kunai::net::{is_public_ip, IpAddress};
use kunai::random::{getrandom_result, random_bytes_result, RandError};
use kunai::sys::{
    boot_ns_from_timespec, getrlimit_result, kill_result, page_shift, setrlimit_result,
    sysconf_result, ResourceLimit, SysError,
};

#[test]
fn test_page_size() {
    let page_size: i64 = 4096;
    println!("PAGE_SIZE: {}", page_size);
    println!("PAGE_SHIFT: {}", page_shift(page_size));
    assert_eq!(page_shift(page_size), 12);
}

#[test]
fn page_shift_of_powers_of_two_is_exact() {
    for k in 0..63u32 {
        let size: i64 = 1i64 << k;
        assert_eq!(page_shift(size), k as u64);
        assert_eq!(1i64 << page_shift(size), size);
    }
}

#[test]
fn page_shift_rounds_up_otherwise() {
    assert_eq!(page_shift(3), 2);
    assert_eq!(page_shift(5000), 13);
    assert_eq!(page_shift(0), 0);
    assert_eq!(page_shift(-1), 0);
    assert_eq!(page_shift(i64::MAX), 63);
}

#[test]
fn digests_of_empty_input() {
    assert_eq!(md5_data(b""), "d41d8cd98f00b204e9800998ecf8427e");
    assert_eq!(sha1_data(b""), "da39a3ee5e6b4b0d3255bfef95601890afd80709");
    assert_eq!(
        sha256_data(b""),
        "e3b0c44298fc1c149afbf4c8996fb92427ae41e4649b934ca495991b7852b855"
    );
    assert_eq!(
        sha512_data(b""),
        "cf83e1357eefb8bdf1542850d66d8007d620e4050b5715dc83f4a921d36ce9ce47d0d13c5d85f2b0ff8318d2877eec2f63b931bd47417a81a538327af927da3e"
    );
}

#[test]
fn digests_of_abc() {
    assert_eq!(md5_data(b"abc"), "900150983cd24fb0d6963f7d28e17f72");
    assert_eq!(sha1_data(b"abc"), "a9993e364706816aba3e25717850c26c9cd0d89d");
    assert_eq!(
        sha256_data(b"abc"),
        "ba7816bf8f01cfea414140de5dae2223b00361a396177a9cb410ff61f20015ad"
    );
}

#[test]
fn digest_lengths_are_fixed_and_repeatable() {
    let inputs: Vec<Vec<u8>> = vec![vec![], vec![0], vec![0xff; 1000], b"kunai".to_vec()];
    for d in inputs.iter() {
        assert_eq!(md5_data(d).len(), 32);
        assert_eq!(sha1_data(d).len(), 40);
        assert_eq!(sha256_data(d).len(), 64);
        assert_eq!(sha512_data(d).len(), 128);
        assert_eq!(sha256_data(d), sha256_data(d));
        assert!(sha512_data(d).chars().all(|c| c.is_ascii_hexdigit() && !c.is_ascii_uppercase()));
    }
}

#[test]
fn reserved_ipv4_addresses_are_not_public() {
    for o in [
        [127, 0, 0, 1],
        [169, 254, 1, 1],
        [10, 1, 2, 3],
        [172, 16, 0, 1],
        [172, 31, 255, 255],
        [192, 168, 1, 1],
        [0, 1, 2, 3],
        [100, 64, 0, 1],
        [192, 0, 2, 1],
        [198, 18, 0, 1],
        [240, 0, 0, 1],
        [255, 255, 255, 255],
    ] {
        assert!(!is_public_ip(IpAddress::V4(o)), "{:?}", o);
    }
}

#[test]
fn public_ipv4_addresses() {
    assert!(is_public_ip(IpAddress::V4([8, 8, 8, 8])));
    assert!(is_public_ip(IpAddress::V4([172, 32, 0, 1])));
    assert!(is_public_ip(IpAddress::V4([192, 0, 0, 9])));
}

#[test]
fn ipv6_classification() {
    assert!(!is_public_ip(IpAddress::V6([0, 0, 0, 0, 0, 0, 0, 1])));
    assert!(!is_public_ip(IpAddress::V6([0xfe80, 0, 0, 0, 0, 0, 0, 1])));
    assert!(!is_public_ip(IpAddress::V6([0xfd00, 0, 0, 0, 0, 0, 0, 1])));
    assert!(is_public_ip(IpAddress::V6([0x2001, 0x4860, 0x4860, 0, 0, 0, 0, 0x8888])));
}

#[test]
fn bpf_module_listed() {
    assert!(is_module_listed("lockdown,bpf,yama", "bpf"));
    assert!(!is_module_listed("lockdown,yama", "bpf"));
}

#[test]
fn module_list_edges() {
    assert!(is_module_listed("bpf", "bpf"));
    assert!(is_module_listed("bpf,yama", "bpf"));
    assert!(is_module_listed("yama,bpf", "bpf"));
    assert!(!is_module_listed("", "bpf"));
    assert!(is_module_listed("", ""));
    assert!(is_module_listed("a,,b", ""));
    assert!(!is_module_listed("bpfx,xbpf", "bpf"));
    assert!(!is_module_listed("lockdown,bpf,yama", "bpf,yama"));
}

#[test]
fn getrandom_outcomes() {
    assert_eq!(getrandom_result(-1, 8), Err(RandError::CallFailure));
    assert_eq!(getrandom_result(4, 8), Err(RandError::PartiallyRandomized));
    assert_eq!(getrandom_result(-2, 8), Err(RandError::PartiallyRandomized));
    assert_eq!(getrandom_result(8, 8), Ok(()));
    assert_eq!(getrandom_result(0, 0), Ok(()));
}

#[test]
fn random_bytes_outcomes() {
    let buf = vec![1u8, 2, 3, 4];
    assert_eq!(random_bytes_result(4, buf.clone()), Ok(buf.clone()));
    assert_eq!(random_bytes_result(3, buf.clone()), Err(RandError::PartiallyRandomized));
    assert_eq!(random_bytes_result(-1, buf), Err(RandError::CallFailure));
}

#[test]
fn boot_time_conversion() {
    assert_eq!(boot_ns_from_timespec(0, 2, 5), Ok(2_000_000_005));
    assert_eq!(boot_ns_from_timespec(0, 0, 0), Ok(0));
    assert_eq!(boot_ns_from_timespec(-1, 2, 5), Err(SysError::CallFailed));
    assert_eq!(boot_ns_from_timespec(0, -1, 5), Err(SysError::OutOfRange));
    assert_eq!(boot_ns_from_timespec(0, 1, 1_000_000_000), Err(SysError::OutOfRange));
    assert_eq!(
        boot_ns_from_timespec(0, 18_446_744_073, 709_551_615),
        Ok(u64::MAX)
    );
    assert_eq!(
        boot_ns_from_timespec(0, 18_446_744_073, 709_551_616),
        Err(SysError::OutOfRange)
    );
    assert_eq!(boot_ns_from_timespec(0, i64::MAX, 0), Err(SysError::OutOfRange));
}

#[test]
fn call_status_outcomes() {
    assert_eq!(sysconf_result(-1), Err(SysError::CallFailed));
    assert_eq!(sysconf_result(100), Ok(100));
    assert_eq!(kill_result(-1), Err(SysError::CallFailed));
    assert_eq!(kill_result(0), Ok(()));
    assert_eq!(setrlimit_result(-1), Err(SysError::CallFailed));
    assert_eq!(setrlimit_result(0), Ok(()));
}

#[test]
fn getrlimit_hands_back_pair() {
    assert_eq!(
        getrlimit_result(0, 1024, u64::MAX),
        Ok(ResourceLimit { soft: 1024, hard: u64::MAX })
    );
    assert_eq!(getrlimit_result(-1, 1, 2), Err(SysError::CallFailed));
}

#[test]
fn multicast_addresses_are_not_public() {
    assert!(!is_public_ip(IpAddress::V4([224, 0, 0, 1])));
    assert!(!is_public_ip(IpAddress::V4([239, 255, 255, 255])));
    assert!(!is_public_ip(IpAddress::V6([0xff0e, 0, 0, 0, 0, 0, 0, 1])));
    assert!(!is_public_ip(IpAddress::V6([0xff02, 0, 0, 0, 0, 0, 0, 1])));
}

#[test]
fn reserved_ipv6_addresses_are_not_public() {
    assert!(!is_public_ip(IpAddress::V6([0, 0, 0, 0, 0, 0, 0, 0])));
    assert!(!is_public_ip(IpAddress::V6([0xfec0, 0, 0, 0, 0, 0, 0, 1])));
    assert!(!is_public_ip(IpAddress::V6([0x2001, 0xdb8, 0, 0, 0, 0, 0, 1])));
    assert!(is_public_ip(IpAddress::V6([0x2001, 0xdb9, 0, 0, 0, 0, 0, 1])));
}
