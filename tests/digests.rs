use octavo::digest::Digest;
use octavo::md5::Md5;
use octavo::sha1::Sha1;

fn sha1_of(input: &[u8]) -> Vec<u8> {
    let mut dig = Sha1::default();
    dig.update(input);
    let mut res = vec![0u8; 20];
    dig.result(&mut res[..]);
    res
}

fn sha1_bytewise(input: &[u8]) -> Vec<u8> {
    let mut dig = Sha1::default();
    for b in input {
        dig.update(&[*b]);
    }
    let mut res = vec![0u8; 20];
    dig.result(&mut res[..]);
    res
}

fn md5_of(input: &[u8]) -> Vec<u8> {
    let mut dig = Md5::default();
    dig.update(input);
    let mut res = vec![0u8; 16];
    dig.result(&mut res[..]);
    res
}

fn md5_bytewise(input: &[u8]) -> Vec<u8> {
    let mut dig = Md5::default();
    for b in input {
        dig.update(&[*b]);
    }
    let mut res = vec![0u8; 16];
    dig.result(&mut res[..]);
    res
}

fn hex(b: &[u8]) -> String {
    b.iter().map(|x| format!("{:02x}", x)).collect()
}

#[test]
fn simple_test_vectors() {
    let tests: Vec<(&[u8], Vec<u8>)> = vec![
        (&b""[..], vec![0xda, 0x39, 0xa3, 0xee, 0x5e, 0x6b, 0x4b, 0x0d, 0x32, 0x55, 0xbf, 0xef, 0x95, 0x60, 0x18, 0x90, 0xaf, 0xd8, 0x07, 0x09]),
        (&b"a"[..], vec![0x86, 0xf7, 0xe4, 0x37, 0xfa, 0xa5, 0xa7, 0xfc, 0xe1, 0x5d, 0x1d, 0xdc, 0xb9, 0xea, 0xea, 0xea, 0x37, 0x76, 0x67, 0xb8]),
        (&b"abc"[..], vec![0xa9, 0x99, 0x3e, 0x36, 0x47, 0x06, 0x81, 0x6a, 0xba, 0x3e, 0x25, 0x71, 0x78, 0x50, 0xc2, 0x6c, 0x9c, 0xd0, 0xd8, 0x9d]),
        (&b"message digest"[..], vec![0xc1, 0x22, 0x52, 0xce, 0xda, 0x8b, 0xe8, 0x99, 0x4d, 0x5f, 0xa0, 0x29, 0x0a, 0x47, 0x23, 0x1c, 0x1d, 0x16, 0xaa, 0xe3]),
        (&b"abcdefghijklmnopqrstuvwxyz"[..], vec![0x32, 0xd1, 0x0c, 0x7b, 0x8c, 0xf9, 0x65, 0x70, 0xca, 0x04, 0xce, 0x37, 0xf2, 0xa1, 0x9d, 0x84, 0x24, 0x0d, 0x3a, 0x89]),
        (&b"ABCDEFGHIJKLMNOPQRSTUVWXYZabcdefghijklmnopqrstuvwxyz0123456789"[..], vec![0x76, 0x1c, 0x45, 0x7b, 0xf7, 0x3b, 0x14, 0xd2, 0x7e, 0x9e, 0x92, 0x65, 0xc4, 0x6f, 0x4b, 0x4d, 0xda, 0x11, 0xf9, 0x40]),
        (&b"12345678901234567890123456789012345678901234567890123456789012345678901234567890"[..], vec![0x50, 0xab, 0xf5, 0x70, 0x6a, 0x15, 0x09, 0x90, 0xa0, 0x8b, 0x2c, 0x5e, 0xa4, 0x0f, 0xa0, 0xe5, 0x85, 0x55, 0x47, 0x32]),
    ];
    for (input, output) in tests {
        assert_eq!(sha1_of(input), output);
        assert_eq!(sha1_bytewise(input), output);
    }
}

#[test]
fn sha1_fixed_vectors() {
    assert_eq!(hex(&sha1_of(b"")), "da39a3ee5e6b4b0d3255bfef95601890afd80709");
    assert_eq!(hex(&sha1_of(b"abc")), "a9993e364706816aba3e25717850c26c9cd0d89d");
}

#[test]
fn md5_fixed_vectors() {
    assert_eq!(hex(&md5_of(b"")), "d41d8cd98f00b204e9800998ecf8427e");
    assert_eq!(hex(&md5_of(b"abc")), "900150983cd24fb0d6963f7d28e17f72");
    assert_eq!(hex(&md5_of(b"a")), "0cc175b9c0f1b6a831c399e269772661");
    assert_eq!(hex(&md5_of(b"message digest")), "f96b697d7cb7938d525a2f31aaf161d0");
    assert_eq!(
        hex(&md5_of(b"12345678901234567890123456789012345678901234567890123456789012345678901234567890")),
        "57edf4a22be3c955ac49da2e2107b67a"
    );
}

#[test]
fn md5_incremental_matches_one_call() {
    let data: Vec<u8> = (0u32..300).map(|i| (i * 7 + 3) as u8).collect();
    let whole = md5_of(&data);
    for split in [0usize, 1, 55, 56, 63, 64, 65, 128, 299, 300] {
        let mut dig = Md5::default();
        dig.update(&data[..split]);
        dig.update(&data[split..]);
        let mut res = vec![0u8; 16];
        dig.result(&mut res[..]);
        assert_eq!(res, whole);
    }
    assert_eq!(md5_bytewise(&data), whole);
}

#[test]
fn sha1_incremental_matches_one_call() {
    let data: Vec<u8> = (0u32..300).map(|i| (i * 13 + 1) as u8).collect();
    let whole = sha1_of(&data);
    for split in [0usize, 1, 55, 56, 63, 64, 65, 128, 299, 300] {
        let mut dig = Sha1::default();
        dig.update(&data[..split]);
        dig.update(&data[split..]);
        let mut res = vec![0u8; 20];
        dig.result(&mut res[..]);
        assert_eq!(res, whole);
    }
}

#[test]
fn digests_are_deterministic() {
    let data = b"The quick brown fox jumps over the lazy dog";
    assert_eq!(md5_of(data), md5_of(data));
    assert_eq!(sha1_of(data), sha1_of(data));
    assert_eq!(hex(&md5_of(data)), "9e107d9d372bb6826bd81d3542a419d6");
    assert_eq!(hex(&sha1_of(data)), "2fd4e1c67a2d28fced849ee1bb76e7391b93eb12");
}

#[test]
fn padding_edges() {
    // 55 bytes fit one padded block, 56 need two.
    assert_eq!(hex(&md5_of(&[b'a'; 55])), "ef1772b6dff9a122358552954ad0df65");
    assert_eq!(hex(&md5_of(&[b'a'; 56])), "3b0c8ac703f828b04c6c197006d17218");
    assert_eq!(hex(&md5_of(&[b'a'; 64])), "014842d480b571495a4a0363793f7367");
    assert_eq!(hex(&sha1_of(&[b'a'; 64])), "0098ba824b5c16427bd7a1122a5a442a25ec644d");
}

#[test]
fn result_leaves_the_rest_of_out_alone() {
    let mut out = vec![0xEEu8; 24];
    let dig = Md5::default();
    dig.result(&mut out[..]);
    assert_eq!(hex(&out[..16]), "d41d8cd98f00b204e9800998ecf8427e");
    assert_eq!(&out[16..], &[0xEE; 8]);
    let mut out2 = vec![0xEEu8; 24];
    let dig2 = Sha1::default();
    dig2.result(&mut out2[..]);
    assert_eq!(&out2[20..], &[0xEE; 4]);
}

#[test]
fn digest_sizes() {
    assert_eq!(Md5::output_bits(), 128);
    assert_eq!(Md5::output_bytes(), 16);
    assert_eq!(Md5::block_size(), 64);
    assert_eq!(Sha1::output_bits(), 160);
    assert_eq!(Sha1::output_bytes(), 20);
    assert_eq!(Sha1::block_size(), 64);
}
