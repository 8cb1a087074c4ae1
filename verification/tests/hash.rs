use factorio_up::error::{IoKind, RuntimeError};
use factorio_up::hash::{find_file_hash, to_checksum, verify_file_hash, Sha256, MAX_MESSAGE_LEN};

fn digest_of(pieces: &[&[u8]]) -> String {
    let mut digest = Sha256::new();
    for piece in pieces {
        assert!(digest.has_room(piece.len()));
        digest.update(piece);
    }
    digest.finish()
}

fn io_error(result: Result<String, RuntimeError>) -> (IoKind, String) {
    match result {
        Err(RuntimeError::Io { kind, message }) => (kind, message),
        other => panic!("unexpected: {:?}", other),
    }
}

#[test]
fn digest_of_known_messages() {
    assert_eq!(
        digest_of(&[]),
        "e3b0c44298fc1c149afbf4c8996fb92427ae41e4649b934ca495991b7852b855"
    );
    assert_eq!(
        digest_of(&[b"abc"]),
        "ba7816bf8f01cfea414140de5dae2223b00361a396177a9cb410ff61f20015ad"
    );
    assert_eq!(
        digest_of(&[b"abcdbcdecdefdefgefghfghighijhijkijkljklmklmnlmnomnopnopq"]),
        "248d6a61d20638b8e5c026930c3e6039a33ce45964ff2167f6ecedd419db06c1"
    );
}

#[test]
fn digest_is_deterministic() {
    let content: Vec<u8> = (0..5000u32).map(|i| (i % 251) as u8).collect();
    let once = digest_of(&[&content]);
    let twice = digest_of(&[&content]);
    assert_eq!(once, twice);
    assert_eq!(once.len(), 64);
    assert!(once.chars().all(|c| c.is_ascii_digit() || ('a'..='f').contains(&c)));
}

#[test]
fn digest_changes_with_one_byte() {
    let content: Vec<u8> = (0..5000u32).map(|i| (i % 251) as u8).collect();
    let mut changed = content.clone();
    changed[2500] ^= 1;
    assert_ne!(digest_of(&[&content]), digest_of(&[&changed]));
}

#[test]
fn digest_does_not_depend_on_the_pieces() {
    let content: Vec<u8> = (0..100_000u32).map(|i| (i % 253) as u8).collect();
    let whole = digest_of(&[&content]);
    let (a, rest) = content.split_at(1);
    let (b, c) = rest.split_at(63_999);
    assert_eq!(digest_of(&[a, b, c]), whole);
    assert_eq!(digest_of(&[a, &[], b, &[], c]), whole);
}

#[test]
fn absorb_follows_a_read_loop() {
    let mut digest = Sha256::new();
    let mut buffer = [0u8; 8];
    buffer[..3].copy_from_slice(b"abc");
    assert!(digest.absorb(&buffer, 3));
    assert_eq!(digest.len(), 3);
    buffer[..2].copy_from_slice(b"db");
    assert!(digest.absorb(&buffer, 2));
    assert_eq!(digest.len(), 5);
    assert!(!digest.absorb(&buffer, 0));
    assert_eq!(digest.len(), 5);
    assert_eq!(digest.finish(), digest_of(&[b"abcdb"]));
}

#[test]
fn room_is_counted_in_bytes() {
    let digest = Sha256::new();
    assert_eq!(MAX_MESSAGE_LEN, u64::MAX / 8);
    assert!(digest.has_room(0));
    assert!(digest.has_room(1 << 20));
    assert!(digest.has_room(MAX_MESSAGE_LEN as usize));
    assert!(!digest.has_room(MAX_MESSAGE_LEN as usize + 1));
}

#[test]
fn find_hash_in_manifest() {
    let manifest = b"abc123  foo/bar.tar.xz\ndeadbeef  foo/baz.tar.xz\n".to_vec();
    assert_eq!(find_file_hash("baz.tar.xz", manifest.clone()).unwrap(), "deadbeef");
    assert_eq!(find_file_hash("bar.tar.xz", manifest.clone()).unwrap(), "abc123");
    assert_eq!(
        io_error(find_file_hash("nomatch.tar.xz", manifest)),
        (IoKind::NotFound, "no matching hash found".to_string())
    );
}

#[test]
fn first_matching_line_wins() {
    let manifest = b"one a.tar.xz\ntwo a.tar.xz\n".to_vec();
    assert_eq!(find_file_hash("a.tar.xz", manifest).unwrap(), "one");
}

#[test]
fn name_must_end_the_line() {
    let manifest = b"one a.tar.xz.sig\ntwo b/a.tar.xz\nthree a.tar.xz \n".to_vec();
    assert_eq!(find_file_hash("a.tar.xz", manifest.clone()).unwrap(), "two");
    assert_eq!(find_file_hash("a.tar.xz ", manifest).unwrap(), "three");
}

#[test]
fn line_endings_are_not_part_of_a_line() {
    let manifest = b"one a.tar.xz\r\ntwo b.tar.xz".to_vec();
    assert_eq!(find_file_hash("a.tar.xz", manifest.clone()).unwrap(), "one");
    assert_eq!(find_file_hash("b.tar.xz", manifest).unwrap(), "two");
    // a carriage return ends no line, and is kept where no line feed follows
    let manifest = b"one a.tar.xz\rtwo b.tar.xz\r".to_vec();
    assert_eq!(find_file_hash("b.tar.xz\r", manifest.clone()).unwrap(), "one");
    assert_eq!(
        io_error(find_file_hash("a.tar.xz", manifest)),
        (IoKind::NotFound, "no matching hash found".to_string())
    );
}

#[test]
fn hash_is_the_first_word() {
    let manifest = "  \t\u{a0}h1\u{2003}h2 name\n".as_bytes().to_vec();
    assert_eq!(find_file_hash("name", manifest).unwrap(), "h1");
    let manifest = b"name\n".to_vec();
    assert_eq!(find_file_hash("name", manifest).unwrap(), "name");
}

#[test]
fn matching_line_without_a_word_is_not_found() {
    let manifest = b"   \nabc  \n".to_vec();
    assert_eq!(
        io_error(find_file_hash("  ", manifest)),
        (IoKind::NotFound, "no matching hash found".to_string())
    );
    assert_eq!(
        io_error(find_file_hash("", b"\nabc x\n".to_vec())),
        (IoKind::NotFound, "no matching hash found".to_string())
    );
    assert_eq!(find_file_hash("", b"abc x\n".to_vec()).unwrap(), "abc");
    assert_eq!(
        io_error(find_file_hash("", Vec::new())),
        (IoKind::NotFound, "no matching hash found".to_string())
    );
}

#[test]
fn manifest_must_be_text() {
    let manifest = vec![b'a', b' ', b'b', 0xff, b'\n'];
    assert_eq!(
        io_error(find_file_hash("b", manifest)),
        (IoKind::InvalidData, "failed to parse checksums as utf-8".to_string())
    );
    let manifest = vec![0xc3, 0x28];
    assert_eq!(
        io_error(find_file_hash("", manifest)),
        (IoKind::InvalidData, "failed to parse checksums as utf-8".to_string())
    );
}

#[test]
fn manifest_may_hold_any_text() {
    let manifest = "d\u{e9}j\u{e0}  caf\u{e9}/\u{1f600}.tar.xz\n".as_bytes().to_vec();
    assert_eq!(
        find_file_hash("\u{1f600}.tar.xz", manifest).unwrap(),
        "d\u{e9}j\u{e0}"
    );
}

#[test]
fn checksum_is_lower_case_hex() {
    assert_eq!(to_checksum(&[]), "");
    assert_eq!(to_checksum(&[0x00, 0x0f, 0xa5, 0xff]), "000fa5ff");
    assert_eq!(
        to_checksum(&[0x01, 0x23, 0x45, 0x67, 0x89, 0xab, 0xcd, 0xef]),
        "0123456789abcdef"
    );
    for byte in 0..=255u8 {
        assert_eq!(to_checksum(&[byte]), format!("{:02x}", byte));
    }
}

#[test]
fn verify_compares_exactly() {
    assert!(verify_file_hash("abc123", "abc123").is_ok());
    for other in ["zzz999", "ABC123", "abc12", "abc1234", ""] {
        match verify_file_hash("abc123", other) {
            Err(RuntimeError::Io { kind, message }) => {
                assert_eq!(kind, IoKind::InvalidData);
                assert_eq!(message, "file hash does not match");
            }
            other => panic!("unexpected: {:?}", other),
        }
    }
}

fn lookup_with_std(filename: &str, text: &str) -> Option<String> {
    for line in text.lines() {
        if line.ends_with(filename) {
            return line.split_whitespace().next().map(str::to_string);
        }
    }
    None
}

#[test]
fn lookup_agrees_with_std_on_short_texts() {
    let alphabet = ['a', 'b', ' ', '\n', '\r', '\t', '\u{a0}', '\u{e9}'];
    let names = ["", "a", "b", "ab", " a", "a\r", "\u{e9}", "a ", "\n"];
    let mut texts = vec![String::new()];
    let mut from = 0;
    for _ in 0..5 {
        let upto = texts.len();
        for i in from..upto {
            for c in alphabet {
                let mut longer = texts[i].clone();
                longer.push(c);
                texts.push(longer);
            }
        }
        from = upto;
    }
    assert_eq!(texts.len(), 1 + 8 + 64 + 512 + 4096 + 32768);
    for text in &texts {
        for name in names {
            let found = find_file_hash(name, text.clone().into_bytes());
            match lookup_with_std(name, text) {
                Some(hash) => assert_eq!(found.unwrap(), hash, "{:?} in {:?}", name, text),
                None => assert_eq!(
                    io_error(found),
                    (IoKind::NotFound, "no matching hash found".to_string()),
                    "{:?} in {:?}",
                    name,
                    text
                ),
            }
        }
    }
}

#[test]
fn digest_agrees_with_ring() {
    let content: Vec<u8> = (0..70_000u32).map(|i| (i * 7 % 256) as u8).collect();
    for len in [0, 1, 55, 56, 63, 64, 65, 1000, 70_000] {
        let expected = ring::digest::digest(&ring::digest::SHA256, &content[..len]);
        let expected: String = expected.as_ref().iter().map(|b| format!("{:02x}", b)).collect();
        assert_eq!(digest_of(&[&content[..len]]), expected);
        let middle = len / 3;
        assert_eq!(digest_of(&[&content[..middle], &content[middle..len]]), expected);
    }
}
