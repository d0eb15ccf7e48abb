use urlexpand::cipher::decode_ysmm;
use urlexpand::pages::payload_target;

fn is_digit(c: char) -> bool {
    c.is_ascii_digit()
}

/// Masks each digit pair: the first digit becomes the exclusive or of the
/// pair when that is a single digit.
fn mask_digit_pairs(s: &[char]) -> Vec<char> {
    let mut out = s.to_vec();
    let positions: Vec<usize> = (0..s.len()).filter(|&i| is_digit(s[i])).collect();
    for pair in positions.chunks_exact(2) {
        let a = s[pair[0]].to_digit(10).unwrap();
        let b = s[pair[1]].to_digit(10).unwrap();
        let x = a ^ b;
        if x < 10 {
            out[pair[0]] = char::from_digit(x, 10).unwrap();
        }
    }
    out
}

fn shuffle(z: &[char]) -> Vec<char> {
    let n = z.len();
    (0..n).map(|i| if i % 2 == 0 { z[i / 2] } else { z[n - 1 - i / 2] }).collect()
}

fn obfuscate(payload: &[u8]) -> Vec<char> {
    let text: Vec<char> =
        base64::Engine::encode(&base64::engine::general_purpose::STANDARD, payload).chars().collect();
    shuffle(&mask_digit_pairs(&text))
}

fn padded(body: &str) -> Vec<u8> {
    let mut b = b"0123456789abcdef".to_vec();
    b.extend_from_slice(body.as_bytes());
    b.extend_from_slice(b"fedcba9876543210");
    b
}

#[test]
fn obfuscated_payload_round_trips() {
    let y = obfuscate(&padded("https://adf.ly/go?id=7&dest=https%3A%2F%2Fexample.org%2Fpath%3Fq%3D1"));
    assert_eq!(decode_ysmm(&y), Some("https://example.org/path?q=1".to_string()));
}

#[test]
fn obfuscated_payload_with_many_digits_round_trips() {
    let y = obfuscate(&padded("12345678dest=https://example.org/2024/10/19"));
    assert_eq!(decode_ysmm(&y), Some("https://example.org/2024/10/19".to_string()));
}

#[test]
fn destination_is_all_that_follows_the_first_marker() {
    let y = obfuscate(&padded("dest=a%20b&dest=c"));
    assert_eq!(decode_ysmm(&y), Some("a b&dest=c".to_string()));
}

#[test]
fn obfuscated_payload_without_marker_yields_nothing() {
    let y = obfuscate(&padded("https://example.org/"));
    assert_eq!(decode_ysmm(&y), None);
}

#[test]
fn obfuscated_payload_too_short_yields_nothing() {
    let y = obfuscate(b"short dest=x");
    assert_eq!(decode_ysmm(&y), None);
}

#[test]
fn obfuscated_payload_of_odd_length_yields_nothing() {
    let y: Vec<char> = "abc".chars().collect();
    assert_eq!(decode_ysmm(&y), None);
}

#[test]
fn obfuscated_payload_that_is_not_base64_yields_nothing() {
    let y: Vec<char> = "!!!!".chars().collect();
    assert_eq!(decode_ysmm(&y), None);
}

#[test]
fn obfuscated_payload_not_utf8_yields_nothing() {
    let mut b = padded("dest=x");
    b[20] = 0xff;
    assert_eq!(decode_ysmm(&obfuscate(&b)), None);
}

#[test]
fn payload_is_read_from_the_page_variable() {
    let y: String = obfuscate(&padded("dest=https://example.org/p")).into_iter().collect();
    let page = format!("<script>var ysmm = '{}';</script>", y);
    assert_eq!(payload_target(&page), Some("https://example.org/p".to_string()));
    assert_eq!(payload_target("<script>var other = 'x';</script>"), None);
}

fn chars(s: &str) -> Vec<char> {
    s.chars().collect()
}

#[test]
fn unscramble_undoes_the_shuffle_and_masks_digit_pairs() {
    // shuffle: a 1 2 b -> even positions a, 1 then odd positions from the
    // last back: 2, b; then the pair (1, 2) masks 1 to 1 ^ 2 = 3
    assert_eq!(urlexpand::cipher::unscramble_text(&chars("ab12")), Some(chars("a32b")));
    // 9 ^ 3 = 10 is not a digit: the pair stays as it is
    assert_eq!(urlexpand::cipher::unscramble_text(&chars("9x3y")), Some(chars("93yx")));
    // an unpaired last digit stays as it is
    assert_eq!(urlexpand::cipher::unscramble_text(&chars("5a")), Some(chars("5a")));
    assert_eq!(urlexpand::cipher::unscramble_text(&chars("abc")), None);
}

#[test]
fn payload_destination_reads_the_middle_text() {
    let b = padded("id=1&dest=https%3A%2F%2Fexample.org%2F");
    assert_eq!(
        urlexpand::cipher::payload_destination(&b),
        Some("https://example.org/".to_string())
    );
    assert_eq!(urlexpand::cipher::payload_destination(&padded("no marker")), None);
    // the header may not cut a character in two
    let mut b = b"a".to_vec();
    b.extend_from_slice("é".repeat(8).as_bytes());
    b.extend_from_slice(b"dest=y");
    b.extend_from_slice(&[b'z'; 16]);
    assert_eq!(urlexpand::cipher::payload_destination(&b), None);
}
