use secrt::cipher::seal;
use secrt::envelope::Envelope;
use secrt::error::EnvelopeError;
use secrt::resolver::{candidate_list, try_candidates, Trial};

fn random(seed: u8) -> Vec<u8> {
    (0..60u8).map(|i| i.wrapping_mul(59).wrapping_add(seed)).collect()
}

fn list(entries: &[&str]) -> Vec<Vec<u8>> {
    entries.iter().map(|e| e.as_bytes().to_vec()).collect()
}

#[test]
fn the_default_comes_first() {
    assert_eq!(candidate_list(b"d", &list(&["a", "b"])), list(&["d", "a", "b"]));
}

#[test]
fn empty_entries_are_dropped() {
    assert_eq!(candidate_list(b"", &list(&["a", "", "b", ""])), list(&["a", "b"]));
    assert_eq!(candidate_list(b"", &list(&[])), list(&[]));
    assert_eq!(candidate_list(b"", &list(&["", ""])), list(&[]));
    assert_eq!(candidate_list(b"d", &list(&[""])), list(&["d"]));
}

#[test]
fn of_equal_entries_the_first_stays() {
    assert_eq!(candidate_list(b"a", &list(&["b", "a", "c", "b", "a"])), list(&["a", "b", "c"]));
    assert_eq!(candidate_list(b"", &list(&["x", "x", "x"])), list(&["x"]));
    assert_eq!(candidate_list(b"x", &list(&["x"])), list(&["x"]));
}

#[test]
fn entries_are_compared_byte_for_byte() {
    assert_eq!(
        candidate_list(b"pass", &list(&["Pass", "pass ", "pas", "pass"])),
        list(&["pass", "Pass", "pass ", "pas"])
    );
}

#[test]
fn the_first_candidate_that_opens_ends_the_trial() {
    let sealed = seal(b"treasure", b"right", &random(1), 2).unwrap();
    let trial = try_candidates(&sealed.envelope, &sealed.client_key, &list(&["no", "right", "right"]));
    assert_eq!(trial, Trial::Opened { index: 1, plaintext: b"treasure".to_vec() });
    let trial = try_candidates(&sealed.envelope, &sealed.client_key, &list(&["right"]));
    assert_eq!(trial, Trial::Opened { index: 0, plaintext: b"treasure".to_vec() });
}

#[test]
fn candidates_that_all_fail_exhaust_the_trial() {
    let sealed = seal(b"treasure", b"right", &random(1), 2).unwrap();
    assert_eq!(
        try_candidates(&sealed.envelope, &sealed.client_key, &list(&["a", "b", "c"])),
        Trial::Exhausted
    );
    assert_eq!(try_candidates(&sealed.envelope, &sealed.client_key, &list(&[])), Trial::Exhausted);
}

#[test]
fn a_malformed_envelope_refuses_the_first_candidate() {
    let sealed = seal(b"treasure", b"right", &random(1), 2).unwrap();
    let broken = Envelope { version: 9, ..sealed.envelope.clone() };
    assert_eq!(
        try_candidates(&broken, &sealed.client_key, &list(&["a", "right"])),
        Trial::Refused { index: 0, error: EnvelopeError::MalformedEnvelope }
    );
}
