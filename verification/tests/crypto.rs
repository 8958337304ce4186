use lotide::crypto::{
    check_request, digest_header, digest_matches, public_key_pem, sign_request,
    verify_signature, PublishedKey,
};
use lotide::response::HttpResponse;
use lotide::signature::{parse_signature_header, SIGNED_HEADERS};

const OWNER: &str = "https://lotide.example/apub/users/7";
const KEY: &str = "https://lotide.example/apub/users/7#main-key";
const DATE: &str = "Thu, 05 Jan 2023 21:31:40 GMT";
const NOW: i64 = 1672954300;
const BODY: &[u8] = b"{\"type\":\"Like\"}";
const TARGET: &str = "/communities/3/inbox?page=1";

fn private_pem() -> Vec<u8> {
    openssl::rsa::Rsa::generate(2048).unwrap().private_key_to_pem().unwrap()
}

fn headers(host: &str, digest: &str) -> Vec<(String, String)> {
    vec![
        ("content-type".to_owned(), "application/activity+json".to_owned()),
        ("host".to_owned(), host.to_owned()),
        ("date".to_owned(), DATE.to_owned()),
        ("digest".to_owned(), digest.to_owned()),
    ]
}

fn published(pem: Option<&str>) -> PublishedKey {
    PublishedKey { owner: OWNER.to_owned(), key_id: KEY.to_owned(), pem: pem.map(str::to_owned) }
}

fn refused(res: Result<String, HttpResponse>, text: &str) {
    let res = res.unwrap_err();
    assert_eq!((res.status, res.content_type, res.body), (401, None, text.as_bytes().to_vec()));
}

#[test]
fn digest_of_a_body() {
    assert_eq!(digest_header(b"hello"), "SHA-256=LPJNul+wow4m6DsqxbninhsWHlwfp0JecwQzYpOLmCQ=");
    assert_eq!(digest_header(b""), "SHA-256=47DEQpj8HBSa+/TImW+5JCeuQeRkm5NMpJWZG3hSuFU=");
    let heads = headers("h", "SHA-256=LPJNul+wow4m6DsqxbninhsWHlwfp0JecwQzYpOLmCQ=");
    assert!(digest_matches(&heads, b"hello"));
    assert!(!digest_matches(&heads, b"hello "));
    assert!(!digest_matches(&headers("h", "sha-256=LPJNul+wow4m6DsqxbninhsWHlwfp0JecwQzYpOLmCQ="), b"hello"));
    assert!(!digest_matches(&Vec::new(), b"hello"));
}

#[test]
fn what_is_signed_here_is_accepted_here() {
    let private = private_pem();
    let public = public_key_pem(&private).unwrap();
    assert!(public.starts_with("-----BEGIN PUBLIC KEY-----"));
    let digest = digest_header(BODY);
    let header =
        sign_request(&private, KEY, "POST", TARGET, "peer.example", DATE, &digest).unwrap();
    // The same key and text give the same signature.
    assert_eq!(
        sign_request(&private, KEY, "POST", TARGET, "peer.example", DATE, &digest).unwrap(),
        header
    );
    let params = parse_signature_header(&header).unwrap();
    assert_eq!(params.key_id, KEY);
    assert_eq!(params.headers, SIGNED_HEADERS);
    assert!(!params.signature.contains('"'));
    let heads = headers("peer.example", &digest);
    let key = published(Some(&public));
    assert_eq!(
        check_request(&params, "post", TARGET, &heads, BODY, &key, NOW + 300),
        Ok(OWNER.to_owned())
    );
    assert!(check_request(&params, "post", TARGET, &heads, BODY, &key, NOW - 300).is_ok());

    // Another target, another host: the signature is for none of them.
    refused(
        check_request(&params, "post", "/communities/3/inbox", &heads, BODY, &key, NOW),
        "Invalid signature",
    );
    let other_host = headers("other.example", &digest);
    refused(
        check_request(&params, "post", TARGET, &other_host, BODY, &key, NOW),
        "Invalid signature",
    );
    // Another body than the digest is of; and the digest of another body.
    refused(check_request(&params, "post", TARGET, &heads, b"{}", &key, NOW), "Invalid signature");
    let other_digest = headers("peer.example", &digest_header(b"{}"));
    refused(
        check_request(&params, "post", TARGET, &other_digest, b"{}", &key, NOW),
        "Invalid signature",
    );
    // Another key, no key, no key at all.
    let stranger = public_key_pem(&private_pem()).unwrap();
    for pem in [Some(stranger.as_str()), None, Some("no key")] {
        refused(
            check_request(&params, "post", TARGET, &heads, BODY, &published(pem), NOW),
            "Invalid signature",
        );
    }
    // The key that the owner publishes has another name.
    let mut renamed = published(Some(&public));
    renamed.key_id = "https://x/y#k".to_owned();
    refused(
        check_request(&params, "post", TARGET, &heads, BODY, &renamed, NOW),
        "Invalid signature",
    );
    // The document that was fetched is that of somebody else.
    let mut foreign = published(Some(&public));
    foreign.owner = "https://lotide.example/apub/users/8".to_owned();
    refused(
        check_request(&params, "post", TARGET, &heads, BODY, &foreign, NOW),
        "Invalid signature",
    );
    // Too old, too new.
    for now in [NOW + 301, NOW - 301] {
        refused(check_request(&params, "post", TARGET, &heads, BODY, &key, now), "Invalid signature");
    }
    // The date cannot be read.
    let mut undated = heads.clone();
    undated[2].1 = "yesterday".to_owned();
    refused(
        check_request(&params, "post", TARGET, &undated, BODY, &key, NOW),
        "Missing signature",
    );
    // A signed header is not on the request.
    let without_digest: Vec<(String, String)> =
        heads.iter().filter(|(name, _)| name != "digest").cloned().collect();
    refused(
        check_request(&params, "post", TARGET, &without_digest, BODY, &key, NOW),
        "Missing signature",
    );
}

#[test]
fn signatures_are_checked_against_key_and_text() {
    let private = private_pem();
    let public = public_key_pem(&private).unwrap();
    let header = sign_request(&private, KEY, "post", "/inbox", "h", DATE, "d").unwrap();
    let signature = parse_signature_header(&header).unwrap().signature;
    let text = lotide::signature::build_signing_string("post", "/inbox", "h", DATE, "d");
    assert!(verify_signature(&public, &text, &signature));
    assert!(!verify_signature(&public, "other text", &signature));
    assert!(!verify_signature(&public, &text, "AAAA"));
    assert!(!verify_signature(&public, &text, "not base64 !"));
    assert!(!verify_signature("no key", &text, &signature));
}

#[test]
fn a_key_that_cannot_be_read_signs_nothing() {
    assert_eq!(public_key_pem(b"no key"), None);
    assert_eq!(sign_request(b"no key", KEY, "post", "/inbox", "h", DATE, "d"), None);
    let public = public_key_pem(&private_pem()).unwrap();
    assert_eq!(public_key_pem(public.as_bytes()), None);
    assert_eq!(sign_request(public.as_bytes(), KEY, "post", "/inbox", "h", DATE, "d"), None);
}

#[test]
fn a_key_name_with_a_quote_signs_nothing() {
    let private = private_pem();
    assert!(sign_request(&private, "https://x/a#k", "post", "/inbox", "h", DATE, "d").is_some());
    assert_eq!(sign_request(&private, "https://x/a\"b#k", "post", "/inbox", "h", DATE, "d"), None);
}

#[test]
fn nobody_is_asked_for_a_passphrase() {
    let rsa = openssl::rsa::Rsa::generate(2048).unwrap();
    let cipher = openssl::symm::Cipher::aes_128_cbc();
    // A private key under a passphrase that is not the empty one.
    let locked = rsa.private_key_to_pem_passphrase(cipher, b"secret").unwrap();
    assert!(String::from_utf8_lossy(&locked).contains("ENCRYPTED"));
    assert_eq!(public_key_pem(&locked), None);
    assert_eq!(sign_request(&locked, KEY, "post", "/inbox", "h", DATE, "d"), None);
    let pkcs8 = openssl::pkey::PKey::from_rsa(rsa.clone())
        .unwrap()
        .private_key_to_pem_pkcs8_passphrase(cipher, b"secret")
        .unwrap();
    assert_eq!(public_key_pem(&pkcs8), None);
    // A public key in a block that is marked as encrypted.
    let plain = rsa.private_key_to_pem().unwrap();
    let public = public_key_pem(&plain).unwrap();
    let header = sign_request(&plain, KEY, "post", "/inbox", "h", DATE, "d").unwrap();
    let signature = parse_signature_header(&header).unwrap().signature;
    let text = lotide::signature::build_signing_string("post", "/inbox", "h", DATE, "d");
    let marked = public.replacen(
        "-----BEGIN PUBLIC KEY-----\n",
        "-----BEGIN PUBLIC KEY-----\nProc-Type: 4,ENCRYPTED\nDEK-Info: AES-128-CBC,00000000000000000000000000000000\n\n",
        1,
    );
    assert!(!verify_signature(&marked, &text, &signature));
    assert!(verify_signature(&public, &text, &signature));
}
