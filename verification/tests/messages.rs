use base64::Engine;
use solana_gateway::routes::{generate_keypair, sign_message, verify_message, ApiResponse};
use solana_gateway::state::request::{SignMessageRequest, VerifyMessageRequest};

fn fresh_keypair() -> (String, String) {
    match generate_keypair() {
        ApiResponse::Success { success, data } => {
            assert!(success);
            (data.pubkey, data.secret)
        }
        ApiResponse::Error { .. } => panic!("keypair generation failed"),
    }
}

#[test]
fn generated_keypair_is_well_formed() {
    let (pubkey, secret) = fresh_keypair();
    let pubkey_bytes = bs58::decode(&pubkey).into_vec().unwrap();
    let secret_bytes = bs58::decode(&secret).into_vec().unwrap();
    assert_eq!(pubkey_bytes.len(), 32);
    assert_eq!(secret_bytes.len(), 64);
    assert_eq!(&secret_bytes[32..], pubkey_bytes.as_slice());
    solana_sdk::signature::Keypair::try_from(secret_bytes.as_slice()).unwrap();
}

#[test]
fn sign_then_verify_round_trip() {
    let (pubkey, secret) = fresh_keypair();
    let message = "hello solana".to_string();
    let req = SignMessageRequest {
        message: message.clone(),
        secret,
    };
    let (signature, public_key) = match sign_message(&req) {
        ApiResponse::Success { success, data } => {
            assert!(success);
            assert_eq!(data.message, message);
            (data.signature, data.public_key)
        }
        ApiResponse::Error { .. } => panic!("expected success"),
    };
    assert_eq!(public_key, pubkey);

    let verify_req = VerifyMessageRequest {
        message: message.clone(),
        signature: signature.clone(),
        pubkey: pubkey.clone(),
    };
    match verify_message(&verify_req) {
        ApiResponse::Success { success, data } => {
            assert!(success);
            assert!(data.valid);
            assert_eq!(data.message, message);
            assert_eq!(data.pubkey, pubkey);
        }
        ApiResponse::Error { .. } => panic!("expected success"),
    }

    let tampered = VerifyMessageRequest {
        message: "hello solana!".to_string(),
        signature,
        pubkey,
    };
    match verify_message(&tampered) {
        ApiResponse::Success { data, .. } => assert!(!data.valid),
        ApiResponse::Error { .. } => panic!("expected success"),
    }
}

#[test]
fn signature_matches_sdk_signer() {
    let (_, secret) = fresh_keypair();
    let message = "determinism check";
    let req = SignMessageRequest {
        message: message.to_string(),
        secret: secret.clone(),
    };
    let secret_bytes = bs58::decode(&secret).into_vec().unwrap();
    let kp = solana_sdk::signature::Keypair::try_from(secret_bytes.as_slice()).unwrap();
    let direct = solana_sdk::signature::Signer::sign_message(&kp, message.as_bytes());
    let direct_b64 = base64::engine::general_purpose::STANDARD.encode(direct.as_ref());
    match sign_message(&req) {
        ApiResponse::Success { data, .. } => assert_eq!(data.signature, direct_b64),
        ApiResponse::Error { .. } => panic!("expected success"),
    }
}

#[test]
fn sign_message_rejects_blank_fields() {
    let (_, secret) = fresh_keypair();
    let cases = [
        ("", secret.clone()),
        ("   \t\n", secret),
        ("a message", "".to_string()),
        ("a message", "  ".to_string()),
    ];
    for (message, secret) in cases {
        let req = SignMessageRequest {
            message: message.to_string(),
            secret,
        };
        match sign_message(&req) {
            ApiResponse::Error { success, error } => {
                assert!(!success);
                assert_eq!(error, "Missing required fields");
            }
            ApiResponse::Success { .. } => panic!("expected error"),
        }
    }
}

#[test]
fn sign_message_rejects_bad_base58() {
    let req = SignMessageRequest {
        message: "msg".to_string(),
        secret: "0OIl+/".to_string(),
    };
    match sign_message(&req) {
        ApiResponse::Error { success, error } => {
            assert!(!success);
            assert_eq!(error, "Invalid base58-encoded secret key");
        }
        ApiResponse::Success { .. } => panic!("expected error"),
    }
}

#[test]
fn sign_message_rejects_wrong_length_secret() {
    let short = bs58::encode(&[1u8; 32]).into_string();
    let req = SignMessageRequest {
        message: "msg".to_string(),
        secret: short,
    };
    match sign_message(&req) {
        ApiResponse::Error { success, error } => {
            assert!(!success);
            assert_eq!(error, "Invalid secret key format (must be 64 bytes)");
        }
        ApiResponse::Success { .. } => panic!("expected error"),
    }
}

#[test]
fn sign_message_rejects_mismatched_public_half() {
    let (_, secret) = fresh_keypair();
    let mut bytes = bs58::decode(&secret).into_vec().unwrap();
    bytes[40] ^= 0xff;
    let req = SignMessageRequest {
        message: "msg".to_string(),
        secret: bs58::encode(&bytes).into_string(),
    };
    match sign_message(&req) {
        ApiResponse::Error { success, error } => {
            assert!(!success);
            assert_eq!(error, "Invalid secret key format (must be 64 bytes)");
        }
        ApiResponse::Success { .. } => panic!("expected error"),
    }
}

#[test]
fn verify_message_rejects_bad_pubkey() {
    let req = VerifyMessageRequest {
        message: "msg".to_string(),
        signature: base64::engine::general_purpose::STANDARD.encode([0u8; 64]),
        pubkey: "***".to_string(),
    };
    match verify_message(&req) {
        ApiResponse::Error { success, error } => {
            assert!(!success);
            assert_eq!(error, "Invalid public key");
        }
        ApiResponse::Success { .. } => panic!("expected error"),
    }
}

#[test]
fn verify_message_rejects_bad_base64() {
    let (pubkey, _) = fresh_keypair();
    let req = VerifyMessageRequest {
        message: "msg".to_string(),
        signature: "not base64 ~~~".to_string(),
        pubkey,
    };
    match verify_message(&req) {
        ApiResponse::Error { success, error } => {
            assert!(!success);
            assert_eq!(error, "Invalid base64 signature");
        }
        ApiResponse::Success { .. } => panic!("expected error"),
    }
}

#[test]
fn verify_message_rejects_wrong_signature_length() {
    let (pubkey, _) = fresh_keypair();
    let req = VerifyMessageRequest {
        message: "msg".to_string(),
        signature: base64::engine::general_purpose::STANDARD.encode([0u8; 10]),
        pubkey,
    };
    match verify_message(&req) {
        ApiResponse::Error { success, error } => {
            assert!(!success);
            assert_eq!(error, "Failed to parse signature");
        }
        ApiResponse::Success { .. } => panic!("expected error"),
    }
}

#[test]
fn verify_message_reports_invalid_signature() {
    let (pubkey, _) = fresh_keypair();
    let req = VerifyMessageRequest {
        message: "msg".to_string(),
        signature: base64::engine::general_purpose::STANDARD.encode([0u8; 64]),
        pubkey,
    };
    match verify_message(&req) {
        ApiResponse::Success { success, data } => {
            assert!(success);
            assert!(!data.valid);
        }
        ApiResponse::Error { .. } => panic!("expected success"),
    }
}
