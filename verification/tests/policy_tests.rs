use tachy_daemon::policy::{decode_policy_wasm, policy_file_name};
use tachy_daemon::state::decode_sync_key;

#[test]
fn policy_wasm_decodes_standard_base64() {
    assert_eq!(decode_policy_wasm("AGFzbQEAAAA=").unwrap(), vec![0, 97, 115, 109, 1, 0, 0, 0]);
    assert_eq!(decode_policy_wasm("").unwrap(), Vec::<u8>::new());
    let err = decode_policy_wasm("AGFz*Q==").unwrap_err();
    assert!(err.starts_with("invalid base64 wasm: "), "{err}");
    assert!(err.len() > "invalid base64 wasm: ".len());
    assert!(decode_policy_wasm("AGF").unwrap_err().starts_with("invalid base64 wasm: "));
    assert_eq!(policy_file_name("guard"), "guard.wasm");
}

#[test]
fn sync_key_must_be_thirty_two_hex_bytes() {
    let hex: String = (0..32).map(|i| format!("{:02X}", i * 7)).collect();
    let key = decode_sync_key(&hex).unwrap();
    for i in 0..32 {
        assert_eq!(key[i] as usize, i * 7 % 256);
    }
    assert_eq!(decode_sync_key(&hex.to_lowercase()), Some(key));
    assert_eq!(decode_sync_key(&hex[..62]), None);
    assert_eq!(decode_sync_key(&hex[..63]), None);
    assert_eq!(decode_sync_key(&format!("{}zz", &hex[..62])), None);
    assert_eq!(decode_sync_key(""), None);
}
