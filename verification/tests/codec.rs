use onion_sessions::onion_v3::{NativeOnionV3, VanityStep};
use onion_sessions::onion_v3::{generate_vanity_step, normalize_yield_every, secret_key_from_buffer};
use onion_sessions::CoreError;

const ZERO_ADDR: &str = "aaaaaaaaaaaaaaaaaaaaaaaaaaaaaaaaaaaaaaaaaaaaaaaaaaam2dqd.onion";
const SEQ_ADDR: &str = "aaaqeayeaudaocajbifqydiob4ibceqtcqkrmfyydenbwha5dyp3kead.onion";
const ONES_ADDR: &str = "777777777777777777777777777777777777777777777777777vpaqd.onion";
const RFC_ADDR: &str = "25njqamcweflpvkl73j4szahhihoc4xt3ktcgjnpaingr5yhkenl5sid.onion";

const RFC_SECRET: [u8; 32] = [
    0x9d, 0x61, 0xb1, 0x9d, 0xef, 0xfd, 0x5a, 0x60, 0xba, 0x84, 0x4a, 0xf4, 0x92, 0xec, 0x2c,
    0xc4, 0x44, 0x49, 0xc5, 0x69, 0x7b, 0x32, 0x69, 0x19, 0x70, 0x3b, 0xac, 0x03, 0x1c, 0xae,
    0x7f, 0x60,
];
const RFC_PUBLIC: [u8; 32] = [
    0xd7, 0x5a, 0x98, 0x01, 0x82, 0xb1, 0x0a, 0xb7, 0xd5, 0x4b, 0xfe, 0xd3, 0xc9, 0x64, 0x07,
    0x3a, 0x0e, 0xe1, 0x72, 0xf3, 0xda, 0xa6, 0x23, 0x25, 0xaf, 0x02, 0x1a, 0x68, 0xf7, 0x07,
    0x51, 0x1a,
];

#[test]
fn derive_zero_key_address() {
    let public = vec![0u8; 32];
    let addr = NativeOnionV3::compute_onion_address(&public);
    assert_eq!(addr, ZERO_ADDR);
}

#[test]
fn derive_sequential_key_address() {
    let public: Vec<u8> = (0u8..32).collect();
    let addr = NativeOnionV3::compute_onion_address(&public);
    assert_eq!(addr, SEQ_ADDR);
}

#[test]
fn derive_ones_key_address() {
    let public = vec![0xffu8; 32];
    let addr = NativeOnionV3::compute_onion_address(&public);
    assert_eq!(addr, ONES_ADDR);
}

#[test]
fn derive_is_deterministic() {
    let public: Vec<u8> = (0u8..32).rev().collect();
    let a = NativeOnionV3::compute_onion_address(&public);
    let b = NativeOnionV3::compute_onion_address(&public);
    assert_eq!(a, b);
}

#[test]
fn derived_address_decodes_to_payload() {
    let public: Vec<u8> = (0u8..32).map(|b| b.wrapping_mul(7)).collect();
    let addr = NativeOnionV3::compute_onion_address(&public);
    assert!(addr.ends_with(".onion"));
    let body = addr.strip_suffix(".onion").unwrap();
    assert_eq!(body.len(), 56);
    let payload = data_encoding::BASE32_NOPAD
        .decode(body.to_uppercase().as_bytes())
        .unwrap();
    assert_eq!(payload.len(), 35);
    assert_eq!(payload[34], 0x03);
    assert_eq!(&payload[0..32], public.as_slice());
}

#[test]
fn fresh_key_is_consistent() {
    let v = NativeOnionV3::new();
    assert_eq!(v.steps(), 1);
    let secret = v.get_secret();
    let public = v.get_public();
    assert_eq!(secret.len(), 32);
    assert_eq!(public.len(), 32);
    assert_eq!(v.address, NativeOnionV3::compute_onion_address(&public));
    let again = NativeOnionV3::from_secret(secret).unwrap();
    assert_eq!(again.get_public(), public);
    assert_eq!(again.address, v.address);
}

#[test]
fn create_matches_new() {
    let v = NativeOnionV3::create();
    assert_eq!(v.steps(), 1);
    assert!(v.address.ends_with(".onion"));
}

#[test]
fn from_secret_rfc_vector() {
    let v = NativeOnionV3::from_secret(RFC_SECRET.to_vec()).unwrap();
    assert_eq!(v.get_public(), RFC_PUBLIC.to_vec());
    assert_eq!(v.address, RFC_ADDR);
    assert_eq!(v.steps(), 0);
    assert_eq!(v.get_secret(), RFC_SECRET.to_vec());
}

#[test]
fn from_secret_matches_independent_derivation() {
    let v = NativeOnionV3::from_secret(RFC_SECRET.to_vec()).unwrap();
    let derived = NativeOnionV3::compute_onion_address(&v.get_public());
    assert_eq!(v.address, derived);
}

#[test]
fn from_secret_rejects_31_bytes() {
    let r = NativeOnionV3::from_secret(vec![1u8; 31]);
    assert_eq!(r.unwrap_err(), CoreError::InvalidKeyLength);
}

#[test]
fn from_secret_rejects_33_bytes() {
    let r = NativeOnionV3::from_secret(vec![1u8; 33]);
    assert_eq!(r.unwrap_err(), CoreError::InvalidKeyLength);
}

#[test]
fn from_secret_rejects_empty() {
    let r = NativeOnionV3::from_secret(Vec::new());
    assert_eq!(r.unwrap_err(), CoreError::InvalidKeyLength);
}

#[test]
fn vanity_single_letter_prefix_terminates() {
    let v = NativeOnionV3::generate_vanity(String::from("a")).unwrap();
    assert!(v.address.starts_with('a'));
    assert!(v.steps() >= 1);
    assert_eq!(v.address, NativeOnionV3::compute_onion_address(&v.get_public()));
}

#[test]
fn vanity_empty_prefix_first_attempt() {
    let v = NativeOnionV3::generate_vanity(String::new()).unwrap();
    assert_eq!(v.steps(), 1);
}

#[test]
fn vanity_step_respects_budget() {
    // A 15-character prefix cannot be found within five attempts in any
    // realistic run, so the slice reports its budget spent, exactly.
    let prefix = String::from("222222222222222");
    match generate_vanity_step(&prefix, 5, 0) {
        VanityStep::Exhausted(total) => assert_eq!(total, 5),
        VanityStep::Found(v) => assert!(v.address.starts_with(&prefix)),
    }
}

#[test]
fn vanity_step_continues_prior_count() {
    let prefix = String::from("zzzzzzzzzzzzzzz");
    match generate_vanity_step(&prefix, 3, 7) {
        VanityStep::Exhausted(total) => assert_eq!(total, 10),
        VanityStep::Found(v) => assert!(v.address.starts_with(&prefix)),
    }
}

#[test]
fn vanity_step_unit_budget_finds_empty_prefix() {
    // With a yield interval of one, every slice makes exactly one attempt
    // before control goes back to the scheduler.
    let prefix = String::new();
    match generate_vanity_step(&prefix, 1, 0) {
        VanityStep::Found(v) => assert_eq!(v.steps(), 1),
        VanityStep::Exhausted(_) => panic!("empty prefix must match at once"),
    }
}

#[test]
fn vanity_cooperative_driver_counts_slices() {
    // Drives the cooperative search by hand, one attempt per slice: the
    // scheduler would regain control between any two slices.
    let prefix = String::from("aa");
    let mut total = 0u32;
    let mut slices = 0u32;
    let found = loop {
        match generate_vanity_step(&prefix, 1, total) {
            VanityStep::Found(v) => break v,
            VanityStep::Exhausted(t) => {
                assert_eq!(t, total + 1);
                total = t;
                slices += 1;
                assert!(slices < 2_000_000, "unreasonably long search");
            }
        }
    };
    assert!(found.address.starts_with("aa"));
    assert_eq!(found.steps(), total + 1);
}

#[test]
fn key_material_takes_first_32_bytes() {
    let buffer: Vec<u8> = (0u8..64).collect();
    let key = secret_key_from_buffer(&buffer).unwrap();
    assert_eq!(key, (0u8..32).collect::<Vec<u8>>());
    let exact: Vec<u8> = vec![9u8; 32];
    assert_eq!(secret_key_from_buffer(&exact).unwrap(), exact);
}

#[test]
fn key_material_rejects_short_buffer() {
    let r = secret_key_from_buffer(&vec![1u8; 31]);
    assert_eq!(r.unwrap_err(), CoreError::InvalidKeyLength);
}

#[test]
fn yield_interval_default_and_minimum() {
    assert_eq!(normalize_yield_every(None), 1000);
    assert_eq!(normalize_yield_every(Some(0)), 1);
    assert_eq!(normalize_yield_every(Some(1)), 1);
    assert_eq!(normalize_yield_every(Some(250)), 250);
}
