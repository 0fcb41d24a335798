use std::hash::Hasher;

use rbwasm::cache::cache_key;
use rbwasm::cache::encode_build_input;
use rbwasm::cache::CRubyBuildInput;
use rbwasm::source::BuildSource;
use rbwasm::workspace::Workspace;

fn sample_input() -> CRubyBuildInput {
    CRubyBuildInput {
        source: BuildSource::GitHub {
            owner: "kateinoigakukun".to_string(),
            repo: "ruby".to_string(),
            git_ref: "v3_0_2_wasm-alpha1".to_string(),
        },
        asyncify_stack_size: 6144,
        extra_cc_args: vec!["-O2".to_string()],
        enabled_extentions: vec!["json".to_string(), "date".to_string()],
    }
}

/// The key really is the name, a dash, and the hex SipHash digest of the
/// serialized descriptor.
#[test]
fn cache_key_is_hex_digest_of_encoding() {
    let input = sample_input();
    let bytes = encode_build_input(&input);
    let mut hasher = siphasher::sip128::SipHasher13::new();
    hasher.write(&bytes);
    let expected = format!("ruby-{}", hex::encode(hasher.finish().to_le_bytes()));
    assert_eq!(cache_key("ruby", &input), expected);
}

#[test]
fn cache_key_shape() {
    let key = cache_key("ruby", &sample_input());
    assert!(key.starts_with("ruby-"));
    // name, dash, sixteen hex digits for the 64-bit digest
    assert_eq!(key.len(), "ruby".len() + 1 + 16);
    assert!(key["ruby-".len()..].chars().all(|c| c.is_ascii_hexdigit()));
}

#[test]
fn identical_inputs_share_a_key() {
    assert_eq!(cache_key("ruby", &sample_input()), cache_key("ruby", &sample_input()));
}

#[test]
fn stack_size_discriminates_keys() {
    let mut other = sample_input();
    other.asyncify_stack_size = 6145;
    assert_ne!(cache_key("ruby", &sample_input()), cache_key("ruby", &other));
}

#[test]
fn extra_flags_discriminate_keys() {
    let mut other = sample_input();
    other.extra_cc_args = vec![];
    assert_ne!(cache_key("ruby", &sample_input()), cache_key("ruby", &other));
}

#[test]
fn enabled_extensions_discriminate_keys() {
    let mut other = sample_input();
    other.enabled_extentions = vec!["json".to_string(), "date".to_string(), "etc".to_string()];
    assert_ne!(cache_key("ruby", &sample_input()), cache_key("ruby", &other));
}

#[test]
fn source_discriminates_keys() {
    let mut other = sample_input();
    other.source = BuildSource::Dir { path: "../ruby".to_string() };
    assert_ne!(cache_key("ruby", &sample_input()), cache_key("ruby", &other));
}

/// The serialization, byte for byte, of one small descriptor: a tag byte for
/// the source variant, then each string behind a little-endian length, each
/// list behind a little-endian count.
#[test]
fn encoding_of_a_small_descriptor() {
    let input = CRubyBuildInput {
        source: BuildSource::Dir { path: "ab".to_string() },
        asyncify_stack_size: 3,
        extra_cc_args: vec![],
        enabled_extentions: vec![],
    };
    let mut expected: Vec<u8> = vec![1];
    expected.extend_from_slice(&2u64.to_le_bytes());
    expected.extend_from_slice(b"ab");
    expected.extend_from_slice(&3u64.to_le_bytes());
    expected.extend_from_slice(&0u64.to_le_bytes());
    expected.extend_from_slice(&0u64.to_le_bytes());
    assert_eq!(encode_build_input(&input), expected);
}

#[test]
fn hashed_dirs_are_keyed_subdirectories() {
    let workspace = Workspace::create(".rbwasm".to_string(), false);
    let input = sample_input();
    let key = cache_key("ruby", &input);
    let (build_dir, install_dir) = workspace.hashed_dirs(&input, "ruby");
    assert_eq!(build_dir, format!(".rbwasm/build/{}", key));
    assert_eq!(install_dir, format!(".rbwasm/cache/{}", key));
}

#[test]
fn workspace_layout() {
    let workspace = Workspace::create(".rbwasm".to_string(), false);
    assert_eq!(workspace.build_dir(), ".rbwasm/build");
    assert_eq!(workspace.downloads_dir(), ".rbwasm/downloads");
    assert_eq!(workspace.cache_dir(), ".rbwasm/cache");
    assert_eq!(workspace.temporary_dir(), ".rbwasm/tmp");
}
