use mcpanel::digest::{compare_digest, verify_digest, DigestMismatch};
use mcpanel::pipeline::{check_stored, install_reply};
use mcpanel::resolver::{
    make_build_details_url, make_build_download_url, make_builds_url, make_installer_url,
    make_loaders_url, select_latest_build, select_stable_loader, ArtifactDescriptor, Channel,
    InstallError, Metadata, ResolveStep, Resolver, Stage,
};
use mcpanel::text::push_decimal;
use sha2::Digest;

const ABC_SHA256: &str = "ba7816bf8f01cfea414140de5dae2223b00361a396177a9cb410ff61f20015ad";

fn sha256_hex(data: &[u8]) -> String {
    format!("{:x}", sha2::Sha256::digest(data))
}

fn decimal_of(n: i32) -> String {
    let mut s = String::new();
    push_decimal(&mut s, n);
    s
}

#[test]
fn decimal_rendering() {
    assert_eq!(decimal_of(0), "0");
    assert_eq!(decimal_of(7), "7");
    assert_eq!(decimal_of(100), "100");
    assert_eq!(decimal_of(-42), "-42");
    assert_eq!(decimal_of(i32::MAX), "2147483647");
    assert_eq!(decimal_of(i32::MIN), "-2147483648");
}

#[test]
fn digest_of_known_bytes_verifies() {
    assert_eq!(verify_digest(b"abc", ABC_SHA256), Ok(()));
}

#[test]
fn digest_round_trip_and_negative() {
    let data = b"some artifact bytes".to_vec();
    let own = sha256_hex(&data);
    assert_eq!(verify_digest(&data, &own), Ok(()));
    let other = ABC_SHA256;
    assert_eq!(
        verify_digest(&data, other),
        Err(DigestMismatch { expected: other.to_string(), actual: own.clone() })
    );
}

#[test]
fn digest_of_empty_input() {
    let empty = "e3b0c44298fc1c149afbf4c8996fb92427ae41e4649b934ca495991b7852b855";
    assert_eq!(verify_digest(b"", empty), Ok(()));
    assert!(verify_digest(b"", "").is_err());
}

#[test]
fn compare_digest_is_exact() {
    assert_eq!(compare_digest("abc", "abc"), Ok(()));
    assert_eq!(
        compare_digest("abc", "ABC"),
        Err(DigestMismatch { expected: "ABC".to_string(), actual: "abc".to_string() })
    );
    assert!(compare_digest("abc", "abcd").is_err());
}

#[test]
fn url_templates() {
    assert_eq!(make_builds_url("1.20.1"), "https://api.papermc.io/v2/projects/paper/versions/1.20.1");
    assert_eq!(
        make_build_details_url("1.20.1", 100),
        "https://api.papermc.io/v2/projects/paper/versions/1.20.1/builds/100"
    );
    assert_eq!(
        make_build_download_url("1.20.1", 100, "server-100.jar"),
        "https://api.papermc.io/v2/projects/paper/versions/1.20.1/builds/100/downloads/server-100.jar"
    );
    assert_eq!(make_loaders_url("1.20.1"), "https://meta.fabricmc.net/v2/versions/loader/1.20.1/stable");
    assert_eq!(
        make_installer_url("1.20.1", "0.15.11"),
        "https://meta.fabricmc.net/v2/versions/installer/1.20.1/0.15.11"
    );
}

#[test]
fn selectors_pick_last_build_and_first_loader() {
    assert_eq!(select_latest_build(&vec![98, 99, 100]), Some(100));
    assert_eq!(select_latest_build(&vec![]), None);
    assert_eq!(select_stable_loader(&vec!["0.15.11".to_string(), "0.14.0".to_string()]), Some("0.15.11".to_string()));
    assert_eq!(select_stable_loader(&vec![]), None);
}

#[test]
fn empty_build_list_fails_without_download() {
    let (mut r, url) = Resolver::begin(Channel::A, "1.20.1");
    assert_eq!(url, "https://api.papermc.io/v2/projects/paper/versions/1.20.1");
    let step = r.advance(Ok(Metadata::BuildList(vec![])));
    assert_eq!(step, ResolveStep::Failed(InstallError::NoBuildsFound));
    assert_eq!(r.stage, Stage::Done);
}

#[test]
fn empty_loader_list_fails() {
    let (mut r, _) = Resolver::begin(Channel::B, "1.20.1");
    assert_eq!(r.advance(Ok(Metadata::LoaderList(vec![]))), ResolveStep::Failed(InstallError::NoStableLoader));
}

#[test]
fn fetch_error_ends_resolution() {
    let (mut r, _) = Resolver::begin(Channel::A, "1.20.1");
    let e = InstallError::Network("connection refused".to_string());
    assert_eq!(r.advance(Err(e.clone())), ResolveStep::Failed(e));
    assert_eq!(r.stage, Stage::Done);
}

#[test]
fn unexpected_metadata_is_malformed() {
    let (mut r, _) = Resolver::begin(Channel::A, "1.20.1");
    let step = r.advance(Ok(Metadata::InstallerLink("https://x/y.jar".to_string())));
    assert!(matches!(step, ResolveStep::Failed(InstallError::MalformedMetadata(_))));
}

#[test]
fn channel_b_resolves_installer_without_digest() {
    let (mut r, url) = Resolver::begin(Channel::B, "1.20.1");
    assert_eq!(url, "https://meta.fabricmc.net/v2/versions/loader/1.20.1/stable");
    let step = r.advance(Ok(Metadata::LoaderList(vec!["0.15.11".to_string()])));
    assert_eq!(step, ResolveStep::Fetch("https://meta.fabricmc.net/v2/versions/installer/1.20.1/0.15.11".to_string()));
    let step = r.advance(Ok(Metadata::InstallerLink("https://maven.fabricmc.net/installer.jar".to_string())));
    let desc = ArtifactDescriptor {
        download_url: "https://maven.fabricmc.net/installer.jar".to_string(),
        expected_digest: None,
        destination: "minecraft_server/fabric-installer.jar".to_string(),
    };
    assert_eq!(step, ResolveStep::Resolved(desc.clone()));
    let outcome = check_stored(&desc, b"anything");
    assert_eq!(outcome.result, Ok(None));
    assert!(!outcome.remove_file);
    let reply = install_reply(Channel::B, outcome.result);
    assert_eq!(reply.message, "install_success_B");
    assert_eq!(reply.hash, None);
}

#[test]
fn channel_a_install_scenario() {
    let data = b"server jar contents".to_vec();
    let digest = sha256_hex(&data);
    let (mut r, url) = Resolver::begin(Channel::A, "1.20.1");
    assert_eq!(url, "https://api.papermc.io/v2/projects/paper/versions/1.20.1");
    let step = r.advance(Ok(Metadata::BuildList(vec![98, 99, 100])));
    assert_eq!(
        step,
        ResolveStep::Fetch("https://api.papermc.io/v2/projects/paper/versions/1.20.1/builds/100".to_string())
    );
    let step = r.advance(Ok(Metadata::BuildFile { name: "server-100.jar".to_string(), sha256: digest.clone() }));
    let desc = ArtifactDescriptor {
        download_url: "https://api.papermc.io/v2/projects/paper/versions/1.20.1/builds/100/downloads/server-100.jar"
            .to_string(),
        expected_digest: Some(digest.clone()),
        destination: "minecraft_server/server.jar".to_string(),
    };
    assert_eq!(step, ResolveStep::Resolved(desc.clone()));
    let outcome = check_stored(&desc, &data);
    assert_eq!(outcome.result, Ok(Some(digest.clone())));
    assert!(!outcome.remove_file);
    let reply = install_reply(Channel::A, outcome.result);
    assert_eq!(reply.message, "install_success_A");
    assert_eq!(reply.hash, Some(digest));
}

#[test]
fn digest_mismatch_removes_file() {
    let desc = ArtifactDescriptor {
        download_url: "https://example.invalid/a.jar".to_string(),
        expected_digest: Some(ABC_SHA256.to_string()),
        destination: "minecraft_server/server.jar".to_string(),
    };
    let outcome = check_stored(&desc, b"tampered");
    assert!(outcome.remove_file);
    let actual = sha256_hex(b"tampered");
    let mismatch = DigestMismatch { expected: ABC_SHA256.to_string(), actual: actual.clone() };
    assert_eq!(outcome.result, Err(InstallError::Digest(mismatch)));
    let reply = install_reply(Channel::A, outcome.result);
    assert_eq!(reply.message, format!("install_failed: digest mismatch: expected {}, got {}", ABC_SHA256, actual));
    assert_eq!(reply.hash, None);
}

#[test]
fn error_descriptions() {
    assert_eq!(InstallError::NoBuildsFound.describe(), "no builds found for this version");
    assert_eq!(InstallError::NoStableLoader.describe(), "no stable loader for this version");
    assert_eq!(InstallError::Network("timeout".to_string()).describe(), "network error: timeout");
    assert_eq!(InstallError::MalformedMetadata("bad json".to_string()).describe(), "malformed metadata: bad json");
    assert_eq!(InstallError::Storage("disk full".to_string()).describe(), "storage error: disk full");
    let reply = install_reply(Channel::A, Err(InstallError::NoBuildsFound));
    assert_eq!(reply.message, "install_failed: no builds found for this version");
    assert_eq!(reply.hash, None);
}
