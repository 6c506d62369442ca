use std::collections::HashMap;

use vcvars::cache::{CacheLookup, CacheOutcome, CacheRequest, CacheResponse};
use vcvars::errors::VcvarsError;

/// Runs one lookup against a simulated disk (path -> contents), answering
/// each request from it. A `NeedValue` request is answered with
/// `resolver_value` where that is `Some`, and with a `VarNotFound` failure
/// where it is `None`. Returns the outcome and whether the resolver was
/// consulted.
fn run_lookup(
    disk: &mut HashMap<String, String>,
    out_dir: &str,
    var_name: &str,
    resolver_value: Option<&str>,
) -> (Result<String, VcvarsError>, bool) {
    let (mut lookup, mut request) = CacheLookup::begin(out_dir, var_name);
    let mut resolver_consulted = false;
    loop {
        let response = match request {
            CacheRequest::EnsureDir(_) => CacheResponse::DirEnsured(Ok(())),
            CacheRequest::Probe(path) => CacheResponse::Probed(disk.contains_key(&path)),
            CacheRequest::ReadFile(path) => {
                CacheResponse::ReadDone(Ok(disk.get(&path).unwrap().clone()))
            }
            CacheRequest::NeedValue(name) => {
                assert_eq!(name, var_name);
                resolver_consulted = true;
                CacheResponse::ValueIs(match resolver_value {
                    Some(v) => Ok(v.to_string()),
                    None => Err(VcvarsError::VarNotFound(var_name.to_string())),
                })
            }
            CacheRequest::WriteFile(path, value) => {
                disk.insert(path, value);
                CacheResponse::WriteDone(Ok(()))
            }
        };
        match lookup.resume(response) {
            Ok(CacheOutcome::Pending(next)) => request = next,
            Ok(CacheOutcome::Done(value)) => return (Ok(value), resolver_consulted),
            Err(e) => return (Err(e), resolver_consulted),
        }
    }
}

#[test]
fn get_cached() {
    let mut disk: HashMap<String, String> = HashMap::new();

    // Cold cache: the value comes from the resolver and is persisted.
    let (first, consulted) = run_lookup(&mut disk, "C:\\out", "VisualStudioVersion", Some("17.8.3"));
    assert_eq!(first.unwrap(), "17.8.3");
    assert!(consulted);
    assert_eq!(
        disk.get("C:\\out\\vcvars-cache\\VisualStudioVersion.txt"),
        Some(&"17.8.3".to_string())
    );

    // Warm cache, fresh lookup: the identical value, without the resolver.
    let (second, consulted) = run_lookup(&mut disk, "C:\\out", "VisualStudioVersion", None);
    assert_eq!(second.unwrap(), "17.8.3");
    assert!(!consulted);
}

#[test]
fn resolver_failure_propagates_and_writes_nothing() {
    let mut disk: HashMap<String, String> = HashMap::new();
    let (result, consulted) = run_lookup(&mut disk, "C:\\out", "MISSING", None);
    match result {
        Err(VcvarsError::VarNotFound(name)) => assert_eq!(name, "MISSING"),
        other => panic!("expected VarNotFound, got {other:?}"),
    }
    assert!(consulted);
    assert!(disk.is_empty());
}

#[test]
fn variable_name_is_sanitized_into_the_file_name() {
    let (mut lookup, request) = CacheLookup::begin("C:\\out", "A/B:C");
    match request {
        CacheRequest::EnsureDir(dir) => assert_eq!(dir, "C:\\out\\vcvars-cache"),
        other => panic!("expected EnsureDir, got {other:?}"),
    }
    let r = lookup.resume(CacheResponse::DirEnsured(Ok(()))).unwrap();
    match r {
        CacheOutcome::Pending(CacheRequest::Probe(path)) => {
            assert_eq!(path, "C:\\out\\vcvars-cache\\A_B_C.txt");
        }
        other => panic!("expected Probe, got {other:?}"),
    }
}

#[test]
fn directory_failure_is_cache_failed() {
    let (mut lookup, _) = CacheLookup::begin("C:\\out", "FOO");
    let err = lookup
        .resume(CacheResponse::DirEnsured(Err("disk full".to_string())))
        .unwrap_err();
    match err {
        VcvarsError::CacheFailed(path, cause) => {
            assert_eq!(path, "C:\\out\\vcvars-cache");
            assert_eq!(cause, "disk full");
        }
        other => panic!("expected CacheFailed, got {other:?}"),
    }
}

#[test]
fn read_failure_is_cache_failed() {
    let (mut lookup, _) = CacheLookup::begin("C:\\out", "FOO");
    lookup.resume(CacheResponse::DirEnsured(Ok(()))).unwrap();
    lookup.resume(CacheResponse::Probed(true)).unwrap();
    let err = lookup
        .resume(CacheResponse::ReadDone(Err("permission denied".to_string())))
        .unwrap_err();
    match err {
        VcvarsError::CacheFailed(path, cause) => {
            assert_eq!(path, "C:\\out\\vcvars-cache\\FOO.txt");
            assert_eq!(cause, "permission denied");
        }
        other => panic!("expected CacheFailed, got {other:?}"),
    }
}

#[test]
fn write_failure_is_cache_failed() {
    let (mut lookup, _) = CacheLookup::begin("C:\\out", "FOO");
    lookup.resume(CacheResponse::DirEnsured(Ok(()))).unwrap();
    lookup.resume(CacheResponse::Probed(false)).unwrap();
    let r = lookup
        .resume(CacheResponse::ValueIs(Ok("value".to_string())))
        .unwrap();
    match r {
        CacheOutcome::Pending(CacheRequest::WriteFile(path, value)) => {
            assert_eq!(path, "C:\\out\\vcvars-cache\\FOO.txt");
            assert_eq!(value, "value");
        }
        other => panic!("expected WriteFile, got {other:?}"),
    }
    let err = lookup
        .resume(CacheResponse::WriteDone(Err("disk full".to_string())))
        .unwrap_err();
    assert!(matches!(err, VcvarsError::CacheFailed(_, _)));
}
