use lightway::dns_manager::{
    default_search_domain, flush_command, flush_dns_cache, get_dns_dictionary,
    get_primary_service_path, primary_service_ids, DnsKey, DnsManager, DnsManagerError, ExitStatus,
    FlushCommand, GlobalEntry,
};

/// A global network state entry naming `service_id`.
fn global_entry(service_id: &str) -> GlobalEntry<String> {
    GlobalEntry::Service(service_id.to_string())
}

#[test]
fn primary_service_ids_errors_when_no_entry_names_a_service() {
    let result = primary_service_ids(&vec![GlobalEntry::Absent, GlobalEntry::Absent]);
    assert!(matches!(
        result,
        Err(DnsManagerError::PrimaryServiceNotFound)
    ));
}

#[test]
fn primary_service_ids_skips_entries_without_primary_service() {
    let ids =
        primary_service_ids(&vec![GlobalEntry::WithoutService, global_entry("SERVICE-A")]).unwrap();
    assert_eq!(ids, ["SERVICE-A"]);
}

#[test]
fn primary_service_ids_ignores_non_dictionary_entries() {
    let result = primary_service_ids(&vec![GlobalEntry::NotADictionary]);
    assert!(matches!(
        result,
        Err(DnsManagerError::PrimaryServiceNotFound)
    ));
}

#[test]
fn primary_service_ids_dedups_a_shared_service() {
    let ids =
        primary_service_ids(&vec![global_entry("SERVICE-A"), global_entry("SERVICE-A")]).unwrap();
    assert_eq!(ids, ["SERVICE-A"]);
}

#[test]
fn primary_service_ids_keeps_distinct_services_in_order() {
    let ids =
        primary_service_ids(&vec![global_entry("SERVICE-A"), global_entry("SERVICE-B")]).unwrap();
    assert_eq!(ids, ["SERVICE-A", "SERVICE-B"]);
}

#[test]
fn primary_service_ids_rejects_non_string_service() {
    let result = primary_service_ids(&vec![GlobalEntry::NotAString]);
    assert!(matches!(result, Err(DnsManagerError::InvalidSystemData)));
    let result = primary_service_ids(&vec![global_entry("SERVICE-A"), GlobalEntry::NotAString]);
    assert!(matches!(result, Err(DnsManagerError::InvalidSystemData)));
}

#[test]
fn paths_name_the_service() {
    assert_eq!(
        get_primary_service_path(&"SERVICE-A".to_string()),
        "Setup:/Network/Service/SERVICE-A/DNS"
    );
}

#[test]
fn search_domains_are_left_out_when_there_are_none() {
    let address = || vec!["192.0.2.1".to_string()];
    assert_eq!(
        get_dns_dictionary(address(), vec![]),
        [(DnsKey::ServerAddresses, address())]
    );
    let domains = vec![default_search_domain()];
    assert_eq!(
        get_dns_dictionary(address(), domains),
        [
            (DnsKey::ServerAddresses, address()),
            (DnsKey::SearchDomains, vec!["expressvpn".to_string()])
        ]
    );
}

#[test]
fn yosemite_flushes_with_discoveryutil() {
    let command = |version: &str| flush_command(&version.to_string());
    assert_eq!(command("10.10"), FlushCommand::DiscoveryUtil);
    assert_eq!(command("10.10.5\n"), FlushCommand::DiscoveryUtil);
    assert_eq!(command("10.1"), FlushCommand::KillAll);
    assert_eq!(command("10.11.6"), FlushCommand::KillAll);
    assert_eq!(command("14.2"), FlushCommand::KillAll);
    assert_eq!(command(""), FlushCommand::KillAll);
}

fn flush_text(ended: Result<ExitStatus, String>) -> Option<String> {
    match flush_dns_cache(ended) {
        Ok(()) => None,
        Err(DnsManagerError::CacheFlushFailed(text)) => Some(text),
        Err(e) => panic!("{e:?}"),
    }
}

#[test]
fn flush_failures_name_the_exit_code() {
    let ended = |success, code| Ok(ExitStatus { success, code });
    assert_eq!(flush_text(ended(true, Some(0))), None);
    assert_eq!(
        flush_text(ended(false, Some(127))).unwrap(),
        "Command failed with exit code: 127"
    );
    assert_eq!(
        flush_text(ended(false, None)).unwrap(),
        "Command failed with exit code: -1"
    );
    assert_eq!(
        flush_text(ended(false, Some(i32::MIN))).unwrap(),
        "Command failed with exit code: -2147483648"
    );
    assert_eq!(flush_text(Err("no such file".to_string())).unwrap(), "no such file");
}

#[test]
fn first_failure_ends_the_replacement() {
    let mut manager = DnsManager::new();
    manager.set_dns("OLD".to_string(), true).unwrap();
    let mut ended = Ok(());
    for (id, success) in [("A", true), ("B", false), ("C", true)] {
        if ended.is_ok() {
            ended = manager.set_dns(id.to_string(), success);
        }
    }
    assert!(matches!(
        ended,
        Err(DnsManagerError::FailedToSetDnsConfig(text))
            if text == "Failed to set DNS Dictionary for service B"
    ));
    assert_eq!(manager.service_ids, ["OLD", "A"]);
}

#[test]
fn services_stay_recorded_until_they_are_back() {
    let mut manager = DnsManager::default();
    manager.set_dns("A".to_string(), true).unwrap();
    manager.set_dns("B".to_string(), true).unwrap();
    match manager.set_dns("C".to_string(), false) {
        Err(DnsManagerError::FailedToSetDnsConfig(text)) => {
            assert_eq!(text, "Failed to set DNS Dictionary for service C");
        }
        other => panic!("{other:?}"),
    }
    manager.set_dns("D".to_string(), true).unwrap();
    assert_eq!(manager.service_ids, ["A", "B", "D"]);
    match manager.reset_dns(&vec![false, true, false]) {
        Err(DnsManagerError::FailedToRemoveDnsConfig(text)) => assert_eq!(text, "A, D"),
        other => panic!("{other:?}"),
    }
    assert_eq!(manager.service_ids, ["A", "D"]);
    assert!(manager.reset_dns(&vec![false, false]).is_err());
    assert_eq!(manager.service_ids, ["A", "D"]);
    manager.reset_dns(&vec![true, true]).unwrap();
    assert!(manager.service_ids.is_empty());
    manager.reset_dns(&vec![]).unwrap();
}
