//! How the resolver of a macOS host is replaced while the tunnel is up, and
//! put back afterwards.
//!
//! The system configuration store belongs to the host: it reads, sets and
//! removes entries, and reports what came of it.

use crate::inside_ip::{decimal, push_decimal};
use vstd::prelude::*;
use vstd::string::{StrSliceExecFns, StringExecFns};

verus! {

/// What can go wrong with the resolver settings. The texts say more.
#[derive(Debug)]
pub enum DnsManagerError<S> {
    /// The version of the system is not known
    VersionDetectionFailed(S),
    /// The resolver cache could not be flushed
    CacheFlushFailed(S),
    /// The system configuration makes no sense
    InvalidSystemData,
    /// No network service is in use
    PrimaryServiceNotFound,
    /// The settings of a service could not be replaced
    FailedToSetDnsConfig(S),
    /// The settings of some services could not be put back
    FailedToRemoveDnsConfig(S),
}

/// What a [`DnsManagerError`] says.
pub type DnsErrorView = DnsManagerError<Seq<char>>;

impl View for DnsManagerError<String> {
    type V = DnsErrorView;

    open spec fn view(&self) -> DnsErrorView {
        match *self {
            DnsManagerError::VersionDetectionFailed(text) =>
                DnsManagerError::VersionDetectionFailed(text@),
            DnsManagerError::CacheFlushFailed(text) => DnsManagerError::CacheFlushFailed(text@),
            DnsManagerError::InvalidSystemData => DnsManagerError::InvalidSystemData,
            DnsManagerError::PrimaryServiceNotFound => DnsManagerError::PrimaryServiceNotFound,
            DnsManagerError::FailedToSetDnsConfig(text) => DnsManagerError::FailedToSetDnsConfig(
                text@,
            ),
            DnsManagerError::FailedToRemoveDnsConfig(text) =>
                DnsManagerError::FailedToRemoveDnsConfig(text@),
        }
    }
}

/// The answer of a function that can fail on the resolver settings.
pub type DnsResult<T> = Result<T, DnsManagerError<String>>;

/// A global network state entry of the store, which names the primary service
/// of an address family. Either family can be absent on a single-stack
/// network; on a dual-stack one they usually name the same service.
#[derive(Debug)]
pub enum GlobalEntry<S> {
    /// There is no such entry
    Absent,
    /// It is not a dictionary
    NotADictionary,
    /// It names no service
    WithoutService,
    /// What it names is not a string
    NotAString,
    /// It names this service
    Service(S),
}

impl View for GlobalEntry<String> {
    type V = GlobalEntry<Seq<char>>;

    open spec fn view(&self) -> GlobalEntry<Seq<char>> {
        match *self {
            GlobalEntry::Absent => GlobalEntry::Absent,
            GlobalEntry::NotADictionary => GlobalEntry::NotADictionary,
            GlobalEntry::WithoutService => GlobalEntry::WithoutService,
            GlobalEntry::NotAString => GlobalEntry::NotAString,
            GlobalEntry::Service(id) => GlobalEntry::Service(id@),
        }
    }
}

/// A setting of a resolver.
#[derive(Clone, Copy, Debug, PartialEq, Eq, Structural)]
pub enum DnsKey {
    /// The addresses of the resolver
    ServerAddresses,
    /// The domains to search
    SearchDomains,
}

/// The command that flushes the resolver cache.
#[derive(Clone, Copy, Debug, PartialEq, Eq, Structural)]
pub enum FlushCommand {
    /// `/usr/bin/discoveryutil mdnsflushcache`
    DiscoveryUtil,
    /// `/usr/bin/killall -HUP mDNSResponder`
    KillAll,
}

/// How a command ended.
#[derive(Clone, Copy, Debug, PartialEq, Eq, Structural)]
pub struct ExitStatus {
    /// Whether it succeeded
    pub success: bool,
    /// Its exit code, unless a signal ended it
    pub code: Option<i32>,
}

/// What a list of texts says.
pub open spec fn texts(list: Seq<String>) -> Seq<Seq<char>> {
    list.map_values(|text: String| text@)
}

/// What a list of entries says.
pub open spec fn entry_views(entries: Seq<GlobalEntry<String>>) -> Seq<GlobalEntry<Seq<char>>> {
    entries.map_values(|entry: GlobalEntry<String>| entry@)
}

/// What a result says.
pub open spec fn dns_result<T>(r: DnsResult<T>) -> Result<T, DnsErrorView> {
    match r {
        Ok(value) => Ok(value),
        Err(error) => Err(error@),
    }
}

/// The services that entries name, each once, in first-seen order.
pub open spec fn services_named(entries: Seq<GlobalEntry<Seq<char>>>) -> Seq<Seq<char>>
    decreases entries.len(),
{
    if entries.len() == 0 {
        Seq::empty()
    } else {
        let earlier = services_named(entries.drop_last());
        match entries.last() {
            GlobalEntry::Service(id) => if earlier.contains(id) {
                earlier
            } else {
                earlier.push(id)
            },
            _ => earlier,
        }
    }
}

/// Whether an entry names something that is no service at all.
pub open spec fn is_malformed(entries: Seq<GlobalEntry<Seq<char>>>) -> bool {
    exists|i: int| 0 <= i < entries.len() && (#[trigger] entries[i]) is NotAString
}

/// The services in use, or why there are none to be had.
pub open spec fn primary_services(entries: Seq<GlobalEntry<Seq<char>>>) -> Result<
    Seq<Seq<char>>,
    DnsErrorView,
> {
    let services = services_named(entries);
    if is_malformed(entries) {
        Err(DnsManagerError::InvalidSystemData)
    } else if services.len() == 0 {
        Err(DnsManagerError::PrimaryServiceNotFound)
    } else {
        Ok(services)
    }
}

/// Whether a text is in a list.
fn is_listed(list: &Vec<String>, text: &String) -> (listed: bool)
    ensures
        listed == texts(list@).contains(text@),
{
    let mut i: usize = 0;
    while i < list.len()
        invariant
            i <= list.len(),
            forall|j: int| 0 <= j < i ==> #[trigger] texts(list@)[j] != text@,
        decreases list.len() - i,
    {
        assert(texts(list@)[i as int] == list[i as int]@);
        if list[i] == *text {
            return true;
        }
        i = i + 1;
    }
    assert forall|j: int| 0 <= j < texts(list@).len() implies texts(list@)[j] != text@ by {
        assert(j < i);
    }
    false
}

/// Collect the distinct services named by the given global network state
/// entries, in first-seen order.
///
/// Entries that are absent, are not dictionaries or lack the key are skipped;
/// an entry whose service is not a string is a system data error.
pub fn primary_service_ids(entries: &Vec<GlobalEntry<String>>) -> (r: DnsResult<Vec<String>>)
    ensures
        match primary_services(entry_views(entries@)) {
            Ok(services) => r matches Ok(ids) && texts(ids@) == services,
            Err(owed) => r matches Err(error) && error@ == owed,
        },
{
    let mut ids: Vec<String> = Vec::new();
    let ghost views = entry_views(entries@);
    let mut i: usize = 0;
    assert(texts(ids@) =~= services_named(views.take(0)));
    while i < entries.len()
        invariant
            i <= entries.len(),
            views == entry_views(entries@),
            texts(ids@) == services_named(views.take(i as int)),
            forall|j: int| 0 <= j < i ==> !((#[trigger] views[j]) is NotAString),
        decreases entries.len() - i,
    {
        let ghost so_far = views.take(i + 1);
        assert(so_far.drop_last() =~= views.take(i as int));
        assert(so_far.last() == entries[i as int]@);
        assert(views[i as int] == entries[i as int]@);
        match &entries[i] {
            GlobalEntry::Service(id) => {
                if !is_listed(&ids, id) {
                    let ghost before = ids@;
                    let copy = id.clone();
                    ids.push(copy);
                    assert(texts(ids@) =~= texts(before).push(id@));
                }
            },
            GlobalEntry::NotAString => {
                return Err(DnsManagerError::InvalidSystemData);
            },
            _ => {},
        }
        i = i + 1;
    }
    assert(views.take(i as int) =~= views);
    if ids.is_empty() {
        return Err(DnsManagerError::PrimaryServiceNotFound);
    }
    Ok(ids)
}

/// The text that stands in front of a service in the path of its settings.
pub open spec fn path_head() -> Seq<char> {
    "Setup:/Network/Service/"@
}

/// The path of the settings of a service.
pub open spec fn service_path(id: Seq<char>) -> Seq<char> {
    path_head() + id + "/DNS"@
}

/// Get the DNS configuration path for a service ID
pub fn get_primary_service_path(service_id: &String) -> (path: String)
    ensures
        path@ == service_path(service_id@),
{
    let mut path = "Setup:/Network/Service/".to_owned();
    path.append(service_id.as_str());
    path.append("/DNS");
    path
}

/// The settings that replace those of a service.
pub open spec fn settings_of(addresses: Vec<String>, search_domains: Vec<String>) -> Seq<
    (DnsKey, Vec<String>),
> {
    if search_domains@.len() == 0 {
        seq![(DnsKey::ServerAddresses, addresses)]
    } else {
        seq![(DnsKey::ServerAddresses, addresses), (DnsKey::SearchDomains, search_domains)]
    }
}

/// The settings that replace those of a service: the resolver, and the domains
/// to search if there are any.
pub fn get_dns_dictionary(addresses: Vec<String>, search_domains: Vec<String>) -> (dictionary: Vec<
    (DnsKey, Vec<String>),
>)
    ensures
        dictionary@ == settings_of(addresses, search_domains),
{
    let mut dictionary: Vec<(DnsKey, Vec<String>)> = Vec::new();
    let ghost first = addresses;
    dictionary.push((DnsKey::ServerAddresses, addresses));
    if !search_domains.is_empty() {
        dictionary.push((DnsKey::SearchDomains, search_domains));
    }
    assert(dictionary@ =~= (if search_domains@.len() == 0 {
        seq![(DnsKey::ServerAddresses, first)]
    } else {
        seq![(DnsKey::ServerAddresses, first), (DnsKey::SearchDomains, search_domains)]
    }));
    dictionary
}

/// The domain that is searched while the tunnel is up.
pub fn default_search_domain() -> (domain: String)
    ensures
        domain@ == "expressvpn"@,
{
    "expressvpn".to_owned()
}

/// The command that flushes the resolver cache of a version of the system.
pub open spec fn flush_command_for(version: Seq<char>) -> FlushCommand {
    if "10.10"@.is_prefix_of(version) {
        FlushCommand::DiscoveryUtil
    } else {
        FlushCommand::KillAll
    }
}

/// The command that flushes the resolver cache of a version of the system.
pub fn flush_command(version: &String) -> (command: FlushCommand)
    ensures
        command == flush_command_for(version@),
{
    proof {
        reveal_strlit("10.10");
    }
    let text = version.as_str();
    let head = "10.10";
    let len: usize = text.unicode_len();
    if len < 5 {
        return FlushCommand::KillAll;
    }
    let mut i: usize = 0;
    while i < 5
        invariant
            i <= 5,
            len == text@.len(),
            len >= 5,
            text@ == version@,
            head@ == "10.10"@,
            head@.len() == 5,
            forall|j: int| 0 <= j < i ==> text@[j] == head@[j],
        decreases 5 - i,
    {
        if text.get_char(i) != head.get_char(i) {
            assert(!head@.is_prefix_of(text@));
            return FlushCommand::KillAll;
        }
        i = i + 1;
    }
    assert(head@ =~= text@.subrange(0, 5));
    FlushCommand::DiscoveryUtil
}

/// A signed number in decimal digits.
pub open spec fn signed_decimal(n: int) -> Seq<char> {
    if n < 0 {
        seq!['-'] + decimal((-n) as nat)
    } else {
        decimal(n as nat)
    }
}

/// Appends a signed number in decimal digits.
fn push_signed(text: &mut String, n: i32)
    ensures
        final(text)@ == old(text)@ + signed_decimal(n as int),
{
    if n < 0 {
        proof {
            reveal_strlit("-");
        }
        text.append("-");
        let magnitude: i64 = -(n as i64);
        push_decimal(text, magnitude as usize);
        assert("-"@ =~= seq!['-']);
        assert(text@ =~= old(text)@ + signed_decimal(n as int));
    } else {
        push_decimal(text, n as usize);
    }
}

/// What flushing the cache came to.
pub open spec fn flush_result(ended: Result<ExitStatus, Seq<char>>) -> Result<(), DnsErrorView> {
    match ended {
        Err(reason) => Err(DnsManagerError::CacheFlushFailed(reason)),
        Ok(status) => if status.success {
            Ok(())
        } else {
            Err(
                DnsManagerError::CacheFlushFailed(
                    "Command failed with exit code: "@ + signed_decimal(
                        match status.code {
                            Some(code) => code as int,
                            None => -1,
                        },
                    ),
                ),
            )
        },
    }
}

/// The command that flushes the resolver cache has ended, or could not be run
/// for the given reason.
pub fn flush_dns_cache(ended: Result<ExitStatus, String>) -> (r: DnsResult<()>)
    ensures
        dns_result(r) == flush_result(
            match ended {
                Ok(status) => Ok(status),
                Err(reason) => Err(reason@),
            },
        ),
{
    match ended {
        Err(reason) => Err(DnsManagerError::CacheFlushFailed(reason)),
        Ok(status) => if status.success {
            Ok(())
        } else {
            let mut text = "Command failed with exit code: ".to_owned();
            let code: i32 = match status.code {
                Some(code) => code,
                None => -1,
            };
            push_signed(&mut text, code);
            Err(DnsManagerError::CacheFlushFailed(text))
        },
    }
}

/// The services whose resolver settings are replaced and are to be put back.
#[derive(Debug)]
pub struct DnsManager {
    /// The services
    pub service_ids: Vec<String>,
}

impl View for DnsManager {
    type V = Seq<Seq<char>>;

    open spec fn view(&self) -> Seq<Seq<char>> {
        texts(self.service_ids@)
    }
}

impl Default for DnsManager {
    fn default() -> (manager: DnsManager)
        ensures
            manager@ == Seq::<Seq<char>>::empty(),
    {
        DnsManager::new()
    }
}

/// What is recorded once the settings of a service have been replaced, or
/// could not be.
pub open spec fn setting(recorded: Seq<Seq<char>>, id: Seq<char>, success: bool) -> (
    Seq<Seq<char>>,
    Result<(), DnsErrorView>,
) {
    if success {
        (recorded.push(id), Ok(()))
    } else {
        (
            recorded,
            Err(
                DnsManagerError::FailedToSetDnsConfig(
                    "Failed to set DNS Dictionary for service "@ + id,
                ),
            ),
        )
    }
}

/// What is recorded once the settings of several services have been replaced
/// in turn, until one could not be.
pub open spec fn setting_all(
    recorded: Seq<Seq<char>>,
    services: Seq<Seq<char>>,
    successes: Seq<bool>,
) -> (Seq<Seq<char>>, Result<(), DnsErrorView>)
    decreases services.len(),
{
    if services.len() == 0 {
        (recorded, Ok(()))
    } else {
        let (before, r) = setting_all(recorded, services.drop_last(), successes.drop_last());
        if r is Ok {
            setting(before, services.last(), successes.last())
        } else {
            (before, r)
        }
    }
}

/// Where the settings of every service could be replaced, all of them are
/// recorded, in order, after those recorded before.
pub proof fn replaced_services_are_recorded(
    recorded: Seq<Seq<char>>,
    services: Seq<Seq<char>>,
    successes: Seq<bool>,
)
    requires
        successes.len() == services.len(),
        forall|i: int| 0 <= i < successes.len() ==> successes[i],
    ensures
        setting_all(recorded, services, successes) == (
            recorded + services,
            Ok::<(), DnsErrorView>(()),
        ),
    decreases services.len(),
{
    if services.len() > 0 {
        let earlier = services.drop_last();
        let before = successes.drop_last();
        assert(forall|i: int| 0 <= i < before.len() ==> before[i] == successes[i]);
        replaced_services_are_recorded(recorded, earlier, before);
        assert((recorded + earlier).push(services.last()) =~= recorded + services);
    } else {
        assert(recorded + services =~= recorded);
    }
}

/// The first service whose settings cannot be replaced ends it: what was
/// recorded before and the services in front of it are recorded, nothing from
/// it on is, and the error names it.
pub proof fn first_failure_ends_the_replacement(
    recorded: Seq<Seq<char>>,
    services: Seq<Seq<char>>,
    successes: Seq<bool>,
    k: int,
)
    requires
        successes.len() == services.len(),
        0 <= k < services.len(),
        !successes[k],
        forall|i: int| 0 <= i < k ==> successes[i],
    ensures
        setting_all(recorded, services, successes) == (
            recorded + services.take(k),
            Err::<(), DnsErrorView>(
                DnsManagerError::FailedToSetDnsConfig(
                    "Failed to set DNS Dictionary for service "@ + services[k],
                ),
            ),
        ),
    decreases services.len(),
{
    let earlier = services.drop_last();
    let before = successes.drop_last();
    assert(forall|i: int| 0 <= i < before.len() ==> before[i] == successes[i]);
    if k < earlier.len() {
        first_failure_ends_the_replacement(recorded, earlier, before, k);
        assert(earlier.take(k) =~= services.take(k));
    } else {
        replaced_services_are_recorded(recorded, earlier, before);
        assert(earlier =~= services.take(k));
    }
}

/// The services whose settings were not put back, in order.
pub open spec fn still_set(services: Seq<Seq<char>>, removed: Seq<bool>) -> Seq<Seq<char>>
    decreases services.len(),
{
    if services.len() == 0 {
        Seq::empty()
    } else {
        let earlier = still_set(services.drop_last(), removed.drop_last());
        if removed.last() {
            earlier
        } else {
            earlier.push(services.last())
        }
    }
}

/// Texts one after the other, with a comma and a space between them.
pub open spec fn joined(list: Seq<Seq<char>>) -> Seq<char>
    decreases list.len(),
{
    if list.len() == 0 {
        Seq::empty()
    } else if list.len() == 1 {
        list[0]
    } else {
        joined(list.drop_last()) + ", "@ + list.last()
    }
}

/// Texts one after the other, with a comma and a space between them.
fn join(list: &Vec<String>) -> (text: String)
    ensures
        text@ == joined(texts(list@)),
{
    let mut text = String::new();
    let ghost views = texts(list@);
    let mut i: usize = 0;
    assert(text@ =~= joined(views.take(0)));
    while i < list.len()
        invariant
            i <= list.len(),
            views == texts(list@),
            text@ == joined(views.take(i as int)),
        decreases list.len() - i,
    {
        let ghost so_far = views.take(i + 1);
        assert(so_far.drop_last() =~= views.take(i as int));
        assert(so_far.last() == list[i as int]@);
        if i > 0 {
            text.append(", ");
        } else {
            assert(views.take(0) =~= Seq::empty());
        }
        text.append(list[i].as_str());
        assert(text@ =~= joined(so_far));
        i = i + 1;
    }
    assert(views.take(i as int) =~= views);
    text
}

/// What is recorded once the settings of the recorded services have been put
/// back, each or not, and what that comes to.
pub open spec fn resetting(recorded: Seq<Seq<char>>, removed: Seq<bool>) -> (
    Seq<Seq<char>>,
    Result<(), DnsErrorView>,
) {
    let failed = still_set(recorded, removed);
    (
        failed,
        if failed.len() == 0 {
            Ok(())
        } else {
            Err(DnsManagerError::FailedToRemoveDnsConfig(joined(failed)))
        },
    )
}

impl DnsManager {
    /// Nothing replaced yet.
    pub fn new() -> (manager: DnsManager)
        ensures
            manager@ == Seq::<Seq<char>>::empty(),
    {
        let manager = DnsManager { service_ids: Vec::new() };
        assert(manager@ =~= Seq::<Seq<char>>::empty());
        manager
    }

    /// The settings of a service have been replaced, or could not be. Services
    /// replaced before it stay recorded either way. The services to replace
    /// are those of [`primary_service_ids`], in turn, until one fails.
    pub fn set_dns(&mut self, service_id: String, success: bool) -> (r: DnsResult<()>)
        ensures
            (final(self)@, dns_result(r)) == setting(old(self)@, service_id@, success),
    {
        if !success {
            let mut text = "Failed to set DNS Dictionary for service ".to_owned();
            text.append(service_id.as_str());
            return Err(DnsManagerError::FailedToSetDnsConfig(text));
        }
        // Store the service ID for cleanup

        let ghost id = service_id@;
        self.service_ids.push(service_id);
        assert(self@ =~= old(self)@.push(id));
        Ok(())
    }

    /// The settings of the recorded services have been put back, each or not.
    /// Those that were not stay recorded so that a later reset can retry them.
    pub fn reset_dns(&mut self, removed: &Vec<bool>) -> (r: DnsResult<()>)
        requires
            removed@.len() == old(self)@.len(),
        ensures
            (final(self)@, dns_result(r)) == resetting(old(self)@, removed@),
    {
        let mut failed: Vec<String> = Vec::new();
        let ghost services = self@;
        let mut i: usize = 0;
        assert(texts(failed@) =~= still_set(services.take(0), removed@.take(0)));
        while i < self.service_ids.len()
            invariant
                i <= self.service_ids.len(),
                services == self@,
                removed@.len() == services.len(),
                texts(failed@) == still_set(services.take(i as int), removed@.take(i as int)),
                *self == *old(self),
            decreases self.service_ids.len() - i,
        {
            assert(services.take(i + 1).drop_last() =~= services.take(i as int));
            assert(removed@.take(i + 1).drop_last() =~= removed@.take(i as int));
            assert(services.take(i + 1).last() == self.service_ids[i as int]@);
            if !removed[i] {
                let ghost before = failed@;
                let copy = self.service_ids[i].clone();
                failed.push(copy);
                assert(texts(failed@) =~= texts(before).push(services[i as int]));
            }
            i = i + 1;
        }
        assert(services.take(i as int) =~= services);
        assert(removed@.take(i as int) =~= removed@);
        if failed.is_empty() {
            self.service_ids = failed;
            return Ok(());
        }
        let failed_ids = join(&failed);
        // Keep the services still configured so a later reset can retry them.
        self.service_ids = failed;
        Err(DnsManagerError::FailedToRemoveDnsConfig(failed_ids))
    }
}

/// The services that entries name are exactly those, and none is there twice.
pub proof fn services_are_distinct(entries: Seq<GlobalEntry<Seq<char>>>)
    ensures
        services_named(entries).no_duplicates(),
        forall|id: Seq<char>|
            services_named(entries).contains(id) <==> entries.contains(GlobalEntry::Service(id)),
    decreases entries.len(),
{
    if entries.len() > 0 {
        let earlier = entries.drop_last();
        services_are_distinct(earlier);
        let before = services_named(earlier);
        let after = services_named(entries);
        let last = entries.last();
        assert forall|id: Seq<char>| after.contains(id) <==> entries.contains(
            GlobalEntry::Service(id),
        ) by {
            if entries.contains(GlobalEntry::Service(id)) {
                let i = choose|i: int|
                    0 <= i < entries.len() && entries[i] == GlobalEntry::Service(id);
                if i < earlier.len() {
                    assert(earlier[i] == GlobalEntry::Service(id));
                    assert(before.contains(id));
                    let k = choose|k: int| 0 <= k < before.len() && before[k] == id;
                    assert(after[k] == id);
                } else {
                    assert(last == GlobalEntry::Service(id));
                    if !before.contains(id) {
                        assert(after.last() == id);
                    }
                }
            }
            if after.contains(id) {
                let k = choose|k: int| 0 <= k < after.len() && after[k] == id;
                if k < before.len() {
                    assert(before[k] == id);
                    assert(services_named(earlier).contains(id));
                    assert(earlier.contains(GlobalEntry::Service(id)));
                    let i = choose|i: int|
                        0 <= i < earlier.len() && earlier[i] == GlobalEntry::Service(id);
                    assert(entries[i] == GlobalEntry::Service(id));
                } else {
                    assert(entries[entries.len() - 1] == GlobalEntry::Service(id));
                }
            }
        }
    }
}

/// A reset after which every service is back leaves nothing recorded, and one
/// after which none is back changes nothing: it can be tried again as often
/// as it takes.
pub proof fn resets_can_be_retried(services: Seq<Seq<char>>, removed: Seq<bool>)
    requires
        removed.len() == services.len(),
    ensures
        (forall|i: int| 0 <= i < removed.len() ==> removed[i]) ==> still_set(
            services,
            removed,
        ).len() == 0,
        (forall|i: int| 0 <= i < removed.len() ==> !removed[i]) ==> still_set(services, removed)
            == services,
        still_set(services, removed).len() <= services.len(),
    decreases services.len(),
{
    if services.len() > 0 {
        let earlier = services.drop_last();
        let before = removed.drop_last();
        resets_can_be_retried(earlier, before);
        assert(forall|i: int| 0 <= i < before.len() ==> before[i] == removed[i]);
        assert(earlier.push(services.last()) =~= services);
    } else {
        assert(still_set(services, removed) =~= services);
    }
}

/// Services come in the order in which they are first named: what further
/// entries name is put behind what is there.
pub proof fn services_come_in_order(
    first: Seq<GlobalEntry<Seq<char>>>,
    second: Seq<GlobalEntry<Seq<char>>>,
)
    ensures
        services_named(first).is_prefix_of(services_named(first + second)),
    decreases second.len(),
{
    if second.len() == 0 {
        assert(first + second =~= first);
    } else {
        services_come_in_order(first, second.drop_last());
        assert((first + second).drop_last() =~= first + second.drop_last());
        assert((first + second).last() == second.last());
        let before = services_named(first + second.drop_last());
        let after = services_named(first + second);
        assert(before =~= after.take(before.len() as int));
        assert(services_named(first) =~= after.take(services_named(first).len() as int));
    }
}

/// What stays recorded after a reset are the services that could not be put
/// back, and no other.
pub proof fn failed_services_stay(services: Seq<Seq<char>>, removed: Seq<bool>, id: Seq<char>)
    requires
        removed.len() == services.len(),
    ensures
        still_set(services, removed).contains(id) <==> exists|i: int|
            0 <= i < services.len() && #[trigger] services[i] == id && !removed[i],
    decreases services.len(),
{
    let left = still_set(services, removed);
    if services.len() > 0 {
        let earlier = services.drop_last();
        let before = removed.drop_last();
        let kept = still_set(earlier, before);
        failed_services_stay(earlier, before, id);
        if left.contains(id) {
            let k = choose|k: int| 0 <= k < left.len() && left[k] == id;
            if k < kept.len() {
                assert(kept[k] == id);
                let i = choose|i: int|
                    0 <= i < earlier.len() && #[trigger] earlier[i] == id && !before[i];
                assert(services[i] == id && !removed[i]);
            } else {
                assert(services[services.len() - 1] == id && !removed[services.len() - 1]);
            }
        }
        if exists|i: int| 0 <= i < services.len() && #[trigger] services[i] == id && !removed[i] {
            let i = choose|i: int|
                0 <= i < services.len() && #[trigger] services[i] == id && !removed[i];
            if i < earlier.len() {
                assert(earlier[i] == id && !before[i]);
                let k = choose|k: int| 0 <= k < kept.len() && kept[k] == id;
                assert(left[k] == id);
            } else {
                assert(left[left.len() - 1] == id);
            }
        }
    }
}

/// Texts are joined in order, with a comma and a space between them.
pub proof fn texts_are_joined_in_order(list: Seq<Seq<char>>, text: Seq<char>)
    ensures
        joined(Seq::empty()).len() == 0,
        joined(seq![text]) == text,
        list.len() > 0 ==> joined(list.push(text)) == joined(list) + seq![',', ' '] + text,
{
    reveal_strlit(", ");
    assert(", "@ =~= seq![',', ' ']);
    if list.len() > 0 {
        assert(list.push(text).drop_last() =~= list);
    }
}

/// The path of the settings of a service names it, and no two services share
/// one.
pub proof fn paths_name_their_service(a: Seq<char>, b: Seq<char>)
    ensures
        service_path(a) == "Setup:/Network/Service/"@ + a + "/DNS"@,
        service_path(a) == service_path(b) ==> a == b,
{
    if service_path(a) == service_path(b) {
        let head = "Setup:/Network/Service/"@.len() as int;
        let tail = "/DNS"@.len() as int;
        assert(service_path(a).len() == head + a.len() + tail);
        assert(service_path(b).len() == head + b.len() + tail);
        assert(a =~= service_path(a).subrange(head, head + a.len()));
        assert(b =~= service_path(b).subrange(head, head + b.len()));
    }
}

/// The cache is flushed with the tool of its time on systems whose version
/// begins with 10.10, and with a signal on any other.
pub proof fn old_systems_have_their_own_command(version: Seq<char>)
    ensures
        flush_command_for(version) is DiscoveryUtil <==> version.len() >= 5 && version[0] == '1'
            && version[1] == '0' && version[2] == '.' && version[3] == '1' && version[4] == '0',
{
    reveal_strlit("10.10");
    let head = "10.10"@;
    if version.len() >= 5 && version[0] == '1' && version[1] == '0' && version[2] == '.'
        && version[3] == '1' && version[4] == '0' {
        assert(head =~= version.subrange(0, 5));
    }
    if head.is_prefix_of(version) {
        assert(head == version.subrange(0, 5));
        assert(version.subrange(0, 5)[0] == head[0]);
        assert(version.subrange(0, 5)[1] == head[1]);
        assert(version.subrange(0, 5)[2] == head[2]);
        assert(version.subrange(0, 5)[3] == head[3]);
        assert(version.subrange(0, 5)[4] == head[4]);
    }
}

/// The cache is flushed exactly if the command could be run and succeeded. One
/// that failed is told by its exit code, minus one if a signal ended it, and
/// one that could not be run by the reason.
pub proof fn flushing_fails_with_its_command(code: Option<i32>, reason: Seq<char>)
    ensures
        flush_result(Ok(ExitStatus { success: true, code })) is Ok,
        flush_result(Err(reason)) == Err::<(), _>(DnsErrorView::CacheFlushFailed(reason)),
        flush_result(Ok(ExitStatus { success: false, code })) == Err::<(), _>(
            DnsErrorView::CacheFlushFailed(
                "Command failed with exit code: "@ + signed_decimal(
                    if code is Some {
                        code->0 as int
                    } else {
                        -1
                    },
                ),
            ),
        ),
        code is Some && code->0 < 0 ==> signed_decimal(code->0 as int) == seq!['-'] + decimal(
            (-code->0) as nat,
        ),
        code is Some && code->0 >= 0 ==> signed_decimal(code->0 as int) == decimal(code->0 as nat),
{
}

/// A service is recorded exactly if its settings were replaced.
pub proof fn one_replacement_is_recorded(recorded: Seq<Seq<char>>, id: Seq<char>)
    ensures
        setting(recorded, id, true).0 == recorded.push(id),
        setting(recorded, id, true).1 is Ok,
        setting(recorded, id, false).0 == recorded,
        setting(recorded, id, false).1 is Err,
{
}

/// The services in use are those that the entries name, unless an entry names
/// something that is no text, or none names any.
pub proof fn services_are_found_or_told_missing(entries: Seq<GlobalEntry<Seq<char>>>)
    ensures
        ({
            let r = primary_services(entries);
            let malformed = exists|i: int|
                0 <= i < entries.len() && (#[trigger] entries[i]) is NotAString;
            let named = exists|i: int| 0 <= i < entries.len() && (#[trigger] entries[i]) is Service;
            &&& malformed ==> r == Err::<Seq<Seq<char>>, _>(DnsErrorView::InvalidSystemData)
            &&& !malformed && !named ==> r == Err::<Seq<Seq<char>>, _>(
                DnsErrorView::PrimaryServiceNotFound,
            )
            &&& !malformed && named ==> r == Ok::<_, DnsErrorView>(services_named(entries))
        }),
{
    services_are_distinct(entries);
    let services = services_named(entries);
    if services.len() > 0 {
        assert(services.contains(services[0]));
        let i = choose|i: int|
            0 <= i < entries.len() && entries[i] == GlobalEntry::Service(services[0]);
        assert(entries[i] is Service);
    }
    if exists|i: int| 0 <= i < entries.len() && (#[trigger] entries[i]) is Service {
        let i = choose|i: int| 0 <= i < entries.len() && (#[trigger] entries[i]) is Service;
        let id = entries[i]->Service_0;
        assert(entries.contains(GlobalEntry::Service(id)));
        assert(services.contains(id));
    }
}

/// A reset succeeds exactly if every service is back, and then nothing stays
/// recorded; otherwise the error names those that stay.
pub proof fn resets_succeed_when_all_is_back(recorded: Seq<Seq<char>>, removed: Seq<bool>)
    requires
        removed.len() == recorded.len(),
    ensures
        ({
            let (left, r) = resetting(recorded, removed);
            &&& r is Ok <==> forall|i: int| 0 <= i < removed.len() ==> removed[i]
            &&& r is Ok ==> left.len() == 0
            &&& r is Err ==> r == Err::<(), _>(DnsErrorView::FailedToRemoveDnsConfig(joined(left)))
            &&& forall|id: Seq<char>|
                left.contains(id) ==> exists|i: int|
                    0 <= i < recorded.len() && #[trigger] recorded[i] == id && !removed[i]
        }),
{
    let left = resetting(recorded, removed).0;
    resets_can_be_retried(recorded, removed);
    assert forall|i: int| 0 <= i < removed.len() && !removed[i] implies left.len() > 0 by {
        failed_services_stay(recorded, removed, recorded[i]);
        assert(recorded[i] == recorded[i] && !removed[i]);
        assert(left.contains(recorded[i]));
    }
    assert forall|id: Seq<char>| left.contains(id) implies exists|i: int|
        0 <= i < recorded.len() && #[trigger] recorded[i] == id && !removed[i] by {
        failed_services_stay(recorded, removed, id);
    }
}

/// The settings of a service name the resolver, and the domains to search
/// exactly if there are any.
pub proof fn settings_name_the_resolver(addresses: Vec<String>, search_domains: Vec<String>)
    ensures
        ({
            let settings = settings_of(addresses, search_domains);
            &&& settings.len() == (if search_domains@.len() > 0 {
                2int
            } else {
                1int
            })
            &&& settings[0] == (DnsKey::ServerAddresses, addresses)
            &&& search_domains@.len() > 0 ==> settings[1] == (DnsKey::SearchDomains, search_domains)
        }),
{
}

} // verus!
