//! The tables that the table endpoints serve, by name, and lookups in
//! name-keyed lists.
use vstd::prelude::*;
use crate::text::strs_equal;

verus! {

/// The value a name-keyed list gives a name: that of its first entry for it.
pub open spec fn assoc_lookup<T>(list: Seq<(Seq<char>, T)>, key: Seq<char>) -> Option<T>
    decreases list.len(),
{
    if list.len() == 0 {
        None
    } else if list[0].0 == key {
        Some(list[0].1)
    } else {
        assoc_lookup(list.drop_first(), key)
    }
}

proof fn lemma_assoc_skip<T>(list: Seq<(Seq<char>, T)>, key: Seq<char>, i: int)
    requires
        0 <= i <= list.len(),
        forall|j: int| 0 <= j < i ==> (#[trigger] list[j]).0 != key,
    ensures
        assoc_lookup(list, key) == assoc_lookup(list.skip(i), key),
    decreases i,
{
    if i > 0 {
        let rest = list.drop_first();
        assert forall|j: int| 0 <= j < i - 1 implies (#[trigger] rest[j]).0 != key by {
            assert(rest[j] == list[j + 1]);
        }
        lemma_assoc_skip(rest, key, i - 1);
        assert(rest.skip(i - 1) =~= list.skip(i));
    } else {
        assert(list.skip(0) =~= list);
    }
}

/// The first entry for a name is the one looked up.
pub proof fn lemma_assoc_at<T>(list: Seq<(Seq<char>, T)>, key: Seq<char>, i: int)
    requires
        0 <= i < list.len(),
        list[i].0 == key,
        forall|j: int| 0 <= j < i ==> (#[trigger] list[j]).0 != key,
    ensures
        assoc_lookup(list, key) == Some(list[i].1),
{
    lemma_assoc_skip(list, key, i);
    assert(list.skip(i)[0] == list[i]);
}

/// Without an entry for a name, nothing is looked up.
pub proof fn lemma_assoc_absent<T>(list: Seq<(Seq<char>, T)>, key: Seq<char>)
    requires
        forall|j: int| 0 <= j < list.len() ==> (#[trigger] list[j]).0 != key,
    ensures
        assoc_lookup(list, key) is None,
{
    lemma_assoc_skip(list, key, list.len() as int);
    assert(list.skip(list.len() as int).len() == 0);
}

/// The character views of the names of a name-keyed list.
pub open spec fn name_views<T>(s: Seq<(&'static str, T)>) -> Seq<(Seq<char>, T)> {
    s.map_values(|p: (&'static str, T)| (p.0@, p.1))
}

/// The value a name-keyed list gives a name.
pub fn assoc_find<T: Copy>(list: &Vec<(&'static str, T)>, key: &str) -> (r: Option<T>)
    ensures
        r == assoc_lookup(name_views(list@), key@),
{
    let ghost views = name_views(list@);
    let n = list.len();
    let mut i: usize = 0;
    while i < n
        invariant
            n == list@.len(),
            i <= n,
            views == name_views(list@),
            forall|j: int| 0 <= j < i ==> (#[trigger] views[j]).0 != key@,
        decreases n - i,
    {
        let (k, t) = list[i];
        assert(views[i as int] == (k@, t));
        if strs_equal(key, k) {
            proof {
                lemma_assoc_skip(views, key@, i as int);
                assert(views.skip(i as int)[0] == views[i as int]);
            }
            return Some(t);
        }
        i = i + 1;
    }
    proof {
        lemma_assoc_skip(views, key@, n as int);
    }
    None
}

/// A table served by the `api/table/*` endpoints.
#[derive(Clone, Copy, PartialEq, Eq, Structural, Debug)]
pub enum Table {
    Lighthouse,
    CloudserverInstance,
    LogserviceTopic,
    CloudAccount,
    JobLog,
    CronJob,
    CloudstorageBucket,
    AccessTable,
    GroupTable,
    ServiceTable,
    SubsystemTable,
    TokenTable,
    UserTable,
    WebhookTable,
    ChannelConfigs,
    NotificationRecords,
    NotificationTemplates,
    NotificationGroups,
    NotificationGroupMembers,
}

/// The names of the tables.
pub open spec fn table_catalog() -> Seq<(Seq<char>, Table)> {
    seq![
        ("lighthouse"@, Table::Lighthouse),
        ("cloudserver_instance"@, Table::CloudserverInstance),
        ("logservice_topic"@, Table::LogserviceTopic),
        ("cloud_account"@, Table::CloudAccount),
        ("job_log"@, Table::JobLog),
        ("cron_job"@, Table::CronJob),
        ("cloudstorage_bucket"@, Table::CloudstorageBucket),
        ("access_table"@, Table::AccessTable),
        ("group_table"@, Table::GroupTable),
        ("service_table"@, Table::ServiceTable),
        ("subsystem_table"@, Table::SubsystemTable),
        ("token_table"@, Table::TokenTable),
        ("user_table"@, Table::UserTable),
        ("webhook_table"@, Table::WebhookTable),
        ("channel_configs"@, Table::ChannelConfigs),
        ("notification_records"@, Table::NotificationRecords),
        ("notification_templates"@, Table::NotificationTemplates),
        ("notification_groups"@, Table::NotificationGroups),
        ("notification_group_members"@, Table::NotificationGroupMembers),
    ]
}

/// The names of the tables.
pub fn table_catalog_of() -> (r: Vec<(&'static str, Table)>)
    ensures
        name_views(r@) == table_catalog(),
{
    let r = vec![
        ("lighthouse", Table::Lighthouse),
        ("cloudserver_instance", Table::CloudserverInstance),
        ("logservice_topic", Table::LogserviceTopic),
        ("cloud_account", Table::CloudAccount),
        ("job_log", Table::JobLog),
        ("cron_job", Table::CronJob),
        ("cloudstorage_bucket", Table::CloudstorageBucket),
        ("access_table", Table::AccessTable),
        ("group_table", Table::GroupTable),
        ("service_table", Table::ServiceTable),
        ("subsystem_table", Table::SubsystemTable),
        ("token_table", Table::TokenTable),
        ("user_table", Table::UserTable),
        ("webhook_table", Table::WebhookTable),
        ("channel_configs", Table::ChannelConfigs),
        ("notification_records", Table::NotificationRecords),
        ("notification_templates", Table::NotificationTemplates),
        ("notification_groups", Table::NotificationGroups),
        ("notification_group_members", Table::NotificationGroupMembers),
    ];
    assert(name_views(r@) =~= table_catalog());
    r
}

impl Table {
    /// The table a name denotes.
    pub open spec fn spec_from_name(name: Seq<char>) -> Option<Table> {
        assoc_lookup(table_catalog(), name)
    }

    /// Whether the table belongs to the CMDB itself, rather than to the
    /// cross-subsystem schema that is only served in a full-schema build.
    pub open spec fn spec_is_native(self) -> bool {
        match self {
            Table::Lighthouse => true,
            Table::CloudserverInstance => true,
            Table::LogserviceTopic => true,
            Table::CloudAccount => true,
            Table::JobLog => true,
            Table::CronJob => true,
            Table::CloudstorageBucket => true,
            _ => false,
        }
    }

    /// The table a name denotes, if any.
    pub fn from_name(name: &str) -> (r: Option<Table>)
        ensures
            r == Table::spec_from_name(name@),
    {
        let catalog = table_catalog_of();
        assoc_find(&catalog, name)
    }

    pub fn is_native(&self) -> (r: bool)
        ensures
            r == self.spec_is_native(),
    {
        match self {
            Table::Lighthouse => true,
            Table::CloudserverInstance => true,
            Table::LogserviceTopic => true,
            Table::CloudAccount => true,
            Table::JobLog => true,
            Table::CronJob => true,
            Table::CloudstorageBucket => true,
            _ => false,
        }
    }
}

} // verus!
