//! The fixed table of topics that the bridge relays, with each topic's name on
//! the middleware side and on the broker side.

use crate::text::str_eq;
use vstd::prelude::*;

verus! {

/// The MQTT delivery level of every subscription and publication of the bridge:
/// at least once.
pub const MQTT_QOS: i32 = 1;

/// One relayed channel: its name in the middleware and its name at the broker.
#[derive(Clone, Copy, Debug, PartialEq, Eq)]
pub struct Topic {
    pub ros_name: &'static str,
    pub mqtt_name: &'static str,
}

/// A topic by the characters of its two names.
pub struct TopicNames {
    pub ros_name: Seq<char>,
    pub mqtt_name: Seq<char>,
}

impl View for Topic {
    type V = TopicNames;

    open spec fn view(&self) -> TopicNames {
        TopicNames { ros_name: self.ros_name@, mqtt_name: self.mqtt_name@ }
    }
}

/// The entry for range scans, which travel from the middleware to the broker.
pub open spec fn scan_names() -> TopicNames {
    TopicNames { ros_name: "/scan_safe"@, mqtt_name: "/Scan"@ }
}

/// The entry for spin commands, which travel from the broker to the middleware.
pub open spec fn spin_names() -> TopicNames {
    TopicNames { ros_name: "/spin_config"@, mqtt_name: "/spin_config"@ }
}

/// The whole table, in its fixed order.
pub open spec fn registry() -> Seq<TopicNames> {
    seq![scan_names(), spin_names()]
}

/// The first entry of `table` whose middleware name is `name`.
pub open spec fn find_by_ros_name(table: Seq<TopicNames>, name: Seq<char>) -> Option<TopicNames>
    decreases table.len(),
{
    if table.len() == 0 {
        None
    } else if table[0].ros_name == name {
        Some(table[0])
    } else {
        find_by_ros_name(table.drop_first(), name)
    }
}

/// The first entry of `table` whose broker name is `name`.
pub open spec fn find_by_mqtt_name(table: Seq<TopicNames>, name: Seq<char>) -> Option<TopicNames>
    decreases table.len(),
{
    if table.len() == 0 {
        None
    } else if table[0].mqtt_name == name {
        Some(table[0])
    } else {
        find_by_mqtt_name(table.drop_first(), name)
    }
}

/// Whether `found` is the entry `expected`, or both are absent.
pub open spec fn same_entry(found: Option<Topic>, expected: Option<TopicNames>) -> bool {
    match found {
        Some(t) => expected == Some(t@),
        None => expected is None,
    }
}

/// The entry for range scans.
pub fn scan_topic() -> (t: Topic)
    ensures
        t@ == scan_names(),
{
    Topic { ros_name: "/scan_safe", mqtt_name: "/Scan" }
}

/// The entry for spin commands.
pub fn spin_topic() -> (t: Topic)
    ensures
        t@ == spin_names(),
{
    Topic { ros_name: "/spin_config", mqtt_name: "/spin_config" }
}

/// The table as values: the entries of `registry()`, in the same order.
pub fn topics() -> (table: [Topic; 2])
    ensures
        table@.len() == registry().len(),
        forall|i: int| 0 <= i < 2 ==> (#[trigger] table@[i])@ == registry()[i],
{
    [scan_topic(), spin_topic()]
}

impl Topic {
    /// Looks a topic up by its name in the middleware.
    pub fn ros_topic(topic: &str) -> (found: Option<Topic>)
        ensures
            same_entry(found, find_by_ros_name(registry(), topic@)),
    {
        let table = topics();
        let mut i: usize = 0;
        assert(registry().skip(0) =~= registry());
        while i < 2
            invariant
                i <= 2,
                table@.len() == 2,
                registry().len() == 2,
                forall|k: int| 0 <= k < 2 ==> (#[trigger] table@[k])@ == registry()[k],
                find_by_ros_name(registry(), topic@) == find_by_ros_name(
                    registry().skip(i as int),
                    topic@,
                ),
            decreases 2 - i,
        {
            let entry = table[i];
            proof {
                assert(registry().skip(i as int).drop_first() =~= registry().skip(i + 1));
                assert(entry@ == registry().skip(i as int)[0]);
            }
            if str_eq(entry.ros_name, topic) {
                return Some(entry);
            }
            i = i + 1;
        }
        None
    }

    /// Looks a topic up by its name at the broker.
    pub fn mqtt_topic(topic: &str) -> (found: Option<Topic>)
        ensures
            same_entry(found, find_by_mqtt_name(registry(), topic@)),
    {
        let table = topics();
        let mut i: usize = 0;
        assert(registry().skip(0) =~= registry());
        while i < 2
            invariant
                i <= 2,
                table@.len() == 2,
                registry().len() == 2,
                forall|k: int| 0 <= k < 2 ==> (#[trigger] table@[k])@ == registry()[k],
                find_by_mqtt_name(registry(), topic@) == find_by_mqtt_name(
                    registry().skip(i as int),
                    topic@,
                ),
            decreases 2 - i,
        {
            let entry = table[i];
            proof {
                assert(registry().skip(i as int).drop_first() =~= registry().skip(i + 1));
                assert(entry@ == registry().skip(i as int)[0]);
            }
            if str_eq(entry.mqtt_name, topic) {
                return Some(entry);
            }
            i = i + 1;
        }
        None
    }

    /// The delivery policy of the middleware subscription that feeds this
    /// topic: the sensor policy for the scan entry, none for any other.
    pub fn qos(&self) -> (policy: Option<QosPolicy>)
        ensures
            policy == qos_of(self@),
    {
        let scan = scan_topic();
        if str_eq(self.ros_name, scan.ros_name) && str_eq(self.mqtt_name, scan.mqtt_name) {
            Some(sensor_qos())
        } else {
            None
        }
    }
}

/// How many samples a subscription keeps.
#[derive(Clone, Copy, PartialEq, Eq, Debug, Structural)]
pub enum HistoryPolicy {
    KeepLast,
    KeepAll,
}

/// Whether delivery is retried.
#[derive(Clone, Copy, PartialEq, Eq, Debug, Structural)]
pub enum ReliabilityPolicy {
    BestEffort,
    Reliable,
}

/// Whether samples outlive their publisher.
#[derive(Clone, Copy, PartialEq, Eq, Debug, Structural)]
pub enum DurabilityPolicy {
    Volatile,
    TransientLocal,
}

/// The part of a middleware delivery policy that the bridge fixes. What it
/// leaves out (deadline, lifespan, liveliness) stays at the middleware's
/// default.
#[derive(Clone, Copy, PartialEq, Eq, Debug, Structural)]
pub struct QosPolicy {
    pub history: HistoryPolicy,
    pub depth: usize,
    pub reliability: ReliabilityPolicy,
    pub durability: DurabilityPolicy,
    pub avoid_ros_namespace_conventions: bool,
}

/// The policy for periodic sensor data: the last five samples, delivered at
/// best effort, not kept for late subscribers.
pub open spec fn sensor_policy() -> QosPolicy {
    QosPolicy {
        history: HistoryPolicy::KeepLast,
        depth: 5,
        reliability: ReliabilityPolicy::BestEffort,
        durability: DurabilityPolicy::Volatile,
        avoid_ros_namespace_conventions: false,
    }
}

/// The policy attached to an entry: the sensor policy for the scan entry.
pub open spec fn qos_of(topic: TopicNames) -> Option<QosPolicy> {
    if topic == scan_names() {
        Some(sensor_policy())
    } else {
        None
    }
}

pub fn sensor_qos() -> (policy: QosPolicy)
    ensures
        policy == sensor_policy(),
{
    QosPolicy {
        history: HistoryPolicy::KeepLast,
        depth: 5,
        reliability: ReliabilityPolicy::BestEffort,
        durability: DurabilityPolicy::Volatile,
        avoid_ros_namespace_conventions: false,
    }
}

/// No two entries of the table share a middleware name or a broker name, and
/// no name is empty.
pub proof fn lemma_registry_names_distinct()
    ensures
        registry().len() == 2,
        forall|i: int, j: int|
            0 <= i < j < registry().len() ==> registry()[i].ros_name != registry()[j].ros_name
                && registry()[i].mqtt_name != registry()[j].mqtt_name,
        forall|i: int|
            0 <= i < registry().len() ==> registry()[i].ros_name.len() > 0
                && registry()[i].mqtt_name.len() > 0,
{
    reveal_strlit("/scan_safe");
    reveal_strlit("/Scan");
    reveal_strlit("/spin_config");
    assert("/scan_safe"@.len() == 10);
    assert("/Scan"@.len() == 5);
    assert("/spin_config"@.len() == 12);
}

/// The mapping is one to one: an entry of the table is what a lookup under
/// its middleware name returns, and what a lookup under its broker name
/// returns.
pub proof fn lemma_registered_topic_found(topic: TopicNames)
    requires
        registry().contains(topic),
    ensures
        find_by_ros_name(registry(), topic.ros_name) == Some(topic),
        find_by_mqtt_name(registry(), topic.mqtt_name) == Some(topic),
{
    lemma_registry_names_distinct();
    reveal_with_fuel(find_by_ros_name, 3);
    reveal_with_fuel(find_by_mqtt_name, 3);
    assert(registry().drop_first() =~= seq![spin_names()]);
    let i = choose|i: int| 0 <= i < registry().len() && registry()[i] == topic;
    assert(registry()[0].ros_name != registry()[1].ros_name);
    assert(registry()[0].mqtt_name != registry()[1].mqtt_name);
}

/// A name that no entry has in the middleware is not found there, and a name
/// that no entry has at the broker is not found there.
pub proof fn lemma_unregistered_name_not_found(name: Seq<char>)
    ensures
        (forall|i: int| 0 <= i < registry().len() ==> registry()[i].ros_name != name)
            ==> find_by_ros_name(registry(), name) is None,
        (forall|i: int| 0 <= i < registry().len() ==> registry()[i].mqtt_name != name)
            ==> find_by_mqtt_name(registry(), name) is None,
{
    reveal_with_fuel(find_by_ros_name, 3);
    reveal_with_fuel(find_by_mqtt_name, 3);
    assert(registry().drop_first() =~= seq![spin_names()]);
    assert(registry().drop_first().drop_first() =~= Seq::<TopicNames>::empty());
    assert(registry()[0] == scan_names());
    assert(registry()[1] == spin_names());
}

/// What a lookup finds is an entry of the table, and has the name that was
/// asked for.
pub proof fn lemma_found_is_entry(table: Seq<TopicNames>, name: Seq<char>)
    ensures
        find_by_ros_name(table, name) matches Some(t) ==> table.contains(t) && t.ros_name == name,
        find_by_mqtt_name(table, name) matches Some(t) ==> table.contains(t) && t.mqtt_name
            == name,
    decreases table.len(),
{
    if table.len() > 0 {
        lemma_found_is_entry(table.drop_first(), name);
        assert(table[0] == table[0]);
        assert forall|t: TopicNames| table.drop_first().contains(t) implies table.contains(t) by {
            let i = choose|i: int| 0 <= i < table.drop_first().len() && table.drop_first()[i] == t;
            assert(table[i + 1] == t);
        }
    }
}

} // verus!
