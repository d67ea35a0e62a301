//! From the middleware to the broker: a range scan becomes a document with
//! one field for each field of the reading, in a fixed order.

use crate::document::{
    documents_of, fields_of, lemma_list_document, lemma_record_document, Document, Field, Member,
    Value,
};
use crate::number::Number;
use vstd::prelude::*;

verus! {

/// A point in time: whole seconds and the nanoseconds past them.
#[derive(Clone, Copy, PartialEq, Eq, Debug, Structural)]
pub struct Time {
    pub sec: i32,
    pub nanosec: u32,
}

/// When a reading was taken, and in which frame.
#[derive(Clone, Debug, PartialEq, Eq)]
pub struct Header {
    pub stamp: Time,
    pub frame_id: String,
}

/// One sweep of a planar range finder.
#[derive(Clone, Debug, PartialEq, Eq)]
pub struct LaserScan {
    pub header: Header,
    pub angle_min: Number,
    pub angle_max: Number,
    pub angle_increment: Number,
    pub time_increment: Number,
    pub scan_time: Number,
    pub range_min: Number,
    pub range_max: Number,
    pub ranges: Vec<Number>,
    pub intensities: Vec<Number>,
}

/// A message that travels from the middleware to the broker.
#[derive(Clone, Debug, PartialEq, Eq)]
pub enum ROS2MQTTData {
    LaserScan(LaserScan),
}

/// What a `Header` stands for.
pub struct HeaderContent {
    pub stamp: Time,
    pub frame_id: Seq<char>,
}

/// What a `LaserScan` stands for.
pub struct LaserScanContent {
    pub header: HeaderContent,
    pub angle_min: Number,
    pub angle_max: Number,
    pub angle_increment: Number,
    pub time_increment: Number,
    pub scan_time: Number,
    pub range_min: Number,
    pub range_max: Number,
    pub ranges: Seq<Number>,
    pub intensities: Seq<Number>,
}

/// What a `ROS2MQTTData` stands for.
pub enum OutboundMessage {
    LaserScan(LaserScanContent),
}

impl View for Header {
    type V = HeaderContent;

    open spec fn view(&self) -> HeaderContent {
        HeaderContent { stamp: self.stamp, frame_id: self.frame_id@ }
    }
}

impl View for LaserScan {
    type V = LaserScanContent;

    open spec fn view(&self) -> LaserScanContent {
        LaserScanContent {
            header: self.header@,
            angle_min: self.angle_min,
            angle_max: self.angle_max,
            angle_increment: self.angle_increment,
            time_increment: self.time_increment,
            scan_time: self.scan_time,
            range_min: self.range_min,
            range_max: self.range_max,
            ranges: self.ranges@,
            intensities: self.intensities@,
        }
    }
}

impl View for ROS2MQTTData {
    type V = OutboundMessage;

    open spec fn view(&self) -> OutboundMessage {
        match self {
            ROS2MQTTData::LaserScan(scan) => OutboundMessage::LaserScan(scan@),
        }
    }
}

/// A field that holds a number.
pub open spec fn number_field(name: Seq<char>, n: Number) -> Field {
    Field { name, value: Document::Number(n) }
}

/// A list of numbers, in their order.
pub open spec fn number_list(values: Seq<Number>) -> Document {
    Document::List(values.map_values(|n: Number| Document::Number(n)))
}

/// The document of a point in time.
pub open spec fn encoded_time(t: Time) -> Document {
    Document::Record(
        seq![
            number_field("sec"@, Number::Integer(t.sec as i64)),
            number_field("nanosec"@, Number::Integer(t.nanosec as i64)),
        ],
    )
}

/// The document of a header.
pub open spec fn encoded_header(h: HeaderContent) -> Document {
    Document::Record(
        seq![
            Field { name: "stamp"@, value: encoded_time(h.stamp) },
            Field { name: "frame_id"@, value: Document::Text(h.frame_id) },
        ],
    )
}

/// The document of a range scan: its ten fields under their names, in the
/// order in which the reading declares them.
pub open spec fn encoded_scan(s: LaserScanContent) -> Document {
    Document::Record(
        seq![
            Field { name: "header"@, value: encoded_header(s.header) },
            number_field("angle_min"@, s.angle_min),
            number_field("angle_max"@, s.angle_max),
            number_field("angle_increment"@, s.angle_increment),
            number_field("time_increment"@, s.time_increment),
            number_field("scan_time"@, s.scan_time),
            number_field("range_min"@, s.range_min),
            number_field("range_max"@, s.range_max),
            Field { name: "ranges"@, value: number_list(s.ranges) },
            Field { name: "intensities"@, value: number_list(s.intensities) },
        ],
    )
}

/// The document of an outbound message: that of the reading it holds, with
/// nothing around it.
pub open spec fn encoded(m: OutboundMessage) -> Document {
    match m {
        OutboundMessage::LaserScan(s) => encoded_scan(s),
    }
}

/// A member with the given name.
fn member(name: &str, value: Value) -> (m: Member)
    ensures
        m@ == (Field { name: name@, value: value@ }),
{
    Member { name: name.to_owned(), value }
}

/// A member that holds a number.
fn number_member(name: &str, n: Number) -> (m: Member)
    ensures
        m@ == number_field(name@, n),
{
    member(name, Value::Number(n))
}

/// The list of the given numbers.
fn numbers(values: &Vec<Number>) -> (list: Value)
    ensures
        list@ == number_list(values@),
{
    let n: usize = values.len();
    let mut items: Vec<Value> = Vec::new();
    let mut i: usize = 0;
    while i < n
        invariant
            i <= n,
            n == values@.len(),
            items@.len() == i,
            forall|k: int| 0 <= k < i ==> (#[trigger] items@[k])@ == Document::Number(values@[k]),
        decreases n - i,
    {
        items.push(Value::Number(values[i]));
        i = i + 1;
    }
    proof {
        lemma_list_document(items);
        assert(documents_of(items@) =~= values@.map_values(|n: Number| Document::Number(n)));
    }
    Value::List(items)
}

impl Time {
    /// The document of this point in time.
    pub fn serialize(&self) -> (doc: Value)
        ensures
            doc@ == encoded_time(*self),
    {
        let mut members: Vec<Member> = Vec::new();
        members.push(number_member("sec", Number::Integer(self.sec as i64)));
        members.push(number_member("nanosec", Number::Integer(self.nanosec as i64)));
        proof {
            lemma_record_document(members);
            assert(fields_of(members@) =~= encoded_time(*self)->Record_0);
        }
        Value::Record(members)
    }
}

impl Header {
    /// The document of this header.
    pub fn serialize(&self) -> (doc: Value)
        ensures
            doc@ == encoded_header(self@),
    {
        let mut members: Vec<Member> = Vec::new();
        members.push(member("stamp", self.stamp.serialize()));
        members.push(member("frame_id", Value::Text(self.frame_id.clone())));
        proof {
            lemma_record_document(members);
            assert(fields_of(members@) =~= encoded_header(self@)->Record_0);
        }
        Value::Record(members)
    }
}

impl LaserScan {
    /// The document of this scan.
    pub fn serialize(&self) -> (doc: Value)
        ensures
            doc@ == encoded_scan(self@),
    {
        let mut members: Vec<Member> = Vec::new();
        members.push(member("header", self.header.serialize()));
        members.push(number_member("angle_min", self.angle_min));
        members.push(number_member("angle_max", self.angle_max));
        members.push(number_member("angle_increment", self.angle_increment));
        members.push(number_member("time_increment", self.time_increment));
        members.push(number_member("scan_time", self.scan_time));
        members.push(number_member("range_min", self.range_min));
        members.push(number_member("range_max", self.range_max));
        members.push(member("ranges", numbers(&self.ranges)));
        members.push(member("intensities", numbers(&self.intensities)));
        proof {
            lemma_record_document(members);
            assert(fields_of(members@) =~= encoded_scan(self@)->Record_0);
        }
        Value::Record(members)
    }
}

impl ROS2MQTTData {
    /// Encodes the message. Every message has a document, and messages that
    /// stand for the same reading have the same one.
    pub fn serialize(&self) -> (doc: Value)
        ensures
            doc@ == encoded(self@),
    {
        match self {
            ROS2MQTTData::LaserScan(scan) => scan.serialize(),
        }
    }
}

/// Encoding depends on nothing but the message: equal messages have equal
/// documents.
pub proof fn lemma_encoding_deterministic(a: OutboundMessage, b: OutboundMessage)
    requires
        a == b,
    ensures
        encoded(a) == encoded(b),
{
}

/// A list of numbers gives its numbers back: two lists with the same document
/// are the same list.
pub proof fn lemma_number_list_faithful(a: Seq<Number>, b: Seq<Number>)
    requires
        number_list(a) == number_list(b),
    ensures
        a == b,
{
    let x = a.map_values(|n: Number| Document::Number(n));
    let y = b.map_values(|n: Number| Document::Number(n));
    assert(x == y);
    assert(a.len() == x.len());
    assert(b.len() == y.len());
    assert forall|i: int| 0 <= i < a.len() implies a[i] == b[i] by {
        assert(x[i] == Document::Number(a[i]));
        assert(y[i] == Document::Number(b[i]));
    }
    assert(a =~= b);
}

/// Encoding is faithful: nothing of a message is lost, so two messages with
/// the same document are the same message.
pub proof fn lemma_encoding_faithful(a: OutboundMessage, b: OutboundMessage)
    requires
        encoded(a) == encoded(b),
    ensures
        a == b,
{
    let s = a->LaserScan_0;
    let t = b->LaserScan_0;
    let x = encoded_scan(s)->Record_0;
    let y = encoded_scan(t)->Record_0;
    assert(x == y);
    assert(x[0] == y[0]);
    assert(x[1] == y[1]);
    assert(x[2] == y[2]);
    assert(x[3] == y[3]);
    assert(x[4] == y[4]);
    assert(x[5] == y[5]);
    assert(x[6] == y[6]);
    assert(x[7] == y[7]);
    assert(x[8] == y[8]);
    assert(x[9] == y[9]);
    lemma_number_list_faithful(s.ranges, t.ranges);
    lemma_number_list_faithful(s.intensities, t.intensities);
    let h = encoded_header(s.header)->Record_0;
    let k = encoded_header(t.header)->Record_0;
    assert(h == k);
    assert(h[0] == k[0]);
    assert(h[1] == k[1]);
    let u = encoded_time(s.header.stamp)->Record_0;
    let v = encoded_time(t.header.stamp)->Record_0;
    assert(u == v);
    assert(u[0] == v[0]);
    assert(u[1] == v[1]);
    assert(s.header.stamp == t.header.stamp);
    assert(s.header == t.header);
}

} // verus!
