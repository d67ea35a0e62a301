//! From the broker to the middleware: a payload in structured form is held
//! against the closed schema of spin commands, and only then turned into the
//! typed message.

use crate::document::{documents_of, fields_of, Document, Field, Value};
use crate::number::Number;
use crate::schema::{
    check_pair, least_from, lemma_exact_pair, lemma_least_from, named, offence, pair_shape,
    repeated_at, unknown_at, PairShape,
};
use vstd::prelude::*;

verus! {

/// One command as the payload gives it: two numeric fields, not yet judged.
#[derive(Clone, Copy, PartialEq, Eq, Debug, Structural)]
pub struct SpinCommandHelper {
    pub omega: Number,
    pub duration: Number,
}

/// A payload of the right shape, not yet judged for what its numbers mean.
#[derive(Clone, Debug, PartialEq, Eq)]
pub struct SpinCommandsHelper {
    pub commands: Vec<SpinCommandHelper>,
    pub period: Number,
}

/// One command of the typed message: a finite turning rate, held for a
/// finite time that is not negative.
#[derive(Clone, Copy, PartialEq, Eq, Debug, Structural)]
pub struct MSpinCommand {
    pub omega: Number,
    pub duration: Number,
}

/// The typed message: the commands in their order, and a finite period above
/// zero.
#[derive(Clone, Debug, PartialEq, Eq)]
pub struct MSpinCommands {
    pub commands: Vec<MSpinCommand>,
    pub period: Number,
}

/// A message that travels from the broker to the middleware.
#[derive(Clone, Debug, PartialEq, Eq)]
pub enum MQTT2ROSData {
    SpinCommands(MSpinCommands),
}

/// What a `SpinCommandsHelper` stands for.
pub struct HelperContent {
    pub commands: Seq<SpinCommandHelper>,
    pub period: Number,
}

/// What an `MSpinCommands` stands for.
pub struct SpinCommandsContent {
    pub commands: Seq<MSpinCommand>,
    pub period: Number,
}

/// What an `MQTT2ROSData` stands for.
pub enum InboundMessage {
    SpinCommands(SpinCommandsContent),
}

impl View for SpinCommandsHelper {
    type V = HelperContent;

    open spec fn view(&self) -> HelperContent {
        HelperContent { commands: self.commands@, period: self.period }
    }
}

impl View for MSpinCommands {
    type V = SpinCommandsContent;

    open spec fn view(&self) -> SpinCommandsContent {
        SpinCommandsContent { commands: self.commands@, period: self.period }
    }
}

impl View for MQTT2ROSData {
    type V = InboundMessage;

    open spec fn view(&self) -> InboundMessage {
        match self {
            MQTT2ROSData::SpinCommands(m) => InboundMessage::SpinCommands(m@),
        }
    }
}

/// What is wrong with the shape of one entry of `commands`.
#[derive(Clone, Copy, PartialEq, Eq, Debug, Structural)]
pub enum EntryFault {
    NotARecord,
    UnknownField { position: usize },
    RepeatedField { position: usize },
    MissingOmega,
    MissingDuration,
    OmegaNotNumeric,
    DurationNotNumeric,
}

/// What is wrong with the shape of a payload.
#[derive(Clone, Copy, PartialEq, Eq, Debug, Structural)]
pub enum SchemaViolation {
    /// The payload could not be read as a document.
    NoDocument,
    NotARecord,
    UnknownField { position: usize },
    RepeatedField { position: usize },
    MissingCommands,
    MissingPeriod,
    CommandsNotAList,
    NoCommands,
    Entry { index: usize, fault: EntryFault },
    PeriodNotNumeric,
}

/// What is wrong with the numbers of one command.
#[derive(Clone, Copy, PartialEq, Eq, Debug, Structural)]
pub enum CommandFault {
    OmegaNotFinite,
    DurationNotFinite,
    DurationNegative,
}

/// What is wrong with the numbers of a payload of the right shape.
#[derive(Clone, Copy, PartialEq, Eq, Debug, Structural)]
pub enum ConversionError {
    Command { index: usize, fault: CommandFault },
    PeriodNotFinite,
    PeriodNotPositive,
}

/// Why a payload was not accepted.
#[derive(Clone, Copy, PartialEq, Eq, Debug, Structural)]
pub enum ValidationError {
    SchemaViolation(SchemaViolation),
    ConversionError(ConversionError),
}

/// Whether `got` is `expected`, the accepted value taken by what it stands for.
pub open spec fn agrees<T: View, E>(got: Result<T, E>, expected: Result<T::V, E>) -> bool {
    match got {
        Ok(v) => expected == Ok::<T::V, E>(v@),
        Err(e) => expected == Err::<T::V, E>(e),
    }
}

/// One entry of `commands`: a record of exactly `omega` and `duration`, both
/// numbers.
pub open spec fn entry_of(doc: Document) -> Result<SpinCommandHelper, EntryFault> {
    match doc {
        Document::Record(fields) => match pair_shape(fields, "omega"@, "duration"@) {
            PairShape::Unknown { position } => Err(EntryFault::UnknownField { position }),
            PairShape::Repeated { position } => Err(EntryFault::RepeatedField { position }),
            PairShape::MissingFirst => Err(EntryFault::MissingOmega),
            PairShape::MissingSecond => Err(EntryFault::MissingDuration),
            PairShape::Exact { first, second } => match (
                fields[first as int].value,
                fields[second as int].value,
            ) {
                (Document::Number(omega), Document::Number(duration)) => Ok(
                    SpinCommandHelper { omega, duration },
                ),
                (Document::Number(_), _) => Err(EntryFault::DurationNotNumeric),
                _ => Err(EntryFault::OmegaNotNumeric),
            },
        },
        _ => Err(EntryFault::NotARecord),
    }
}

/// The positions of the entries that are not of the right shape.
pub open spec fn faulty_entry(items: Seq<Document>) -> spec_fn(int) -> bool {
    |i: int| entry_of(items[i]) is Err
}

/// The entries of a list in which every entry is of the right shape.
pub open spec fn entries_of(items: Seq<Document>) -> Seq<SpinCommandHelper> {
    Seq::new(items.len(), |i: int| entry_of(items[i])->Ok_0)
}

/// The closed schema of the payload: a record of exactly `commands` and
/// `period`; `commands` a list with at least one entry, each of the right
/// shape; `period` a number. The checks run in this order, and the first
/// that fails is the one reported.
pub open spec fn helper_of(doc: Document) -> Result<HelperContent, SchemaViolation> {
    match doc {
        Document::Record(fields) => match pair_shape(fields, "commands"@, "period"@) {
            PairShape::Unknown { position } => Err(SchemaViolation::UnknownField { position }),
            PairShape::Repeated { position } => Err(SchemaViolation::RepeatedField { position }),
            PairShape::MissingFirst => Err(SchemaViolation::MissingCommands),
            PairShape::MissingSecond => Err(SchemaViolation::MissingPeriod),
            PairShape::Exact { first, second } => match fields[first as int].value {
                Document::List(items) => if items.len() == 0 {
                    Err(SchemaViolation::NoCommands)
                } else {
                    match least_from(0, items.len() as int, faulty_entry(items)) {
                        Some(i) => Err(
                            SchemaViolation::Entry {
                                index: i as usize,
                                fault: entry_of(items[i])->Err_0,
                            },
                        ),
                        None => match fields[second as int].value {
                            Document::Number(period) => Ok(
                                HelperContent { commands: entries_of(items), period },
                            ),
                            _ => Err(SchemaViolation::PeriodNotNumeric),
                        },
                    }
                },
                _ => Err(SchemaViolation::CommandsNotAList),
            },
        },
        _ => Err(SchemaViolation::NotARecord),
    }
}

/// What keeps a command of the right shape out of the typed message: a
/// turning rate or a duration that is not finite, or a duration below zero.
pub open spec fn command_fault(c: SpinCommandHelper) -> Option<CommandFault> {
    if !c.omega.finite() {
        Some(CommandFault::OmegaNotFinite)
    } else if !c.duration.finite() {
        Some(CommandFault::DurationNotFinite)
    } else if c.duration.negative() {
        Some(CommandFault::DurationNegative)
    } else {
        None
    }
}

/// The positions of the commands that the typed message cannot hold.
pub open spec fn faulty_command(commands: Seq<SpinCommandHelper>) -> spec_fn(int) -> bool {
    |i: int| command_fault(commands[i]) is Some
}

/// The command of the typed message for one of the right shape.
pub open spec fn typed_command(c: SpinCommandHelper) -> MSpinCommand {
    MSpinCommand { omega: c.omega, duration: c.duration }
}

/// The typed message for a payload of the right shape. The commands are
/// judged in their order, then the period, which must be finite and above
/// zero; the first fault is the one reported.
pub open spec fn converted(h: HelperContent) -> Result<SpinCommandsContent, ConversionError> {
    match least_from(0, h.commands.len() as int, faulty_command(h.commands)) {
        Some(i) => Err(
            ConversionError::Command {
                index: i as usize,
                fault: command_fault(h.commands[i])->Some_0,
            },
        ),
        None => if !h.period.finite() {
            Err(ConversionError::PeriodNotFinite)
        } else if !h.period.positive() {
            Err(ConversionError::PeriodNotPositive)
        } else {
            Ok(
                SpinCommandsContent {
                    commands: h.commands.map_values(|c: SpinCommandHelper| typed_command(c)),
                    period: h.period,
                },
            )
        },
    }
}

/// The whole decoding of a document: the schema first, the conversion after.
pub open spec fn decoded(doc: Document) -> Result<InboundMessage, ValidationError> {
    match helper_of(doc) {
        Err(v) => Err(ValidationError::SchemaViolation(v)),
        Ok(h) => match converted(h) {
            Err(c) => Err(ValidationError::ConversionError(c)),
            Ok(m) => Ok(InboundMessage::SpinCommands(m)),
        },
    }
}

/// The decoding of a payload, which may not have been readable as a document.
pub open spec fn decoded_payload(parsed: Option<Document>) -> Result<
    InboundMessage,
    ValidationError,
> {
    match parsed {
        Some(doc) => decoded(doc),
        None => Err(ValidationError::SchemaViolation(SchemaViolation::NoDocument)),
    }
}

impl SpinCommandHelper {
    /// Reads one entry of `commands`.
    pub fn deserialize(document: &Value) -> (entry: Result<SpinCommandHelper, EntryFault>)
        ensures
            entry == entry_of(document@),
    {
        let members = match document.as_record() {
            Some(members) => members,
            None => {
                return Err(EntryFault::NotARecord);
            },
        };
        match check_pair(members, "omega", "duration") {
            PairShape::Unknown { position } => Err(EntryFault::UnknownField { position }),
            PairShape::Repeated { position } => Err(EntryFault::RepeatedField { position }),
            PairShape::MissingFirst => Err(EntryFault::MissingOmega),
            PairShape::MissingSecond => Err(EntryFault::MissingDuration),
            PairShape::Exact { first, second } => {
                proof {
                    reveal_strlit("omega");
                    reveal_strlit("duration");
                    assert("omega"@.len() != "duration"@.len());
                    lemma_exact_pair(fields_of(members@), "omega"@, "duration"@);
                }
                match members[first].value.as_number() {
                    None => Err(EntryFault::OmegaNotNumeric),
                    Some(omega) => match members[second].value.as_number() {
                        None => Err(EntryFault::DurationNotNumeric),
                        Some(duration) => Ok(SpinCommandHelper { omega, duration }),
                    },
                }
            },
        }
    }
}

impl SpinCommandsHelper {
    /// Holds a document against the closed schema of spin commands.
    #[verifier::loop_isolation(false)]
    pub fn deserialize(document: &Value) -> (helper: Result<SpinCommandsHelper, SchemaViolation>)
        ensures
            agrees(helper, helper_of(document@)),
    {
        let members = match document.as_record() {
            Some(members) => members,
            None => {
                return Err(SchemaViolation::NotARecord);
            },
        };
        let (first, second) = match check_pair(members, "commands", "period") {
            PairShape::Unknown { position } => {
                return Err(SchemaViolation::UnknownField { position });
            },
            PairShape::Repeated { position } => {
                return Err(SchemaViolation::RepeatedField { position });
            },
            PairShape::MissingFirst => {
                return Err(SchemaViolation::MissingCommands);
            },
            PairShape::MissingSecond => {
                return Err(SchemaViolation::MissingPeriod);
            },
            PairShape::Exact { first, second } => (first, second),
        };
        proof {
            reveal_strlit("commands");
            reveal_strlit("period");
            assert("commands"@.len() != "period"@.len());
            lemma_exact_pair(fields_of(members@), "commands"@, "period"@);
        }
        let items = match members[first].value.as_list() {
            Some(items) => items,
            None => {
                return Err(SchemaViolation::CommandsNotAList);
            },
        };
        let n: usize = items.len();
        if n == 0 {
            return Err(SchemaViolation::NoCommands);
        }
        let ghost docs = documents_of(items@);
        let ghost faulty = faulty_entry(docs);
        let mut commands: Vec<SpinCommandHelper> = Vec::new();
        let mut i: usize = 0;
        while i < n
            invariant
                i <= n,
                n == items@.len(),
                docs == documents_of(items@),
                faulty == faulty_entry(docs),
                commands@.len() == i,
                forall|k: int| 0 <= k < i ==> entry_of(docs[k]) == Ok::<SpinCommandHelper, EntryFault>(#[trigger] commands@[k]),
                least_from(0, n as int, faulty) == least_from(i as int, n as int, faulty),
            decreases n - i,
        {
            assert(docs[i as int] == items@[i as int]@);
            match SpinCommandHelper::deserialize(&items[i]) {
                Err(fault) => {
                    assert(faulty(i as int));
                    return Err(SchemaViolation::Entry { index: i, fault });
                },
                Ok(entry) => {
                    assert(!faulty(i as int));
                    commands.push(entry);
                },
            }
            i = i + 1;
        }
        assert(commands@ =~= entries_of(docs));
        match members[second].value.as_number() {
            None => Err(SchemaViolation::PeriodNotNumeric),
            Some(period) => Ok(SpinCommandsHelper { commands, period }),
        }
    }
}

impl MSpinCommands {
    /// Builds the typed message from a payload of the right shape, or says
    /// which of its numbers the message cannot hold.
    pub fn try_from(helper: SpinCommandsHelper) -> (message: Result<MSpinCommands, ConversionError>)
        ensures
            agrees(message, converted(helper@)),
    {
        let n: usize = helper.commands.len();
        let ghost faulty = faulty_command(helper.commands@);
        let mut commands: Vec<MSpinCommand> = Vec::new();
        let mut i: usize = 0;
        while i < n
            invariant
                i <= n,
                n == helper.commands@.len(),
                faulty == faulty_command(helper.commands@),
                commands@.len() == i,
                forall|k: int| 0 <= k < i ==> #[trigger] commands@[k] == typed_command(helper.commands@[k]),
                least_from(0, n as int, faulty) == least_from(i as int, n as int, faulty),
            decreases n - i,
        {
            let c = helper.commands[i];
            if !c.omega.is_finite() {
                assert(faulty(i as int));
                return Err(ConversionError::Command { index: i, fault: CommandFault::OmegaNotFinite });
            }
            if !c.duration.is_finite() {
                assert(faulty(i as int));
                return Err(
                    ConversionError::Command { index: i, fault: CommandFault::DurationNotFinite },
                );
            }
            if c.duration.is_negative() {
                assert(faulty(i as int));
                return Err(
                    ConversionError::Command { index: i, fault: CommandFault::DurationNegative },
                );
            }
            assert(!faulty(i as int));
            commands.push(MSpinCommand { omega: c.omega, duration: c.duration });
            i = i + 1;
        }
        assert(commands@ =~= helper.commands@.map_values(|c: SpinCommandHelper| typed_command(c)));
        if !helper.period.is_finite() {
            return Err(ConversionError::PeriodNotFinite);
        }
        if !helper.period.is_positive() {
            return Err(ConversionError::PeriodNotPositive);
        }
        Ok(MSpinCommands { commands, period: helper.period })
    }
}

impl MQTT2ROSData {
    /// Decodes a document: the closed schema first, the conversion after.
    pub fn deserialize(document: &Value) -> (message: Result<MQTT2ROSData, ValidationError>)
        ensures
            agrees(message, decoded(document@)),
    {
        let helper = match SpinCommandsHelper::deserialize(document) {
            Ok(helper) => helper,
            Err(violation) => {
                return Err(ValidationError::SchemaViolation(violation));
            },
        };
        match MSpinCommands::try_from(helper) {
            Ok(commands) => Ok(MQTT2ROSData::SpinCommands(commands)),
            Err(error) => Err(ValidationError::ConversionError(error)),
        }
    }

    /// Decodes a payload that was read as `parsed`, or could not be read.
    pub fn decode(parsed: Option<&Value>) -> (message: Result<MQTT2ROSData, ValidationError>)
        ensures
            agrees(
                message,
                decoded_payload(
                    match parsed {
                        Some(v) => Some(v@),
                        None => None,
                    },
                ),
            ),
    {
        match parsed {
            Some(document) => MQTT2ROSData::deserialize(document),
            None => Err(ValidationError::SchemaViolation(SchemaViolation::NoDocument)),
        }
    }
}

/// Whether a decoding ended in a schema violation.
pub open spec fn is_schema_violation(r: Result<InboundMessage, ValidationError>) -> bool {
    r matches Err(ValidationError::SchemaViolation(_))
}

/// What every typed message holds: at least one command, each with a finite
/// turning rate and a finite duration that is not negative, and a finite
/// period above zero.
pub open spec fn well_formed(m: SpinCommandsContent) -> bool {
    &&& m.commands.len() > 0
    &&& forall|k: int|
        0 <= k < m.commands.len() ==> (#[trigger] m.commands[k]).omega.finite()
            && m.commands[k].duration.finite() && !m.commands[k].duration.negative()
    &&& m.period.finite()
    &&& m.period.positive()
}

/// A value that is not a record is a schema violation.
pub proof fn lemma_not_a_record_rejected(doc: Document)
    requires
        !(doc is Record),
    ensures
        decoded(doc) == Err::<InboundMessage, ValidationError>(
            ValidationError::SchemaViolation(SchemaViolation::NotARecord),
        ),
{
}

/// A record with a field that is neither `commands` nor `period` is a schema
/// violation, whatever else it holds.
pub proof fn lemma_extra_field_rejected(fields: Seq<Field>, i: int)
    requires
        0 <= i < fields.len(),
        fields[i].name != "commands"@,
        fields[i].name != "period"@,
    ensures
        is_schema_violation(decoded(Document::Record(fields))),
{
    let bad = offence(fields, "commands"@, "period"@);
    lemma_least_from(0, fields.len() as int, bad);
    assert(unknown_at(fields, "commands"@, "period"@, i));
    assert(bad(i));
}

/// A record without a field `commands`, or without a field `period`, is a
/// schema violation.
pub proof fn lemma_missing_field_rejected(fields: Seq<Field>, name: Seq<char>)
    requires
        name == "commands"@ || name == "period"@,
        forall|i: int| 0 <= i < fields.len() ==> (#[trigger] fields[i]).name != name,
    ensures
        is_schema_violation(decoded(Document::Record(fields))),
{
    let n = fields.len() as int;
    lemma_least_from(0, n, named(fields, name));
    match least_from(0, n, named(fields, name)) {
        Some(k) => {
            assert(named(fields, name)(k));
            assert(fields[k].name == name);
        },
        None => {},
    }
}

/// A record whose `commands` is an empty list is a schema violation.
pub proof fn lemma_empty_commands_rejected(fields: Seq<Field>, i: int)
    requires
        0 <= i < fields.len(),
        fields[i].name == "commands"@,
        fields[i].value == Document::List(Seq::<Document>::empty()),
    ensures
        is_schema_violation(decoded(Document::Record(fields))),
{
    let n = fields.len() as int;
    let shape = pair_shape(fields, "commands"@, "period"@);
    if shape is Exact {
        reveal_strlit("commands");
        reveal_strlit("period");
        assert("commands"@.len() != "period"@.len());
        lemma_exact_pair(fields, "commands"@, "period"@);
        let first = shape->Exact_first as int;
        lemma_least_from(0, n, offence(fields, "commands"@, "period"@));
        lemma_least_from(0, n, named(fields, "commands"@));
        assert(named(fields, "commands"@)(first));
        assert(named(fields, "commands"@)(i));
        if first < i {
            assert(fields[first].name == fields[i].name);
            assert(repeated_at(fields, i));
            assert(offence(fields, "commands"@, "period"@)(i));
        }
        assert(first == i);
    }
}

/// Nothing that was only partly validated is accepted: an accepted document
/// is a record of exactly two fields, `commands` and `period`; `commands` is
/// a list with at least one entry, every entry a record of exactly two
/// numbers, `omega` and `duration`; `period` is a number; and the message
/// holds these numbers, in the order of the entries, all of them within the
/// limits of the typed message.
pub proof fn lemma_accepted_is_exact(doc: Document)
    requires
        decoded(doc) is Ok,
    ensures
        doc is Record,
        doc->Record_0.len() == 2,
        ({
            let fields = doc->Record_0;
            let c = pair_shape(fields, "commands"@, "period"@)->Exact_first as int;
            let p = pair_shape(fields, "commands"@, "period"@)->Exact_second as int;
            let m = decoded(doc)->Ok_0->SpinCommands_0;
            &&& 0 <= c < 2 && 0 <= p < 2 && c != p
            &&& fields[c].name == "commands"@
            &&& fields[p].name == "period"@
            &&& fields[c].value is List
            &&& fields[p].value == Document::Number(m.period)
            &&& m.commands.len() == fields[c].value->List_0.len()
            &&& forall|k: int|
                0 <= k < m.commands.len() ==> entry_of(#[trigger] fields[c].value->List_0[k])
                    == Ok::<SpinCommandHelper, EntryFault>(
                    SpinCommandHelper {
                        omega: m.commands[k].omega,
                        duration: m.commands[k].duration,
                    },
                )
            &&& well_formed(m)
        }),
{
    reveal_strlit("commands");
    reveal_strlit("period");
    assert("commands"@.len() != "period"@.len());
    let fields = doc->Record_0;
    lemma_exact_pair(fields, "commands"@, "period"@);
    let c = pair_shape(fields, "commands"@, "period"@)->Exact_first as int;
    let items = fields[c].value->List_0;
    let h = helper_of(doc)->Ok_0;
    lemma_least_from(0, items.len() as int, faulty_entry(items));
    lemma_least_from(0, h.commands.len() as int, faulty_command(h.commands));
    let m = decoded(doc)->Ok_0->SpinCommands_0;
    assert forall|k: int| 0 <= k < m.commands.len() implies entry_of(#[trigger] items[k]) == Ok::<
        SpinCommandHelper,
        EntryFault,
    >(SpinCommandHelper { omega: m.commands[k].omega, duration: m.commands[k].duration }) by {
        assert(!faulty_entry(items)(k));
        assert(h.commands[k] == entry_of(items[k])->Ok_0);
    }
    assert forall|k: int| 0 <= k < m.commands.len() implies (#[trigger] m.commands[k]).omega.finite()
        && m.commands[k].duration.finite() && !m.commands[k].duration.negative() by {
        assert(!faulty_command(h.commands)(k));
    }
}

/// The document of one command.
pub open spec fn entry_document(omega: Number, duration: Number) -> Document {
    Document::Record(
        seq![
            Field { name: "omega"@, value: Document::Number(omega) },
            Field { name: "duration"@, value: Document::Number(duration) },
        ],
    )
}

/// The document of a message: `commands` before `period`, and in each
/// command `omega` before `duration`.
pub open spec fn message_document(m: SpinCommandsContent) -> Document {
    Document::Record(
        seq![
            Field {
                name: "commands"@,
                value: Document::List(
                    Seq::new(
                        m.commands.len(),
                        |k: int| entry_document(m.commands[k].omega, m.commands[k].duration),
                    ),
                ),
            },
            Field { name: "period"@, value: Document::Number(m.period) },
        ],
    )
}

/// An entry with exactly the two numeric fields, `omega` first, is read as
/// the command of these two numbers.
pub proof fn lemma_entry_accepted(omega: Number, duration: Number)
    ensures
        entry_of(entry_document(omega, duration)) == Ok::<SpinCommandHelper, EntryFault>(
            SpinCommandHelper { omega, duration },
        ),
{
    reveal_strlit("omega");
    reveal_strlit("duration");
    assert("omega"@.len() != "duration"@.len());
    let fields = entry_document(omega, duration)->Record_0;
    reveal_with_fuel(least_from, 3);
    let bad = offence(fields, "omega"@, "duration"@);
    assert(!repeated_at(fields, 0));
    assert(!repeated_at(fields, 1)) by {
        assert(fields[0].name != fields[1].name);
    }
    assert(!bad(0));
    assert(!bad(1));
    assert(named(fields, "omega"@)(0));
    assert(!named(fields, "duration"@)(0));
    assert(named(fields, "duration"@)(1));
}

/// Every message within the limits is accepted: its document decodes to the
/// message itself.
pub proof fn lemma_valid_message_accepted(m: SpinCommandsContent)
    requires
        well_formed(m),
    ensures
        decoded(message_document(m)) == Ok::<InboundMessage, ValidationError>(
            InboundMessage::SpinCommands(m),
        ),
{
    reveal_strlit("commands");
    reveal_strlit("period");
    assert("commands"@.len() != "period"@.len());
    let doc = message_document(m);
    let fields = doc->Record_0;
    reveal_with_fuel(least_from, 3);
    let bad = offence(fields, "commands"@, "period"@);
    assert(!repeated_at(fields, 0));
    assert(!repeated_at(fields, 1)) by {
        assert(fields[0].name != fields[1].name);
    }
    assert(!bad(0));
    assert(!bad(1));
    assert(named(fields, "commands"@)(0));
    assert(!named(fields, "period"@)(0));
    assert(named(fields, "period"@)(1));
    assert(pair_shape(fields, "commands"@, "period"@) == (PairShape::Exact { first: 0, second: 1 }));
    let items = fields[0].value->List_0;
    assert forall|k: int| 0 <= k < items.len() implies !#[trigger] faulty_entry(items)(k) by {
        lemma_entry_accepted(m.commands[k].omega, m.commands[k].duration);
    }
    lemma_least_from(0, items.len() as int, faulty_entry(items));
    let h = helper_of(doc)->Ok_0;
    assert forall|k: int| 0 <= k < items.len() implies #[trigger] h.commands[k] == (SpinCommandHelper {
        omega: m.commands[k].omega,
        duration: m.commands[k].duration,
    }) by {
        lemma_entry_accepted(m.commands[k].omega, m.commands[k].duration);
    }
    assert forall|k: int| 0 <= k < h.commands.len() implies !#[trigger] faulty_command(h.commands)(
        k,
    ) by {
        assert(m.commands[k].omega.finite());
    }
    lemma_least_from(0, h.commands.len() as int, faulty_command(h.commands));
    assert(h.commands.map_values(|c: SpinCommandHelper| typed_command(c)) =~= m.commands);
}

} // verus!
