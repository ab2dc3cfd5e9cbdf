//! Reading the introspection output.
//!
//! The output is text with one `key value` pair per line. A line is cut at
//! its first blank: what stands before is the key, what stands after is the
//! value, blanks included. A line without a blank says nothing. Where a key
//! stands on several lines, the last one counts.

use vstd::hash_map::StringHashMap;
use vstd::prelude::*;

use crate::config::{InterpreterConfig, InterpreterConfigView, PythonImplementation, PythonVersion};
use crate::decimal::{decimal, decimal_up_to, parse_u32, parse_u8};
use crate::error::{result_view, Error, ErrorView, Field, ValueKind};
use crate::text::{cut, lines, same_text, split_lines, split_once, views};

verus! {

/// What the keys of an output stand for: each key with its value.
pub type Fields = Map<Seq<char>, Seq<char>>;

/// The key and the value that `line` gives, if it gives any.
pub open spec fn entry(line: Seq<char>) -> Option<(Seq<char>, Seq<char>)> {
    cut(line, ' ')
}

/// `fields` after `line` has been read.
pub open spec fn with_line(fields: Fields, line: Seq<char>) -> Fields {
    match entry(line) {
        Some((key, value)) => fields.insert(key, value),
        None => fields,
    }
}

/// What the given lines say, read from the first to the last.
pub open spec fn record(lines: Seq<Seq<char>>) -> Fields
    decreases lines.len(),
{
    if lines.len() == 0 {
        Map::empty()
    } else {
        with_line(record(lines.drop_last()), lines.last())
    }
}

/// What the output `text` says.
pub open spec fn fields(text: Seq<char>) -> Fields {
    record(lines(text))
}

/// The one value that makes a flag true.
pub open spec fn is_true(value: Seq<char>) -> bool {
    value == "True"@
}

/// Whether `value` can be read as the type that `field` has.
pub open spec fn well_formed(field: Field, value: Seq<char>) -> bool {
    match field.spec_kind() {
        ValueKind::U8 => decimal_up_to(value, u8::MAX as nat) is Some,
        ValueKind::U32 => decimal_up_to(value, u32::MAX as nat) is Some,
        ValueKind::Implementation => PythonImplementation::named(value) is Some,
        ValueKind::Flag | ValueKind::Text => true,
    }
}

/// What is wrong with `field` in the output `text`, if anything is: it is
/// missing, or its value is not well formed.
pub open spec fn field_error(text: Seq<char>, field: Field) -> Option<ErrorView> {
    let found = fields(text);
    if !found.contains_key(field.spec_name()) {
        Some(ErrorView::MissingField { field, output: text })
    } else if !well_formed(field, found[field.spec_name()]) {
        Some(
            ErrorView::MalformedField {
                field,
                value: found[field.spec_name()],
                expected: field.spec_kind(),
            },
        )
    } else {
        None
    }
}

/// The required fields, in the order in which they are read.
pub open spec fn required_fields() -> Seq<Field> {
    seq![
        Field::VersionMajor,
        Field::VersionMinor,
        Field::Implementation,
        Field::Shared,
        Field::LdVersion,
        Field::BasePrefix,
        Field::Executable,
        Field::CalcsizePointer,
    ]
}

/// The error of the first of `order` that has one.
pub open spec fn first_error(text: Seq<char>, order: Seq<Field>) -> Option<ErrorView>
    decreases order.len(),
{
    if order.len() == 0 {
        None
    } else {
        match field_error(text, order.first()) {
            Some(error) => Some(error),
            None => first_error(text, order.drop_first()),
        }
    }
}

/// The configuration that the output `text` describes, given that no
/// required field has an error.
pub open spec fn described(text: Seq<char>) -> InterpreterConfigView {
    let found = fields(text);
    InterpreterConfigView {
        version: PythonVersion {
            major: decimal_up_to(found[Field::VersionMajor.spec_name()], u8::MAX as nat).unwrap() as u8,
            minor: decimal_up_to(found[Field::VersionMinor.spec_name()], u8::MAX as nat).unwrap() as u8,
            implementation: PythonImplementation::named(
                found[Field::Implementation.spec_name()],
            ).unwrap(),
        },
        libdir: if found.contains_key(Field::Libdir.spec_name()) {
            Some(found[Field::Libdir.spec_name()])
        } else {
            None
        },
        shared: is_true(found[Field::Shared.spec_name()]),
        ld_version: found[Field::LdVersion.spec_name()],
        base_prefix: found[Field::BasePrefix.spec_name()],
        executable: found[Field::Executable.spec_name()],
        calcsize_pointer: decimal_up_to(
            found[Field::CalcsizePointer.spec_name()],
            u32::MAX as nat,
        ).unwrap() as u32,
    }
}

/// What reading the output `text` gives: the configuration it describes, or
/// the error of the first required field that has one.
pub open spec fn parsed(text: Seq<char>) -> Result<InterpreterConfigView, ErrorView> {
    match first_error(text, required_fields()) {
        Some(error) => Err(error),
        None => Ok(described(text)),
    }
}

/// When no field before place `at` has an error, `first_error` gives the
/// error of the field at `at`, or else that of the first later field that
/// has one.
pub proof fn lemma_first_error_at(text: Seq<char>, order: Seq<Field>, at: int)
    requires
        0 <= at < order.len(),
        forall|before: int| 0 <= before < at ==> field_error(text, #[trigger] order[before]) is None,
    ensures
        first_error(text, order) == match field_error(text, order[at]) {
            Some(error) => Some(error),
            None => first_error(text, order.skip(at + 1)),
        },
    decreases at,
{
    if at > 0 {
        let rest = order.drop_first();
        assert forall|before: int| 0 <= before < at - 1 implies field_error(
            text,
            #[trigger] rest[before],
        ) is None by {
            assert(rest[before] == order[before + 1]);
        }
        lemma_first_error_at(text, rest, at - 1);
        assert(rest.skip(at) =~= order.skip(at + 1));
    }
}

/// An output in which every required field is there and can be read is
/// accepted, and each part of the configuration is what the output gives for
/// its field: the number that the value writes, the implementation that it
/// names, or the value as it stands.
pub proof fn lemma_valid_output_is_read(text: Seq<char>)
    requires
        forall|at: int|
            0 <= at < required_fields().len() ==> field_error(
                text,
                #[trigger] required_fields()[at],
            ) is None,
    ensures
        parsed(text) == Ok::<InterpreterConfigView, ErrorView>(described(text)),
        described(text).version.major as nat == decimal(
            fields(text)[Field::VersionMajor.spec_name()],
        ).unwrap(),
        described(text).version.minor as nat == decimal(
            fields(text)[Field::VersionMinor.spec_name()],
        ).unwrap(),
        described(text).version.implementation.spec_name() == fields(
            text,
        )[Field::Implementation.spec_name()],
        described(text).libdir is Some <==> fields(text).contains_key(Field::Libdir.spec_name()),
        described(text).libdir matches Some(dir) ==> dir == fields(text)[Field::Libdir.spec_name()],
        described(text).shared <==> fields(text)[Field::Shared.spec_name()] == "True"@,
        described(text).ld_version == fields(text)[Field::LdVersion.spec_name()],
        described(text).base_prefix == fields(text)[Field::BasePrefix.spec_name()],
        described(text).executable == fields(text)[Field::Executable.spec_name()],
        described(text).calcsize_pointer as nat == decimal(
            fields(text)[Field::CalcsizePointer.spec_name()],
        ).unwrap(),
{
    reveal_with_fuel(first_error, 9);
}

/// An output that lacks the required field at place `at` of the reading
/// order is refused with `MissingField` for exactly that field, given that
/// the fields read before it are there and can be read.
pub proof fn lemma_missing_field_is_named(text: Seq<char>, at: int)
    requires
        0 <= at < required_fields().len(),
        !fields(text).contains_key(required_fields()[at].spec_name()),
        forall|before: int|
            0 <= before < at ==> field_error(text, #[trigger] required_fields()[before]) is None,
    ensures
        parsed(text) == Err::<InterpreterConfigView, ErrorView>(
            ErrorView::MissingField { field: required_fields()[at], output: text },
        ),
{
    lemma_first_error_at(text, required_fields(), at);
}

/// An output whose implementation is neither of the two known names is
/// refused with `MalformedField`, given that the two fields read before it
/// are there. If those two can be read, the error is that of the
/// implementation, with the name that was found.
pub proof fn lemma_unknown_implementation_is_refused(text: Seq<char>)
    requires
        fields(text).contains_key(Field::VersionMajor.spec_name()),
        fields(text).contains_key(Field::VersionMinor.spec_name()),
        fields(text).contains_key(Field::Implementation.spec_name()),
        PythonImplementation::named(fields(text)[Field::Implementation.spec_name()]) is None,
    ensures
        parsed(text) matches Err(error) && error is MalformedField,
        well_formed(Field::VersionMajor, fields(text)[Field::VersionMajor.spec_name()])
            && well_formed(Field::VersionMinor, fields(text)[Field::VersionMinor.spec_name()])
            ==> parsed(text) == Err::<InterpreterConfigView, ErrorView>(
            ErrorView::MalformedField {
                field: Field::Implementation,
                value: fields(text)[Field::Implementation.spec_name()],
                expected: ValueKind::Implementation,
            },
        ),
{
    reveal_with_fuel(first_error, 4);
}

/// In a configuration that was read, `shared` is true if and only if the
/// value of its field is exactly `True`.
pub proof fn lemma_shared_only_for_true(text: Seq<char>)
    ensures
        parsed(text) matches Ok(config) ==> (config.shared <==> fields(
            text,
        )[Field::Shared.spec_name()] == "True"@),
{
}

/// Whether `table` holds exactly the keys of `found`, each with its value.
spec fn holds(table: Map<Seq<char>, &str>, found: Fields) -> bool {
    &&& table.dom() == found.dom()
    &&& forall|key: Seq<char>| #[trigger] table.contains_key(key) ==> table[key]@ == found[key]
}

/// Reads a flag: true for `True`, false for any other value.
pub fn parse_flag(value: &str) -> (flag: bool)
    ensures
        flag == is_true(value@),
{
    same_text(value, "True")
}

/// Cuts `line` into its key and its value.
pub fn split_entry<'a>(line: &'a str) -> (parts: Option<(&'a str, &'a str)>)
    ensures
        match parts {
            Some((key, value)) => entry(line@) == Some((key@, value@)),
            None => entry(line@) is None,
        },
{
    split_once(line, ' ')
}

/// Collects what the output says, key by key.
fn read_fields<'a>(output: &'a str) -> (table: StringHashMap<&'a str>)
    ensures
        holds(table@, fields(output@)),
{
    let all = split_lines(output);
    let mut table: StringHashMap<&'a str> = StringHashMap::new();
    let mut at: usize = 0;
    while at < all.len()
        invariant
            at <= all.len(),
            holds(table@, record(views(all@).take(at as int))),
        decreases all.len() - at,
    {
        let line = all[at];
        proof {
            let longer = views(all@).take(at + 1);
            assert(longer.drop_last() =~= views(all@).take(at as int));
        }
        match split_entry(line) {
            Some((key, value)) => {
                table.insert(key.to_owned(), value);
            },
            None => {},
        }
        at += 1;
    }
    proof {
        assert(views(all@).take(at as int) =~= views(all@));
    }
    table
}

/// Looks up a required field.
fn required<'a>(table: &StringHashMap<&'a str>, field: Field, output: &str) -> (value: Result<
    &'a str,
    Error,
>)
    requires
        holds(table@, fields(output@)),
    ensures
        match value {
            Ok(text) => fields(output@).contains_key(field.spec_name()) && text@ == fields(
                output@,
            )[field.spec_name()],
            Err(error) => !fields(output@).contains_key(field.spec_name()) && error@
                == (ErrorView::MissingField { field, output: output@ }),
        },
{
    match table.get(field.name()) {
        Some(value) => Ok(*value),
        None => Err(Error::MissingField { field, output: output.to_owned() }),
    }
}

/// The error for a value of `field` that cannot be read.
fn malformed(field: Field, value: &str) -> (error: Error)
    ensures
        error@ == (ErrorView::MalformedField {
            field,
            value: value@,
            expected: field.spec_kind(),
        }),
{
    Error::MalformedField { field, value: value.to_owned(), expected: field.kind() }
}

/// Reads the value of a field that holds a number of eight bits.
fn read_u8(field: Field, value: &str) -> (number: Result<u8, Error>)
    requires
        field.spec_kind() == ValueKind::U8,
    ensures
        match number {
            Ok(n) => decimal_up_to(value@, u8::MAX as nat) == Some(n as nat),
            Err(error) => !well_formed(field, value@) && error@ == (ErrorView::MalformedField {
                field,
                value: value@,
                expected: ValueKind::U8,
            }),
        },
{
    match parse_u8(value) {
        Some(n) => Ok(n),
        None => Err(malformed(field, value)),
    }
}

/// Reads the value of a field that holds a number of thirty-two bits.
fn read_u32(field: Field, value: &str) -> (number: Result<u32, Error>)
    requires
        field.spec_kind() == ValueKind::U32,
    ensures
        match number {
            Ok(n) => decimal_up_to(value@, u32::MAX as nat) == Some(n as nat),
            Err(error) => !well_formed(field, value@) && error@ == (ErrorView::MalformedField {
                field,
                value: value@,
                expected: ValueKind::U32,
            }),
        },
{
    match parse_u32(value) {
        Some(n) => Ok(n),
        None => Err(malformed(field, value)),
    }
}

/// Reads the value of the field that names the implementation.
fn read_implementation(value: &str) -> (implementation: Result<PythonImplementation, Error>)
    ensures
        match implementation {
            Ok(known) => PythonImplementation::named(value@) == Some(known),
            Err(error) => PythonImplementation::named(value@) is None && error@
                == (ErrorView::MalformedField {
                field: Field::Implementation,
                value: value@,
                expected: ValueKind::Implementation,
            }),
        },
{
    match PythonImplementation::from_name(value) {
        Some(known) => Ok(known),
        None => Err(malformed(Field::Implementation, value)),
    }
}

/// Reads the output of the introspection script.
///
/// The required fields are looked up and read one after the other, in the
/// order of [`required_fields`]; the first that is missing or cannot be read
/// ends the reading with its error. No configuration is made from a part of
/// the fields.
pub fn parse_config(output: &str) -> (config: Result<InterpreterConfig, Error>)
    ensures
        result_view(config) == parsed(output@),
{
    proof {
        reveal_with_fuel(first_error, 9);
    }
    let table = read_fields(output);
    let major = read_u8(Field::VersionMajor, required(&table, Field::VersionMajor, output)?)?;
    let minor = read_u8(Field::VersionMinor, required(&table, Field::VersionMinor, output)?)?;
    let implementation = read_implementation(required(&table, Field::Implementation, output)?)?;
    let libdir = match table.get(Field::Libdir.name()) {
        Some(value) => Some((*value).to_owned()),
        None => None,
    };
    let shared = parse_flag(required(&table, Field::Shared, output)?);
    let ld_version = required(&table, Field::LdVersion, output)?.to_owned();
    let base_prefix = required(&table, Field::BasePrefix, output)?.to_owned();
    let executable = required(&table, Field::Executable, output)?.to_owned();
    let calcsize_pointer = read_u32(
        Field::CalcsizePointer,
        required(&table, Field::CalcsizePointer, output)?,
    )?;
    Ok(
        InterpreterConfig {
            version: PythonVersion { major, minor, implementation },
            libdir,
            shared,
            ld_version,
            base_prefix,
            executable,
            calcsize_pointer,
        },
    )
}

} // verus!
