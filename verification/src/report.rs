//! Writing the introspection output: the counterpart of the parser.
//!
//! Nothing here runs. The module says what output stands for a given
//! configuration, and proves that the parser reads every such output back to
//! the configuration it was written for.

use vstd::prelude::*;

use crate::config::{InterpreterConfigView, PythonImplementation};
use crate::decimal::{decimal_text, lemma_decimal_text_reads_back};
use crate::error::{ErrorView, Field};
use crate::parser::{
    described, entry, field_error, fields, lemma_valid_output_is_read, parsed, record,
    required_fields, Fields,
};
use crate::text::{lemma_prefix_len_is, lines, without_carriage_return};

verus! {

/// A key with its value.
pub type Entry = (Seq<char>, Seq<char>);

/// Whether `key` can stand before the blank of a line: it holds neither a
/// blank nor a line feed.
pub open spec fn is_key(key: Seq<char>) -> bool {
    forall|i: int| 0 <= i < key.len() ==> #[trigger] key[i] != ' ' && key[i] != '\n'
}

/// Whether `value` can stand after the blank of a line and be read back
/// unchanged: it holds no line feed and does not end in a carriage return.
pub open spec fn is_value(value: Seq<char>) -> bool {
    &&& forall|i: int| 0 <= i < value.len() ==> #[trigger] value[i] != '\n'
    &&& value.len() > 0 ==> value.last() != '\r'
}

/// The line for one entry, without its line feed.
pub open spec fn entry_line(e: Entry) -> Seq<char> {
    e.0 + seq![' '] + e.1
}

/// The output with one line for each of `entries`, in their order.
pub open spec fn printed_lines(entries: Seq<Entry>) -> Seq<char>
    decreases entries.len(),
{
    if entries.len() == 0 {
        Seq::empty()
    } else {
        entry_line(entries.first()) + seq!['\n'] + printed_lines(entries.drop_first())
    }
}

/// The keys of `entries` with their values; of two entries with one key the
/// later one counts.
pub open spec fn table(entries: Seq<Entry>) -> Fields
    decreases entries.len(),
{
    if entries.len() == 0 {
        Map::empty()
    } else {
        table(entries.drop_last()).insert(entries.last().0, entries.last().1)
    }
}

/// The text of a flag.
pub open spec fn flag_text(flag: bool) -> Seq<char> {
    if flag {
        "True"@
    } else {
        "False"@
    }
}

/// What an interpreter with the configuration `config` prints: one entry
/// for each field, and none for `libdir` where there is no such directory.
pub open spec fn report(config: InterpreterConfigView) -> Seq<Entry> {
    seq![
        (Field::VersionMajor.spec_name(), decimal_text(config.version.major as nat)),
        (Field::VersionMinor.spec_name(), decimal_text(config.version.minor as nat)),
        (Field::Implementation.spec_name(), config.version.implementation.spec_name()),
    ] + match config.libdir {
        Some(dir) => seq![(Field::Libdir.spec_name(), dir)],
        None => Seq::empty(),
    } + seq![
        (Field::LdVersion.spec_name(), config.ld_version),
        (Field::BasePrefix.spec_name(), config.base_prefix),
        (Field::Shared.spec_name(), flag_text(config.shared)),
        (Field::Executable.spec_name(), config.executable),
        (Field::CalcsizePointer.spec_name(), decimal_text(config.calcsize_pointer as nat)),
    ]
}

/// The output of an interpreter with the configuration `config`.
pub open spec fn rendered(config: InterpreterConfigView) -> Seq<char> {
    printed_lines(report(config))
}

/// Whether every text of `config` can be printed and read back unchanged.
pub open spec fn printable(config: InterpreterConfigView) -> bool {
    &&& is_value(config.ld_version)
    &&& is_value(config.base_prefix)
    &&& is_value(config.executable)
    &&& config.libdir matches Some(dir) ==> is_value(dir)
}

/// A line that holds no line feed, followed by a line feed and more text,
/// is the first line of the whole.
pub proof fn lemma_lines_after_line(line: Seq<char>, rest: Seq<char>)
    requires
        forall|i: int| 0 <= i < line.len() ==> line[i] != '\n',
    ensures
        lines(line + seq!['\n'] + rest) == seq![without_carriage_return(line)] + lines(rest),
{
    let text = line + seq!['\n'] + rest;
    let at = line.len() as int;
    assert forall|j: int| 0 <= j < at implies text[j] != '\n' by {
        assert(text[j] == line[j]);
    }
    lemma_prefix_len_is(text, '\n', at);
    assert(text.take(at) =~= line);
    assert(text.skip(at + 1) =~= rest);
}

/// A key, a blank and a value make a line that gives that key and value.
pub proof fn lemma_entry_of_line(e: Entry)
    requires
        is_key(e.0),
    ensures
        entry(entry_line(e)) == Some(e),
{
    let line = entry_line(e);
    let at = e.0.len() as int;
    assert forall|j: int| 0 <= j < at implies line[j] != ' ' by {
        assert(line[j] == e.0[j]);
    }
    lemma_prefix_len_is(line, ' ', at);
    assert(line.take(at) =~= e.0);
    assert(line.skip(at + 1) =~= e.1);
}

/// The lines of a printed output are the lines of its entries.
pub proof fn lemma_lines_of_printed(entries: Seq<Entry>)
    requires
        forall|i: int|
            0 <= i < entries.len() ==> is_key((#[trigger] entries[i]).0) && is_value(entries[i].1),
    ensures
        lines(printed_lines(entries)) == Seq::new(entries.len(), |i: int| entry_line(entries[i])),
    decreases entries.len(),
{
    if entries.len() > 0 {
        let first = entries.first();
        let rest = entries.drop_first();
        let line = entry_line(first);
        assert forall|i: int| 0 <= i < rest.len() implies is_key((#[trigger] rest[i]).0)
            && is_value(rest[i].1) by {
            assert(rest[i] == entries[i + 1]);
        }
        lemma_lines_of_printed(rest);
        assert forall|i: int| 0 <= i < line.len() implies line[i] != '\n' by {
            if i < first.0.len() {
                assert(line[i] == first.0[i]);
            } else if i > first.0.len() {
                assert(line[i] == first.1[i - first.0.len() - 1]);
            }
        }
        lemma_lines_after_line(line, printed_lines(rest));
        assert(without_carriage_return(line) == line) by {
            if first.1.len() > 0 {
                assert(line.last() == first.1.last());
            } else {
                assert(line.last() == ' ');
            }
        }
    }
}

/// Reading a printed output gives back the entries it was printed from.
pub proof fn lemma_printed_lines_are_read(entries: Seq<Entry>)
    requires
        forall|i: int|
            0 <= i < entries.len() ==> is_key((#[trigger] entries[i]).0) && is_value(entries[i].1),
    ensures
        fields(printed_lines(entries)) == table(entries),
{
    lemma_lines_of_printed(entries);
    lemma_record_of_entry_lines(entries);
}

/// Lines made of entries say what the entries say.
proof fn lemma_record_of_entry_lines(entries: Seq<Entry>)
    requires
        forall|i: int| 0 <= i < entries.len() ==> is_key((#[trigger] entries[i]).0),
    ensures
        record(Seq::new(entries.len(), |i: int| entry_line(entries[i]))) == table(entries),
    decreases entries.len(),
{
    let all = Seq::new(entries.len(), |i: int| entry_line(entries[i]));
    if entries.len() > 0 {
        let front = entries.drop_last();
        assert forall|i: int| 0 <= i < front.len() implies is_key((#[trigger] front[i]).0) by {
            assert(front[i] == entries[i]);
        }
        lemma_record_of_entry_lines(front);
        assert(all.drop_last() =~= Seq::new(front.len(), |i: int| entry_line(front[i])));
        lemma_entry_of_line(entries.last());
    }
}

/// The names of the fields are keys.
pub proof fn lemma_field_names_are_keys(field: Field)
    ensures
        is_key(field.spec_name()),
{
    reveal_strlit("version_major");
    reveal_strlit("version_minor");
    reveal_strlit("implementation");
    reveal_strlit("libdir");
    reveal_strlit("shared");
    reveal_strlit("ld_version");
    reveal_strlit("base_prefix");
    reveal_strlit("executable");
    reveal_strlit("calcsize_pointer");
}

/// No two fields have one name.
pub proof fn lemma_field_names_differ(a: Field, b: Field)
    requires
        a != b,
    ensures
        a.spec_name() != b.spec_name(),
{
    reveal_strlit("version_major");
    reveal_strlit("version_minor");
    reveal_strlit("implementation");
    reveal_strlit("libdir");
    reveal_strlit("shared");
    reveal_strlit("ld_version");
    reveal_strlit("base_prefix");
    reveal_strlit("executable");
    reveal_strlit("calcsize_pointer");
    let x = a.spec_name();
    let y = b.spec_name();
    if x.len() == y.len() {
        assert(x[0] != y[0] || x[9] != y[9]);
    }
}

/// The texts that are printed for numbers, flags and implementations are
/// values, and only the flag that is set is printed as `True`.
proof fn lemma_printed_values(n: nat, flag: bool, implementation: PythonImplementation)
    ensures
        is_value(decimal_text(n)),
        is_value(flag_text(flag)),
        is_value(implementation.spec_name()),
        flag_text(flag) == "True"@ <==> flag,
{
    lemma_decimal_text_reads_back(n);
    reveal_strlit("True");
    reveal_strlit("False");
    reveal_strlit("CPython");
    reveal_strlit("PyPy");
}

/// Every entry of a report can be printed and read back.
proof fn lemma_report_is_printable(config: InterpreterConfigView)
    requires
        printable(config),
    ensures
        forall|i: int|
            0 <= i < report(config).len() ==> is_key((#[trigger] report(config)[i]).0) && is_value(
                report(config)[i].1,
            ),
{
    lemma_printed_values(
        config.version.major as nat,
        config.shared,
        config.version.implementation,
    );
    lemma_printed_values(
        config.version.minor as nat,
        config.shared,
        config.version.implementation,
    );
    lemma_printed_values(
        config.calcsize_pointer as nat,
        config.shared,
        config.version.implementation,
    );
    assert forall|field: Field| is_key(#[trigger] field.spec_name()) by {
        lemma_field_names_are_keys(field);
    }
}

/// What a field stands for in the report of `config`, if it stands in it.
pub open spec fn reported(config: InterpreterConfigView, field: Field) -> Option<Seq<char>> {
    match field {
        Field::VersionMajor => Some(decimal_text(config.version.major as nat)),
        Field::VersionMinor => Some(decimal_text(config.version.minor as nat)),
        Field::Implementation => Some(config.version.implementation.spec_name()),
        Field::Libdir => config.libdir,
        Field::Shared => Some(flag_text(config.shared)),
        Field::LdVersion => Some(config.ld_version),
        Field::BasePrefix => Some(config.base_prefix),
        Field::Executable => Some(config.executable),
        Field::CalcsizePointer => Some(decimal_text(config.calcsize_pointer as nat)),
    }
}

/// The report of `config` holds for each field what `reported` says.
pub proof fn lemma_table_of_report(config: InterpreterConfigView, field: Field)
    ensures
        table(report(config)).contains_key(field.spec_name()) <==> reported(config, field) is Some,
        reported(config, field) matches Some(value) ==> table(report(config))[field.spec_name()]
            == value,
{
    assert forall|a: Field, b: Field| a != b implies a.spec_name() != b.spec_name() by {
        lemma_field_names_differ(a, b);
    }
    reveal_with_fuel(table, 10);
}

/// The output of an interpreter is read back to the configuration that it
/// was written for.
pub proof fn lemma_rendered_is_read_back(config: InterpreterConfigView)
    requires
        printable(config),
    ensures
        parsed(rendered(config)) == Ok::<InterpreterConfigView, ErrorView>(config),
{
    let text = rendered(config);
    lemma_report_is_printable(config);
    lemma_printed_lines_are_read(report(config));
    assert(fields(text) == table(report(config)));
    assert forall|field: Field|
        fields(text).contains_key(#[trigger] field.spec_name()) == (reported(config, field) is Some)
            && (reported(config, field) matches Some(value) ==> fields(text)[field.spec_name()]
            == value) by {
        lemma_table_of_report(config, field);
    }
    lemma_decimal_text_reads_back(config.version.major as nat);
    lemma_decimal_text_reads_back(config.version.minor as nat);
    lemma_decimal_text_reads_back(config.calcsize_pointer as nat);
    config.version.implementation.lemma_named_by_name();
    lemma_printed_values(0, config.shared, config.version.implementation);
    assert forall|at: int| 0 <= at < required_fields().len() implies field_error(
        text,
        #[trigger] required_fields()[at],
    ) is None by {
        assert(reported(config, required_fields()[at]) is Some);
    }
    lemma_valid_output_is_read(text);
    assert(reported(config, Field::Libdir) == config.libdir);
    assert(described(text) == config);
}

} // verus!
