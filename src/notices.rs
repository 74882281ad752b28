//! Verbosity levels and the diagnostic records (notices) that a server emits
//! while a statement runs.

use vstd::prelude::*;

use crate::text::{lower_of, lowercase, same_text};

verus! {

/// Error/notice verbosity level: how much detail error texts and notices carry.
#[derive(Clone, Copy, Debug, PartialEq, Eq, Structural)]
pub enum Verbosity {
    Terse,
    Default,
    Verbose,
    Sqlstate,
}

/// The level that a lower-case word names; any other word names `Default`.
pub open spec fn verbosity_of_word(w: Seq<char>) -> Verbosity {
    if w == "terse"@ {
        Verbosity::Terse
    } else if w == "verbose"@ {
        Verbosity::Verbose
    } else if w == "sqlstate"@ {
        Verbosity::Sqlstate
    } else {
        Verbosity::Default
    }
}

/// The name of a level, as the level's `Debug` form writes it.
pub open spec fn verbosity_name(v: Verbosity) -> Seq<char> {
    match v {
        Verbosity::Terse => "Terse"@,
        Verbosity::Default => "Default"@,
        Verbosity::Verbose => "Verbose"@,
        Verbosity::Sqlstate => "Sqlstate"@,
    }
}

impl Verbosity {
    /// The level named by an already lower-cased word: "terse", "default",
    /// "verbose" or "sqlstate"; any other word, the empty one included,
    /// gives `Default`.
    pub fn from_lowercase(word: &str) -> (r: Verbosity)
        ensures
            r == verbosity_of_word(word@),
    {
        if same_text(word, "terse") {
            Verbosity::Terse
        } else if same_text(word, "verbose") {
            Verbosity::Verbose
        } else if same_text(word, "sqlstate") {
            Verbosity::Sqlstate
        } else {
            Verbosity::Default
        }
    }

    /// The level named by `word`, compared without regard to case.
    pub fn parse(word: &str) -> (r: Verbosity)
        ensures
            r == verbosity_of_word(lower_of(word@)),
    {
        let lower = lowercase(word);
        Verbosity::from_lowercase(lower.as_str())
    }

    /// The level's name: "Terse", "Default", "Verbose" or "Sqlstate".
    pub fn name(&self) -> (r: String)
        ensures
            r@ == verbosity_name(*self),
    {
        match self {
            Verbosity::Terse => String::from_str("Terse"),
            Verbosity::Default => String::from_str("Default"),
            Verbosity::Verbose => String::from_str("Verbose"),
            Verbosity::Sqlstate => String::from_str("Sqlstate"),
        }
    }
}

/// A field of a diagnostic record.
#[derive(Clone, Copy, Debug, PartialEq, Eq, Structural)]
pub enum DiagField {
    Severity,
    SeverityNonlocalized,
    Sqlstate,
    MessagePrimary,
    MessageDetail,
    MessageHint,
    StatementPosition,
    InternalPosition,
    InternalQuery,
    Context,
    SchemaName,
    TableName,
    ColumnName,
    DatatypeName,
    ConstraintName,
    SourceFile,
    SourceLine,
    SourceFunction,
}

/// The byte that identifies a field in the protocol's error and notice
/// messages.
pub open spec fn field_code(f: DiagField) -> u8 {
    match f {
        DiagField::Severity => 0x53u8,
        DiagField::SeverityNonlocalized => 0x56u8,
        DiagField::Sqlstate => 0x43u8,
        DiagField::MessagePrimary => 0x4du8,
        DiagField::MessageDetail => 0x44u8,
        DiagField::MessageHint => 0x48u8,
        DiagField::StatementPosition => 0x50u8,
        DiagField::InternalPosition => 0x70u8,
        DiagField::InternalQuery => 0x71u8,
        DiagField::Context => 0x57u8,
        DiagField::SchemaName => 0x73u8,
        DiagField::TableName => 0x74u8,
        DiagField::ColumnName => 0x63u8,
        DiagField::DatatypeName => 0x64u8,
        DiagField::ConstraintName => 0x6eu8,
        DiagField::SourceFile => 0x46u8,
        DiagField::SourceLine => 0x4cu8,
        DiagField::SourceFunction => 0x52u8,
    }
}

/// The label under which a field is reported.
pub open spec fn field_label(f: DiagField) -> Seq<char> {
    match f {
        DiagField::Severity => "severity"@,
        DiagField::SeverityNonlocalized => "severity_nonlocalized"@,
        DiagField::Sqlstate => "sqlstate"@,
        DiagField::MessagePrimary => "message"@,
        DiagField::MessageDetail => "detail"@,
        DiagField::MessageHint => "hint"@,
        DiagField::StatementPosition => "statement_position"@,
        DiagField::InternalPosition => "internal_position"@,
        DiagField::InternalQuery => "internal_query"@,
        DiagField::Context => "context"@,
        DiagField::SchemaName => "schema_name"@,
        DiagField::TableName => "table_name"@,
        DiagField::ColumnName => "column_name"@,
        DiagField::DatatypeName => "datatype_name"@,
        DiagField::ConstraintName => "constraint_name"@,
        DiagField::SourceFile => "source_file"@,
        DiagField::SourceLine => "source_line"@,
        DiagField::SourceFunction => "source_function"@,
    }
}

impl DiagField {
    /// The byte that identifies this field in the protocol.
    pub fn code(&self) -> (r: u8)
        ensures
            r == field_code(*self),
    {
        match self {
            DiagField::Severity => 0x53u8,
            DiagField::SeverityNonlocalized => 0x56u8,
            DiagField::Sqlstate => 0x43u8,
            DiagField::MessagePrimary => 0x4du8,
            DiagField::MessageDetail => 0x44u8,
            DiagField::MessageHint => 0x48u8,
            DiagField::StatementPosition => 0x50u8,
            DiagField::InternalPosition => 0x70u8,
            DiagField::InternalQuery => 0x71u8,
            DiagField::Context => 0x57u8,
            DiagField::SchemaName => 0x73u8,
            DiagField::TableName => 0x74u8,
            DiagField::ColumnName => 0x63u8,
            DiagField::DatatypeName => 0x64u8,
            DiagField::ConstraintName => 0x6eu8,
            DiagField::SourceFile => 0x46u8,
            DiagField::SourceLine => 0x4cu8,
            DiagField::SourceFunction => 0x52u8,
        }
    }

    /// The label under which this field is reported.
    pub fn label(&self) -> (r: &'static str)
        ensures
            r@ == field_label(*self),
    {
        match self {
            DiagField::Severity => "severity",
            DiagField::SeverityNonlocalized => "severity_nonlocalized",
            DiagField::Sqlstate => "sqlstate",
            DiagField::MessagePrimary => "message",
            DiagField::MessageDetail => "detail",
            DiagField::MessageHint => "hint",
            DiagField::StatementPosition => "statement_position",
            DiagField::InternalPosition => "internal_position",
            DiagField::InternalQuery => "internal_query",
            DiagField::Context => "context",
            DiagField::SchemaName => "schema_name",
            DiagField::TableName => "table_name",
            DiagField::ColumnName => "column_name",
            DiagField::DatatypeName => "datatype_name",
            DiagField::ConstraintName => "constraint_name",
            DiagField::SourceFile => "source_file",
            DiagField::SourceLine => "source_line",
            DiagField::SourceFunction => "source_function",
        }
    }
}

/// The fields that a notice carries at each verbosity, in the order in which
/// they are read.
pub open spec fn diag_fields(v: Verbosity) -> Seq<DiagField> {
    match v {
        Verbosity::Terse => seq![DiagField::Severity, DiagField::MessagePrimary, DiagField::Sqlstate],
        Verbosity::Default => seq![
            DiagField::Severity,
            DiagField::Sqlstate,
            DiagField::MessagePrimary,
            DiagField::MessageDetail,
            DiagField::MessageHint,
        ],
        Verbosity::Verbose => seq![
            DiagField::Severity,
            DiagField::SeverityNonlocalized,
            DiagField::Sqlstate,
            DiagField::MessagePrimary,
            DiagField::MessageDetail,
            DiagField::MessageHint,
            DiagField::StatementPosition,
            DiagField::InternalPosition,
            DiagField::InternalQuery,
            DiagField::Context,
            DiagField::SchemaName,
            DiagField::TableName,
            DiagField::ColumnName,
            DiagField::DatatypeName,
            DiagField::ConstraintName,
            DiagField::SourceFile,
            DiagField::SourceLine,
            DiagField::SourceFunction,
        ],
        Verbosity::Sqlstate => seq![DiagField::Severity, DiagField::Sqlstate],
    }
}

/// The fields that a notice carries at verbosity `v`, in reading order.
pub fn diagnostic_fields(v: Verbosity) -> (r: Vec<DiagField>)
    ensures
        r@ == diag_fields(v),
{
    let r = match v {
        Verbosity::Terse => vec![DiagField::Severity, DiagField::MessagePrimary, DiagField::Sqlstate],
        Verbosity::Default => vec![
            DiagField::Severity,
            DiagField::Sqlstate,
            DiagField::MessagePrimary,
            DiagField::MessageDetail,
            DiagField::MessageHint,
        ],
        Verbosity::Verbose => vec![
            DiagField::Severity,
            DiagField::SeverityNonlocalized,
            DiagField::Sqlstate,
            DiagField::MessagePrimary,
            DiagField::MessageDetail,
            DiagField::MessageHint,
            DiagField::StatementPosition,
            DiagField::InternalPosition,
            DiagField::InternalQuery,
            DiagField::Context,
            DiagField::SchemaName,
            DiagField::TableName,
            DiagField::ColumnName,
            DiagField::DatatypeName,
            DiagField::ConstraintName,
            DiagField::SourceFile,
            DiagField::SourceLine,
            DiagField::SourceFunction,
        ],
        Verbosity::Sqlstate => vec![DiagField::Severity, DiagField::Sqlstate],
    };
    assert(r@ =~= diag_fields(v));
    r
}


/// A notice: an informational or warning record that the server emitted while
/// a statement ran, without making it fail. It holds the fields that the
/// server set, each with its text, in reading order.
#[derive(Debug)]
pub struct Notice {
    pub fields: Vec<(DiagField, String)>,
}

/// The fields of a notice with the text of each.
pub open spec fn notice_entries(n: &Notice) -> Seq<(DiagField, Seq<char>)> {
    n.fields@.map_values(|e: (DiagField, String)| (e.0, e.1@))
}

/// The fields among `fs` whose value in `vs` (at the same position) is
/// present, each with its text, in order.
pub open spec fn present_fields(fs: Seq<DiagField>, vs: Seq<Option<String>>) -> Seq<
    (DiagField, Seq<char>),
>
    decreases fs.len(),
{
    if fs.len() == 0 || vs.len() == 0 {
        seq![]
    } else {
        let rest = present_fields(fs.drop_last(), vs.drop_last());
        match vs.last() {
            Some(t) => rest.push((fs.last(), t@)),
            None => rest,
        }
    }
}

impl Notice {
    /// The notice made of the values read for the fields of verbosity `v`:
    /// `values[i]` is the text of the `i`-th of `diag_fields(v)`, or `None`
    /// where the server did not set it. Fields without a value are left out.
    pub fn collect(v: Verbosity, values: &Vec<Option<String>>) -> (r: Notice)
        requires
            values@.len() == diag_fields(v).len(),
        ensures
            notice_entries(&r) == present_fields(diag_fields(v), values@),
    {
        let fs = diagnostic_fields(v);
        let mut fields: Vec<(DiagField, String)> = Vec::new();
        let mut i: usize = 0;
        while i < fs.len()
            invariant
                i <= fs@.len(),
                fs@ == diag_fields(v),
                values@.len() == fs@.len(),
                fields@.map_values(|e: (DiagField, String)| (e.0, e.1@)) == present_fields(
                    fs@.subrange(0, i as int),
                    values@.subrange(0, i as int),
                ),
            decreases fs@.len() - i,
        {
            let ghost before = fields@;
            match &values[i] {
                Some(t) => {
                    fields.push((fs[i], t.clone()));
                },
                None => {},
            }
            proof {
                let fs1 = fs@.subrange(0, i + 1);
                let vs1 = values@.subrange(0, i + 1);
                assert(fs1.drop_last() =~= fs@.subrange(0, i as int));
                assert(vs1.drop_last() =~= values@.subrange(0, i as int));
                assert(fields@.map_values(|e: (DiagField, String)| (e.0, e.1@)) =~= present_fields(
                    fs1,
                    vs1,
                ));
            }
            i = i + 1;
        }
        proof {
            assert(fs@.subrange(0, fs@.len() as int) =~= fs@);
            assert(values@.subrange(0, fs@.len() as int) =~= values@);
        }
        Notice { fields }
    }

    /// The number of fields that the notice holds.
    pub fn len(&self) -> (r: usize)
        ensures
            r == self.fields@.len(),
    {
        self.fields.len()
    }

    /// The text of field `f`, if the notice holds it (the first entry for it).
    pub fn get(&self, f: DiagField) -> (r: Option<&String>)
        ensures
            match r {
                Some(t) => exists|i: int|
                    0 <= i < self.fields@.len() && self.fields@[i].0 == f && self.fields@[i].1
                        == *t && forall|j: int| 0 <= j < i ==> self.fields@[j].0 != f,
                None => forall|i: int| 0 <= i < self.fields@.len() ==> self.fields@[i].0 != f,
            },
    {
        let mut i: usize = 0;
        while i < self.fields.len()
            invariant
                i <= self.fields@.len(),
                forall|j: int| 0 <= j < i ==> self.fields@[j].0 != f,
            decreases self.fields@.len() - i,
        {
            if self.fields[i].0 == f {
                return Some(&self.fields[i].1);
            }
            i = i + 1;
        }
        None
    }
}

} // verus!
