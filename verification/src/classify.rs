//! From a column's catalog type to the statistics worth computing for it.
//!
//! | declared type                 | min/max | distinct | label                       |
//! |-------------------------------|---------|----------|-----------------------------|
//! | `boolean`                     | no      | yes      | `boolean`                   |
//! | `date`                        | yes     | no       | `date`                      |
//! | `timestamp with time zone`    | yes     | no       | as declared                 |
//! | `timestamp without time zone` | yes     | no       | as declared                 |
//! | `bigint`                      | yes     | yes      | `bigint`                    |
//! | `text`                        | yes     | yes      | `text`                      |
//! | `character varying`           | yes     | yes      | `varchar` or `varchar(N)`   |
//! | `integer`                     | yes     | yes      | `integer(precision, scale)` |
//! | `numeric`                     | yes     | yes      | `numeric(precision, scale)` |
//! | `USER-DEFINED`                | no      | no       | `user-defined / name`       |
//! | anything else                 | yes     | yes      | type name and modifiers     |
//!
//! Type names are matched exactly, in the catalog's spelling.

use vstd::prelude::*;
use crate::error::ProfileError;
use crate::text::{decimal, push_decimal, same_text};

verus! {

/// The families of catalog types that are told apart.
#[derive(Clone, Copy, Debug, PartialEq, Eq, Structural)]
pub enum ColumnKind {
    Boolean,
    Date,
    TimestampWithTimeZone,
    TimestampWithoutTimeZone,
    BigInt,
    Text,
    CharacterVarying,
    Integer,
    Numeric,
    UserDefined,
    /// Any type name that is none of the above.
    Other,
}

/// Which statistics are computed for a column, and how its type is shown.
#[derive(Debug)]
pub struct AnalysisPolicy {
    pub compute_min_max: bool,
    pub compute_distinct: bool,
    pub rendered_type_label: String,
}

/// An [`AnalysisPolicy`] with its label as a sequence of characters.
pub struct PolicyView {
    pub compute_min_max: bool,
    pub compute_distinct: bool,
    pub rendered_type_label: Seq<char>,
}

impl View for AnalysisPolicy {
    type V = PolicyView;

    open spec fn view(&self) -> PolicyView {
        PolicyView {
            compute_min_max: self.compute_min_max,
            compute_distinct: self.compute_distinct,
            rendered_type_label: self.rendered_type_label@,
        }
    }
}

impl DeepView for AnalysisPolicy {
    type V = PolicyView;

    open spec fn deep_view(&self) -> PolicyView {
        self@
    }
}

/// The family of a declared type name.
pub open spec fn kind_of(declared: Seq<char>) -> ColumnKind {
    if declared == "boolean"@ {
        ColumnKind::Boolean
    } else if declared == "date"@ {
        ColumnKind::Date
    } else if declared == "timestamp with time zone"@ {
        ColumnKind::TimestampWithTimeZone
    } else if declared == "timestamp without time zone"@ {
        ColumnKind::TimestampWithoutTimeZone
    } else if declared == "bigint"@ {
        ColumnKind::BigInt
    } else if declared == "text"@ {
        ColumnKind::Text
    } else if declared == "character varying"@ {
        ColumnKind::CharacterVarying
    } else if declared == "integer"@ {
        ColumnKind::Integer
    } else if declared == "numeric"@ {
        ColumnKind::Numeric
    } else if declared == "USER-DEFINED"@ {
        ColumnKind::UserDefined
    } else {
        ColumnKind::Other
    }
}

impl ColumnKind {
    /// Whether the smallest and largest value are worth asking for.
    pub open spec fn wants_min_max(self) -> bool {
        self != ColumnKind::Boolean && self != ColumnKind::UserDefined
    }

    /// Whether the distinct values are worth listing.
    pub open spec fn wants_distinct(self) -> bool {
        self != ColumnKind::Date && self != ColumnKind::TimestampWithTimeZone && self
            != ColumnKind::TimestampWithoutTimeZone && self != ColumnKind::UserDefined
    }

    /// Whether the catalog must give precision and scale for this family.
    pub open spec fn needs_precision(self) -> bool {
        self == ColumnKind::Integer || self == ColumnKind::Numeric
    }

    /// The family of a declared type name.
    pub fn of(declared_type: &str) -> (kind: ColumnKind)
        ensures
            kind == kind_of(declared_type@),
    {
        if same_text(declared_type, "boolean") {
            ColumnKind::Boolean
        } else if same_text(declared_type, "date") {
            ColumnKind::Date
        } else if same_text(declared_type, "timestamp with time zone") {
            ColumnKind::TimestampWithTimeZone
        } else if same_text(declared_type, "timestamp without time zone") {
            ColumnKind::TimestampWithoutTimeZone
        } else if same_text(declared_type, "bigint") {
            ColumnKind::BigInt
        } else if same_text(declared_type, "text") {
            ColumnKind::Text
        } else if same_text(declared_type, "character varying") {
            ColumnKind::CharacterVarying
        } else if same_text(declared_type, "integer") {
            ColumnKind::Integer
        } else if same_text(declared_type, "numeric") {
            ColumnKind::Numeric
        } else if same_text(declared_type, "USER-DEFINED") {
            ColumnKind::UserDefined
        } else {
            ColumnKind::Other
        }
    }

    /// Whether the smallest and largest value are worth asking for.
    pub fn analyzes_min_max(&self) -> (wanted: bool)
        ensures
            wanted == self.wants_min_max(),
    {
        match self {
            ColumnKind::Boolean | ColumnKind::UserDefined => false,
            _ => true,
        }
    }

    /// Whether the distinct values are worth listing.
    pub fn analyzes_distinct(&self) -> (wanted: bool)
        ensures
            wanted == self.wants_distinct(),
    {
        match self {
            ColumnKind::Date
            | ColumnKind::TimestampWithTimeZone
            | ColumnKind::TimestampWithoutTimeZone
            | ColumnKind::UserDefined => false,
            _ => true,
        }
    }
}

/// How an optional modifier reads in the label of an unrecognised type:
/// `None`, or `Some(` and the number and `)`.
pub open spec fn modifier_text(v: Option<i32>) -> Seq<char> {
    match v {
        None => "None"@,
        Some(n) => "Some("@ + decimal(n as int) + ")"@,
    }
}

/// The label under which a column's type is shown.
pub open spec fn label_of(
    kind: ColumnKind,
    declared: Seq<char>,
    max_char_length: Option<i32>,
    numeric_precision: Option<i32>,
    numeric_scale: Option<i32>,
    underlying_type_name: Option<Seq<char>>,
) -> Seq<char> {
    match kind {
        ColumnKind::CharacterVarying => match max_char_length {
            None => "varchar"@,
            Some(n) => "varchar("@ + decimal(n as int) + ")"@,
        },
        ColumnKind::Integer | ColumnKind::Numeric => match (numeric_precision, numeric_scale) {
            (Some(p), Some(s)) => declared + "("@ + decimal(p as int) + ", "@ + decimal(s as int)
                + ")"@,
            _ => declared,
        },
        ColumnKind::UserDefined => "user-defined / "@ + match underlying_type_name {
            Some(name) => name,
            None => "???"@,
        },
        ColumnKind::Other => declared + " "@ + modifier_text(max_char_length) + " "@
            + modifier_text(numeric_precision) + " "@ + modifier_text(numeric_scale),
        _ => declared,
    }
}

/// The policy for a column with the given catalog entries, or
/// `MissingMetadata` where the type needs a precision and a scale and the
/// catalog lacks one of them.
pub open spec fn classified(
    declared: Seq<char>,
    max_char_length: Option<i32>,
    numeric_precision: Option<i32>,
    numeric_scale: Option<i32>,
    underlying_type_name: Option<Seq<char>>,
) -> Result<PolicyView, ProfileError> {
    let kind = kind_of(declared);
    if kind.needs_precision() && (numeric_precision is None || numeric_scale is None) {
        Err(ProfileError::MissingMetadata)
    } else {
        Ok(
            PolicyView {
                compute_min_max: kind.wants_min_max(),
                compute_distinct: kind.wants_distinct(),
                rendered_type_label: label_of(
                    kind,
                    declared,
                    max_char_length,
                    numeric_precision,
                    numeric_scale,
                    underlying_type_name,
                ),
            },
        )
    }
}

fn push_modifier(out: &mut String, v: Option<i32>)
    ensures
        final(out)@ == old(out)@ + modifier_text(v),
{
    match v {
        None => {
            out.append("None");
        },
        Some(n) => {
            out.append("Some(");
            push_decimal(out, n as i64);
            out.append(")");
            assert(out@ =~= old(out)@ + ("Some("@ + decimal(n as int) + ")"@));
        },
    }
}

fn render_label(
    kind: ColumnKind,
    declared_type: &str,
    max_char_length: Option<i32>,
    numeric_precision: Option<i32>,
    numeric_scale: Option<i32>,
    underlying_type_name: Option<&str>,
) -> (label: String)
    ensures
        label@ == label_of(
            kind,
            declared_type@,
            max_char_length,
            numeric_precision,
            numeric_scale,
            match underlying_type_name {
                Some(name) => Some(name@),
                None => None,
            },
        ),
{
    let mut label = String::new();
    match kind {
        ColumnKind::CharacterVarying => match max_char_length {
            Some(n) => {
                label.append("varchar(");
                push_decimal(&mut label, n as i64);
                label.append(")");
                assert(label@ =~= "varchar("@ + decimal(n as int) + ")"@);
            },
            None => {
                label.append("varchar");
                assert(label@ =~= "varchar"@);
            },
        },
        ColumnKind::Integer | ColumnKind::Numeric => {
            label.append(declared_type);
            match (numeric_precision, numeric_scale) {
                (Some(p), Some(s)) => {
                    label.append("(");
                    push_decimal(&mut label, p as i64);
                    label.append(", ");
                    push_decimal(&mut label, s as i64);
                    label.append(")");
                    assert(label@ =~= declared_type@ + "("@ + decimal(p as int) + ", "@ + decimal(
                        s as int,
                    ) + ")"@);
                },
                _ => {
                    assert(label@ =~= declared_type@);
                },
            }
        },
        ColumnKind::UserDefined => {
            label.append("user-defined / ");
            match underlying_type_name {
                Some(name) => {
                    label.append(name);
                    assert(label@ =~= "user-defined / "@ + name@);
                },
                None => {
                    label.append("???");
                    assert(label@ =~= "user-defined / "@ + "???"@);
                },
            }
        },
        ColumnKind::Other => {
            label.append(declared_type);
            label.append(" ");
            push_modifier(&mut label, max_char_length);
            label.append(" ");
            push_modifier(&mut label, numeric_precision);
            label.append(" ");
            push_modifier(&mut label, numeric_scale);
            assert(label@ =~= declared_type@ + " "@ + modifier_text(max_char_length) + " "@
                + modifier_text(numeric_precision) + " "@ + modifier_text(numeric_scale));
        },
        _ => {
            label.append(declared_type);
            assert(label@ =~= declared_type@);
        },
    }
    label
}

/// Decides which statistics to compute for a column and how to show its
/// type. Fails with `MissingMetadata` exactly when the type is `integer` or
/// `numeric` and the catalog gives no precision or no scale.
pub fn classify(
    declared_type: &str,
    max_char_length: Option<i32>,
    numeric_precision: Option<i32>,
    numeric_scale: Option<i32>,
    underlying_type_name: Option<&str>,
) -> (outcome: Result<AnalysisPolicy, ProfileError>)
    ensures
        match outcome {
            Ok(policy) => Ok::<PolicyView, ProfileError>(policy@),
            Err(e) => Err::<PolicyView, ProfileError>(e),
        } == classified(
            declared_type@,
            max_char_length,
            numeric_precision,
            numeric_scale,
            match underlying_type_name {
                Some(name) => Some(name@),
                None => None,
            },
        ),
{
    let kind = ColumnKind::of(declared_type);
    let needs_precision = match kind {
        ColumnKind::Integer | ColumnKind::Numeric => true,
        _ => false,
    };
    if needs_precision && (numeric_precision.is_none() || numeric_scale.is_none()) {
        return Err(ProfileError::MissingMetadata);
    }
    Ok(
        AnalysisPolicy {
            compute_min_max: kind.analyzes_min_max(),
            compute_distinct: kind.analyzes_distinct(),
            rendered_type_label: render_label(
                kind,
                declared_type,
                max_char_length,
                numeric_precision,
                numeric_scale,
                underlying_type_name,
            ),
        },
    )
}

/// Each of the ten recognised type names belongs to its own family.
pub proof fn lemma_recognised_names()
    ensures
        kind_of("boolean"@) == ColumnKind::Boolean,
        kind_of("date"@) == ColumnKind::Date,
        kind_of("timestamp with time zone"@) == ColumnKind::TimestampWithTimeZone,
        kind_of("timestamp without time zone"@) == ColumnKind::TimestampWithoutTimeZone,
        kind_of("bigint"@) == ColumnKind::BigInt,
        kind_of("text"@) == ColumnKind::Text,
        kind_of("character varying"@) == ColumnKind::CharacterVarying,
        kind_of("integer"@) == ColumnKind::Integer,
        kind_of("numeric"@) == ColumnKind::Numeric,
        kind_of("USER-DEFINED"@) == ColumnKind::UserDefined,
{
    reveal_strlit("boolean");
    reveal_strlit("date");
    reveal_strlit("timestamp with time zone");
    reveal_strlit("timestamp without time zone");
    reveal_strlit("bigint");
    reveal_strlit("text");
    reveal_strlit("character varying");
    reveal_strlit("integer");
    reveal_strlit("numeric");
    reveal_strlit("USER-DEFINED");
    assert("boolean"@.len() == 7 && "boolean"@[1] == 'o');
    assert("date"@.len() == 4);
    assert("timestamp with time zone"@.len() == 24);
    assert("timestamp without time zone"@.len() == 27);
    assert("bigint"@.len() == 6);
    assert("text"@.len() == 4 && "text"@[0] == 't');
    assert("character varying"@.len() == 17);
    assert("integer"@.len() == 7 && "integer"@[1] == 'n');
    assert("numeric"@.len() == 7 && "numeric"@[1] == 'u');
    assert("USER-DEFINED"@.len() == 12);
}

/// An `integer` column without precision and scale cannot be classified,
/// whatever its other catalog entries are.
pub proof fn law_integer_needs_metadata(
    max_char_length: Option<i32>,
    underlying_type_name: Option<Seq<char>>,
)
    ensures
        classified("integer"@, max_char_length, None, None, underlying_type_name) == Err::<
            PolicyView,
            ProfileError,
        >(ProfileError::MissingMetadata),
{
    lemma_recognised_names();
}

/// A `boolean` column gets its distinct values listed and no minimum or
/// maximum, whatever its other catalog entries are.
pub proof fn law_boolean_policy(
    max_char_length: Option<i32>,
    numeric_precision: Option<i32>,
    numeric_scale: Option<i32>,
    underlying_type_name: Option<Seq<char>>,
)
    ensures
        classified(
            "boolean"@,
            max_char_length,
            numeric_precision,
            numeric_scale,
            underlying_type_name,
        ) matches Ok(policy) && !policy.compute_min_max && policy.compute_distinct
            && policy.rendered_type_label == "boolean"@,
{
}

/// Every column that can be classified gets at least one statistic, unless
/// its type is user-defined, for which none is attempted.
pub proof fn law_some_statistic(
    declared: Seq<char>,
    max_char_length: Option<i32>,
    numeric_precision: Option<i32>,
    numeric_scale: Option<i32>,
    underlying_type_name: Option<Seq<char>>,
)
    ensures
        classified(
            declared,
            max_char_length,
            numeric_precision,
            numeric_scale,
            underlying_type_name,
        ) matches Ok(policy) ==> {
            &&& !policy.compute_distinct ==> (policy.compute_min_max <==> kind_of(declared)
                != ColumnKind::UserDefined)
            &&& (policy.compute_min_max || policy.compute_distinct) <==> kind_of(declared)
                != ColumnKind::UserDefined
        },
{
}

} // verus!
