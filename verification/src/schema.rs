//! Column layouts: the ordered, typed fields of a batch, and the layout that a
//! configuration asks for.
use crate::parameters::{DataCharacteristicsParams, DataType};
use vstd::prelude::*;
use vstd::string::*;

verus! {

/// Elements in each row of a list column.
pub const LIST_SIZE: usize = 10;

/// Name of the element field of a list column; the elements are nullable
/// 64-bit floating-point numbers.
pub const LIST_ITEM_NAME: &'static str = "item";

/// Name of the leading field of every configured layout.
pub const TIMESTAMP_NAME: &'static str = "timestamp";

/// Name of the first member of a record column: the value, a 64-bit
/// floating-point number. No member of a record is nullable.
pub const RECORD_VALUE_NAME: &'static str = "value";

/// Name of the second member of a record column: the quality, an unsigned
/// 64-bit integer.
pub const RECORD_QUALITY_NAME: &'static str = "quality";

/// Name of the third member of a record column: the timestamp, an unsigned
/// 64-bit integer.
pub const RECORD_TIMESTAMP_NAME: &'static str = "timestamp";

/// Name of the fourth member of a record column: the validity, a boolean.
pub const RECORD_VALID_NAME: &'static str = "valid";

/// The type and shape of a column.
#[derive(Debug, Clone, Copy, PartialEq, Eq, Structural)]
pub enum ColumnType {
    UInt64,
    Int32,
    Float32,
    Float64,
    /// `LIST_SIZE` 64-bit floating-point numbers per row.
    List,
    /// Value, quality, timestamp and validity per row.
    Record,
}

/// One field of a layout.
#[derive(Debug, PartialEq, Eq)]
pub struct ColumnField {
    pub name: String,
    pub data_type: ColumnType,
    pub nullable: bool,
}

/// A field as contracts speak of it: its name as a sequence of characters.
pub struct FieldView {
    pub name: Seq<char>,
    pub data_type: ColumnType,
    pub nullable: bool,
}

impl View for ColumnField {
    type V = FieldView;

    open spec fn view(&self) -> FieldView {
        FieldView { name: self.name@, data_type: self.data_type, nullable: self.nullable }
    }
}

impl Clone for ColumnField {
    fn clone(&self) -> (copy: Self)
        ensures
            copy@ == self@,
    {
        ColumnField {
            name: self.name.clone(),
            data_type: self.data_type,
            nullable: self.nullable,
        }
    }
}

/// A layout as contracts speak of it: the views of its fields, in order.
pub open spec fn layout_view(fields: Seq<ColumnField>) -> Seq<FieldView> {
    Seq::new(fields.len(), |i: int| fields[i]@)
}

/// The character of a decimal digit.
pub open spec fn digit(d: nat) -> char {
    if d == 0 {
        '0'
    } else if d == 1 {
        '1'
    } else if d == 2 {
        '2'
    } else if d == 3 {
        '3'
    } else if d == 4 {
        '4'
    } else if d == 5 {
        '5'
    } else if d == 6 {
        '6'
    } else if d == 7 {
        '7'
    } else if d == 8 {
        '8'
    } else {
        '9'
    }
}

/// The decimal numeral of `n`, without leading zeros.
pub open spec fn decimal(n: nat) -> Seq<char>
    decreases n,
{
    if n < 10 {
        seq![digit(n)]
    } else {
        decimal(n / 10).push(digit(n % 10))
    }
}

/// The name of the data channel at `index`, counted from zero.
pub open spec fn channel_name(index: nat) -> Seq<char> {
    "channel_"@ + decimal(index)
}

/// The column type that carries elements of a configured type.
pub open spec fn column_type_for(data_type: DataType) -> ColumnType {
    match data_type {
        DataType::Float32 => ColumnType::Float32,
        DataType::Float64 => ColumnType::Float64,
        DataType::Int32 => ColumnType::Int32,
        DataType::Array => ColumnType::List,
        DataType::NestedObject => ColumnType::Record,
    }
}

/// The leading field of every configured layout.
pub open spec fn timestamp_field() -> FieldView {
    FieldView { name: "timestamp"@, data_type: ColumnType::UInt64, nullable: false }
}

/// The layout that a configuration asks for: the timestamp field, then one
/// field per channel, named by its position and typed by the element type.
pub open spec fn configured_layout(data_type: DataType, num_channels: nat) -> Seq<FieldView> {
    Seq::new(
        1 + num_channels,
        |i: int|
            if i == 0 {
                timestamp_field()
            } else {
                FieldView {
                    name: channel_name((i - 1) as nat),
                    data_type: column_type_for(data_type),
                    nullable: false,
                }
            },
    )
}

/// The layout of a generator that was given no configuration.
pub open spec fn default_layout() -> Seq<FieldView> {
    seq![
        timestamp_field(),
        FieldView { name: "float_value"@, data_type: ColumnType::Float64, nullable: false },
        FieldView { name: "int_value"@, data_type: ColumnType::Int32, nullable: false },
    ]
}

impl ColumnField {
    /// A field of the given name and type.
    pub fn new(name: &str, data_type: ColumnType, nullable: bool) -> (field: ColumnField)
        ensures
            field@ == (FieldView { name: name@, data_type, nullable }),
    {
        ColumnField { name: String::from_str(name), data_type, nullable }
    }
}

/// The column type that carries elements of a configured type.
pub fn column_type_of(data_type: DataType) -> (column_type: ColumnType)
    ensures
        column_type == column_type_for(data_type),
{
    match data_type {
        DataType::Float32 => ColumnType::Float32,
        DataType::Float64 => ColumnType::Float64,
        DataType::Int32 => ColumnType::Int32,
        DataType::Array => ColumnType::List,
        DataType::NestedObject => ColumnType::Record,
    }
}

/// The text of one decimal digit.
fn digit_text(d: u64) -> (text: &'static str)
    requires
        d < 10,
    ensures
        text@ == seq![digit(d as nat)],
{
    proof {
        reveal_strlit("0");
        reveal_strlit("1");
        reveal_strlit("2");
        reveal_strlit("3");
        reveal_strlit("4");
        reveal_strlit("5");
        reveal_strlit("6");
        reveal_strlit("7");
        reveal_strlit("8");
        reveal_strlit("9");
    }
    let text = if d == 0 {
        "0"
    } else if d == 1 {
        "1"
    } else if d == 2 {
        "2"
    } else if d == 3 {
        "3"
    } else if d == 4 {
        "4"
    } else if d == 5 {
        "5"
    } else if d == 6 {
        "6"
    } else if d == 7 {
        "7"
    } else if d == 8 {
        "8"
    } else {
        "9"
    };
    text
}

/// Appends the decimal numeral of `n` to `text`.
fn append_decimal(text: &mut String, n: u64)
    ensures
        final(text)@ == old(text)@ + decimal(n as nat),
    decreases n,
{
    if n >= 10 {
        append_decimal(text, n / 10);
    }
    text.append(digit_text(n % 10));
}

/// The name of the data channel at `index`, counted from zero.
pub fn channel_field_name(index: usize) -> (name: String)
    ensures
        name@ == channel_name(index as nat),
{
    let mut name = String::from_str("channel_");
    append_decimal(&mut name, index as u64);
    name
}

/// Builds the layout that a configuration asks for.
pub fn build_schema(characteristics: &DataCharacteristicsParams, num_channels: usize) -> (fields:
    Vec<ColumnField>)
    ensures
        layout_view(fields@) == configured_layout(characteristics.data_type, num_channels as nat),
{
    let column_type = column_type_of(characteristics.data_type);
    let mut fields: Vec<ColumnField> = Vec::new();
    fields.push(ColumnField::new(TIMESTAMP_NAME, ColumnType::UInt64, false));
    let mut i: usize = 0;
    while i < num_channels
        invariant
            i <= num_channels,
            column_type == column_type_for(characteristics.data_type),
            fields@.len() == 1 + i,
            forall|j: int|
                0 <= j < fields@.len() ==> #[trigger] fields@[j]@ == configured_layout(
                    characteristics.data_type,
                    num_channels as nat,
                )[j],
        decreases num_channels - i,
    {
        let name = channel_field_name(i);
        fields.push(ColumnField { name, data_type: column_type, nullable: false });
        i = i + 1;
    }
    assert(layout_view(fields@) =~= configured_layout(
        characteristics.data_type,
        num_channels as nat,
    ));
    fields
}

/// The layout of a generator that was given no configuration: a timestamp, a
/// floating-point value and an integer value.
pub fn default_fields() -> (fields: Vec<ColumnField>)
    ensures
        layout_view(fields@) == default_layout(),
{
    let mut fields: Vec<ColumnField> = Vec::new();
    fields.push(ColumnField::new("timestamp", ColumnType::UInt64, false));
    fields.push(ColumnField::new("float_value", ColumnType::Float64, false));
    fields.push(ColumnField::new("int_value", ColumnType::Int32, false));
    fields
}

/// Copies a layout.
pub fn clone_fields(fields: &Vec<ColumnField>) -> (copy: Vec<ColumnField>)
    ensures
        layout_view(copy@) == layout_view(fields@),
{
    let mut copy: Vec<ColumnField> = Vec::new();
    let mut i: usize = 0;
    while i < fields.len()
        invariant
            i <= fields@.len(),
            copy@.len() == i,
            forall|j: int| 0 <= j < i ==> #[trigger] copy@[j]@ == fields@[j]@,
        decreases fields@.len() - i,
    {
        copy.push(fields[i].clone());
        i = i + 1;
    }
    copy
}

} // verus!
