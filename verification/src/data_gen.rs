//! The batch generator: one columnar batch per call, laid out by the current
//! configuration and continuing the signal where the previous batch stopped.
use crate::binary64::{
    is_positive_finite, lemma_whole_millis_rises, millis_for, whole_millis, ONE_HUNDRED,
};
use crate::parameters::{Parameters, SignalPattern};
use crate::random::{chance, uniform};
use crate::schema::{
    build_schema, clone_fields, configured_layout, default_fields, default_layout, layout_view,
    ColumnField, ColumnType, FieldView, LIST_SIZE,
};
use crate::signal::{pattern_sample, pattern_value, Sample};
use vstd::prelude::*;

verus! {

/// Milliseconds between two rows where no data rate is configured.
pub const DEFAULT_TIMESTAMP_STEP: u64 = 10;

/// Integer noise is drawn from `-INT_NOISE_LIMIT .. INT_NOISE_LIMIT`.
pub const INT_NOISE_LIMIT: i32 = 100;

/// Quality values are drawn from `0 .. QUALITY_LIMIT`.
pub const QUALITY_LIMIT: u64 = 100;

/// A record is marked valid with a chance of `VALID_CHANCE` in
/// `VALID_CHANCE_OUT_OF`.
pub const VALID_CHANCE: u32 = 19;

pub const VALID_CHANCE_OUT_OF: u32 = 20;

/// One element of a 32-bit integer column.
#[derive(Debug, Clone, Copy, PartialEq, Eq, Structural)]
pub enum IntCell {
    /// The integer itself.
    Value(i32),
    /// The sample, rounded toward zero to a 32-bit integer.
    Truncated(Sample),
}

/// The columns of a record channel, one entry per row in each.
#[derive(Debug, PartialEq, Eq)]
pub struct RecordColumn {
    pub value: Vec<Sample>,
    pub quality: Vec<u64>,
    pub timestamp: Vec<u64>,
    pub valid: Vec<bool>,
}

/// The data of one column.
#[derive(Debug, PartialEq, Eq)]
pub enum Column {
    UInt64(Vec<u64>),
    Int32(Vec<IntCell>),
    /// Samples that are narrowed to 32-bit floating-point numbers.
    Float32(Vec<Sample>),
    Float64(Vec<Sample>),
    /// `LIST_SIZE` samples per row.
    List(Vec<Vec<Sample>>),
    Record(RecordColumn),
}

/// A column as contracts speak of it.
pub enum ColumnView {
    UInt64(Seq<u64>),
    Int32(Seq<IntCell>),
    Float32(Seq<Sample>),
    Float64(Seq<Sample>),
    List(Seq<Seq<Sample>>),
    Record { value: Seq<Sample>, quality: Seq<u64>, timestamp: Seq<u64>, valid: Seq<bool> },
}

impl View for Column {
    type V = ColumnView;

    open spec fn view(&self) -> ColumnView {
        match self {
            Column::UInt64(values) => ColumnView::UInt64(values@),
            Column::Int32(values) => ColumnView::Int32(values@),
            Column::Float32(values) => ColumnView::Float32(values@),
            Column::Float64(values) => ColumnView::Float64(values@),
            Column::List(rows) => ColumnView::List(Seq::new(rows@.len(), |i: int| rows@[i]@)),
            Column::Record(record) => ColumnView::Record {
                value: record.value@,
                quality: record.quality@,
                timestamp: record.timestamp@,
                valid: record.valid@,
            },
        }
    }
}

impl ColumnView {
    /// The number of rows.
    pub open spec fn rows(self) -> nat {
        match self {
            ColumnView::UInt64(values) => values.len(),
            ColumnView::Int32(values) => values.len(),
            ColumnView::Float32(values) => values.len(),
            ColumnView::Float64(values) => values.len(),
            ColumnView::List(rows) => rows.len(),
            ColumnView::Record { value, .. } => value.len(),
        }
    }

    /// The type of the column.
    pub open spec fn column_type(self) -> ColumnType {
        match self {
            ColumnView::UInt64(_) => ColumnType::UInt64,
            ColumnView::Int32(_) => ColumnType::Int32,
            ColumnView::Float32(_) => ColumnType::Float32,
            ColumnView::Float64(_) => ColumnType::Float64,
            ColumnView::List(_) => ColumnType::List,
            ColumnView::Record { .. } => ColumnType::Record,
        }
    }

    /// Every part of the column has the same number of rows, and every row of
    /// a list has `LIST_SIZE` elements.
    pub open spec fn wf(self) -> bool {
        match self {
            ColumnView::List(rows) => forall|i: int|
                0 <= i < rows.len() ==> (#[trigger] rows[i]).len() == LIST_SIZE,
            ColumnView::Record { value, quality, timestamp, valid } => {
                &&& quality.len() == value.len()
                &&& timestamp.len() == value.len()
                &&& valid.len() == value.len()
            },
            _ => true,
        }
    }
}

/// One columnar table: a layout and, for each of its fields, a column of
/// `num_rows` rows.
#[derive(Debug, PartialEq, Eq)]
pub struct Batch {
    pub schema: Vec<ColumnField>,
    pub columns: Vec<Column>,
    pub num_rows: usize,
}

impl Batch {
    /// The batch conforms to its layout: one column per field, each of the
    /// field's type, all of `num_rows` rows.
    pub open spec fn wf(&self) -> bool {
        &&& self.columns@.len() == self.schema@.len()
        &&& forall|c: int|
            0 <= c < self.columns@.len() ==> {
                &&& (#[trigger] self.columns@[c])@.wf()
                &&& self.columns@[c]@.rows() == self.num_rows
                &&& self.columns@[c]@.column_type() == self.schema@[c].data_type
            }
    }
}

/// Why a batch could not be generated.
#[derive(Debug, Clone, Copy, PartialEq, Eq, Structural)]
pub enum GenerationError {
    /// The layout does not begin with an unsigned 64-bit field, which the
    /// timestamp column needs.
    MissingTimestamp,
    /// The generation cursor cannot advance by the rows of the batch.
    CursorExhausted,
    /// The timestamp of the last row does not fit in 64 bits.
    TimestampOverflow,
    /// The sample indices of the list field at `position` do not fit in 64
    /// bits.
    IndexOverflow { position: usize },
}

/// Generates batches and keeps the generation cursor.
pub struct DataGenerator {
    fields: Vec<ColumnField>,
    /// The configuration in force. While it is set, every batch is laid out
    /// anew from it, and signals follow its pattern and amplitude; without
    /// it, the layout is the one built by hand and the columns count rows.
    pub parameters: Option<Parameters>,
    time_counter: u64,
}

/// A generator as contracts speak of it.
pub struct GeneratorView {
    /// The layout that the generator holds.
    pub layout: Seq<FieldView>,
    /// The configuration in force, if any.
    pub config: Option<Parameters>,
    /// The generation cursor: the rows generated so far.
    pub cursor: u64,
}

impl View for DataGenerator {
    type V = GeneratorView;

    closed spec fn view(&self) -> GeneratorView {
        GeneratorView {
            layout: layout_view(self.fields@),
            config: self.parameters,
            cursor: self.time_counter,
        }
    }
}

impl GeneratorView {
    /// The layout of the next batch: the configured one where a
    /// configuration is set, else the layout that the generator holds.
    pub open spec fn next_layout(self) -> Seq<FieldView> {
        match self.config {
            Some(params) => configured_layout(
                params.data_characteristics.data_type,
                params.data_volume.num_channels as nat,
            ),
            None => self.layout,
        }
    }

    /// The index of the first sample of the next batch: the cursor where a
    /// configuration is set, else zero.
    pub open spec fn base(self) -> u64 {
        if self.config is Some {
            self.cursor
        } else {
            0
        }
    }

    /// The milliseconds from the first row of a batch to the row at
    /// `row_index`. Under a configuration with a data rate of `x` hertz this
    /// is `floor(row_index * 1000 / x)`, the product taken before it is
    /// rounded, and no time at all where the rate is no positive finite
    /// number; without a configuration the rows are
    /// `DEFAULT_TIMESTAMP_STEP` apart.
    pub open spec fn timestamp_offset(self, row_index: int) -> int {
        match self.config {
            Some(params) => if is_positive_finite(params.data_volume.data_rate_hz) {
                whole_millis(params.data_volume.data_rate_hz, row_index as nat)
            } else {
                0
            },
            None => row_index * DEFAULT_TIMESTAMP_STEP,
        }
    }

    /// The timestamp of the row at `row_index` of a batch generated at
    /// `now_ms`.
    pub open spec fn timestamp_at(self, row_index: int, now_ms: u64) -> int {
        now_ms + self.timestamp_offset(row_index)
    }

    /// The timestamps of a batch generated at `now_ms`: from `now_ms` on, each
    /// row at its `timestamp_offset`.
    pub open spec fn timestamps(self, num_rows: nat, now_ms: u64) -> Seq<u64> {
        Seq::new(num_rows, |i: int| self.timestamp_at(i, now_ms) as u64)
    }

    /// The floating-point sample at `offset` from the base: the configured
    /// pattern at the configured amplitude, or the offset itself.
    pub open spec fn float_cell(self, offset: int) -> Sample {
        match self.config {
            Some(params) => pattern_sample(
                params.data_characteristics.signal_pattern,
                (self.cursor + offset) as u64,
                params.data_volume.float_precision,
            ),
            None => Sample::Whole { value: offset as u64 },
        }
    }

    /// `count` consecutive floating-point samples from offset `start` on.
    pub open spec fn float_cells(self, start: int, count: nat) -> Seq<Sample> {
        Seq::new(count, |j: int| self.float_cell(start + j))
    }

    /// What holds of the integer element at `offset` from the base. Integer
    /// noise is a draw from `-INT_NOISE_LIMIT .. INT_NOISE_LIMIT`; every
    /// other pattern is its sample at an amplitude of one hundred, rounded
    /// toward zero; without a configuration the element is the offset.
    pub open spec fn int_cell_ok(self, offset: usize, cell: IntCell) -> bool {
        match self.config {
            Some(params) => if params.data_characteristics.signal_pattern
                == SignalPattern::RandomNoise {
                cell matches IntCell::Value(v) && -INT_NOISE_LIMIT <= v < INT_NOISE_LIMIT
            } else {
                cell == IntCell::Truncated(
                    pattern_sample(
                        params.data_characteristics.signal_pattern,
                        (self.cursor + offset) as u64,
                        ONE_HUNDRED,
                    ),
                )
            },
            None => cell == IntCell::Value(offset as i32),
        }
    }

    /// What holds of the column generated for the field at `position`, of
    /// type `column_type`, in a batch of `num_rows` rows generated at
    /// `now_ms`.
    pub open spec fn column_ok(
        self,
        position: int,
        column_type: ColumnType,
        column: ColumnView,
        num_rows: usize,
        now_ms: u64,
    ) -> bool {
        &&& column.column_type() == column_type
        &&& match column {
            ColumnView::UInt64(values) => if position == 0 {
                values == self.timestamps(num_rows as nat, now_ms)
            } else {
                values == Seq::new(num_rows as nat, |i: int| i as u64)
            },
            ColumnView::Int32(values) => {
                &&& values.len() == num_rows
                &&& forall|i: int|
                    0 <= i < num_rows ==> self.int_cell_ok(i as usize, #[trigger] values[i])
            },
            ColumnView::Float32(values) => values == self.float_cells(0, num_rows as nat),
            ColumnView::Float64(values) => values == self.float_cells(0, num_rows as nat),
            ColumnView::List(rows) => {
                &&& rows.len() == num_rows
                &&& forall|i: int|
                    0 <= i < num_rows ==> #[trigger] rows[i] == self.float_cells(
                        i * LIST_SIZE,
                        LIST_SIZE as nat,
                    )
            },
            ColumnView::Record { value, quality, timestamp, valid } => {
                &&& value == self.float_cells(0, num_rows as nat)
                &&& quality.len() == num_rows
                &&& forall|i: int| 0 <= i < num_rows ==> #[trigger] quality[i] < QUALITY_LIMIT
                &&& timestamp == self.timestamps(num_rows as nat, now_ms)
                &&& valid.len() == num_rows
            },
        }
    }

    /// The next layout has a list field.
    pub open spec fn has_list(self) -> bool {
        exists|c: int|
            0 <= c < self.next_layout().len() && (#[trigger] self.next_layout()[c]).data_type
                == ColumnType::List
    }

    /// The next batch has no timestamp column to stand on.
    pub open spec fn lacks_timestamp(self) -> bool {
        self.next_layout().len() == 0 || self.next_layout()[0].data_type != ColumnType::UInt64
    }

    /// The cursor cannot advance by `num_rows`.
    pub open spec fn cursor_exhausted(self, num_rows: usize) -> bool {
        self.cursor + num_rows > u64::MAX
    }

    /// The last of `num_rows` timestamps from `now_ms` on does not fit.
    pub open spec fn timestamps_overflow(self, num_rows: usize, now_ms: u64) -> bool {
        num_rows > 0 && self.timestamp_at(num_rows - 1, now_ms) > u64::MAX
    }

    /// The sample indices of `num_rows` rows of a list do not fit.
    pub open spec fn list_overflows(self, num_rows: usize) -> bool {
        self.base() + LIST_SIZE * num_rows > u64::MAX
    }

    /// The next batch fails with `error`: its condition holds and none of
    /// the conditions of the variants before it.
    pub open spec fn fails_with(self, num_rows: usize, now_ms: u64, error: GenerationError) -> bool {
        match error {
            GenerationError::MissingTimestamp => self.lacks_timestamp(),
            GenerationError::CursorExhausted => !self.lacks_timestamp() && self.cursor_exhausted(
                num_rows,
            ),
            GenerationError::TimestampOverflow => !self.lacks_timestamp() && !self.cursor_exhausted(
                num_rows,
            ) && self.timestamps_overflow(num_rows, now_ms),
            GenerationError::IndexOverflow { position } => {
                &&& !self.lacks_timestamp()
                &&& !self.cursor_exhausted(num_rows)
                &&& !self.timestamps_overflow(num_rows, now_ms)
                &&& self.list_overflows(num_rows)
                &&& 0 < position < self.next_layout().len()
                &&& self.next_layout()[position as int].data_type == ColumnType::List
                &&& forall|c: int|
                    0 <= c < position ==> (#[trigger] self.next_layout()[c]).data_type
                        != ColumnType::List
            },
        }
    }

    /// The next batch can be generated: none of the four failures holds.
    pub open spec fn can_generate(self, num_rows: usize, now_ms: u64) -> bool {
        &&& !self.lacks_timestamp()
        &&& !self.cursor_exhausted(num_rows)
        &&& !self.timestamps_overflow(num_rows, now_ms)
        &&& !(self.list_overflows(num_rows) && self.has_list())
    }

    /// What holds of a batch of `num_rows` rows generated at `now_ms`: it
    /// has the next layout, and each column is as `column_ok` says.
    pub open spec fn batch_ok(self, batch: Batch, num_rows: usize, now_ms: u64) -> bool {
        &&& batch.wf()
        &&& batch.num_rows == num_rows
        &&& layout_view(batch.schema@) == self.next_layout()
        &&& forall|c: int|
            0 <= c < batch.columns@.len() ==> self.column_ok(
                c,
                self.next_layout()[c].data_type,
                (#[trigger] batch.columns@[c])@,
                num_rows,
                now_ms,
            )
    }

    /// The generator after a batch of `num_rows` rows: laid out for that
    /// batch, the cursor advanced by its rows.
    pub open spec fn advanced(self, num_rows: usize) -> GeneratorView {
        GeneratorView {
            layout: self.next_layout(),
            config: self.config,
            cursor: (self.cursor + num_rows) as u64,
        }
    }

    /// The generator after a batch that failed: laid out for that batch, the
    /// cursor where it was.
    pub open spec fn stalled(self) -> GeneratorView {
        GeneratorView { layout: self.next_layout(), config: self.config, cursor: self.cursor }
    }
}

impl DataGenerator {
    /// A generator without a configuration, with the default layout.
    pub fn new() -> (generator: Self)
        ensures
            generator@ == (GeneratorView { layout: default_layout(), config: None, cursor: 0 }),
    {
        DataGenerator { fields: default_fields(), parameters: None, time_counter: 0 }
    }

    /// A generator with a configuration, laid out as the configuration asks.
    pub fn with_parameters(parameters: Parameters) -> (generator: Self)
        ensures
            generator@ == (GeneratorView {
                layout: configured_layout(
                    parameters.data_characteristics.data_type,
                    parameters.data_volume.num_channels as nat,
                ),
                config: Some(parameters),
                cursor: 0,
            }),
    {
        let mut generator = DataGenerator {
            fields: Vec::new(),
            parameters: Some(parameters),
            time_counter: 0,
        };
        generator.configure_fields(&parameters);
        generator
    }

    /// Replaces the layout by the one that `parameters` asks for.
    fn configure_fields(&mut self, parameters: &Parameters)
        ensures
            final(self)@ == (GeneratorView {
                layout: configured_layout(
                    parameters.data_characteristics.data_type,
                    parameters.data_volume.num_channels as nat,
                ),
                ..old(self)@
            }),
    {
        self.fields =
        build_schema(&parameters.data_characteristics, parameters.data_volume.num_channels);
    }

    /// The layout of a generator that was given no configuration.
    pub fn default_fields() -> (fields: Vec<ColumnField>)
        ensures
            layout_view(fields@) == default_layout(),
    {
        default_fields()
    }

    /// Empties the layout.
    pub fn clear_fields(&mut self)
        ensures
            final(self)@ == (GeneratorView { layout: Seq::empty(), ..old(self)@ }),
    {
        self.fields = Vec::new();
        assert(self@.layout =~= Seq::<FieldView>::empty());
    }

    /// Appends a field that is not nullable.
    pub fn add_field(&mut self, name: &str, data_type: ColumnType)
        ensures
            final(self)@ == (GeneratorView {
                layout: old(self)@.layout.push(
                    FieldView { name: name@, data_type, nullable: false },
                ),
                ..old(self)@
            }),
    {
        self.fields.push(ColumnField::new(name, data_type, false));
        assert(self@.layout =~= old(self)@.layout.push(
            FieldView { name: name@, data_type, nullable: false },
        ));
    }

    /// Puts a configuration in force, or none: what assigning to the field
    /// `parameters` does.
    pub fn set_parameters(&mut self, parameters: Option<Parameters>)
        ensures
            final(self)@ == (GeneratorView { config: parameters, ..old(self)@ }),
    {
        self.parameters = parameters;
    }

    /// The layout that the generator holds.
    pub fn fields(&self) -> (fields: &Vec<ColumnField>)
        ensures
            layout_view(fields@) == self@.layout,
    {
        &self.fields
    }

    /// The generation cursor: the rows generated so far.
    pub fn rows_generated(&self) -> (rows: u64)
        ensures
            rows == self@.cursor,
    {
        self.time_counter
    }

    /// The timestamp of the row at `row_index` of a batch generated at
    /// `now_ms`, or `None` where it does not fit in 64 bits.
    pub fn get_timestamp(&self, row_index: usize, now_ms: u64) -> (timestamp: Option<u64>)
        ensures
            match timestamp {
                Some(t) => t == self@.timestamp_at(row_index as int, now_ms),
                None => self@.timestamp_at(row_index as int, now_ms) > u64::MAX,
            },
    {
        let offset = match self.parameters {
            Some(params) => millis_for(params.data_volume.data_rate_hz, row_index as u64),
            None => (row_index as u64).checked_mul(DEFAULT_TIMESTAMP_STEP),
        };
        proof {
            lemma_timestamps_rise(self@, 0, row_index as int);
        }
        match offset {
            Some(offset) => now_ms.checked_add(offset),
            None => None,
        }
    }

    /// The timestamps of `num_rows` rows from `now_ms` on.
    fn generate_timestamps(&self, num_rows: usize, now_ms: u64) -> (values: Vec<u64>)
        requires
            !self@.timestamps_overflow(num_rows, now_ms),
        ensures
            values@ == self@.timestamps(num_rows as nat, now_ms),
    {
        let mut values: Vec<u64> = Vec::new();
        let mut i: usize = 0;
        while i < num_rows
            invariant
                i <= num_rows,
                !self@.timestamps_overflow(num_rows, now_ms),
                values@ == self@.timestamps(i as nat, now_ms),
            decreases num_rows - i,
        {
            proof {
                lemma_timestamps_rise(self@, i as int, num_rows - 1);
            }
            let timestamp = self.get_timestamp(i, now_ms);
            values.push(timestamp.unwrap());
            i = i + 1;
        }
        values
    }

    /// The index of the first sample of the next batch.
    fn index_base(&self) -> (base: u64)
        ensures
            base == self@.base(),
    {
        match self.parameters {
            Some(_) => self.time_counter,
            None => 0,
        }
    }

    /// One floating-point sample: the one at `offset` from the base.
    fn generate_sample(&self, offset: u64) -> (sample: Sample)
        requires
            self@.base() + offset <= u64::MAX,
        ensures
            sample == self@.float_cell(offset as int),
    {
        match self.parameters {
            Some(params) => pattern_value(
                params.data_characteristics.signal_pattern,
                self.time_counter + offset,
                params.data_volume.float_precision,
            ),
            None => Sample::Whole { value: offset },
        }
    }

    /// `count` consecutive floating-point samples from offset `start` on.
    fn generate_samples(&self, start: u64, count: usize) -> (values: Vec<Sample>)
        requires
            self@.base() + start + count <= u64::MAX,
        ensures
            values@ == self@.float_cells(start as int, count as nat),
    {
        let mut values: Vec<Sample> = Vec::new();
        let mut j: usize = 0;
        while j < count
            invariant
                j <= count,
                self@.base() + start + count <= u64::MAX,
                values@ == self@.float_cells(start as int, j as nat),
            decreases count - j,
        {
            values.push(self.generate_sample(start + j as u64));
            j = j + 1;
        }
        values
    }

    /// The samples of a 64-bit floating-point column.
    fn generate_float64_values(&self, num_rows: usize) -> (values: Vec<Sample>)
        requires
            self@.base() + num_rows <= u64::MAX,
        ensures
            values@ == self@.float_cells(0, num_rows as nat),
    {
        self.generate_samples(0, num_rows)
    }

    /// The samples of a 32-bit floating-point column: those of a 64-bit one,
    /// to be narrowed when they are evaluated.
    fn generate_float32_values(&self, num_rows: usize) -> (values: Vec<Sample>)
        requires
            self@.base() + num_rows <= u64::MAX,
        ensures
            values@ == self@.float_cells(0, num_rows as nat),
    {
        self.generate_float64_values(num_rows)
    }

    /// The elements of a 32-bit integer column.
    fn generate_int32_values(&self, num_rows: usize) -> (values: Vec<IntCell>)
        requires
            self@.base() + num_rows <= u64::MAX,
        ensures
            values@.len() == num_rows,
            forall|i: int|
                0 <= i < num_rows ==> self@.int_cell_ok(i as usize, #[trigger] values@[i]),
    {
        let mut values: Vec<IntCell> = Vec::new();
        let mut i: usize = 0;
        while i < num_rows
            invariant
                i <= num_rows,
                self@.base() + num_rows <= u64::MAX,
                values@.len() == i,
                forall|k: int| 0 <= k < i ==> self@.int_cell_ok(k as usize, #[trigger] values@[k]),
            decreases num_rows - i,
        {
            let cell = match self.parameters {
                Some(params) => match params.data_characteristics.signal_pattern {
                    SignalPattern::RandomNoise => IntCell::Value(
                        uniform(-(INT_NOISE_LIMIT as i64), INT_NOISE_LIMIT as i64) as i32,
                    ),
                    pattern => IntCell::Truncated(
                        pattern_value(pattern, self.time_counter + i as u64, ONE_HUNDRED),
                    ),
                },
                None => IntCell::Value(#[verifier::truncate] (i as i32)),
            };
            values.push(cell);
            i = i + 1;
        }
        values
    }

    /// The elements of an unsigned 64-bit column that is not the timestamp
    /// column: the row numbers.
    fn generate_uint64_values(&self, num_rows: usize) -> (values: Vec<u64>)
        ensures
            values@ == Seq::new(num_rows as nat, |i: int| i as u64),
    {
        let mut values: Vec<u64> = Vec::new();
        let mut i: usize = 0;
        while i < num_rows
            invariant
                i <= num_rows,
                values@ == Seq::new(i as nat, |k: int| k as u64),
            decreases num_rows - i,
        {
            values.push(i as u64);
            i = i + 1;
        }
        values
    }

    /// The rows of a list column: `LIST_SIZE` consecutive samples each, the
    /// row at `i` from offset `i * LIST_SIZE` on.
    fn generate_list_array(&self, num_rows: usize) -> (rows: Vec<Vec<Sample>>)
        requires
            !self@.list_overflows(num_rows),
        ensures
            rows@.len() == num_rows,
            forall|i: int|
                0 <= i < num_rows ==> (#[trigger] rows@[i])@ == self@.float_cells(
                    i * LIST_SIZE,
                    LIST_SIZE as nat,
                ),
    {
        let mut rows: Vec<Vec<Sample>> = Vec::new();
        let mut i: usize = 0;
        while i < num_rows
            invariant
                i <= num_rows,
                !self@.list_overflows(num_rows),
                rows@.len() == i,
                forall|k: int|
                    0 <= k < i ==> (#[trigger] rows@[k])@ == self@.float_cells(
                        k * LIST_SIZE,
                        LIST_SIZE as nat,
                    ),
            decreases num_rows - i,
        {
            assert(self@.base() + i * 10 + 10 <= u64::MAX && i * 10 >= 0) by (nonlinear_arith)
                requires
                    0 <= i < num_rows,
                    self@.base() + 10 * num_rows <= u64::MAX,
            ;
            let start: u64 = (i as u64) * (LIST_SIZE as u64);
            rows.push(self.generate_samples(start, LIST_SIZE));
            i = i + 1;
        }
        rows
    }

    /// The columns of a record channel: the samples of a 64-bit
    /// floating-point column, a quality below `QUALITY_LIMIT` per row, the
    /// timestamps of the batch, and a validity flag per row.
    fn generate_struct_array(&self, num_rows: usize, now_ms: u64) -> (record: RecordColumn)
        requires
            self@.base() + num_rows <= u64::MAX,
            !self@.timestamps_overflow(num_rows, now_ms),
        ensures
            self@.column_ok(1, ColumnType::Record, Column::Record(record)@, num_rows, now_ms),
            Column::Record(record)@.wf(),
            Column::Record(record)@.rows() == num_rows,
    {
        let value = self.generate_float64_values(num_rows);
        let timestamp = self.generate_timestamps(num_rows, now_ms);
        let mut quality: Vec<u64> = Vec::new();
        let mut valid: Vec<bool> = Vec::new();
        let mut i: usize = 0;
        while i < num_rows
            invariant
                i <= num_rows,
                quality@.len() == i,
                valid@.len() == i,
                forall|k: int| 0 <= k < i ==> #[trigger] quality@[k] < QUALITY_LIMIT,
            decreases num_rows - i,
        {
            quality.push(uniform(0, QUALITY_LIMIT as i64) as u64);
            valid.push(chance(VALID_CHANCE, VALID_CHANCE_OUT_OF));
            i = i + 1;
        }
        RecordColumn { value, quality, timestamp, valid }
    }

    /// The column for a data field of the given type.
    fn generate_array_for_field(&self, column_type: ColumnType, num_rows: usize, now_ms: u64) -> (column:
        Column)
        requires
            !self@.cursor_exhausted(num_rows),
            !self@.timestamps_overflow(num_rows, now_ms),
            column_type == ColumnType::List ==> !self@.list_overflows(num_rows),
        ensures
            self@.column_ok(1, column_type, column@, num_rows, now_ms),
            column@.wf(),
            column@.rows() == num_rows,
    {
        match column_type {
            ColumnType::Int32 => Column::Int32(self.generate_int32_values(num_rows)),
            ColumnType::UInt64 => Column::UInt64(self.generate_uint64_values(num_rows)),
            ColumnType::Float32 => Column::Float32(self.generate_float32_values(num_rows)),
            ColumnType::Float64 => Column::Float64(self.generate_float64_values(num_rows)),
            ColumnType::List => {
                let column = Column::List(self.generate_list_array(num_rows));
                column
            },
            ColumnType::Record => Column::Record(self.generate_struct_array(num_rows, now_ms)),
        }
    }

    /// The position of the first list field, where the sample indices of
    /// `num_rows` rows of a list do not fit in 64 bits.
    fn overflowing_list(&self, num_rows: usize) -> (found: Option<usize>)
        ensures
            match found {
                Some(position) => {
                    &&& self@.list_overflows(num_rows)
                    &&& position < self@.layout.len()
                    &&& self@.layout[position as int].data_type == ColumnType::List
                    &&& forall|c: int|
                        0 <= c < position ==> (#[trigger] self@.layout[c]).data_type
                            != ColumnType::List
                },
                None => self@.list_overflows(num_rows) ==> forall|c: int|
                    0 <= c < self@.layout.len() ==> (#[trigger] self@.layout[c]).data_type
                        != ColumnType::List,
            },
    {
        let fits = match (num_rows as u64).checked_mul(LIST_SIZE as u64) {
            Some(span) => span <= u64::MAX - self.index_base(),
            None => false,
        };
        assert(LIST_SIZE * num_rows == (num_rows as u64) * (LIST_SIZE as u64)) by (nonlinear_arith)
            requires
                LIST_SIZE == 10,
        ;
        if fits {
            return None;
        }
        let mut i: usize = 0;
        while i < self.fields.len()
            invariant
                i <= self.fields@.len(),
                self@.list_overflows(num_rows),
                forall|c: int|
                    0 <= c < i ==> (#[trigger] self@.layout[c]).data_type != ColumnType::List,
            decreases self.fields@.len() - i,
        {
            if self.fields[i].data_type == ColumnType::List {
                return Some(i);
            }
            i = i + 1;
        }
        None
    }

    /// Generates the next batch, of `num_rows` rows, at the wall-clock time
    /// `now_ms` (milliseconds since the epoch).
    ///
    /// Where a configuration is set, the layout is first rebuilt from it. The
    /// batch then has that layout: the timestamps in its first column, spaced
    /// from `now_ms` on as the data rate says, and in every other column the
    /// samples from the cursor on. On success the cursor advances by `num_rows`; on failure it
    /// stays. Whether the batch can be generated is settled before any column
    /// is built.
    pub fn generate_record_batch(&mut self, num_rows: usize, now_ms: u64) -> (result: Result<
        Batch,
        GenerationError,
    >)
        ensures
            match result {
                Ok(batch) => {
                    &&& old(self)@.can_generate(num_rows, now_ms)
                    &&& old(self)@.batch_ok(batch, num_rows, now_ms)
                    &&& final(self)@ == old(self)@.advanced(num_rows)
                },
                Err(error) => {
                    &&& old(self)@.fails_with(num_rows, now_ms, error)
                    &&& final(self)@ == old(self)@.stalled()
                },
            },
    {
        let ghost before = old(self)@;
        let ghost layout = before.next_layout();
        if let Some(params) = self.parameters {
            self.configure_fields(&params);
        }
        let ghost source = self@;
        if self.fields.len() == 0 {
            return Err(GenerationError::MissingTimestamp);
        }
        if self.fields[0].data_type != ColumnType::UInt64 {
            return Err(GenerationError::MissingTimestamp);
        }
        if num_rows as u64 > u64::MAX - self.time_counter {
            return Err(GenerationError::CursorExhausted);
        }
        if num_rows > 0 {
            if self.get_timestamp(num_rows - 1, now_ms).is_none() {
                return Err(GenerationError::TimestampOverflow);
            }
        }
        if let Some(position) = self.overflowing_list(num_rows) {
            return Err(GenerationError::IndexOverflow { position });
        }
        let mut columns: Vec<Column> = Vec::new();
        columns.push(Column::UInt64(self.generate_timestamps(num_rows, now_ms)));
        let mut i: usize = 1;
        while i < self.fields.len()
            invariant
                1 <= i <= self.fields@.len(),
                self@ == source,
                source.layout == layout,
                layout.len() == self.fields@.len(),
                !source.cursor_exhausted(num_rows),
                !source.timestamps_overflow(num_rows, now_ms),
                source.list_overflows(num_rows) ==> forall|c: int|
                    0 <= c < layout.len() ==> (#[trigger] layout[c]).data_type != ColumnType::List,
                columns@.len() == i,
                forall|c: int|
                    0 <= c < i ==> {
                        &&& (#[trigger] columns@[c])@.wf()
                        &&& columns@[c]@.rows() == num_rows
                        &&& source.column_ok(c, layout[c].data_type, columns@[c]@, num_rows, now_ms)
                    },
            decreases self.fields@.len() - i,
        {
            assert(layout[i as int] == self.fields@[i as int]@);
            let column_type = self.fields[i].data_type;
            let column = self.generate_array_for_field(column_type, num_rows, now_ms);
            proof {
                lemma_column_position(source, i as int, column_type, column@, num_rows, now_ms);
            }
            columns.push(column);
            i = i + 1;
        }
        let schema = clone_fields(&self.fields);
        assert forall|c: int| 0 <= c < schema@.len() implies #[trigger] schema@[c].data_type
            == layout[c].data_type by {
            assert(layout_view(schema@)[c] == schema@[c]@);
        }
        let batch = Batch { schema, columns, num_rows };
        self.time_counter = self.time_counter + num_rows as u64;
        proof {
            assert forall|c: int| 0 <= c < batch.columns@.len() implies before.column_ok(
                c,
                before.next_layout()[c].data_type,
                (#[trigger] batch.columns@[c])@,
                num_rows,
                now_ms,
            ) by {
                lemma_column_ok_of_source(
                    before,
                    source,
                    c,
                    layout[c].data_type,
                    batch.columns@[c]@,
                    num_rows,
                    now_ms,
                );
            }
        }
        Ok(batch)
    }
}

/// A column generated for a data field stands for any data position: only
/// the timestamp column depends on where it stands.
proof fn lemma_column_position(
    generator: GeneratorView,
    position: int,
    column_type: ColumnType,
    column: ColumnView,
    num_rows: usize,
    now_ms: u64,
)
    requires
        position > 0,
        generator.column_ok(1, column_type, column, num_rows, now_ms),
    ensures
        generator.column_ok(position, column_type, column, num_rows, now_ms),
{
}

/// What a column holds depends on the configuration and the cursor, not on
/// the layout that the generator holds.
proof fn lemma_column_ok_of_source(
    a: GeneratorView,
    b: GeneratorView,
    position: int,
    column_type: ColumnType,
    column: ColumnView,
    num_rows: usize,
    now_ms: u64,
)
    requires
        a.config == b.config,
        a.cursor == b.cursor,
        b.column_ok(position, column_type, column, num_rows, now_ms),
    ensures
        a.column_ok(position, column_type, column, num_rows, now_ms),
{
    assert(a.timestamps(num_rows as nat, now_ms) =~= b.timestamps(num_rows as nat, now_ms));
    assert(a.float_cells(0, num_rows as nat) =~= b.float_cells(0, num_rows as nat));
    match column {
        ColumnView::List(rows) => {
            assert forall|i: int| 0 <= i < num_rows implies #[trigger] rows[i] == a.float_cells(
                i * LIST_SIZE,
                LIST_SIZE as nat,
            ) by {
                assert(a.float_cells(i * LIST_SIZE, LIST_SIZE as nat) =~= b.float_cells(
                    i * LIST_SIZE,
                    LIST_SIZE as nat,
                ));
            }
        },
        _ => {},
    }
}

/// Successive batches continue the signal rather than restarting it: under
/// one configuration, the sample at `offset` into the batch that follows a
/// batch of `num_rows` rows is the sample at `num_rows + offset` as seen from
/// before that batch; and the cursor never goes back.
pub proof fn lemma_batches_continue_the_signal(
    generator: GeneratorView,
    num_rows: usize,
    offset: int,
)
    requires
        generator.config is Some,
        !generator.cursor_exhausted(num_rows),
        0 <= offset,
    ensures
        generator.advanced(num_rows).float_cell(offset) == generator.float_cell(
            num_rows + offset,
        ),
        generator.advanced(num_rows).cursor >= generator.cursor,
        generator.stalled().cursor == generator.cursor,
        generator.advanced(num_rows).config == generator.config,
{
}

/// Later rows carry later timestamps: the offset of a row is no more than
/// that of a row after it, and none is negative.
pub proof fn lemma_timestamps_rise(generator: GeneratorView, row: int, later: int)
    requires
        0 <= row <= later,
    ensures
        0 <= generator.timestamp_offset(row) <= generator.timestamp_offset(later),
{
    match generator.config {
        Some(params) => {
            if is_positive_finite(params.data_volume.data_rate_hz) {
                lemma_whole_millis_rises(
                    params.data_volume.data_rate_hz,
                    row as nat,
                    later as nat,
                );
            }
        },
        None => {},
    }
}

} // verus!
