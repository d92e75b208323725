//! Readings of the humidity and temperature sensor, as they arrive on the
//! telemetry stream: one line per reading, `<humidity>,<temperature>`.

use crate::error::ErrorKind;
use crate::numeral::{
    is_float_text, lemma_float_text_has_no_comma, lemma_float_text_is_not_empty, zero_text,
    Numeral,
};
use crate::text::{
    chars_of, find_char, first_index_of, lemma_first_index_of, lemma_first_index_of_is_first,
    text_eq,
};
use vstd::prelude::*;
use vstd::string::*;

verus! {

/// What a `Measure` stands for: two numbers, each as the numeral that it
/// was written as.
pub struct Reading {
    /// Relative humidity, in percent.
    pub humidity: Seq<char>,
    /// Temperature, in degrees Celsius.
    pub temperature: Seq<char>,
}

/// The reading that stands in for one that has not arrived yet: zero for
/// both values.
pub open spec fn no_reading() -> Reading {
    Reading { humidity: zero_text(), temperature: zero_text() }
}

/// Whether `line` is a telemetry line: two numerals with one comma
/// between them, and nothing else.
pub open spec fn is_measure_line(line: Seq<char>) -> bool {
    let comma = first_index_of(line, ',');
    &&& comma < line.len()
    &&& is_float_text(line.take(comma))
    &&& is_float_text(line.skip(comma + 1))
}

/// The reading that a telemetry line holds.
pub open spec fn measure_of(line: Seq<char>) -> Reading {
    let comma = first_index_of(line, ',');
    Reading { humidity: line.take(comma), temperature: line.skip(comma + 1) }
}

/// The measurement line of the report.
pub open spec fn measure_text(v: Reading) -> Seq<char> {
    "H: "@ + v.humidity + "% T: "@ + v.temperature + "C"@
}

/// Two numerals with a comma between them always make a telemetry line,
/// and the line holds exactly those two numbers, in that order.
pub proof fn lemma_well_formed_line(humidity: Seq<char>, temperature: Seq<char>)
    requires
        is_float_text(humidity),
        is_float_text(temperature),
    ensures
        is_measure_line(humidity + seq![','] + temperature),
        measure_of(humidity + seq![','] + temperature) == (Reading { humidity, temperature }),
{
    let line = humidity + seq![','] + temperature;
    lemma_float_text_has_no_comma(humidity);
    assert(line[humidity.len() as int] == ',');
    assert forall|i: int| 0 <= i < humidity.len() implies line[i] != ',' by {
        assert(line[i] == humidity[i]);
    }
    lemma_first_index_of(line, ',', humidity.len() as int);
    assert(line.take(humidity.len() as int) =~= humidity);
    assert(line.skip(humidity.len() as int + 1) =~= temperature);
}

/// A reading that is read and shown comes back with the digits that it
/// was written with: the measurement line of the reading of a telemetry
/// line holds the two numerals of that line.
pub proof fn lemma_measure_round_trip(humidity: Seq<char>, temperature: Seq<char>)
    requires
        is_float_text(humidity),
        is_float_text(temperature),
    ensures
        measure_text(measure_of(humidity + seq![','] + temperature)) == "H: "@ + humidity
            + "% T: "@ + temperature + "C"@,
{
    lemma_well_formed_line(humidity, temperature);
}

/// A telemetry line has exactly two fields: it holds one comma and no
/// second one, and a numeral on either side. The empty line is no
/// telemetry line.
pub proof fn lemma_measure_line_has_two_fields(line: Seq<char>)
    requires
        is_measure_line(line),
    ensures
        line.len() >= 3,
        forall|i: int| 0 <= i < line.len() ==> (line[i] == ',' <==> i == first_index_of(line, ',')),
{
    let comma = first_index_of(line, ',');
    lemma_first_index_of_is_first(line, ',');
    lemma_float_text_has_no_comma(line.skip(comma + 1));
    assert forall|i: int| 0 <= i < line.len() implies (line[i] == ',' <==> i == comma) by {
        if i > comma {
            assert(line.skip(comma + 1)[i - comma - 1] == line[i]);
        }
    }
    lemma_float_text_is_not_empty(line.take(comma));
    lemma_float_text_is_not_empty(line.skip(comma + 1));
}

/// Whether `line` is an input line with the logging status: a telemetry
/// line, a comma, and `true` or `false`.
pub open spec fn is_input_line(line: Seq<char>) -> bool {
    let first = first_index_of(line, ',');
    let rest = line.skip(first + 1);
    let second = first_index_of(rest, ',');
    &&& first < line.len()
    &&& second < rest.len()
    &&& is_float_text(line.take(first))
    &&& is_float_text(rest.take(second))
    &&& (rest.skip(second + 1) == "true"@ || rest.skip(second + 1) == "false"@)
}

/// The reading that an input line holds.
pub open spec fn input_measure_of(line: Seq<char>) -> Reading {
    let first = first_index_of(line, ',');
    let rest = line.skip(first + 1);
    let second = first_index_of(rest, ',');
    Reading { humidity: line.take(first), temperature: rest.take(second) }
}

/// The logging status that an input line holds.
pub open spec fn input_csv_of(line: Seq<char>) -> bool {
    let first = first_index_of(line, ',');
    let rest = line.skip(first + 1);
    let second = first_index_of(rest, ',');
    rest.skip(second + 1) == "true"@
}

/// Humidity and temperature measure.
#[derive(Debug, Clone, PartialEq, Eq)]
pub struct Measure {
    /// Humidity value.
    humidity: Numeral,
    /// Temperature value.
    temperature: Numeral,
}

impl View for Measure {
    type V = Reading;

    closed spec fn view(&self) -> Reading {
        Reading { humidity: self.humidity@, temperature: self.temperature@ }
    }
}

impl Measure {
    /// Construct `Measure`.
    pub fn new(humidity: Numeral, temperature: Numeral) -> (m: Self)
        ensures
            m@ == (Reading { humidity: humidity@, temperature: temperature@ }),
    {
        Self { humidity, temperature }
    }

    /// Construct `Measure` from an array of values `[<hum>, <temp>]`.
    pub fn from_array(data: [Numeral; 2]) -> (m: Self)
        ensures
            m@ == (Reading { humidity: data[0]@, temperature: data[1]@ }),
    {
        Self { humidity: data[0].clone(), temperature: data[1].clone() }
    }

    /// Construct `Measure` from CSV string `<hum,temp>`.
    ///
    /// Succeeds on exactly the telemetry lines, with the two numbers as
    /// they are written. Any other text, the empty line included, is
    /// refused as `ErrorKind::InvalidInputFormat`.
    pub fn from_csv(data: &str) -> (parsed: Result<Self, ErrorKind>)
        ensures
            parsed is Ok == is_measure_line(data@),
            parsed matches Ok(m) ==> m@ == measure_of(data@),
            parsed matches Err(e) ==> e == ErrorKind::InvalidInputFormat,
    {
        let cs = chars_of(data);
        let n = cs.len();
        let comma = find_char(&cs, 0, n, ',');
        assert(cs@.subrange(0, n as int) =~= data@);
        if comma >= n {
            return Err(ErrorKind::InvalidInputFormat);
        }
        assert(data@.take(comma as int) =~= data@.subrange(0, comma as int));
        assert(data@.skip(comma + 1) =~= data@.subrange(comma + 1, n as int));
        let humidity = Numeral::parse_range(data, &cs, 0, comma);
        let temperature = Numeral::parse_range(data, &cs, comma + 1, n);
        match (humidity, temperature) {
            (Some(humidity), Some(temperature)) => Ok(Self { humidity, temperature }),
            _ => Err(ErrorKind::InvalidInputFormat),
        }
    }

    /// Renders the measurement line of the report, `H: <hum>% T: <temp>C`,
    /// each number as it was written.
    pub fn to_text(&self) -> (text: String)
        ensures
            text@ == measure_text(self@),
    {
        let mut text = String::from_str("H: ");
        text.append(self.humidity.to_text().as_str());
        text.append("% T: ");
        text.append(self.temperature.to_text().as_str());
        text.append("C");
        text
    }
}

impl Default for Measure {
    /// The reading that is shown before the first one has arrived: zero
    /// for both values.
    fn default() -> (m: Self)
        ensures
            m@ == no_reading(),
    {
        Self { humidity: Numeral::zero(), temperature: Numeral::zero() }
    }
}

/// Pipeline standard input.
#[derive(Debug, Clone, PartialEq, Eq)]
pub struct Input {
    /// Humidity and temperature measure.
    pub measure: Measure,
    /// CSV logging status:
    /// true -> logging to file
    /// false -> not logging to file
    pub csv: bool,
}

impl Input {
    /// Construct `Input`.
    pub fn new(measure: Measure, csv: bool) -> (input: Self)
        ensures
            input.measure == measure,
            input.csv == csv,
    {
        Self { measure, csv }
    }

    /// Construct `Input` from CSV string `<hum,temp,csv>`.
    ///
    /// Succeeds on exactly the input lines. Any other text is refused as
    /// `ErrorKind::InvalidInputFormat`.
    pub fn from_csv(data: &str) -> (parsed: Result<Self, ErrorKind>)
        ensures
            parsed is Ok == is_input_line(data@),
            parsed matches Ok(input) ==> input.measure@ == input_measure_of(data@) && input.csv
                == input_csv_of(data@),
            parsed matches Err(e) ==> e == ErrorKind::InvalidInputFormat,
    {
        let cs = chars_of(data);
        let n = cs.len();
        assert(cs@.subrange(0, n as int) =~= data@);
        let first = find_char(&cs, 0, n, ',');
        if first >= n {
            return Err(ErrorKind::InvalidInputFormat);
        }
        let ghost rest = data@.skip(first + 1);
        assert(rest =~= data@.subrange(first + 1, n as int));
        let second = find_char(&cs, first + 1, n, ',');
        if second >= n {
            return Err(ErrorKind::InvalidInputFormat);
        }
        assert(data@.take(first as int) =~= data@.subrange(0, first as int));
        assert(rest.take(second - first - 1) =~= data@.subrange(first + 1, second as int));
        assert(rest.skip(second - first) =~= data@.subrange(second + 1, n as int));
        let status = data.substring_char(second + 1, n);
        let csv = text_eq(status, "true");
        if !csv && !text_eq(status, "false") {
            return Err(ErrorKind::InvalidInputFormat);
        }
        let humidity = Numeral::parse_range(data, &cs, 0, first);
        let temperature = Numeral::parse_range(data, &cs, first + 1, second);
        match (humidity, temperature) {
            (Some(humidity), Some(temperature)) => Ok(
                Self { measure: Measure { humidity, temperature }, csv },
            ),
            _ => Err(ErrorKind::InvalidInputFormat),
        }
    }
}

} // verus!
