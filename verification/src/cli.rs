//! The command-line decisions: the error model with its messages and exit
//! codes, the splitting of a `"<lat>,<lng>"` argument, and the points URL.

use vstd::prelude::*;

verus! {

/// Everything that can go wrong in a run, as a discriminated kind; the
/// front end maps each kind to a message and a non-zero exit code.
#[derive(Clone, Copy, Debug, PartialEq, Eq, Structural)]
pub enum WeatherError {
    /// No latitude/longitude argument was supplied.
    MissingArgument,
    /// The argument's coordinate fields could not be read as numbers.
    BadCoordinate,
    /// A network request failed.
    Transport,
    /// The location response had an unexpected shape.
    BadLocationData,
    /// The forecast response had an unexpected shape.
    BadForecastData,
}

/// The exit code of each error kind.
pub open spec fn exit_code_spec(e: WeatherError) -> u8 {
    match e {
        WeatherError::MissingArgument => 1,
        WeatherError::BadCoordinate => 2,
        WeatherError::Transport => 3,
        WeatherError::BadLocationData => 4,
        WeatherError::BadForecastData => 5,
    }
}

/// The message printed for each error kind.
pub open spec fn message_spec(e: WeatherError) -> Seq<char> {
    match e {
        WeatherError::MissingArgument => "ERROR: must supply a latitude/longitude argument (./rainbow \"30.1,-80.2\")"@,
        WeatherError::BadCoordinate => "ERROR: could not parse the latitude/longitude argument"@,
        WeatherError::Transport => "ERROR: the weather service could not be reached"@,
        WeatherError::BadLocationData => "ERROR: unexpected location response shape"@,
        WeatherError::BadForecastData => "ERROR: unexpected forecast response shape"@,
    }
}

impl WeatherError {
    /// The process exit code for this error: distinct per kind and never
    /// the success code.
    pub fn exit_code(&self) -> (r: u8)
        ensures
            r == exit_code_spec(*self),
            r != 0,
    {
        match self {
            WeatherError::MissingArgument => 1,
            WeatherError::BadCoordinate => 2,
            WeatherError::Transport => 3,
            WeatherError::BadLocationData => 4,
            WeatherError::BadForecastData => 5,
        }
    }

    /// The message reported for this error.
    pub fn message(&self) -> (r: String)
        ensures
            r@ == message_spec(*self),
    {
        match self {
            WeatherError::MissingArgument => String::from_str(
                "ERROR: must supply a latitude/longitude argument (./rainbow \"30.1,-80.2\")",
            ),
            WeatherError::BadCoordinate => String::from_str(
                "ERROR: could not parse the latitude/longitude argument",
            ),
            WeatherError::Transport => String::from_str(
                "ERROR: the weather service could not be reached",
            ),
            WeatherError::BadLocationData => String::from_str(
                "ERROR: unexpected location response shape",
            ),
            WeatherError::BadForecastData => String::from_str(
                "ERROR: unexpected forecast response shape",
            ),
        }
    }
}

/// Whether some position of `s` holds a comma.
pub open spec fn has_comma(s: Seq<char>) -> bool {
    exists|i: int| 0 <= i < s.len() && s[i] == ','
}

/// Whether `i` is the first comma of `s` at or after position `from`.
pub open spec fn first_comma_after(s: Seq<char>, from: int, i: int) -> bool {
    &&& from <= i < s.len()
    &&& s[i] == ','
    &&& forall|j: int| from <= j < i ==> s[j] != ','
}

/// Splits a `"<lat>,<lng>"` argument at its first comma: the first field
/// is everything before it, the second everything after it up to the next
/// comma or the end. An argument without a comma is rejected as a bad
/// coordinate instead of being read past its end.
pub fn split_coordinate(arg: &str) -> (r: Result<(String, String), WeatherError>)
    ensures
        (r is Ok) == has_comma(arg@),
        r is Err ==> r->Err_0 == WeatherError::BadCoordinate,
        forall|i: int|
            first_comma_after(arg@, 0, i) ==> (r is Ok && r->Ok_0.0@ == arg@.subrange(0, i)),
        forall|i: int, j: int|
            #[trigger] first_comma_after(arg@, 0, i) && #[trigger] first_comma_after(arg@, i + 1, j)
                ==> r->Ok_0.1@ == arg@.subrange(i + 1, j),
        forall|i: int|
            first_comma_after(arg@, 0, i) && (forall|j: int|
                i + 1 <= j < arg@.len() ==> arg@[j] != ',') ==> r->Ok_0.1@ == arg@.subrange(
                i + 1,
                arg@.len() as int,
            ),
{
    let n = arg.unicode_len();
    let mut i: usize = 0;
    while i < n
        invariant
            n == arg@.len(),
            i <= n,
            forall|j: int| 0 <= j < i ==> arg@[j] != ',',
        decreases n - i,
    {
        if arg.get_char(i) == ',' {
            let mut j: usize = i + 1;
            while j < n && arg.get_char(j) != ','
                invariant
                    n == arg@.len(),
                    i < n,
                    arg@[i as int] == ',',
                    forall|k: int| 0 <= k < i ==> arg@[k] != ',',
                    i < j <= n,
                    forall|k: int| i < k < j ==> arg@[k] != ',',
                decreases n - j,
            {
                j += 1;
            }
            let lat = arg.substring_char(0, i);
            let lng = arg.substring_char(i + 1, j);
            proof {
                assert forall|i2: int| #[trigger] first_comma_after(arg@, 0, i2)
                    implies i2 == i as int by {
                    if i2 > i as int {
                        assert(arg@[i as int] != ',');
                    }
                }
                if j < n {
                    assert(first_comma_after(arg@, i as int + 1, j as int));
                }
                assert forall|j2: int| #[trigger] first_comma_after(arg@, i as int + 1, j2)
                    implies j2 == j as int by {
                    if j2 > j as int && j < n {
                        assert(arg@[j as int] != ',');
                    }
                }
            }
            return Ok((String::from_str(lat), String::from_str(lng)));
        }
        i += 1;
    }
    proof {
        assert(!has_comma(arg@));
    }
    Err(WeatherError::BadCoordinate)
}

/// Decides what a run does with its optional command-line argument: a
/// missing argument is reported as such before any request is planned, and
/// a present one is split into its two coordinate fields.
pub fn plan_request(arg: Option<&String>) -> (r: Result<(String, String), WeatherError>)
    ensures
        arg is None ==> (r is Err && r->Err_0 == WeatherError::MissingArgument),
        arg is Some ==> {
            &&& (r is Ok) == has_comma(arg->0@)
            &&& (r is Err ==> r->Err_0 == WeatherError::BadCoordinate)
            &&& forall|i: int|
                first_comma_after(arg->0@, 0, i) ==> (r is Ok && r->Ok_0.0@ == arg->0@.subrange(
                    0,
                    i,
                ))
            &&& forall|i: int, j: int|
                #[trigger] first_comma_after(arg->0@, 0, i) && #[trigger] first_comma_after(
                    arg->0@,
                    i + 1,
                    j,
                ) ==> r->Ok_0.1@ == arg->0@.subrange(i + 1, j)
            &&& forall|i: int|
                first_comma_after(arg->0@, 0, i) && (forall|j: int|
                    i + 1 <= j < arg->0@.len() ==> arg->0@[j] != ',') ==> r->Ok_0.1@
                    == arg->0@.subrange(i + 1, arg->0@.len() as int)
        },
{
    match arg {
        None => Err(WeatherError::MissingArgument),
        Some(s) => split_coordinate(s.as_str()),
    }
}

/// Builds the points-endpoint URL for a pair of coordinate texts.
pub fn points_url(lat_text: &str, lng_text: &str) -> (r: String)
    ensures
        r@ == "https://api.weather.gov/points/"@ + lat_text@ + ","@ + lng_text@,
{
    let mut s = String::from_str("https://api.weather.gov/points/");
    s.append(lat_text);
    s.append(",");
    s.append(lng_text);
    s
}

} // verus!
