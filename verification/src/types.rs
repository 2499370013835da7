//! Plain market-data vocabulary: the kinds of historical series, the known
//! ETF symbols, the resolution of a data point, option sides, and the
//! settings of a training page.

use vstd::prelude::*;
use vstd::string::*;

verus! {

/// A kind of historical series, with its from- and to-date strings.
#[derive(Debug, Clone, PartialEq)]
pub enum TickerDatatype {
    HistPrice(String, String),
    HistVolume(String, String),
    HistOHCL(String, String),
}

/// The ETF symbols the engine knows.
#[derive(Debug, Clone, Copy, PartialEq, Eq, Structural)]
pub enum Etf {
    SPY,
    QQQ,
    QQQM,
    DIA,
}

/// Compares two strings character by character.
fn str_eq(a: &str, b: &str) -> (r: bool)
    ensures
        r == (a@ == b@),
{
    let a_len = a.unicode_len();
    let b_len = b.unicode_len();
    if a_len != b_len {
        return false;
    }
    let mut i: usize = 0;
    while i < a_len
        invariant
            i <= a_len,
            a_len == a@.len(),
            b_len == b@.len(),
            a_len == b_len,
            forall|j: int| 0 <= j < i ==> a@[j] == b@[j],
        decreases a_len - i,
    {
        let ca = a.get_char(i);
        let cb = b.get_char(i);
        if ca != cb {
            return false;
        }
        i = i + 1;
    }
    proof {
        assert(a@ =~= b@);
    }
    true
}

impl Etf {
    /// Parses an ETF symbol; any other string is rejected.
    pub fn from_str(s: &str) -> (r: Result<Etf, ()>)
        ensures
            r == (if s@ == "SPY"@ {
                Ok::<Etf, ()>(Etf::SPY)
            } else if s@ == "QQQ"@ {
                Ok::<Etf, ()>(Etf::QQQ)
            } else if s@ == "QQQM"@ {
                Ok::<Etf, ()>(Etf::QQQM)
            } else if s@ == "DIA"@ {
                Ok::<Etf, ()>(Etf::DIA)
            } else {
                Err::<Etf, ()>(())
            }),
    {
        if str_eq(s, "SPY") {
            Ok(Etf::SPY)
        } else if str_eq(s, "QQQ") {
            Ok(Etf::QQQ)
        } else if str_eq(s, "QQQM") {
            Ok(Etf::QQQM)
        } else if str_eq(s, "DIA") {
            Ok(Etf::DIA)
        } else {
            Err(())
        }
    }
}

/// The decimal digit characters, indexed 0 through 9.
pub open spec fn digit_char(d: int) -> char {
    if d == 0 {
        '0'
    } else if d == 1 {
        '1'
    } else if d == 2 {
        '2'
    } else if d == 3 {
        '3'
    } else if d == 4 {
        '4'
    } else if d == 5 {
        '5'
    } else if d == 6 {
        '6'
    } else if d == 7 {
        '7'
    } else if d == 8 {
        '8'
    } else {
        '9'
    }
}

/// The decimal rendering of a value below one hundred: one digit, or two.
pub open spec fn two_digit_seq(v: int) -> Seq<char> {
    if v < 10 {
        seq![digit_char(v)]
    } else {
        seq![digit_char(v / 10), digit_char(v % 10)]
    }
}

/// A value clamped into a closed interval.
pub open spec fn clamp_spec(v: int, lo: int, hi: int) -> int {
    if v < lo {
        lo
    } else if v > hi {
        hi
    } else {
        v
    }
}

/// The single-character string of a decimal digit.
fn digit_str(d: u32) -> (r: &'static str)
    requires
        d < 10,
    ensures
        r@ == seq![digit_char(d as int)],
{
    proof {
        reveal_strlit("0");
        reveal_strlit("1");
        reveal_strlit("2");
        reveal_strlit("3");
        reveal_strlit("4");
        reveal_strlit("5");
        reveal_strlit("6");
        reveal_strlit("7");
        reveal_strlit("8");
        reveal_strlit("9");
    }
    let r: &'static str = if d == 0 {
        "0"
    } else if d == 1 {
        "1"
    } else if d == 2 {
        "2"
    } else if d == 3 {
        "3"
    } else if d == 4 {
        "4"
    } else if d == 5 {
        "5"
    } else if d == 6 {
        "6"
    } else if d == 7 {
        "7"
    } else if d == 8 {
        "8"
    } else {
        "9"
    };
    proof {
        assert(r@ =~= seq![digit_char(d as int)]);
    }
    r
}

/// The decimal string of a value below one hundred.
fn two_digit_string(v: u32) -> (r: String)
    requires
        v < 100,
    ensures
        r@ == two_digit_seq(v as int),
{
    if v < 10 {
        let s = String::from_str(digit_str(v));
        proof {
            assert(s@ =~= two_digit_seq(v as int));
        }
        s
    } else {
        let s = String::from_str(digit_str(v / 10)).concat(digit_str(v % 10));
        proof {
            assert(s@ =~= two_digit_seq(v as int));
        }
        s
    }
}

/// The resolution of one data point of a series.
#[derive(Debug, Clone, Copy, PartialEq, Eq, Structural)]
pub enum PointTimeDelta {
    Minute(i32),
    Hour(i32),
    Day,
    Week,
    Month(i32),
}

impl PointTimeDelta {
    /// The wire form of the resolution: minutes are clamped to 1 through
    /// 59, hours to 1 through 23, and a month count must be one that the
    /// data source offers, else it falls back to 1.
    pub open spec fn rendered(self) -> Seq<char> {
        match self {
            PointTimeDelta::Minute(v) => two_digit_seq(clamp_spec(v as int, 1, 59)) + "Min"@,
            PointTimeDelta::Hour(v) => two_digit_seq(clamp_spec(v as int, 1, 23)) + "H"@,
            PointTimeDelta::Day => "1Day"@,
            PointTimeDelta::Week => "1Week"@,
            PointTimeDelta::Month(v) => two_digit_seq(
                if v == 1 || v == 2 || v == 3 || v == 4 || v == 6 || v == 12 {
                    v as int
                } else {
                    1
                },
            ) + "Month"@,
        }
    }

    /// Renders the resolution in its wire form.
    pub fn to_string(&self) -> (r: String)
        ensures
            r@ == self.rendered(),
    {
        match self {
            PointTimeDelta::Minute(v) => {
                let c: i32 = if *v < 1 {
                    1
                } else if *v > 59 {
                    59
                } else {
                    *v
                };
                two_digit_string(c as u32).concat("Min")
            },
            PointTimeDelta::Hour(v) => {
                let c: i32 = if *v < 1 {
                    1
                } else if *v > 23 {
                    23
                } else {
                    *v
                };
                two_digit_string(c as u32).concat("H")
            },
            PointTimeDelta::Day => String::from_str("1Day"),
            PointTimeDelta::Week => String::from_str("1Week"),
            PointTimeDelta::Month(v) => {
                let c: i32 = if *v == 1 || *v == 2 || *v == 3 || *v == 4 || *v == 6 || *v == 12 {
                    *v
                } else {
                    1
                };
                two_digit_string(c as u32).concat("Month")
            },
        }
    }
}

/// The side of a stock option.
#[derive(Debug, Clone, Copy, PartialEq, Eq, Structural, Default)]
pub enum OptionType {
    #[default]
    Call,
    Put,
}

/// The switches of a train-and-test run.
#[derive(Debug, Clone, Copy, PartialEq, Eq, Structural)]
pub struct TrainTestPageState {
    pub use_stored_data: bool,
    pub train_time_series_corr: bool,
    pub get_sma: bool,
}

impl Default for TrainTestPageState {
    /// Every switch starts off.
    fn default() -> (r: Self)
        ensures
            !r.use_stored_data,
            !r.train_time_series_corr,
            !r.get_sma,
    {
        TrainTestPageState {
            use_stored_data: false,
            train_time_series_corr: false,
            get_sma: false,
        }
    }
}

} // verus!
