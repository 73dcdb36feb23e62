//! cron expression syntax sugar related.
use vstd::prelude::*;
use vstd::string::*;

use std::ops::Deref;

verus! {

// Here, for the convenience of the user to create CandyCronStr,
// it is the internal type of CandyCronStr that from &'static str is changed to String,
// so that the user can construct CandyCronStr according to the indefinite conditions of the runtime.
/// Syntactic sugar enumeration of the corresponding structure instance.
#[derive(Debug, Clone)]
pub struct CandyCronStr(pub String);

impl Deref for CandyCronStr {
    type Target = str;

    /// The expression.
    fn deref(&self) -> (r: &str)
        ensures
            r@ == self.0@,
    {
        self.0.as_str()
    }
}

/// Syntactic sugar for cron expressions.
#[derive(Debug, Copy, Clone, PartialEq, Eq, Structural)]
pub enum CandyCron {
    /// This variant for Secondly.
    Secondly,
    /// This variant for Minutely.
    Minutely,
    /// This variant for Hourly.
    Hourly,
    /// This variant for Daily.
    Daily,
    /// This variant for Weekly.
    Weekly,
    /// This variant for Monthly.
    Monthly,
    /// This variant for Yearly.
    Yearly,
}

/// The expression a candy stands for.
pub open spec fn candy_expression(value: CandyCron) -> Seq<char> {
    match value {
        CandyCron::Secondly => "@secondly"@,
        CandyCron::Minutely => "@minutely"@,
        CandyCron::Hourly => "@hourly"@,
        CandyCron::Daily => "@daily"@,
        CandyCron::Weekly => "@weekly"@,
        CandyCron::Monthly => "@monthly"@,
        CandyCron::Yearly => "@yearly"@,
    }
}

impl From<CandyCron> for CandyCronStr {
    /// The expression a candy stands for.
    fn from(value: CandyCron) -> (r: CandyCronStr)
        ensures
            r.0@ == candy_expression(value),
    {
        match value {
            CandyCron::Secondly => CandyCronStr("@secondly".to_owned()),
            CandyCron::Minutely => CandyCronStr("@minutely".to_owned()),
            CandyCron::Hourly => CandyCronStr("@hourly".to_owned()),
            CandyCron::Daily => CandyCronStr("@daily".to_owned()),
            CandyCron::Weekly => CandyCronStr("@weekly".to_owned()),
            CandyCron::Monthly => CandyCronStr("@monthly".to_owned()),
            CandyCron::Yearly => CandyCronStr("@yearly".to_owned()),
        }
    }
}

impl vstd::std_specs::convert::FromSpecImpl<CandyCron> for CandyCronStr {
    /// What `from` gives is stated on `from` itself (a `String` has no
    /// value to name here).
    open spec fn obeys_from_spec() -> bool {
        false
    }

    open spec fn from_spec(v: CandyCron) -> CandyCronStr {
        vstd::pervasive::arbitrary()
    }
}

///Enumerated values of repeating types.
#[derive(Debug, Copy, Clone)]
pub enum CandyFrequency<T: Into<CandyCronStr>> {
    ///Repeat once.
    Once(T),
    ///Repeat ad infinitum.
    Repeated(T),
    ///Type of countdown.
    CountDown(u32, T),
}

} // verus!
