use vstd::prelude::*;
use crate::text::str_eq;

verus! {

/// The reaction that marks a command as being worked on.
pub const STOPWATCH: &'static str = "\u{23F1}";

/// The reaction that marks a command as done.
pub const SUCCESS: &'static str = "\u{2705}";

/// The reaction that marks a command as failed.
pub const FAILED: &'static str = "\u{274C}";

/// The flag of South Korea.
pub const KO_KR: &'static str = "\u{1F1F0}\u{1F1F7}";

/// The flag of Japan.
pub const JA_JP: &'static str = "\u{1F1EF}\u{1F1F5}";

/// The flag of the United States.
pub const EN_US: &'static str = "\u{1F1FA}\u{1F1F8}";

/// The locale code that a flag emoji stands for, if any.
pub open spec fn locale_of_flag(flag: Seq<char>) -> Option<Seq<char>> {
    if flag == KO_KR@ {
        Some("ko-kr"@)
    } else if flag == JA_JP@ {
        Some("ja-jp"@)
    } else if flag == EN_US@ {
        Some("en-us"@)
    } else {
        None
    }
}

/// The locale code of a flag emoji, or `None` for any other text.
pub fn get_locale_by_flag(flag: &str) -> (r: Option<&'static str>)
    ensures
        match r {
            Some(l) => locale_of_flag(flag@) == Some(l@),
            None => locale_of_flag(flag@) is None,
        },
{
    if str_eq(flag, KO_KR) {
        Some("ko-kr")
    } else if str_eq(flag, JA_JP) {
        Some("ja-jp")
    } else if str_eq(flag, EN_US) {
        Some("en-us")
    } else {
        None
    }
}

} // verus!
