use vstd::prelude::*;

verus! {

/// The severity of a log record.
#[derive(Clone, Copy, PartialEq, Eq, Structural, Debug)]
pub enum Level {
    Error,
    Warn,
    Info,
    Debug,
    Trace,
}

/// The most detailed level shown for the number of `--verbose` flags given.
pub fn verbosity_level(num: u8) -> (r: Level)
    ensures
        num == 0 ==> r == Level::Info,
        num == 1 ==> r == Level::Debug,
        num >= 2 ==> r == Level::Trace,
{
    match num {
        0 => Level::Info,
        1 => Level::Debug,
        _ => Level::Trace,
    }
}

/// The name of a level as the log lines show it.
pub open spec fn level_name(lvl: Level) -> Seq<char> {
    match lvl {
        Level::Error => "Error"@,
        Level::Warn => "Warn"@,
        Level::Info => "Info"@,
        Level::Debug => "Debug"@,
        Level::Trace => "Trace"@,
    }
}

/// The name of a level in title case, to match the other labels of the log.
pub fn prettyprint_level(lvl: Level) -> (r: &'static str)
    ensures
        r@ == level_name(lvl),
{
    match lvl {
        Level::Error => "Error",
        Level::Warn => "Warn",
        Level::Info => "Info",
        Level::Debug => "Debug",
        Level::Trace => "Trace",
    }
}

} // verus!
