//! Names of the environment variables that stand in for options.

use crate::text::replace_char;
use crate::text::to_uppercase;
use crate::text::uppercase_of;
use crate::text::with_replaced;
use vstd::prelude::*;
use vstd::string::StringExecFns;

verus! {

/// What every such variable's name begins with.
pub open spec fn variable_prefix() -> Seq<char> {
    "LIBRESPOT_"@
}

/// The variable's name for an option whose name is already in upper case:
/// the prefix, then the name with each `-` turned into `_`.
pub open spec fn variable_name(upper: Seq<char>) -> Seq<char> {
    variable_prefix() + with_replaced(upper, '-', '_')
}

/// The name of the variable for an option whose name is already in upper
/// case.
pub fn var_of_upper(upper: &str) -> (name: String)
    ensures
        name@ == variable_name(upper@),
{
    let tail = replace_char(upper, '-', '_');
    let name = String::from_str("LIBRESPOT_");
    name.concat(tail.as_str())
}

/// The name of the environment variable that stands in for an option or
/// flag: `foo-bar` is looked up as `LIBRESPOT_FOO_BAR`, so that a variable
/// meant for another program is never taken for an option.
pub fn arg_to_var(arg: &str) -> (name: String)
    ensures
        name@ == variable_name(uppercase_of(arg@)),
{
    let upper = to_uppercase(arg);
    var_of_upper(upper.as_str())
}

} // verus!
