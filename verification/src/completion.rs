//! Shell completion: which shells are supported and which values the
//! completions offer for the tax number and the endpoint name.
use vstd::prelude::*;
use crate::config::Client;
use crate::error::AppError;
use crate::text::{copy_strings, str_equal};

verus! {

/// A shell that completion scripts can be generated for.
#[derive(Debug, Clone, Copy, PartialEq, Eq, Structural)]
pub enum Shell {
    Bash,
    Zsh,
    Fish,
    PowerShell,
    Elvish,
}

/// The shell called `name`, if it is supported.
pub open spec fn shell_named(name: Seq<char>) -> Option<Shell> {
    if name == "bash"@ {
        Some(Shell::Bash)
    } else if name == "zsh"@ {
        Some(Shell::Zsh)
    } else if name == "fish"@ {
        Some(Shell::Fish)
    } else if name == "powershell"@ {
        Some(Shell::PowerShell)
    } else if name == "elvish"@ {
        Some(Shell::Elvish)
    } else {
        None
    }
}

impl Shell {
    /// The shell called `name` (`bash`, `zsh`, `fish`, `powershell` or
    /// `elvish`); any other name is refused.
    pub fn from_name(name: &str) -> (r: Result<Shell, AppError>)
        ensures
            match shell_named(name@) {
                Some(s) => r matches Ok(x) && x == s,
                None => r matches Err(AppError::UnsupportedShell),
            },
    {
        if str_equal(name, "bash") {
            Ok(Shell::Bash)
        } else if str_equal(name, "zsh") {
            Ok(Shell::Zsh)
        } else if str_equal(name, "fish") {
            Ok(Shell::Fish)
        } else if str_equal(name, "powershell") {
            Ok(Shell::PowerShell)
        } else if str_equal(name, "elvish") {
            Ok(Shell::Elvish)
        } else {
            Err(AppError::UnsupportedShell)
        }
    }
}

/// The values offered for the tax number and for the endpoint name; `None`
/// leaves the argument unrestricted.
#[derive(Debug)]
pub struct CompletionValues {
    pub tax_numbers: Option<Vec<String>>,
    pub fields: Option<Vec<String>>,
}

/// `Some` copy of `v`, or `None` when it is empty.
fn nonempty_copy(v: &Vec<String>) -> (r: Option<Vec<String>>)
    ensures
        r is None <==> v.len() == 0,
        r matches Some(c) ==> c.len() == v.len() && forall|i: int|
            0 <= i < v.len() ==> #[trigger] c@[i]@ == v@[i]@,
{
    if v.len() == 0 {
        None
    } else {
        Some(copy_strings(v))
    }
}

/// The completion values taken from a configuration: its tax numbers and its
/// Credinform endpoint names, each only when the list is not empty.
pub fn completion_values(client: &Client) -> (r: CompletionValues)
    ensures
        r.tax_numbers is None <==> client.data.credinform.tax_numbers.len() == 0,
        r.tax_numbers matches Some(c) ==> c.len() == client.data.credinform.tax_numbers.len()
            && forall|i: int|
            0 <= i < c.len() ==> #[trigger] c@[i]@ == client.data.credinform.tax_numbers@[i]@,
        r.fields is None <==> client.data.credinform.fields.len() == 0,
        r.fields matches Some(c) ==> c.len() == client.data.credinform.fields.len() && forall|
            i: int,
        | 0 <= i < c.len() ==> #[trigger] c@[i]@ == client.data.credinform.fields@[i]@,
{
    CompletionValues {
        tax_numbers: nonempty_copy(client.tax_numbers()),
        fields: nonempty_copy(client.credinform_fields()),
    }
}

} // verus!
