use vstd::prelude::*;

use crate::text::str_eq;

verus! {

/// The operator's three choices once a command has been presented.
#[derive(Clone, Copy, Debug, PartialEq, Eq, Structural)]
pub enum UserOption {
    Run,
    Revise,
    Cancel,
}

impl UserOption {
    /// The choice behind one menu entry, `None` for an unknown entry.
    pub fn from_str(s: &str) -> (r: Option<UserOption>)
        ensures
            r == (if s@ == "✅ Run this command"@ {
                Some(UserOption::Run)
            } else if s@ == "📝 Revise query"@ {
                Some(UserOption::Revise)
            } else if s@ == "❌ Cancel"@ {
                Some(UserOption::Cancel)
            } else {
                None::<UserOption>
            }),
    {
        if str_eq(s, "✅ Run this command") {
            Some(UserOption::Run)
        } else if str_eq(s, "📝 Revise query") {
            Some(UserOption::Revise)
        } else if str_eq(s, "❌ Cancel") {
            Some(UserOption::Cancel)
        } else {
            None
        }
    }

    /// The menu entries, in the order they are offered.
    pub fn to_vec() -> (r: Vec<&'static str>)
        ensures
            r@.len() == 3,
            r@[0]@ == "✅ Run this command"@,
            r@[1]@ == "📝 Revise query"@,
            r@[2]@ == "❌ Cancel"@,
    {
        let mut v: Vec<&'static str> = Vec::new();
        v.push("✅ Run this command");
        v.push("📝 Revise query");
        v.push("❌ Cancel");
        v
    }
}

} // verus!
