use vstd::prelude::*;

verus! {

/// The operation an authorization token is issued for.
#[derive(PartialEq, Eq, Structural, Clone, Copy, Debug)]
pub enum Action {
    Upload,
    Has,
    Get,
    List,
    Delete,
}

/// The action that a tag value names, if it names one.
pub open spec fn action_named(s: Seq<char>) -> Option<Action> {
    if s == "upload"@ {
        Some(Action::Upload)
    } else if s == "has"@ {
        Some(Action::Has)
    } else if s == "get"@ {
        Some(Action::Get)
    } else if s == "list"@ {
        Some(Action::List)
    } else if s == "delete"@ {
        Some(Action::Delete)
    } else {
        None
    }
}

impl Action {
    /// Reads an action from its lower-case name.
    pub fn parse(input: &str) -> (r: Option<Action>)
        ensures
            r == action_named(input@),
    {
        let s = input.to_owned();
        if s == "upload".to_owned() {
            Some(Action::Upload)
        } else if s == "has".to_owned() {
            Some(Action::Has)
        } else if s == "get".to_owned() {
            Some(Action::Get)
        } else if s == "list".to_owned() {
            Some(Action::List)
        } else if s == "delete".to_owned() {
            Some(Action::Delete)
        } else {
            None
        }
    }
}

impl std::str::FromStr for Action {
    type Err = String;

    fn from_str(input: &str) -> (r: Result<Action, String>)
        ensures
            match action_named(input@) {
                Some(a) => r == Ok::<Action, String>(a),
                None => r matches Err(m) && m@ == "invalid enum variant"@,
            },
    {
        match Action::parse(input) {
            Some(a) => Ok(a),
            None => Err("invalid enum variant".to_owned()),
        }
    }
}

} // verus!
