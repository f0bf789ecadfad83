//! The fixed two-element outcome enumeration of a binary market.
use vstd::prelude::*;

verus! {

/// One of the two mutually exclusive results of a binary market.
#[derive(Clone, Copy, Debug, PartialEq, Eq, Structural)]
pub enum Outcome {
    Yes,
    No,
}

/// Position of an outcome in the enumeration: `Yes` is 0, `No` is 1.
pub open spec fn outcome_index(o: Outcome) -> int {
    match o {
        Outcome::Yes => 0,
        Outcome::No => 1,
    }
}

/// The outcome at a stored index, if the index names one.
pub open spec fn outcome_at(i: int) -> Option<Outcome> {
    if i == 0 {
        Some(Outcome::Yes)
    } else if i == 1 {
        Some(Outcome::No)
    } else {
        None
    }
}

/// The label stored beside an outcome's share row.
pub open spec fn outcome_label(o: Outcome) -> Seq<char> {
    match o {
        Outcome::Yes => seq!['Y', 'e', 's'],
        Outcome::No => seq!['N', 'o'],
    }
}

impl Outcome {
    /// The outcome chosen by a yes/no flag: `true` is `Yes`.
    pub fn from_bool(yes: bool) -> (o: Outcome)
        ensures
            o == (if yes { Outcome::Yes } else { Outcome::No }),
    {
        if yes {
            Outcome::Yes
        } else {
            Outcome::No
        }
    }

    /// The stored index of this outcome.
    pub fn index(&self) -> (i: i64)
        ensures
            i == outcome_index(*self),
    {
        match self {
            Outcome::Yes => 0,
            Outcome::No => 1,
        }
    }

    /// The outcome stored under index `i`; `None` when no outcome has that index.
    pub fn from_index(i: i64) -> (o: Option<Outcome>)
        ensures
            o == outcome_at(i as int),
    {
        if i == 0 {
            Some(Outcome::Yes)
        } else if i == 1 {
            Some(Outcome::No)
        } else {
            None
        }
    }

    /// The label of this outcome ("Yes" or "No").
    pub fn label(&self) -> (s: String)
        ensures
            s@ == outcome_label(*self),
    {
        match self {
            Outcome::Yes => {
                let s = "Yes".to_owned();
                proof {
                    reveal_strlit("Yes");
                }
                s
            },
            Outcome::No => {
                let s = "No".to_owned();
                proof {
                    reveal_strlit("No");
                }
                s
            },
        }
    }
}

} // verus!
