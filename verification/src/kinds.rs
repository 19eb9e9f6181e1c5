//! The two closed wire vocabularies of the protocol: an item's category and
//! its activity status. Both travel as free-form strings on the bus, so each
//! enum has a total parser with a documented fallback — an unrecognized
//! category reads as `Unknown`, an unrecognized status as `Passive` — and an
//! exact printer.

use vstd::prelude::*;

use crate::text::str_eq;

verus! {

/// Classification of a tray item.
#[derive(Debug, Copy, Clone, PartialEq, Eq, Structural)]
pub enum Category {
    ApplicationStatus,
    Communications,
    SystemServices,
    Hardware,
    Unknown,
}

/// The category a wire string denotes; anything unrecognized is `Unknown`,
/// never an error.
pub open spec fn spec_category_from_str(s: Seq<char>) -> Category {
    if s == "ApplicationStatus"@ {
        Category::ApplicationStatus
    } else if s == "Communications"@ {
        Category::Communications
    } else if s == "SystemServices"@ {
        Category::SystemServices
    } else if s == "Hardware"@ {
        Category::Hardware
    } else {
        Category::Unknown
    }
}

/// The wire string of a category.
pub open spec fn spec_category_str(c: Category) -> Seq<char> {
    match c {
        Category::ApplicationStatus => "ApplicationStatus"@,
        Category::Communications => "Communications"@,
        Category::SystemServices => "SystemServices"@,
        Category::Hardware => "Hardware"@,
        Category::Unknown => "Unknown"@,
    }
}

impl Category {
    /// Read a category off the wire; unrecognized strings fall back to
    /// `Unknown`.
    pub fn from_str(s: &str) -> (r: Self)
        ensures
            r == spec_category_from_str(s@),
    {
        if str_eq(s, "ApplicationStatus") {
            Category::ApplicationStatus
        } else if str_eq(s, "Communications") {
            Category::Communications
        } else if str_eq(s, "SystemServices") {
            Category::SystemServices
        } else if str_eq(s, "Hardware") {
            Category::Hardware
        } else {
            Category::Unknown
        }
    }

    /// The wire string of this category.
    pub fn to_str(&self) -> (r: &str)
        ensures
            r@ == spec_category_str(*self),
    {
        match self {
            Category::ApplicationStatus => "ApplicationStatus",
            Category::Communications => "Communications",
            Category::SystemServices => "SystemServices",
            Category::Hardware => "Hardware",
            Category::Unknown => "Unknown",
        }
    }

    /// The wire string of this category, as an owned value.
    pub fn to_string(&self) -> (r: String)
        ensures
            r@ == spec_category_str(*self),
    {
        self.to_str().to_owned()
    }
}

/// Activity state of a tray item.
#[derive(Debug, Copy, Clone, PartialEq, Eq, Structural)]
pub enum Status {
    Passive,
    Active,
    NeedsAttention,
}

/// The status a wire string denotes; anything unrecognized is `Passive`,
/// never an error.
pub open spec fn spec_status_from_str(s: Seq<char>) -> Status {
    if s == "Passive"@ {
        Status::Passive
    } else if s == "Active"@ {
        Status::Active
    } else if s == "NeedsAttention"@ {
        Status::NeedsAttention
    } else {
        Status::Passive
    }
}

/// The wire string of a status.
pub open spec fn spec_status_str(s: Status) -> Seq<char> {
    match s {
        Status::Passive => "Passive"@,
        Status::Active => "Active"@,
        Status::NeedsAttention => "NeedsAttention"@,
    }
}

impl Status {
    /// Read a status off the wire; unrecognized strings fall back to
    /// `Passive`.
    pub fn from_str(s: &str) -> (r: Self)
        ensures
            r == spec_status_from_str(s@),
    {
        if str_eq(s, "Passive") {
            Status::Passive
        } else if str_eq(s, "Active") {
            Status::Active
        } else if str_eq(s, "NeedsAttention") {
            Status::NeedsAttention
        } else {
            Status::Passive
        }
    }

    /// The wire string of this status.
    pub fn to_str(&self) -> (r: &str)
        ensures
            r@ == spec_status_str(*self),
    {
        match self {
            Status::Passive => "Passive",
            Status::Active => "Active",
            Status::NeedsAttention => "NeedsAttention",
        }
    }

    /// The wire string of this status, as an owned value.
    pub fn to_string(&self) -> (r: String)
        ensures
            r@ == spec_status_str(*self),
    {
        self.to_str().to_owned()
    }
}

/// Printing a category and reading it back yields the same category: the
/// five wire strings are pairwise distinct.
pub proof fn lemma_category_round_trip(c: Category)
    ensures
        spec_category_from_str(spec_category_str(c)) == c,
{
    broadcast use vstd::string::group_string_axioms;

    reveal_strlit("ApplicationStatus");
    reveal_strlit("Communications");
    reveal_strlit("SystemServices");
    reveal_strlit("Hardware");
    reveal_strlit("Unknown");
    assert("ApplicationStatus"@.len() == 17);
    assert("Communications"@.len() == 14);
    assert("SystemServices"@.len() == 14);
    assert("Hardware"@.len() == 8);
    assert("Unknown"@.len() == 7);
    assert("SystemServices"@[0] != "Communications"@[0]);
}

/// Printing a status and reading it back yields the same status: the three
/// wire strings are pairwise distinct.
pub proof fn lemma_status_round_trip(s: Status)
    ensures
        spec_status_from_str(spec_status_str(s)) == s,
{
    broadcast use vstd::string::group_string_axioms;

    reveal_strlit("Passive");
    reveal_strlit("Active");
    reveal_strlit("NeedsAttention");
    assert("Passive"@.len() == 7);
    assert("Active"@.len() == 6);
    assert("NeedsAttention"@.len() == 14);
}

} // verus!
