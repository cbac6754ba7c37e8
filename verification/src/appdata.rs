//! The single source of truth: the record of display fields and counters
//! that every component reads and that only the root (or a component method
//! the root delegates to) may write.

use vstd::prelude::*;

verus! {

/// The mathematical value of an [`AppData`] record: the three display
/// strings and the three counters, free of any representation detail.
#[verifier::ext_equal]
pub ghost struct AppView {
    pub title: Seq<char>,
    pub description: Seq<char>,
    pub author: Seq<char>,
    pub counter1: int,
    pub counter2: int,
    pub counter3: int,
}

/// The single writable application record. All mutation happens either
/// directly on a field (by the root) or through one named mutation method of
/// the component that owns the counter; no component keeps a writable copy.
pub struct AppData {
    pub title: String,
    pub description: String,
    pub author: String,
    pub counter1: i32,
    pub counter2: i32,
    pub counter3: i32,
}

impl View for AppData {
    type V = AppView;

    open spec fn view(&self) -> AppView {
        AppView {
            title: self.title@,
            description: self.description@,
            author: self.author@,
            counter1: self.counter1 as int,
            counter2: self.counter2 as int,
            counter3: self.counter3 as int,
        }
    }
}

impl AppData {
    /// The fixed record every run starts from.
    pub open spec fn initial() -> AppView {
        AppView {
            title: "title"@,
            description: "description"@,
            author: "author"@,
            counter1: 0,
            counter2: 0,
            counter3: 0,
        }
    }

    /// Creates the record with its fixed initial literals.
    pub fn new() -> (a: AppData)
        ensures
            a@ == AppData::initial(),
    {
        let a = AppData {
            title: "title".to_owned(),
            description: "description".to_owned(),
            author: "author".to_owned(),
            counter1: 0,
            counter2: 0,
            counter3: 0,
        };
        proof {
            assert(a@ =~= AppData::initial());
        }
        a
    }
}

} // verus!
