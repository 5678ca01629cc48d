use vstd::prelude::*;
use crate::time::Timestamp;

verus! {

/// One stored link: the id that the store gave it, its display title, the URL
/// and its publication instant.
#[derive(Debug)]
pub struct LinkRecord {
    pub id: i64,
    pub title: String,
    pub link: String,
    pub pub_date: Timestamp,
}

/// What a client submits: a title, a URL and, optionally, a publication
/// instant.
#[derive(Debug)]
pub struct Submission {
    pub title: String,
    pub link: String,
    pub pub_date: Option<Timestamp>,
}

/// A checked submission, ready for the store: the URL is valid and the
/// publication instant is fixed.
#[derive(Debug)]
pub struct NewRecord {
    pub title: String,
    pub link: String,
    pub pub_date: Timestamp,
}

impl LinkRecord {
    /// The record's order key: newer records sort first, and among records
    /// with one instant the higher id does.
    pub open spec fn is_newer(self, other: LinkRecord) -> bool {
        self.pub_date.is_after(other.pub_date) || (self.pub_date == other.pub_date && self.id
            > other.id)
    }

    pub fn newer(&self, other: &LinkRecord) -> (r: bool)
        ensures
            r == self.is_newer(*other),
    {
        self.pub_date.after(&other.pub_date) || (self.pub_date == other.pub_date && self.id
            > other.id)
    }

    pub fn duplicate(&self) -> (r: LinkRecord)
        ensures
            r == *self,
    {
        LinkRecord {
            id: self.id,
            title: self.title.clone(),
            link: self.link.clone(),
            pub_date: self.pub_date,
        }
    }
}

} // verus!
