//! What is reported of a bucket.

use vstd::prelude::*;

verus! {

/// A bucket as the account lists it.
#[derive(Debug, PartialEq, Eq)]
pub struct BucketInfo {
    pub name: String,
    /// When the bucket was created, in seconds since the epoch.
    pub created_at: Option<i64>,
    pub region: Option<String>,
}

/// The mathematical value of a [`BucketInfo`].
pub struct BucketInfoView {
    pub name: Seq<char>,
    pub created_at: Option<i64>,
    pub region: Option<Seq<char>>,
}

impl View for BucketInfo {
    type V = BucketInfoView;

    open spec fn view(&self) -> BucketInfoView {
        BucketInfoView {
            name: self.name@,
            created_at: self.created_at,
            region: self.region.deep_view(),
        }
    }
}

impl DeepView for BucketInfo {
    type V = BucketInfoView;

    open spec fn deep_view(&self) -> BucketInfoView {
        self@
    }
}

impl Clone for BucketInfo {
    fn clone(&self) -> (copy: Self)
        ensures
            copy@ == self@,
    {
        BucketInfo {
            name: self.name.clone(),
            created_at: self.created_at,
            region: self.region.clone(),
        }
    }
}

/// How many objects a bucket holds and how many bytes they add up to,
/// counted exactly.
#[derive(Debug, PartialEq, Eq)]
pub struct BucketStats {
    pub name: String,
    pub object_count: u64,
    pub total_size: u64,
}

/// The mathematical value of a [`BucketStats`].
pub struct BucketStatsView {
    pub name: Seq<char>,
    pub object_count: u64,
    pub total_size: u64,
}

impl View for BucketStats {
    type V = BucketStatsView;

    open spec fn view(&self) -> BucketStatsView {
        BucketStatsView {
            name: self.name@,
            object_count: self.object_count,
            total_size: self.total_size,
        }
    }
}

impl DeepView for BucketStats {
    type V = BucketStatsView;

    open spec fn deep_view(&self) -> BucketStatsView {
        self@
    }
}

impl Clone for BucketStats {
    fn clone(&self) -> (copy: Self)
        ensures
            copy@ == self@,
    {
        BucketStats {
            name: self.name.clone(),
            object_count: self.object_count,
            total_size: self.total_size,
        }
    }
}

/// One bucket as the administrative client lists it.
#[derive(Debug, PartialEq, Eq)]
pub struct BucketEntry {
    pub name: Option<String>,
    /// When the bucket was created, in seconds since the epoch.
    pub creation_date: Option<i64>,
}

/// The mathematical value of a [`BucketEntry`].
pub struct BucketEntryView {
    pub name: Option<Seq<char>>,
    pub creation_date: Option<i64>,
}

impl View for BucketEntry {
    type V = BucketEntryView;

    open spec fn view(&self) -> BucketEntryView {
        BucketEntryView { name: self.name.deep_view(), creation_date: self.creation_date }
    }
}

impl DeepView for BucketEntry {
    type V = BucketEntryView;

    open spec fn deep_view(&self) -> BucketEntryView {
        self@
    }
}

/// The bucket that a listed entry describes: a missing name is empty, and
/// no region is known from a listing.
pub open spec fn bucket_of(entry: BucketEntryView) -> BucketInfoView {
    BucketInfoView {
        name: match entry.name {
            Some(name) => name,
            None => Seq::empty(),
        },
        created_at: entry.creation_date,
        region: None,
    }
}

impl BucketInfo {
    /// The bucket that a listed entry describes.
    pub fn describe(entry: BucketEntry) -> (bucket: Self)
        ensures
            bucket@ == bucket_of(entry@),
    {
        BucketInfo {
            name: match entry.name {
                Some(name) => name,
                None => String::new(),
            },
            created_at: entry.creation_date,
            region: None,
        }
    }
}

} // verus!
