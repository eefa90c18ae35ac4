//! The gallery listing: how a page number and a sort name become a query,
//! and how the documents found become the answer.

use vstd::prelude::*;
use bson::Document;
use crate::text::text_equals;

verus! {

/// A stored document as the database hands it back; the gallery carries it
/// through without reading it.
#[verifier::external_type_specification]
#[verifier::external_body]
pub struct ExDocument(bson::Document);

/// The orders that a gallery can be listed in.
#[derive(Debug, Clone, Copy, PartialEq, Eq, Structural)]
pub enum SortOrder {
    New,
    Top,
    Views,
}

/// The fields that a gallery is sorted by.
#[derive(Debug, Clone, Copy, PartialEq, Eq, Structural)]
pub enum SortField {
    Time,
    Likes,
    Views,
}

/// One sort key: a field and a direction (`-1` for descending, `1` for
/// ascending).
#[derive(Debug, Clone, Copy, PartialEq, Eq, Structural)]
pub struct SortKey {
    pub field: SortField,
    pub direction: i32,
}

/// A query for gallery documents: at most `limit` of them, in the order of
/// the sort keys, the first key first.
#[derive(Debug)]
pub struct FindSpec {
    pub limit: i64,
    pub sort: Vec<SortKey>,
}

/// The order that a sort name asks for; an unknown name lists the newest
/// first.
pub open spec fn sort_order_named(name: Seq<char>) -> SortOrder {
    if name == "new"@ {
        SortOrder::New
    } else if name == "top"@ {
        SortOrder::Top
    } else if name == "views"@ {
        SortOrder::Views
    } else {
        SortOrder::New
    }
}

/// Reads a sort name.
pub fn sort_order(name: &str) -> (r: SortOrder)
    ensures
        r == sort_order_named(name@),
{
    if text_equals(name, "new") {
        SortOrder::New
    } else if text_equals(name, "top") {
        SortOrder::Top
    } else if text_equals(name, "views") {
        SortOrder::Views
    } else {
        SortOrder::New
    }
}

/// The document key of a sort field.
pub open spec fn field_key(f: SortField) -> Seq<char> {
    match f {
        SortField::Time => "time"@,
        SortField::Likes => "stats.likes"@,
        SortField::Views => "stats.views"@,
    }
}

impl SortField {
    /// The document key of the field.
    pub fn key(&self) -> (r: &'static str)
        ensures
            r@ == field_key(*self),
    {
        match self {
            SortField::Time => "time",
            SortField::Likes => "stats.likes",
            SortField::Views => "stats.views",
        }
    }
}

/// The sort keys of an order: newest first; or most liked, then newest; or
/// most viewed, then newest.
pub open spec fn sort_keys_of(o: SortOrder) -> Seq<SortKey> {
    match o {
        SortOrder::New => seq![SortKey { field: SortField::Time, direction: -1i32 }],
        SortOrder::Top => seq![
            SortKey { field: SortField::Likes, direction: -1i32 },
            SortKey { field: SortField::Time, direction: -1i32 },
        ],
        SortOrder::Views => seq![
            SortKey { field: SortField::Views, direction: -1i32 },
            SortKey { field: SortField::Time, direction: -1i32 },
        ],
    }
}

/// The sort keys of an order.
pub fn sort_keys(o: SortOrder) -> (r: Vec<SortKey>)
    ensures
        r@ == sort_keys_of(o),
{
    let mut v: Vec<SortKey> = Vec::new();
    match o {
        SortOrder::New => {
            v.push(SortKey { field: SortField::Time, direction: -1 });
        },
        SortOrder::Top => {
            v.push(SortKey { field: SortField::Likes, direction: -1 });
            v.push(SortKey { field: SortField::Time, direction: -1 });
        },
        SortOrder::Views => {
            v.push(SortKey { field: SortField::Views, direction: -1 });
            v.push(SortKey { field: SortField::Time, direction: -1 });
        },
    }
    assert(v@ =~= sort_keys_of(o));
    v
}

/// How many documents a gallery page lists: ten per page number.
pub fn page_amount(page_number: u16) -> (r: u16)
    requires
        page_number * 10 <= u16::MAX,
    ensures
        r == page_number * 10,
{
    page_number * 10
}

/// What a gallery shows of the documents found: nothing where none were
/// found.
pub open spec fn results_shown(found: Seq<Document>) -> Option<Seq<Document>> {
    if found.len() == 0 {
        None
    } else {
        Some(found)
    }
}

/// The documents that a gallery answers with: none where it shows nothing.
pub open spec fn documents_answered(shown: Option<Seq<Document>>) -> Seq<Document> {
    match shown {
        Some(d) => d,
        None => Seq::<Document>::empty(),
    }
}

/// The answer of a gallery is exactly the documents that its query found,
/// also where none were found.
pub proof fn lemma_gallery_answers_what_was_found(found: Seq<Document>)
    ensures
        documents_answered(results_shown(found)) == found,
{
}

/// A gallery listing.
pub struct Gallery {
    show: Option<Vec<Document>>,
    search_filters: Option<Vec<String>>,
    amount: u16,
}

impl Gallery {
    /// The documents that the gallery shows, if any.
    pub closed spec fn shown(&self) -> Option<Seq<Document>> {
        match self.show {
            Some(v) => Some(v@),
            None => None,
        }
    }

    /// Whether the gallery is narrowed by search filters.
    pub closed spec fn filtered(&self) -> bool {
        self.search_filters is Some
    }

    /// How many documents the gallery lists at most.
    pub closed spec fn size(&self) -> u16 {
        self.amount
    }

    /// An empty gallery of at most `amount` documents, without filters.
    pub fn new(amount: u16) -> (r: Gallery)
        ensures
            r.shown() is None,
            !r.filtered(),
            r.size() == amount,
    {
        Gallery { show: None, search_filters: None, amount }
    }

    /// The query that fills the gallery for a sort name.
    pub fn find_spec(&self, sort: &str) -> (r: FindSpec)
        ensures
            r.limit == self.size() as i64,
            r.sort@ == sort_keys_of(sort_order_named(sort@)),
    {
        FindSpec { limit: self.amount as i64, sort: sort_keys(sort_order(sort)) }
    }

    /// Takes in the documents that the query found.
    pub fn show_results(&mut self, found: Vec<Document>)
        ensures
            final(self).shown() == results_shown(found@),
            final(self).filtered() == old(self).filtered(),
            final(self).size() == old(self).size(),
    {
        if found.len() == 0 {
            self.show = None;
        } else {
            self.show = Some(found);
        }
    }

    /// The documents that the gallery answers with.
    pub fn into_documents(self) -> (r: Vec<Document>)
        ensures
            r@ == documents_answered(self.shown()),
    {
        match self.show {
            Some(d) => d,
            None => Vec::new(),
        }
    }
}

} // verus!
