//! A fluent builder for structured query descriptors, together with a
//! verified serializer that renders a descriptor into a compact,
//! semicolon-delimited textual clause format.
//!
//! A [`Query`] is assembled through chained configuration calls and then
//! rendered by [`Query::serialize`]. The exact output text (clause order,
//! punctuation, absence of separating whitespace) is pinned down by the
//! specification function [`spec_serialize`].
use vstd::prelude::*;

pub mod laws;
pub mod render;
pub mod text;

verus! {

/// Field names selected by a query, in insertion order.
pub type Fields = Vec<String>;

/// Field names excluded by a query, in insertion order.
pub type Exclude = Vec<String>;

/// A result-count bound.
pub type Limit = u128;

/// A skip count.
pub type Offset = u128;

/// A raw filter expression, stored and emitted verbatim.
pub type WhereRaw = String;

/// Direction of a sort clause.
#[derive(Debug)]
pub enum SortOrder {
    Ascending,
    Descending,
}

impl Default for SortOrder {
    /// The direction defaults to ascending.
    fn default() -> (r: Self)
        ensures
            r == SortOrder::Ascending,
    {
        SortOrder::Ascending
    }
}

/// A sort clause: a field name plus a direction.
#[derive(Debug)]
pub struct Sort {
    pub field: String,
    pub direction: SortOrder,
}

/// Mathematical model of a [`Sort`] value.
#[verifier::ext_equal]
pub ghost struct SortModel {
    pub field: Seq<char>,
    pub direction: SortOrder,
}

impl View for Sort {
    type V = SortModel;

    open spec fn view(&self) -> SortModel {
        SortModel { field: self.field@, direction: self.direction }
    }
}

impl Default for Sort {
    /// An empty field name sorted in the default (ascending) direction.
    fn default() -> (r: Self)
        ensures
            r@ == (SortModel { field: Seq::<char>::empty(), direction: SortOrder::Ascending }),
    {
        Sort { field: String::new(), direction: SortOrder::Ascending }
    }
}

/// A search clause: free query text, optionally scoped to one column.
#[derive(Debug)]
pub struct Search {
    pub column: Option<String>,
    pub query: String,
}

/// Mathematical model of a [`Search`] value.
#[verifier::ext_equal]
pub ghost struct SearchModel {
    pub column: Option<Seq<char>>,
    pub query: Seq<char>,
}

impl View for Search {
    type V = SearchModel;

    open spec fn view(&self) -> SearchModel {
        SearchModel { column: self.column.deep_view(), query: self.query@ }
    }
}

impl Default for Search {
    /// No column and empty query text.
    fn default() -> (r: Self)
        ensures
            r@ == (SearchModel { column: None, query: Seq::<char>::empty() }),
    {
        Search { column: None, query: String::new() }
    }
}

/// A query descriptor: which fields to select or exclude, pagination
/// bounds, an optional verbatim filter, and optional sort and search
/// clauses.
#[derive(Debug)]
pub struct Query {
    pub fields: Fields,
    pub exclude: Exclude,
    pub limit: Option<Limit>,
    pub offset: Option<Offset>,
    pub where_raw: Option<WhereRaw>,
    pub sort: Option<Sort>,
    pub search: Option<Search>,
}

/// Mathematical model of a [`Query`] value.
#[verifier::ext_equal]
pub ghost struct QueryModel {
    pub fields: Seq<Seq<char>>,
    pub exclude: Seq<Seq<char>>,
    pub limit: Option<u128>,
    pub offset: Option<u128>,
    pub where_raw: Option<Seq<char>>,
    pub sort: Option<SortModel>,
    pub search: Option<SearchModel>,
}

/// The model of an optional [`Sort`] value.
pub open spec fn opt_sort_model(s: Option<Sort>) -> Option<SortModel> {
    match s {
        Some(x) => Some(x@),
        None => None,
    }
}

/// The model of an optional [`Search`] value.
pub open spec fn opt_search_model(s: Option<Search>) -> Option<SearchModel> {
    match s {
        Some(x) => Some(x@),
        None => None,
    }
}

impl View for Query {
    type V = QueryModel;

    open spec fn view(&self) -> QueryModel {
        QueryModel {
            fields: self.fields.deep_view(),
            exclude: self.exclude.deep_view(),
            limit: self.limit,
            offset: self.offset,
            where_raw: self.where_raw.deep_view(),
            sort: opt_sort_model(self.sort),
            search: opt_search_model(self.search),
        }
    }
}

/// The model of a query with every optional component absent and both
/// sequences empty.
pub open spec fn empty_query_model() -> QueryModel {
    QueryModel {
        fields: Seq::empty(),
        exclude: Seq::empty(),
        limit: None,
        offset: None,
        where_raw: None,
        sort: None,
        search: None,
    }
}

impl Default for Query {
    /// All optional components absent, both sequences empty.
    fn default() -> (r: Self)
        ensures
            r@ == empty_query_model(),
    {
        let q = Query {
            fields: Vec::new(),
            exclude: Vec::new(),
            limit: None,
            offset: None,
            where_raw: None,
            sort: None,
            search: None,
        };
        proof {
            assert(q@ =~~= empty_query_model());
        }
        q
    }
}

/// `m` with one more selected field appended.
pub open spec fn with_field(m: QueryModel, field: Seq<char>) -> QueryModel {
    QueryModel { fields: m.fields.push(field), ..m }
}

/// `m` with one more excluded field appended.
pub open spec fn with_exclude(m: QueryModel, field: Seq<char>) -> QueryModel {
    QueryModel { exclude: m.exclude.push(field), ..m }
}

/// `m` with its limit overwritten.
pub open spec fn with_limit(m: QueryModel, new_limit: u128) -> QueryModel {
    QueryModel { limit: Some(new_limit), ..m }
}

/// `m` with its offset overwritten.
pub open spec fn with_offset(m: QueryModel, new_offset: u128) -> QueryModel {
    QueryModel { offset: Some(new_offset), ..m }
}

/// `m` with its raw filter expression overwritten.
pub open spec fn with_where(m: QueryModel, condition: Seq<char>) -> QueryModel {
    QueryModel { where_raw: Some(condition), ..m }
}

/// `m` with its sort clause overwritten.
pub open spec fn with_sort(m: QueryModel, sort: SortModel) -> QueryModel {
    QueryModel { sort: Some(sort), ..m }
}

/// `m` with its search clause overwritten.
pub open spec fn with_search(m: QueryModel, search: SearchModel) -> QueryModel {
    QueryModel { search: Some(search), ..m }
}

impl Query {
    /// Produces an empty query: all optional components absent, all
    /// sequences empty.
    #[allow(non_snake_case)]
    pub fn New() -> (r: Self)
        ensures
            r@ == empty_query_model(),
    {
        Self::default()
    }

    /// Appends a field name to the selected fields, preserving order. No
    /// deduplication is performed and any name (the empty string included)
    /// is accepted as-is.
    pub fn field(self, field: &str) -> (r: Self)
        ensures
            r@ == with_field(self@, field@),
    {
        let ghost m = self@;
        let mut q = self;
        q.fields.push(field.to_owned());
        proof {
            assert(q@ =~~= with_field(m, field@));
        }
        q
    }

    /// Appends a field name to the excluded fields, preserving order. No
    /// deduplication is performed and any name is accepted as-is.
    pub fn exclude(self, exclude_field: &str) -> (r: Self)
        ensures
            r@ == with_exclude(self@, exclude_field@),
    {
        let ghost m = self@;
        let mut q = self;
        q.exclude.push(exclude_field.to_owned());
        proof {
            assert(q@ =~~= with_exclude(m, exclude_field@));
        }
        q
    }

    /// Overwrites the limit. A later call replaces an earlier value.
    pub fn limit(self, new_limit: u128) -> (r: Self)
        ensures
            r@ == with_limit(self@, new_limit),
    {
        let ghost m = self@;
        let mut q = self;
        q.limit = Some(new_limit);
        proof {
            assert(q@ =~~= with_limit(m, new_limit));
        }
        q
    }

    /// Overwrites the offset. A later call replaces an earlier value.
    pub fn offset(self, new_offset: u128) -> (r: Self)
        ensures
            r@ == with_offset(self@, new_offset),
    {
        let ghost m = self@;
        let mut q = self;
        q.offset = Some(new_offset);
        proof {
            assert(q@ =~~= with_offset(m, new_offset));
        }
        q
    }

    /// Overwrites the raw filter expression. The text is stored verbatim,
    /// with no escaping or validation, and a later call replaces an
    /// earlier value.
    pub fn add_where(self, condition: &str) -> (r: Self)
        ensures
            r@ == with_where(self@, condition@),
    {
        let ghost m = self@;
        let mut q = self;
        q.where_raw = Some(condition.to_owned());
        proof {
            assert(q@ =~~= with_where(m, condition@));
        }
        q
    }

    /// Overwrites the sort clause. A later call replaces an earlier value.
    pub fn sort(self, sort: Sort) -> (r: Self)
        ensures
            r@ == with_sort(self@, sort@),
    {
        let ghost m = self@;
        let ghost sv = sort@;
        let mut q = self;
        q.sort = Some(sort);
        proof {
            assert(q@ =~~= with_sort(m, sv));
        }
        q
    }

    /// Overwrites the search clause. A later call replaces an earlier
    /// value.
    pub fn search(self, search: Search) -> (r: Self)
        ensures
            r@ == with_search(self@, search@),
    {
        let ghost m = self@;
        let ghost sv = search@;
        let mut q = self;
        q.search = Some(search);
        proof {
            assert(q@ =~~= with_search(m, sv));
        }
        q
    }
}

} // verus!
